use krunvm::balloon::{interpret_balloon_stats, reply_failure, BalloonReply};
use krunvm::buildah::{
    get_buildah_args, get_buildah_args_hosted, install_prefix, with_operand, BuildahCommand,
};
use krunvm::capability::{
    format_cap_list, normalize_capability, valid_capability_names, validate_capabilities,
    validate_capability,
};
use krunvm::commands::balloon::{stats_report, BalloonCmd};
use krunvm::commands::changevm::ChangeVmCmd;
use krunvm::commands::list::{map_debug, vm_summary_lines};
use krunvm::commands::create::{check_mac_address, join_path, resolv_conf_text, CreateCmd};
use krunvm::commands::start::{
    balloon_initial_pages, capdrop_script, plan_vm_exec, ExecSetup, NetSetup, StartCmd,
};
use krunvm::commands::start_macos::{
    hosted_launch, mount_wrapper, resolve_oci_cmd_from_config, virtiofs_shares,
};
use krunvm::config::{KrunvmConfig, VmConfig};
use krunvm::pairs::{PathPair, PortPair};
use krunvm::strmap::StringMap;

fn vm(name: &str) -> VmConfig {
    VmConfig {
        name: name.to_string(),
        cpus: 2,
        mem: 1024,
        dns: "1.1.1.1".to_string(),
        container: format!("{name}-working-container"),
        workdir: String::new(),
        mapped_volumes: StringMap::new(),
        mapped_ports: StringMap::new(),
        net_socket: None,
        mac_address: None,
        rootfs_ro: false,
        cap_drop: Vec::new(),
        balloon_target_mb: None,
        control_socket: None,
    }
}

fn config(names: &[&str]) -> KrunvmConfig {
    let mut map = StringMap::new();
    for n in names {
        map.insert(n.to_string(), vm(n));
    }
    KrunvmConfig {
        default_cpus: 2,
        default_mem: 1024,
        default_dns: "1.1.1.1".to_string(),
        storage_volume: "/Volumes/krunvm".to_string(),
        vmconfig_map: map,
    }
}

fn change(name: &str) -> ChangeVmCmd {
    ChangeVmCmd {
        name: name.to_string(),
        new_name: None,
        cpus: None,
        mem: None,
        workdir: None,
        remove_volumes: false,
        volumes: Vec::new(),
        remove_ports: false,
        ports: Vec::new(),
        rootfs_ro: false,
        remove_rootfs_ro: false,
        remove_cap_drop: false,
        cap_drop: Vec::new(),
    }
}

fn create(image: &str) -> CreateCmd {
    CreateCmd {
        image: image.to_string(),
        name: None,
        cpus: None,
        mem: None,
        dns: None,
        workdir: String::new(),
        volumes: Vec::new(),
        ports: Vec::new(),
        net: None,
        mac: None,
        x86: false,
    }
}

#[test]
fn buildah_args_linux() {
    let cfg = config(&[]);
    assert_eq!(get_buildah_args(&cfg, BuildahCommand::From), vec!["from"]);
    assert_eq!(get_buildah_args(&cfg, BuildahCommand::Inspect), vec!["inspect"]);
    assert_eq!(get_buildah_args(&cfg, BuildahCommand::Mount), vec!["mount"]);
    assert_eq!(get_buildah_args(&cfg, BuildahCommand::Unmount), vec!["umount"]);
    assert_eq!(get_buildah_args(&cfg, BuildahCommand::Remove), vec!["rm"]);
    let args = with_operand(get_buildah_args(&cfg, BuildahCommand::Mount), "c1");
    assert_eq!(args, vec!["mount", "c1"]);
}

#[test]
fn buildah_args_hosted() {
    let cfg = config(&[]);
    assert_eq!(
        get_buildah_args_hosted(&cfg, BuildahCommand::From, "/opt/krunvm"),
        vec![
            "--root",
            "/Volumes/krunvm/root",
            "--runroot",
            "/Volumes/krunvm/runroot",
            "--signature-policy",
            "/opt/krunvm/etc/containers/policy.json",
            "--registries-conf",
            "/opt/krunvm/etc/containers/registries.conf",
            "from",
            "--os",
            "linux",
        ]
    );
    assert_eq!(
        get_buildah_args_hosted(&cfg, BuildahCommand::Remove, "/opt/krunvm"),
        vec!["--root", "/Volumes/krunvm/root", "--runroot", "/Volumes/krunvm/runroot", "rm"]
    );
}

#[test]
fn capability_list_formats() {
    let caps = vec!["net_raw".to_string(), "sys_admin".to_string()];
    assert_eq!(format_cap_list(&caps, ", "), "cap_net_raw, cap_sys_admin");
    assert_eq!(format_cap_list(&caps, ","), "cap_net_raw,cap_sys_admin");
    assert_eq!(format_cap_list(&Vec::new(), ","), "");
    assert_eq!(valid_capability_names().len(), 41);
}

#[test]
fn unknown_capability_message_lists_all() {
    let err = validate_capability("nope").unwrap_err();
    let list = format_cap_list(&valid_capability_names(), ", ");
    assert_eq!(err, format!("Unknown capability 'nope'. Valid capabilities: {list}"));
    assert!(err.contains("cap_audit_control, cap_audit_read"));
    assert!(err.ends_with("cap_wake_alarm"));
}

#[test]
fn capability_validation_is_idempotent() {
    for name in valid_capability_names() {
        let once = validate_capability(&format!("CAP_{}", name.to_uppercase())).unwrap();
        assert_eq!(once, name);
        assert_eq!(validate_capability(&once).unwrap(), once);
    }
}

#[test]
fn capability_kelvin_sign_lowercases() {
    // U+212A KELVIN SIGN lowercases to an ASCII 'k'.
    assert_eq!(validate_capability("\u{212A}ILL").unwrap(), "kill");
}

#[test]
fn capabilities_first_unknown_fails() {
    let names = vec!["CAP_KILL".to_string(), "bogus".to_string(), "other".to_string()];
    let err = validate_capabilities(&names).unwrap_err();
    assert!(err.starts_with("Unknown capability 'bogus'"));
    let ok = validate_capabilities(&vec!["Cap_Chown".to_string(), "kill".to_string()]).unwrap();
    assert_eq!(ok, vec!["chown", "kill"]);
}

#[test]
fn changevm_rename_and_limits() {
    let mut cfg = config(&["a", "b"]);
    let mut cmd = change("a");
    cmd.new_name = Some("c".to_string());
    cmd.cpus = Some(9);
    cmd.mem = Some(2048);
    cmd.cap_drop = vec!["CAP_NET_RAW".to_string()];
    let report = cmd.apply(&mut cfg);
    assert!(report.failure.is_none());
    assert!(report.changed);
    assert_eq!(report.vm_name, "c");
    assert_eq!(report.notices, vec!["Error: the maximum number of CPUs supported is 8"]);
    assert!(!cfg.vmconfig_map.contains_key("a"));
    let vm = cfg.vmconfig_map.get("c").unwrap();
    assert_eq!(vm.name, "c");
    assert_eq!(vm.cpus, 2);
    assert_eq!(vm.mem, 2048);
    assert_eq!(vm.cap_drop, vec!["net_raw"]);
    assert_eq!(cfg.vmconfig_map.len(), 2);
}

#[test]
fn changevm_failures_leave_config() {
    let mut cfg = config(&["a", "b"]);
    let mut cmd = change("a");
    cmd.new_name = Some("b".to_string());
    let report = cmd.apply(&mut cfg);
    assert_eq!(report.failure.as_deref(), Some("A VM with name b already exists"));
    assert!(cfg.vmconfig_map.contains_key("a"));

    let report = change("zz").apply(&mut cfg);
    assert_eq!(report.failure.as_deref(), Some("No VM found with name zz"));

    let mut cmd = change("a");
    cmd.mem = Some(99999);
    cmd.cap_drop = vec!["bogus".to_string()];
    let report = cmd.apply(&mut cfg);
    assert_eq!(report.notices, vec!["Error: the maximum amount of RAM supported is 16384 MiB"]);
    assert!(report.failure.unwrap().starts_with("Unknown capability 'bogus'"));
    assert!(!report.changed);
    assert_eq!(cfg.vmconfig_map.get("a").unwrap().mem, 1024);
}

#[test]
fn changevm_maps_and_flags() {
    let mut cfg = config(&["a"]);
    let mut cmd = change("a");
    cmd.ports = vec!["8080:80".parse::<PortPair>().unwrap()];
    cmd.volumes = vec![PathPair { host_path: "/h".to_string(), guest_path: "/g".to_string() }];
    cmd.workdir = Some("/srv".to_string());
    cmd.rootfs_ro = true;
    cmd.remove_rootfs_ro = true;
    let report = cmd.apply(&mut cfg);
    assert!(report.changed);
    let vm = cfg.vmconfig_map.get("a").unwrap();
    assert_eq!(vm.mapped_ports.get("8080").map(|s| s.as_str()), Some("80"));
    assert_eq!(vm.mapped_volumes.get("/h").map(|s| s.as_str()), Some("/g"));
    assert_eq!(vm.workdir, "/srv");
    assert!(vm.rootfs_ro);

    let mut cmd = change("a");
    cmd.remove_ports = true;
    cmd.ports = vec!["1:2".parse::<PortPair>().unwrap()];
    cmd.remove_rootfs_ro = true;
    let report = cmd.apply(&mut cfg);
    assert!(report.changed);
    let vm = cfg.vmconfig_map.get("a").unwrap();
    assert!(vm.mapped_ports.is_empty());
    assert!(!vm.rootfs_ro);
    assert_eq!(vm.mapped_volumes.len(), 1);

    let report = change("a").apply(&mut cfg);
    assert!(!report.changed);
    assert!(report.failure.is_none());
}

#[test]
fn mac_address_checks() {
    assert_eq!(check_mac_address("02:00:00:00:00:01").unwrap(), "02:00:00:00:00:01");
    let zero = check_mac_address("00:00:00:00:00:00").unwrap_err();
    assert_eq!(
        zero,
        "Invalid MAC address '00:00:00:00:00:00': expected a unicast, non-zero, non-broadcast address"
    );
    assert!(check_mac_address("ff:ff:ff:ff:ff:ff").is_err());
    assert!(check_mac_address("01:00:5e:00:00:01").is_err());
    assert!(check_mac_address("xx").unwrap_err().contains("expected 6"));
}

#[test]
fn join_path_like_std() {
    for (base, rel) in [("/home/u", "gv.sock"), ("/", "gv.sock"), ("/a/", "b/c"), ("/a", "")] {
        let want = std::path::Path::new(base).join(rel).to_string_lossy().into_owned();
        assert_eq!(join_path(base, rel), want);
    }
}

#[test]
fn create_checks_in_order() {
    let cfg = config(&["taken"]);
    let mut cmd = create("fedora");
    cmd.mac = Some("02:00:00:00:00:01".to_string());
    let err = cmd.prepare(&cfg, Ok("/".to_string()), [0; 6], vec!["from".to_string()]);
    assert_eq!(err.err().as_deref(), Some("--mac requires --net"));

    let mut cmd = create("fedora");
    cmd.net = Some("/run/gv.sock".to_string());
    cmd.ports = vec!["80:80".parse().unwrap()];
    let err = cmd.prepare(&cfg, Ok("/".to_string()), [0; 6], vec!["from".to_string()]);
    assert_eq!(err.err().as_deref(), Some("--net and --port are mutually exclusive"));

    let mut cmd = create("fedora");
    cmd.net = Some("gv.sock".to_string());
    let err = cmd.prepare(&cfg, Err("gone".to_string()), [0; 6], vec!["from".to_string()]);
    assert_eq!(err.err().as_deref(), Some("Error resolving current directory: gone"));

    let mut cmd = create("fedora");
    cmd.name = Some(String::new());
    let err = cmd.prepare(&cfg, Ok("/".to_string()), [0; 6], vec!["from".to_string()]);
    assert_eq!(err.err().as_deref(), Some("Invalid name for VM"));

    let mut cmd = create("fedora");
    cmd.name = Some("taken".to_string());
    let err = cmd.prepare(&cfg, Ok("/".to_string()), [0; 6], vec!["from".to_string()]);
    assert_eq!(err.err().as_deref(), Some("A VM with this name already exists"));
}

#[test]
fn create_plan_and_vm() {
    let cfg = config(&[]);
    let mut cmd = create("fedora");
    cmd.net = Some("gv.sock".to_string());
    cmd.mem = Some(4096);
    cmd.x86 = true;
    let needs = cmd.needs();
    assert!(needs.current_dir && needs.random_mac);
    let plan = cmd
        .prepare(&cfg, Ok("/home/u".to_string()), [0x11, 1, 2, 3, 4, 5], vec!["from".to_string()])
        .unwrap();
    assert_eq!(plan.cpus, 1);
    assert_eq!(plan.mem, 4096);
    assert_eq!(plan.dns, "1.1.1.1");
    assert_eq!(plan.net_socket.as_deref(), Some("/home/u/gv.sock"));
    assert_eq!(plan.mac_address.as_deref(), Some("12:01:02:03:04:05"));
    assert_eq!(plan.from_args, vec!["from", "--arch", "x86_64", "fedora"]);
    assert_eq!(plan.notices, vec!["x86 microVMs on Aarch64 are restricted to 1 CPU"]);
    let (name, vm) = plan.into_vm_config("fedora-working-container".to_string());
    assert_eq!(name, "fedora-working-container");
    assert_eq!(vm.name, name);
    assert_eq!(vm.container, "fedora-working-container");
    assert!(vm.cap_drop.is_empty() && !vm.rootfs_ro);
}

#[test]
fn create_stores_vm_under_its_name() {
    let mut cfg = config(&["vm1"]);
    let mut cmd = create("alpine");
    cmd.name = Some("web".to_string());
    cmd.cpus = Some(3);
    let plan = cmd.prepare(&cfg, Ok("/".to_string()), [0; 6], vec!["from".to_string()]).unwrap();
    let name = plan.store(&mut cfg, "alpine-working-container".to_string());
    assert_eq!(name, "web");
    assert_eq!(cfg.vmconfig_map.len(), 2);
    let stored = cfg.vmconfig_map.get("web").unwrap();
    assert_eq!(stored.name, "web");
    assert_eq!(stored.cpus, 3);
    assert_eq!(stored.container, "alpine-working-container");
    assert!(stored.net_socket.is_none() && stored.mac_address.is_none());
    assert!(cfg.vmconfig_map.get("vm1").is_some());
}

#[test]
fn resolv_conf_contents() {
    assert_eq!(resolv_conf_text("9.9.9.9"), "options use-vc\nnameserver 9.9.9.9\n");
}

#[test]
fn balloon_plan_cases() {
    let mut cfg = config(&["vm1"]);
    let cmd = BalloonCmd { name: "x".to_string(), target: Some(64), stats: false };
    assert_eq!(cmd.plan(&cfg).err().as_deref(), Some("No VM found with name x"));
    let cmd = BalloonCmd { name: "vm1".to_string(), target: None, stats: false };
    assert_eq!(
        cmd.plan(&cfg).err().as_deref(),
        Some("Either --target or --stats must be specified")
    );
    let cmd = BalloonCmd { name: "vm1".to_string(), target: Some(64), stats: true };
    let plan = cmd.plan(&cfg).unwrap();
    assert_eq!(plan.socket, "/tmp/krunvm-vm1.sock");
    assert_eq!(plan.set_command.as_deref(), Some("{\"cmd\":\"balloon_set\",\"target_mib\":64}"));
    assert!(plan.query_stats);

    let mut v = vm("vm2");
    v.control_socket = Some("/run/vm2.sock".to_string());
    cfg.vmconfig_map.insert("vm2".to_string(), v);
    let cmd = BalloonCmd { name: "vm2".to_string(), target: None, stats: true };
    let plan = cmd.plan(&cfg).unwrap();
    assert_eq!(plan.socket, "/run/vm2.sock");
    assert!(plan.set_command.is_none());
}

#[test]
fn balloon_reply_interpretation() {
    let reply = BalloonReply {
        ok: Some(false),
        error: None,
        actual_mib: Some(1),
        target_mib: None,
        free_mib: None,
    };
    assert_eq!(interpret_balloon_stats(Ok(reply)).unwrap_err(), "unknown error");
    let reply = BalloonReply { ok: Some(true), error: None, actual_mib: Some(5), target_mib: None, free_mib: Some(7) };
    assert_eq!(interpret_balloon_stats(Ok(reply)).unwrap(), (5, 0, 7));
    assert_eq!(
        interpret_balloon_stats(Err("EOF".to_string())).unwrap_err(),
        "Failed to parse response: EOF"
    );
    assert_eq!(stats_report(64, 128, 12), "actual: 64 MiB, target: 128 MiB, free: 12 MiB");
}

#[test]
fn reply_failure_cases() {
    assert_eq!(reply_failure(r#"{"ok":false,"error":"busy"}"#).as_deref(), Some("busy"));
    assert_eq!(reply_failure(r#"{"ok":false}"#).as_deref(), Some("unknown error"));
    assert_eq!(reply_failure(r#"{"ok":true}"#), None);
    assert_eq!(reply_failure(r#"{"ok":"false"}"#), None);
    assert_eq!(reply_failure("garbage"), None);
    // `ok` that is not the boolean `true` is a failure for statistics.
    assert_eq!(
        krunvm::balloon::parse_balloon_stats(r#"{"ok":1,"error":"odd"}"#).unwrap_err(),
        "odd"
    );
    assert_eq!(
        krunvm::balloon::parse_balloon_stats(r#"[1,2]"#).unwrap_err(),
        "unknown error"
    );
}

#[test]
fn start_plan_cases() {
    let cfg = config(&["vm1"]);
    let cmd = StartCmd {
        name: "vm1".to_string(),
        command: None,
        args: vec!["-x".to_string()],
        cpus: None,
        mem: None,
        envs: Some(vec!["A=1".to_string()]),
        timeout: Some(0),
    };
    let plan = cmd.plan(&cfg).unwrap();
    assert!(plan.vm_args.is_empty());
    assert_eq!(plan.env_pairs, vec!["A=1"]);
    assert_eq!(plan.watchdog_secs, None);
    let cmd = StartCmd {
        name: "vm1".to_string(),
        command: Some("/bin/ls".to_string()),
        args: vec!["-l".to_string()],
        cpus: None,
        mem: None,
        envs: None,
        timeout: Some(30),
    };
    let plan = cmd.plan(&cfg).unwrap();
    assert_eq!(plan.vm_args, vec!["-l"]);
    assert_eq!(plan.watchdog_secs, Some(30));
    let cmd = StartCmd { name: "nope".to_string(), command: None, args: vec![], cpus: None, mem: None, envs: None, timeout: None };
    assert_eq!(cmd.plan(&cfg).err().as_deref(), Some("No VM found with name nope"));
}

#[test]
fn exec_plan_port_map_and_command() {
    let mut v = vm("vm1");
    v.cpus = 260;
    v.mapped_ports.insert("8080".to_string(), "80".to_string());
    v.mapped_volumes.insert("/data".to_string(), "/mnt".to_string());
    v.workdir = "/work".to_string();
    let plan = plan_vm_exec(&v, "/rootfs", Some("/bin/ls"), &vec!["-l".to_string()], &vec!["A=1".to_string()]);
    assert_eq!(plan.cpus, 4);
    assert_eq!(plan.volume_mounts, vec![("/data".to_string(), "/rootfs/mnt".to_string())]);
    match plan.network {
        Ok(NetSetup::PortMap { ports }) => assert_eq!(ports, vec!["8080:80"]),
        _ => panic!("expected a port map"),
    }
    assert_eq!(plan.workdir.as_deref(), Some("/work"));
    assert_eq!(plan.env, vec!["HOSTNAME=vm1", "HOME=/root", "A=1"]);
    match plan.launch {
        ExecSetup::Command { path, argv } => {
            assert_eq!(path, "/bin/ls");
            assert_eq!(argv, vec!["-l"]);
        },
        _ => panic!("expected a command"),
    }
    assert!(plan.control_socket.is_none());
}

#[test]
fn exec_plan_network_errors() {
    let mut v = vm("vm1");
    v.net_socket = Some("/run/gv.sock".to_string());
    let plan = plan_vm_exec(&v, "/r", None, &vec![], &vec![]);
    assert_eq!(
        plan.network.err().as_deref(),
        Some("VM networking config is incomplete; both net socket and MAC address must be set")
    );
    v.mac_address = Some("02:00:00:00:00:01".to_string());
    v.mapped_ports.insert("1".to_string(), "2".to_string());
    let plan = plan_vm_exec(&v, "/r", None, &vec![], &vec![]);
    assert_eq!(
        plan.network.err().as_deref(),
        Some("Port mappings are not supported when virtio-net is configured")
    );
    v.mapped_ports = StringMap::new();
    let plan = plan_vm_exec(&v, "/r", None, &vec![], &vec![]);
    match plan.network {
        Ok(NetSetup::UnixStream { path, mac }) => {
            assert_eq!(path, "/run/gv.sock");
            assert_eq!(mac, [2, 0, 0, 0, 0, 1]);
        },
        _ => panic!("expected virtio-net"),
    }
    assert!(matches!(plan.launch, ExecSetup::EnvOnly));
}

#[test]
fn exec_plan_capdrop_and_balloon() {
    let mut v = vm("vm1");
    v.cap_drop = vec!["net_raw".to_string(), "sys_admin".to_string()];
    v.workdir = "/it's here".to_string();
    v.balloon_target_mb = Some(256);
    let plan = plan_vm_exec(&v, "/r", None, &vec![], &vec![]);
    match plan.launch {
        ExecSetup::Wrapper { script_host_path, script, exec_path, argv } => {
            assert_eq!(script_host_path, "/r/.krunvm-capdrop.sh");
            assert_eq!(exec_path, "/.krunvm-capdrop.sh");
            assert_eq!(argv, vec!["/bin/sh"]);
            assert_eq!(
                script,
                "#!/bin/sh\nset -e\ncd '/it'\\''s here'\nCMD=\"$1\"\nshift\nexec capsh --drop=cap_net_raw,cap_sys_admin --shell=\"$CMD\" -- \"$@\"\n"
            );
        },
        _ => panic!("expected a wrapper"),
    }
    assert_eq!(plan.control_socket.as_deref(), Some("/tmp/krunvm-vm1.sock"));
    assert_eq!(
        capdrop_script("", &vec!["kill".to_string()]),
        "#!/bin/sh\nset -e\nCMD=\"$1\"\nshift\nexec capsh --drop=cap_kill --shell=\"$CMD\" -- \"$@\"\n"
    );
}

#[test]
fn exec_plan_leaves_balloon_target_to_caller() {
    let mut v = vm("vm1");
    v.balloon_target_mb = Some(4096);
    let plan = plan_vm_exec(&v, "/r", None, &vec![], &vec![]);
    assert_eq!(plan.mem, 1024);
    assert_eq!(plan.control_socket.as_deref(), Some("/tmp/krunvm-vm1.sock"));
}

#[test]
fn mount_wrapper_cases() {
    let mut vols = StringMap::new();
    vols.insert("/h1".to_string(), "/g 1".to_string());
    vols.insert("/h2".to_string(), "/g2".to_string());
    let shares = virtiofs_shares(&vols);
    assert_eq!(shares.len(), 2);
    assert_eq!(shares[0].tag, "krunvm0");
    assert_eq!(shares[1].tag, "krunvm1");
    assert_eq!(shares[1].host_path, "/h2");
    let w = mount_wrapper("/r", "", &shares, &vec![], None, &vec!["x".to_string()], &vec![]).unwrap();
    assert_eq!(w.script_host_path, "/r/.krunvm-mount.sh");
    assert_eq!(w.exec_path, "/.krunvm-mount.sh");
    assert_eq!(w.argv, vec!["/bin/sh", "x"]);
    assert_eq!(
        w.script,
        "#!/bin/sh\nset -e\nmount -t virtiofs krunvm0 '/g 1'\nmount -t virtiofs krunvm1 '/g2'\nexec \"$@\"\n"
    );
    let oci = vec!["/entry".to_string(), "arg".to_string()];
    let w = mount_wrapper("/r", "/w", &vec![], &vec!["kill".to_string()], None, &vec![], &oci).unwrap();
    assert_eq!(w.argv, vec!["/entry", "arg"]);
    assert!(w.script.contains("cd '/w'\nCMD=\"$1\""));
    assert!(mount_wrapper("/r", "", &vec![], &vec![], Some("ls"), &vec![], &vec![]).is_none());
}

#[test]
fn oci_command_resolution() {
    let both = r#"{"OCIv1":{"config":{"Entrypoint":["/e",1,"x"],"Cmd":["c"]}},"Docker":{"config":{"Cmd":["d"]}}}"#;
    assert_eq!(resolve_oci_cmd_from_config(both), vec!["/e", "x", "c"]);
    let fallback = r#"{"OCIv1":{"config":{"Entrypoint":null}},"Docker":{"config":{"Cmd":["d","e"]}}}"#;
    assert_eq!(resolve_oci_cmd_from_config(fallback), vec!["d", "e"]);
    assert!(resolve_oci_cmd_from_config("not json").is_empty());
    assert!(resolve_oci_cmd_from_config("{}").is_empty());
}

#[test]
fn created_vm_network_is_accepted_by_start() {
    let cfg = config(&[]);
    let mut cmd = create("alpine");
    cmd.net = Some("/run/gv.sock".to_string());
    let plan = cmd.prepare(&cfg, Ok("/".to_string()), [0xff; 6], vec!["from".to_string()]).unwrap();
    let (_, vm) = plan.into_vm_config("alpine-working-container".to_string());
    let exec = plan_vm_exec(&vm, "/r", None, &vec![], &vec![]);
    match exec.network {
        Ok(NetSetup::UnixStream { path, mac }) => {
            assert_eq!(path, "/run/gv.sock");
            assert_eq!(mac, [0xfe, 0xff, 0xff, 0xff, 0xff, 0xff]);
        },
        _ => panic!("expected virtio-net"),
    }
}

#[test]
fn balloon_and_start_agree_on_socket() {
    let mut cfg = config(&[]);
    let mut v = vm("vm1");
    v.balloon_target_mb = Some(512);
    cfg.vmconfig_map.insert("vm1".to_string(), v);
    let started = plan_vm_exec(cfg.vmconfig_map.get("vm1").unwrap(), "/r", None, &vec![], &vec![]);
    let cmd = BalloonCmd { name: "vm1".to_string(), target: None, stats: true };
    let plan = cmd.plan(&cfg).unwrap();
    assert_eq!(started.control_socket, Some(plan.socket));
}

#[test]
fn failed_reply_fails_stats_too() {
    let text = r#"{"ok":false,"error":"busy"}"#;
    assert_eq!(reply_failure(text).as_deref(), Some("busy"));
    assert_eq!(krunvm::balloon::parse_balloon_stats(text).unwrap_err(), "busy");
}

#[test]
fn vm_summary_plain() {
    let v = vm("vm1");
    assert_eq!(
        vm_summary_lines(&v),
        vec![
            "vm1",
            " CPUs: 2",
            " RAM (MiB): 1024",
            " DNS server: 1.1.1.1",
            " Buildah container: vm1-working-container",
            " Workdir: ",
            " Mapped volumes: {}",
            " Mapped ports: {}",
        ]
    );
}

#[test]
fn vm_summary_with_every_option() {
    let mut v = vm("vm1");
    v.workdir = "/work".to_string();
    v.mapped_volumes.insert("/host".to_string(), "/guest".to_string());
    v.mapped_ports.insert("8080".to_string(), "80".to_string());
    v.mapped_ports.insert("2222".to_string(), "22".to_string());
    v.balloon_target_mb = Some(256);
    v.net_socket = Some("/tmp/gv.sock".to_string());
    v.mac_address = Some("02:00:00:00:00:01".to_string());
    v.rootfs_ro = true;
    v.cap_drop = vec!["net_raw".to_string(), "sys_admin".to_string()];
    assert_eq!(
        vm_summary_lines(&v),
        vec![
            "vm1",
            " CPUs: 2",
            " RAM (MiB): 1024",
            " DNS server: 1.1.1.1",
            " Buildah container: vm1-working-container",
            " Workdir: /work",
            " Mapped volumes: {\"/host\": \"/guest\"}",
            " Mapped ports: {\"8080\": \"80\", \"2222\": \"22\"}",
            " Balloon target (MiB): 256",
            " Net socket: /tmp/gv.sock",
            " MAC address: 02:00:00:00:00:01",
            " Read-only rootfs: yes",
            " Dropped capabilities: cap_net_raw, cap_sys_admin",
        ]
    );
}

#[test]
fn map_debug_escapes_like_debug() {
    let mut m = StringMap::new();
    m.insert("a\"b".to_string(), "c\\d\n".to_string());
    assert_eq!(map_debug(&m), format!("{{{:?}: {:?}}}", "a\"b", "c\\d\n"));
    assert_eq!(map_debug(&m), "{\"a\\\"b\": \"c\\\\d\\n\"}");
    assert_eq!(map_debug(&StringMap::new()), "{}");
}

#[test]
fn normalize_capability_cases() {
    assert_eq!(normalize_capability("CAP_NET_RAW", "cap_net_raw").unwrap(), "net_raw");
    assert_eq!(normalize_capability("Kill", "kill").unwrap(), "kill");
    let err = normalize_capability("CAP_NOPE", "cap_nope").unwrap_err();
    assert!(err.starts_with("Unknown capability 'CAP_NOPE'. Valid capabilities: cap_audit_control"));
    assert!(normalize_capability("cap_", "cap_").is_err());
}

#[test]
fn install_prefix_is_two_levels_up() {
    assert_eq!(install_prefix("/opt/homebrew/bin/krunvm"), "/opt/homebrew");
    assert_eq!(install_prefix("/bin/krunvm"), "/");
    assert_eq!(install_prefix("/krunvm"), "/");
    assert_eq!(install_prefix("krunvm"), "");
    for exe in ["/usr/local/bin/krunvm", "/a/b", "rel/bin/krunvm"] {
        let mut p = std::path::PathBuf::from(exe);
        p.pop();
        p.pop();
        assert_eq!(install_prefix(exe), p.display().to_string(), "{exe}");
    }
}

#[test]
fn balloon_initial_pages_cases() {
    let mut v = vm("vm1");
    assert_eq!(balloon_initial_pages(&v), Ok(None));
    v.balloon_target_mb = Some(256);
    assert_eq!(balloon_initial_pages(&v), Ok(Some((1024 - 256) * 256)));
    v.balloon_target_mb = Some(1024);
    assert_eq!(balloon_initial_pages(&v), Ok(Some(0)));
    v.balloon_target_mb = Some(1025);
    assert_eq!(
        balloon_initial_pages(&v),
        Err("attempt to subtract with overflow".to_string())
    );
    v.mem = u32::MAX;
    v.balloon_target_mb = Some(0);
    assert_eq!(
        balloon_initial_pages(&v),
        Err("attempt to multiply with overflow".to_string())
    );
    v.mem = 16_777_215;
    assert_eq!(balloon_initial_pages(&v), Ok(Some(16_777_215 * 256)));
    v.mem = 16_777_216;
    assert!(balloon_initial_pages(&v).is_err());
}

#[test]
fn hosted_launch_choices() {
    let args = vec!["-l".to_string()];
    match hosted_launch(None, Some("/bin/ls"), &args) {
        ExecSetup::Command { path, argv } => {
            assert_eq!(path, "/bin/ls");
            assert_eq!(argv, vec!["-l"]);
        },
        _ => panic!("expected a command"),
    }
    assert!(matches!(hosted_launch(None, None, &args), ExecSetup::EnvOnly));
    let mut v = vm("vm1");
    v.mapped_volumes.insert("/h".to_string(), "/g".to_string());
    let shares = virtiofs_shares(&v.mapped_volumes);
    let w = mount_wrapper("/r", "", &shares, &vec![], Some("/bin/ls"), &args, &vec![]).unwrap();
    let exec_path = w.exec_path.clone();
    let wargv = w.argv.clone();
    match hosted_launch(Some(w), Some("/bin/ls"), &args) {
        ExecSetup::Command { path, argv } => {
            assert_eq!(path, exec_path);
            assert_eq!(argv, wargv);
        },
        _ => panic!("expected the mount helper"),
    }
}

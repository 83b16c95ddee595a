//! `start`: start an existing microVM. The libkrun calls are made by the
//! front end from the plan computed here.

use vstd::prelude::*;
use crate::balloon::{balloon_pages, control_socket_path, spec_control_socket_path};
use crate::capability::{format_cap_list, spec_cap_list};
use crate::commands::balloon::{no_vm_message, no_vm_msg};
use crate::commands::create::{
    law_generated_mac_is_usable, opt_view, spec_check_mac_address, spec_create_failure,
    spec_mac_address, spec_net_socket, CreateCmd,
};
use crate::mac::{generated_mac_bytes, law_format_mac_parses_back};
use crate::pairs::port_pairs_map;
use crate::config::{KrunvmConfig, VmConfig};
use crate::mac::{parse_mac, spec_parse_mac};
use crate::shell::{shell_escape, spec_shell_escape};
use crate::strmap::StringMap;
use crate::text::{push_str, string_of, string_views};

verus! {

/// Start an existing microVM
pub struct StartCmd {
    /// Name of the microVM
    pub name: String,
    /// Command to run inside the VM
    pub command: Option<String>,
    /// Arguments to be passed to the command executed in the VM
    pub args: Vec<String>,
    /// Number of vCPUs
    pub cpus: Option<u8>,
    /// Amount of RAM in MiB
    pub mem: Option<usize>,
    /// env(s) in format "key=value" to be exposed to the VM
    pub envs: Option<Vec<String>>,
    /// Maximum time in seconds the VM is allowed to run (0 = no limit)
    pub timeout: Option<u64>,
}

/// What `start` passes on to the VM, decided before the VM is set up.
pub struct StartPlan {
    /// Arguments of the command; none when no command is given.
    pub vm_args: Vec<String>,
    /// `key=value` pairs for the environment.
    pub env_pairs: Vec<String>,
    /// Seconds after which the VM is killed.
    pub watchdog_secs: Option<u64>,
}

/// How the VM is connected to the network.
pub enum NetSetup {
    /// virtio-net through the gvproxy socket at `path`, with this MAC.
    UnixStream { path: String, mac: [u8; 6] },
    /// TSI with these `host:guest` port mappings.
    PortMap { ports: Vec<String> },
}

/// What the VM runs.
pub enum ExecSetup {
    /// A script that drops capabilities, written at `script_host_path`,
    /// run as `exec_path` with `argv`.
    Wrapper { script_host_path: String, script: String, exec_path: String, argv: Vec<String> },
    /// The given command with its arguments.
    Command { path: String, argv: Vec<String> },
    /// The image's own command; only the environment is set.
    EnvOnly,
}

/// The libkrun setup of a VM.
pub struct ExecPlan {
    /// vCPUs as libkrun takes them (the low 8 bits).
    pub cpus: u8,
    pub mem: u32,
    pub rootfs_ro: bool,
    /// Host directory and the directory in the root file system it is
    /// bind-mounted on.
    pub volume_mounts: Vec<(String, String)>,
    /// The network, or the error that stops the start.
    pub network: Result<NetSetup, String>,
    pub workdir: Option<String>,
    pub env: Vec<String>,
    pub launch: ExecSetup,
    /// The control socket to register.
    pub control_socket: Option<String>,
}

/// Pairs of strings seen as pairs of character sequences.
pub open spec fn pair_views(v: Seq<(String, String)>) -> Seq<(Seq<char>, Seq<char>)> {
    v.map_values(|e: (String, String)| (e.0@, e.1@))
}

/// `host:guest` for each port mapping.
pub open spec fn spec_port_map(entries: Seq<(String, String)>) -> Seq<Seq<char>> {
    entries.map_values(|e: (String, String)| e.0@ + seq![':'] + e.1@)
}

/// Host directory and bind-mount target under `rootfs` for each volume.
pub open spec fn spec_volume_mounts(entries: Seq<(String, String)>, rootfs: Seq<char>) -> Seq<
    (Seq<char>, Seq<char>),
> {
    entries.map_values(|e: (String, String)| (e.0@, rootfs + e.1@))
}

/// A network setup seen as plain values: the socket path and MAC bytes, or
/// the port mappings.
pub open spec fn net_view(n: NetSetup) -> Result<(Seq<char>, Seq<u8>), Seq<Seq<char>>> {
    match n {
        NetSetup::UnixStream { path, mac } => Ok((path@, mac@)),
        NetSetup::PortMap { ports } => Err(string_views(ports@)),
    }
}

/// The network of a VM, or the error that stops its start.
pub open spec fn spec_network(vm: VmConfig) -> Result<
    Result<(Seq<char>, Seq<u8>), Seq<Seq<char>>>,
    Seq<char>,
> {
    match (vm.net_socket, vm.mac_address) {
        (Some(_), None) | (None, Some(_)) => Err(
            "VM networking config is incomplete; both net socket and MAC address must be set"@,
        ),
        (Some(p), Some(m)) => if vm.mapped_ports@.dom().len() > 0 {
            Err("Port mappings are not supported when virtio-net is configured"@)
        } else {
            match spec_parse_mac(m@) {
                Err(e) => Err(e),
                Ok(b) => Ok(Ok((p@, b))),
            }
        },
        (None, None) => Ok(Err(spec_port_map(vm.mapped_ports.spec_entries()))),
    }
}

/// The environment of the guest: host name, home, then the user's pairs.
pub open spec fn spec_env(name: Seq<char>, env_pairs: Seq<Seq<char>>) -> Seq<Seq<char>> {
    seq!["HOSTNAME="@ + name, "HOME=/root"@] + env_pairs
}

/// Line that changes to the working directory in a helper script, if any.
pub open spec fn spec_cd_line(workdir: Seq<char>) -> Seq<char> {
    if workdir.len() > 0 {
        "cd "@ + spec_shell_escape(workdir) + "\n"@
    } else {
        Seq::<char>::empty()
    }
}

/// The lines that run the command given as arguments with `caps` dropped.
pub open spec fn spec_capsh_lines(caps: Seq<Seq<char>>) -> Seq<char> {
    "CMD=\"$1\"\n"@ + "shift\n"@ + "exec capsh --drop="@ + spec_cap_list(caps, ","@)
        + " --shell=\"$CMD\" -- \"$@\"\n"@
}

/// The script that drops capabilities before running the command.
pub open spec fn spec_capdrop_script(workdir: Seq<char>, caps: Seq<Seq<char>>) -> Seq<char> {
    "#!/bin/sh\n"@ + "set -e\n"@ + spec_cd_line(workdir) + spec_capsh_lines(caps)
}

/// What the VM runs, seen as plain values.
pub open spec fn exec_view(e: ExecSetup) -> (int, Seq<char>, Seq<char>, Seq<char>, Seq<Seq<char>>) {
    match e {
        ExecSetup::Wrapper { script_host_path, script, exec_path, argv } => (
            0,
            script_host_path@,
            script@,
            exec_path@,
            string_views(argv@),
        ),
        ExecSetup::Command { path, argv } => (
            1,
            Seq::<char>::empty(),
            Seq::<char>::empty(),
            path@,
            string_views(argv@),
        ),
        ExecSetup::EnvOnly => (
            2,
            Seq::<char>::empty(),
            Seq::<char>::empty(),
            Seq::<char>::empty(),
            Seq::<Seq<char>>::empty(),
        ),
    }
}

/// What the VM runs: a capability-dropping wrapper when capabilities are
/// dropped, else the given command, else the image's own.
pub open spec fn spec_exec(
    vm: VmConfig,
    rootfs: Seq<char>,
    cmd: Option<Seq<char>>,
    args: Seq<Seq<char>>,
) -> (int, Seq<char>, Seq<char>, Seq<char>, Seq<Seq<char>>) {
    if vm.cap_drop@.len() > 0 {
        (
            0,
            rootfs + "/.krunvm-capdrop.sh"@,
            spec_capdrop_script(vm.workdir@, string_views(vm.cap_drop@)),
            "/.krunvm-capdrop.sh"@,
            seq![
                match cmd {
                    Some(c) => c,
                    None => "/bin/sh"@,
                },
            ] + args,
        )
    } else {
        match cmd {
            Some(c) => (1, Seq::<char>::empty(), Seq::<char>::empty(), c, args),
            None => (
                2,
                Seq::<char>::empty(),
                Seq::<char>::empty(),
                Seq::<char>::empty(),
                Seq::<Seq<char>>::empty(),
            ),
        }
    }
}

/// The control socket registered for a VM: its own, or the default one,
/// when a balloon or a socket is configured.
pub open spec fn spec_control_socket(vm: VmConfig) -> Option<Seq<char>> {
    if vm.balloon_target_mb is Some || vm.control_socket is Some {
        Some(
            match vm.control_socket {
                Some(s) => s@,
                None => spec_control_socket_path(vm.name@),
            },
        )
    } else {
        None
    }
}

/// The line that changes to the working directory, if there is one.
pub fn cd_line(workdir: &str) -> (r: String)
    ensures
        r@ == spec_cd_line(workdir@),
{
    let mut m: Vec<char> = Vec::new();
    if !workdir.is_empty() {
        push_str(&mut m, "cd ");
        let e = shell_escape(workdir);
        push_str(&mut m, e.as_str());
        push_str(&mut m, "\n");
        proof {
            assert(m@ =~= spec_cd_line(workdir@));
        }
    } else {
        proof {
            assert(m@ =~= spec_cd_line(workdir@));
        }
    }
    string_of(&m)
}

/// The lines that run the command given as arguments with `caps` dropped.
pub fn capsh_lines(caps: &Vec<String>) -> (r: String)
    ensures
        r@ == spec_capsh_lines(string_views(caps@)),
{
    let mut m: Vec<char> = Vec::new();
    push_str(&mut m, "CMD=\"$1\"\n");
    push_str(&mut m, "shift\n");
    push_str(&mut m, "exec capsh --drop=");
    let list = format_cap_list(caps, ",");
    push_str(&mut m, list.as_str());
    push_str(&mut m, " --shell=\"$CMD\" -- \"$@\"\n");
    proof {
        assert(m@ =~= spec_capsh_lines(string_views(caps@)));
    }
    string_of(&m)
}

/// Write a shell wrapper that drops capabilities via capsh before exec'ing
/// the command: its text.
pub fn capdrop_script(workdir: &str, cap_drop: &Vec<String>) -> (r: String)
    ensures
        r@ == spec_capdrop_script(workdir@, string_views(cap_drop@)),
{
    let mut m: Vec<char> = Vec::new();
    push_str(&mut m, "#!/bin/sh\n");
    push_str(&mut m, "set -e\n");
    let cd = cd_line(workdir);
    push_str(&mut m, cd.as_str());
    let lines = capsh_lines(cap_drop);
    push_str(&mut m, lines.as_str());
    proof {
        assert(m@ =~= spec_capdrop_script(workdir@, string_views(cap_drop@)));
    }
    string_of(&m)
}

fn concat(a: &str, b: &str) -> (r: String)
    ensures
        r@ == a@ + b@,
{
    let mut m: Vec<char> = Vec::new();
    push_str(&mut m, a);
    push_str(&mut m, b);
    string_of(&m)
}

pub(crate) fn clone_strings(v: &Vec<String>) -> (r: Vec<String>)
    ensures
        r@ == v@,
{
    let mut out: Vec<String> = Vec::new();
    let mut i: usize = 0;
    while i < v.len()
        invariant
            0 <= i <= v.len(),
            out@ == v@.take(i as int),
        decreases v.len() - i,
    {
        out.push(v[i].clone());
        i = i + 1;
        proof {
            assert(out@ =~= v@.take(i as int));
        }
    }
    proof {
        assert(v@.take(i as int) =~= v@);
    }
    out
}

/// `host:guest` for each port mapping, in the map's order.
pub fn port_map_strings(ports: &StringMap<String>) -> (r: Vec<String>)
    ensures
        string_views(r@) == spec_port_map(ports.spec_entries()),
{
    let es = ports.entries();
    let mut out: Vec<String> = Vec::new();
    let mut i: usize = 0;
    while i < es.len()
        invariant
            0 <= i <= es.len(),
            es@ == ports.spec_entries(),
            string_views(out@) == spec_port_map(es@.take(i as int)),
        decreases es.len() - i,
    {
        let mut m: Vec<char> = Vec::new();
        push_str(&mut m, es[i].0.as_str());
        m.push(':');
        push_str(&mut m, es[i].1.as_str());
        let item = string_of(&m);
        let ghost prev = string_views(out@);
        proof {
            assert(item@ == es@[i as int].0@ + seq![':'] + es@[i as int].1@);
            assert(es@.take(i + 1) =~= es@.take(i as int).push(es@[i as int]));
            assert(spec_port_map(es@.take(i + 1)) =~= spec_port_map(es@.take(i as int)).push(item@));
        }
        out.push(item);
        i = i + 1;
        proof {
            assert(string_views(out@) =~= prev.push(item@));
        }
    }
    proof {
        assert(es@.take(i as int) =~= es@);
    }
    out
}

/// Host directory and bind-mount target under `rootfs` for each volume.
pub fn volume_mounts(volumes: &StringMap<String>, rootfs: &str) -> (r: Vec<(String, String)>)
    ensures
        pair_views(r@) == spec_volume_mounts(volumes.spec_entries(), rootfs@),
{
    let es = volumes.entries();
    let mut out: Vec<(String, String)> = Vec::new();
    let mut i: usize = 0;
    while i < es.len()
        invariant
            0 <= i <= es.len(),
            es@ == volumes.spec_entries(),
            pair_views(out@) == spec_volume_mounts(es@.take(i as int), rootfs@),
        decreases es.len() - i,
    {
        let host = es[i].0.clone();
        let guest = concat(rootfs, es[i].1.as_str());
        let ghost prev = pair_views(out@);
        let ghost item = (host@, guest@);
        proof {
            assert(es@.take(i + 1) =~= es@.take(i as int).push(es@[i as int]));
            assert(spec_volume_mounts(es@.take(i + 1), rootfs@) =~= spec_volume_mounts(
                es@.take(i as int),
                rootfs@,
            ).push(item));
        }
        out.push((host, guest));
        i = i + 1;
        proof {
            assert(pair_views(out@) =~= prev.push(item));
        }
    }
    proof {
        assert(es@.take(i as int) =~= es@);
    }
    out
}

/// The network of a VM, or the error that stops its start.
pub fn plan_network(vm: &VmConfig) -> (r: Result<NetSetup, String>)
    ensures
        match r {
            Ok(n) => spec_network(*vm) == Ok::<
                Result<(Seq<char>, Seq<u8>), Seq<Seq<char>>>,
                Seq<char>,
            >(net_view(n)),
            Err(e) => spec_network(*vm) == Err::<
                Result<(Seq<char>, Seq<u8>), Seq<Seq<char>>>,
                Seq<char>,
            >(e@),
        },
{
    match (&vm.net_socket, &vm.mac_address) {
        (Some(_), None) | (None, Some(_)) => {
            Err(
                "VM networking config is incomplete; both net socket and MAC address must be set".to_string(),
            )
        },
        (Some(path), Some(mac)) => {
            if !vm.mapped_ports.is_empty() {
                return Err(
                    "Port mappings are not supported when virtio-net is configured".to_string(),
                );
            }
            match parse_mac(mac.as_str()) {
                Err(e) => Err(e),
                Ok(b) => Ok(NetSetup::UnixStream { path: path.clone(), mac: b }),
            }
        },
        (None, None) => Ok(NetSetup::PortMap { ports: port_map_strings(&vm.mapped_ports) }),
    }
}

/// The environment of the guest: host name, home, then the user's pairs.
pub fn guest_env(name: &str, env_pairs: &Vec<String>) -> (r: Vec<String>)
    ensures
        string_views(r@) == spec_env(name@, string_views(env_pairs@)),
{
    let mut out: Vec<String> = Vec::new();
    out.push(concat("HOSTNAME=", name));
    out.push("HOME=/root".to_string());
    let mut i: usize = 0;
    proof {
        assert(string_views(env_pairs@).take(0) =~= Seq::<Seq<char>>::empty());
        assert(string_views(out@) =~= spec_env(name@, string_views(env_pairs@).take(0)));
    }
    while i < env_pairs.len()
        invariant
            0 <= i <= env_pairs.len(),
            string_views(out@) == spec_env(name@, string_views(env_pairs@).take(i as int)),
        decreases env_pairs.len() - i,
    {
        let ghost prev = string_views(out@);
        let e = env_pairs[i].clone();
        proof {
            assert(string_views(env_pairs@).take(i + 1) =~= string_views(env_pairs@).take(
                i as int,
            ).push(e@));
            assert(spec_env(name@, string_views(env_pairs@).take(i + 1)) =~= spec_env(
                name@,
                string_views(env_pairs@).take(i as int),
            ).push(e@));
        }
        out.push(e);
        i = i + 1;
        proof {
            assert(string_views(out@) =~= prev.push(e@));
        }
    }
    proof {
        assert(string_views(env_pairs@).take(i as int) =~= string_views(env_pairs@));
    }
    out
}

/// What the VM runs.
pub fn plan_exec(vm: &VmConfig, rootfs: &str, cmd: Option<&str>, args: &Vec<String>) -> (r: ExecSetup)
    ensures
        exec_view(r) == spec_exec(
            *vm,
            rootfs@,
            match cmd {
                Some(c) => Some(c@),
                None => None,
            },
            string_views(args@),
        ),
        vm.cap_drop@.len() > 0 ==> (r matches ExecSetup::Wrapper { argv, .. } && string_views(argv@)
            == seq![
            match cmd {
                Some(c) => c@,
                None => "/bin/sh"@,
            },
        ] + string_views(args@)),
        vm.cap_drop@.len() == 0 && cmd is Some ==> (r matches ExecSetup::Command { path, argv }
            && path@ == cmd->0@ && string_views(argv@) == string_views(args@)),
        vm.cap_drop@.len() == 0 && cmd is None ==> r is EnvOnly,
{
    if vm.cap_drop.len() > 0 {
        let script = capdrop_script(vm.workdir.as_str(), &vm.cap_drop);
        let command = match cmd {
            Some(c) => c.to_string(),
            None => "/bin/sh".to_string(),
        };
        let mut argv: Vec<String> = Vec::new();
        argv.push(command);
        let ghost old_first = argv@[0];
        let mut i: usize = 0;
        proof {
            assert(string_views(args@).take(0) =~= Seq::<Seq<char>>::empty());
        }
        while i < args.len()
            invariant
                0 <= i <= args.len(),
                argv@.len() >= 1,
                argv@[0] == old_first,
                string_views(argv@) == seq![argv@[0]@] + string_views(args@).take(i as int),
            decreases args.len() - i,
        {
            let ghost prev = string_views(argv@);
            let a = args[i].clone();
            proof {
                assert(string_views(args@).take(i + 1) =~= string_views(args@).take(i as int).push(
                    a@,
                ));
            }
            argv.push(a);
            i = i + 1;
            proof {
                assert(string_views(argv@) =~= prev.push(a@));
                assert(argv@[0] == old_first);
                assert(string_views(argv@) =~= seq![argv@[0]@] + string_views(args@).take(i as int));
            }
        }
        proof {
            assert(string_views(args@).take(i as int) =~= string_views(args@));
        }
        ExecSetup::Wrapper {
            script_host_path: concat(rootfs, "/.krunvm-capdrop.sh"),
            script,
            exec_path: "/.krunvm-capdrop.sh".to_string(),
            argv,
        }
    } else {
        match cmd {
            Some(c) => ExecSetup::Command { path: c.to_string(), argv: clone_strings(args) },
            None => ExecSetup::EnvOnly,
        }
    }
}

/// The libkrun setup of a VM whose root file system is mounted at `rootfs`,
/// running `cmd` with `args` (the image's own command when there is none)
/// and the user's `env_pairs`. The balloon target is left to the caller,
/// who checks it when the balloon is configured.
pub fn plan_vm_exec(
    vm: &VmConfig,
    rootfs: &str,
    cmd: Option<&str>,
    args: &Vec<String>,
    env_pairs: &Vec<String>,
) -> (r: ExecPlan)
    ensures
        r.cpus == vm.cpus % 256,
        r.mem == vm.mem,
        r.rootfs_ro == vm.rootfs_ro,
        pair_views(r.volume_mounts@) == spec_volume_mounts(vm.mapped_volumes.spec_entries(), rootfs@),
        match r.network {
            Ok(n) => spec_network(*vm) == Ok::<
                Result<(Seq<char>, Seq<u8>), Seq<Seq<char>>>,
                Seq<char>,
            >(net_view(n)),
            Err(e) => spec_network(*vm) == Err::<
                Result<(Seq<char>, Seq<u8>), Seq<Seq<char>>>,
                Seq<char>,
            >(e@),
        },
        match r.workdir {
            Some(w) => vm.workdir@.len() > 0 && w@ == vm.workdir@,
            None => vm.workdir@.len() == 0,
        },
        string_views(r.env@) == spec_env(vm.name@, string_views(env_pairs@)),
        exec_view(r.launch) == spec_exec(
            *vm,
            rootfs@,
            match cmd {
                Some(c) => Some(c@),
                None => None,
            },
            string_views(args@),
        ),
        match r.control_socket {
            Some(s) => spec_control_socket(*vm) == Some(s@),
            None => spec_control_socket(*vm) is None,
        },
{
    let cpus: u8 = (vm.cpus % 256) as u8;
    let workdir = if vm.workdir.as_str().is_empty() {
        None
    } else {
        Some(vm.workdir.clone())
    };
    let control_socket = if vm.balloon_target_mb.is_some() || vm.control_socket.is_some() {
        match &vm.control_socket {
            Some(s) => Some(s.clone()),
            None => Some(control_socket_path(vm.name.as_str())),
        }
    } else {
        None
    };
    ExecPlan {
        cpus,
        mem: vm.mem,
        rootfs_ro: vm.rootfs_ro,
        volume_mounts: volume_mounts(&vm.mapped_volumes, rootfs),
        network: plan_network(vm),
        workdir,
        env: guest_env(vm.name.as_str(), env_pairs),
        launch: plan_exec(vm, rootfs, cmd, args),
        control_socket,
    }
}

/// The balloon's initial target in 4 KiB pages: none without a balloon
/// target, else the pages for the memory above the target. A target above
/// the memory, or pages that do not fit in 32 bits, is an arithmetic
/// overflow, reported by its message.
pub open spec fn spec_balloon_initial_pages(vm: VmConfig) -> Result<Option<u32>, Seq<char>> {
    match vm.balloon_target_mb {
        None => Ok(None),
        Some(b) => if b > vm.mem {
            Err("attempt to subtract with overflow"@)
        } else if (vm.mem - b) * 256 > u32::MAX {
            Err("attempt to multiply with overflow"@)
        } else {
            Ok(Some(((vm.mem - b) * 256) as u32))
        },
    }
}

/// The initial balloon target that `start` configures for the VM.
pub fn balloon_initial_pages(vm: &VmConfig) -> (r: Result<Option<u32>, String>)
    ensures
        match r {
            Ok(p) => spec_balloon_initial_pages(*vm) == Ok::<Option<u32>, Seq<char>>(p),
            Err(e) => spec_balloon_initial_pages(*vm) == Err::<Option<u32>, Seq<char>>(e@),
        },
{
    match vm.balloon_target_mb {
        None => Ok(None),
        Some(b) => {
            if b > vm.mem {
                return Err("attempt to subtract with overflow".to_string());
            }
            let room: u32 = vm.mem - b;
            if room > 0xffff_ffffu32 / 256 {
                return Err("attempt to multiply with overflow".to_string());
            }
            Ok(Some(balloon_pages(vm.mem, b)))
        },
    }
}

impl StartCmd {
    /// Finds the VM and decides what is passed to it: the arguments only
    /// with a command, the environment pairs, and a watchdog for a nonzero
    /// timeout.
    pub fn plan(&self, cfg: &KrunvmConfig) -> (r: Result<StartPlan, String>)
        ensures
            !cfg.vmconfig_map@.dom().contains(self.name@) ==> (r matches Err(e) && e@ == no_vm_msg(
                self.name@,
            )),
            cfg.vmconfig_map@.dom().contains(self.name@) ==> (r matches Ok(p) && {
                &&& p.vm_args@ == if self.command is Some {
                    self.args@
                } else {
                    Seq::<String>::empty()
                }
                &&& p.env_pairs@ == match self.envs {
                    Some(e) => e@,
                    None => Seq::<String>::empty(),
                }
                &&& p.watchdog_secs == match self.timeout {
                    Some(s) => if s > 0 {
                        Some(s)
                    } else {
                        None
                    },
                    None => None,
                }
            }),
    {
        if !cfg.vmconfig_map.contains_key(self.name.as_str()) {
            return Err(no_vm_message(self.name.as_str()));
        }
        let vm_args = if self.command.is_some() {
            clone_strings(&self.args)
        } else {
            Vec::new()
        };
        let env_pairs = match &self.envs {
            Some(e) => clone_strings(e),
            None => Vec::new(),
        };
        let watchdog_secs = match self.timeout {
            Some(s) => if s > 0 {
                Some(s)
            } else {
                None
            },
            None => None,
        };
        Ok(StartPlan { vm_args, env_pairs, watchdog_secs })
    }
}

/// A VM as `create` stores it passes the network check of `start`: the
/// socket and the MAC address come together, no ports are mapped beside a
/// socket, and the MAC address parses.
pub proof fn law_created_vm_network_starts(
    cmd: CreateCmd,
    vms: Map<Seq<char>, VmConfig>,
    cwd: Result<Seq<char>, Seq<char>>,
    random: Seq<u8>,
    vm: VmConfig,
)
    requires
        random.len() == 6,
        spec_create_failure(cmd, vms, cwd) is None,
        opt_view(vm.net_socket) == spec_net_socket(cmd, cwd),
        opt_view(vm.mac_address) == spec_mac_address(cmd, random),
        vm.mapped_ports@ == port_pairs_map(cmd.ports@),
    ensures
        spec_network(vm) is Ok,
{
    if cmd.net is Some {
        assert(cmd.ports@ =~= Seq::<crate::pairs::PortPair>::empty());
        assert(vm.mapped_ports@ =~= Map::<Seq<char>, String>::empty());
        match cmd.mac {
            Some(m) => {
                assert(spec_check_mac_address(m@) is Ok);
            },
            None => {
                law_generated_mac_is_usable(random);
                law_format_mac_parses_back(generated_mac_bytes(random));
            },
        }
    }
}

/// The `balloon` command talks to the socket that `start` registers for a
/// VM with a balloon: its own control socket, or the default one for its
/// name.
pub proof fn law_balloon_uses_started_socket(vm: VmConfig)
    requires
        vm.balloon_target_mb is Some,
    ensures
        spec_control_socket(vm) == Some(
            match vm.control_socket {
                Some(s) => s@,
                None => spec_control_socket_path(vm.name@),
            },
        ),
{
}

/// The guest runs the command it was given, followed by exactly the given
/// arguments: inside the capability-dropping wrapper when capabilities are
/// dropped (with `/bin/sh` only when no command is given), directly
/// otherwise; with neither, the image's own command runs untouched.
pub proof fn law_exec_runs_given_command(
    vm: VmConfig,
    rootfs: Seq<char>,
    cmd: Option<Seq<char>>,
    args: Seq<Seq<char>>,
)
    ensures
        vm.cap_drop@.len() > 0 ==> {
            let e = spec_exec(vm, rootfs, cmd, args);
            &&& e.0 == 0
            &&& e.3 == "/.krunvm-capdrop.sh"@
            &&& e.4.len() == args.len() + 1
            &&& e.4[0] == match cmd {
                Some(c) => c,
                None => "/bin/sh"@,
            }
            &&& forall|i: int| 0 <= i < args.len() ==> e.4[i + 1] == #[trigger] args[i]
        },
        vm.cap_drop@.len() == 0 && cmd is Some ==> {
            let e = spec_exec(vm, rootfs, cmd, args);
            &&& e.0 == 1
            &&& e.3 == cmd->0
            &&& e.4 == args
        },
        vm.cap_drop@.len() == 0 && cmd is None ==> spec_exec(vm, rootfs, cmd, args).0 == 2,
{
}

/// The network a VM starts with: virtio-net over its socket with the MAC
/// address's bytes when both are set and no ports are mapped; the port
/// mappings, each `host:guest` in order, when neither is set; an error when
/// only one of them is set, or when ports are mapped beside a socket.
pub proof fn law_start_network(vm: VmConfig)
    ensures
        vm.net_socket matches Some(p) ==> (vm.mac_address matches Some(m) ==> (
        vm.mapped_ports@.dom().len() == 0 ==> (spec_parse_mac(m@) matches Ok(b) ==> spec_network(vm)
            == Ok::<Result<(Seq<char>, Seq<u8>), Seq<Seq<char>>>, Seq<char>>(
            Ok::<(Seq<char>, Seq<u8>), Seq<Seq<char>>>((p@, b)),
        )))),
        vm.net_socket is Some && vm.mac_address is Some && vm.mapped_ports@.dom().len() > 0
            ==> spec_network(vm) is Err,
        (vm.net_socket is Some) != (vm.mac_address is Some) ==> spec_network(vm) is Err,
        vm.net_socket is None && vm.mac_address is None ==> {
            let es = vm.mapped_ports.spec_entries();
            &&& spec_network(vm) matches Ok(Err(ports))
            &&& spec_network(vm)->Ok_0->Err_0.len() == es.len()
            &&& forall|i: int|
                0 <= i < es.len() ==> spec_network(vm)->Ok_0->Err_0[i] == #[trigger] es[i].0@ + seq![
                    ':',
                ] + es[i].1@
        },
{
}

/// The guest's environment is its host name, then `HOME=/root`, then the
/// user's pairs in order; each volume is bind-mounted from its host path
/// onto its guest path under the root file system.
pub proof fn law_start_env_and_mounts(
    name: Seq<char>,
    env_pairs: Seq<Seq<char>>,
    entries: Seq<(String, String)>,
    rootfs: Seq<char>,
)
    ensures
        spec_env(name, env_pairs).len() == env_pairs.len() + 2,
        spec_env(name, env_pairs)[0] == "HOSTNAME="@ + name,
        spec_env(name, env_pairs)[1] == "HOME=/root"@,
        forall|i: int|
            0 <= i < env_pairs.len() ==> spec_env(name, env_pairs)[i + 2] == #[trigger] env_pairs[i],
        spec_volume_mounts(entries, rootfs).len() == entries.len(),
        forall|i: int|
            0 <= i < entries.len() ==> spec_volume_mounts(entries, rootfs)[i] == (
                #[trigger] entries[i].0@,
                rootfs + entries[i].1@,
            ),
{
}

/// A control socket is registered exactly when a balloon or a socket is
/// configured: the configured one, else `/tmp/krunvm-<name>.sock`. The
/// balloon starts inflated by 256 pages per MiB above its target, and a
/// target above the memory is refused.
pub proof fn law_start_socket_and_balloon(vm: VmConfig)
    ensures
        spec_control_socket(vm) is Some <==> (vm.balloon_target_mb is Some || vm.control_socket is Some),
        vm.control_socket matches Some(s) ==> spec_control_socket(vm) == Some(s@),
        vm.balloon_target_mb is Some && vm.control_socket is None ==> spec_control_socket(vm) == Some(
            "/tmp/krunvm-"@ + vm.name@ + ".sock"@,
        ),
        vm.balloon_target_mb is None ==> spec_balloon_initial_pages(vm) == Ok::<Option<u32>, Seq<char>>(
            None,
        ),
        vm.balloon_target_mb matches Some(b) ==> (b <= vm.mem && (vm.mem - b) * 256 <= u32::MAX
            ==> spec_balloon_initial_pages(vm) == Ok::<Option<u32>, Seq<char>>(
            Some(((vm.mem - b) * 256) as u32),
        )),
        vm.balloon_target_mb matches Some(b) ==> (b > vm.mem ==> spec_balloon_initial_pages(vm) is Err),
{
}

} // verus!

//! `create`: create a new microVM from an OCI image.

use vstd::prelude::*;
use crate::buildah::with_operand;
use crate::config::{configs_consistent, KrunvmConfig, VmConfig};
use crate::mac::{
    generated_mac_bytes, law_format_mac_parses_back, lemma_parsed_mac_has_six_bytes, law_generated_mac_is_local_unicast,
    mac_from_random_bytes, mac_msg_prefix, parse_mac, spec_format_mac, spec_parse_mac,
};
use crate::pairs::{is_absolute_path, path_pairs_map, path_pairs_to_hash_map, port_pairs_map, port_pairs_to_hash_map, PathPair, PortPair};
use crate::strmap::StringMap;
use crate::text::{chars_of, push_str, string_of, string_views};

verus! {

/// Create a new microVM
pub struct CreateCmd {
    /// OCI image to use as template
    pub image: String,
    /// Assign a name to the VM
    pub name: Option<String>,
    /// Number of vCPUs
    pub cpus: Option<u32>,
    /// Amount of RAM in MiB
    pub mem: Option<u32>,
    /// DNS server to use in the microVM
    pub dns: Option<String>,
    /// Working directory inside the microVM
    pub workdir: String,
    /// Volume(s) in form "host_path:guest_path" to be exposed to the guest
    pub volumes: Vec<PathPair>,
    /// Port(s) in format "host_port:guest_port" to be exposed to the host
    pub ports: Vec<PortPair>,
    /// Path to gvproxy unix socket (enables virtio-net networking).
    /// Mutually exclusive with --port (TSI networking).
    pub net: Option<String>,
    /// VM MAC address (format: xx:xx:xx:xx:xx:xx). Only valid with --net.
    /// When --net is specified without --mac, a random locally-administered
    /// unicast MAC is generated.
    pub mac: Option<String>,
    /// Create a x86_64 microVM even on an Aarch64 host (macOS only)
    pub x86: bool,
}

/// Outside inputs that a creation needs.
pub struct CreateNeeds {
    /// The current directory, to resolve a relative `--net` path.
    pub current_dir: bool,
    /// Six random bytes, to generate a MAC address.
    pub random_mac: bool,
}

/// Everything decided before buildah creates the container.
pub struct CreatePlan {
    pub cpus: u32,
    pub mem: u32,
    pub dns: String,
    pub workdir: String,
    pub mapped_volumes: StringMap<String>,
    pub mapped_ports: StringMap<String>,
    pub net_socket: Option<String>,
    pub mac_address: Option<String>,
    /// The requested name; the container's name is used when there is none.
    pub name: Option<String>,
    pub image: String,
    /// Arguments for `buildah from`, the image last.
    pub from_args: Vec<String>,
    /// Messages to show before buildah runs.
    pub notices: Vec<String>,
}

/// `rel` appended to `base` as `Path::join` does for a relative path: a
/// separator goes between them unless `base` is empty or already ends in one.
pub open spec fn spec_join_path(base: Seq<char>, rel: Seq<char>) -> Seq<char> {
    if base.len() > 0 && base.last() != '/' {
        base + seq!['/'] + rel
    } else {
        base + rel
    }
}

/// The message for a MAC address that is zero, broadcast or multicast.
pub open spec fn mac_not_unicast_msg(m: Seq<char>) -> Seq<char> {
    mac_msg_prefix(m) + "': expected a unicast, non-zero, non-broadcast address"@
}

/// `m` if it is a usable address for a VM: parseable, not all zeros, not
/// broadcast, and unicast.
pub open spec fn spec_check_mac_address(m: Seq<char>) -> Result<Seq<char>, Seq<char>> {
    match spec_parse_mac(m) {
        Err(e) => Err(e),
        Ok(b) => if b == seq![0u8, 0u8, 0u8, 0u8, 0u8, 0u8] || b == seq![
            0xffu8,
            0xffu8,
            0xffu8,
            0xffu8,
            0xffu8,
            0xffu8,
        ] || b[0] & 1 != 0 {
            Err(mac_not_unicast_msg(m))
        } else {
            Ok(m)
        },
    }
}

/// Checks a user-given MAC address for use by a VM.
pub fn check_mac_address(m: &str) -> (r: Result<String, String>)
    ensures
        match r {
            Ok(s) => spec_check_mac_address(m@) == Ok::<Seq<char>, Seq<char>>(s@),
            Err(e) => spec_check_mac_address(m@) == Err::<Seq<char>, Seq<char>>(e@),
        },
{
    let bytes = match parse_mac(m) {
        Ok(b) => b,
        Err(e) => {
            return Err(e);
        },
    };
    let all_zero = bytes[0] == 0 && bytes[1] == 0 && bytes[2] == 0 && bytes[3] == 0 && bytes[4] == 0
        && bytes[5] == 0;
    let all_ones = bytes[0] == 0xff && bytes[1] == 0xff && bytes[2] == 0xff && bytes[3] == 0xff
        && bytes[4] == 0xff && bytes[5] == 0xff;
    let multicast = (bytes[0] & 1) != 0;
    proof {
        let b = bytes@;
        assert(all_zero == (b =~= seq![0u8, 0u8, 0u8, 0u8, 0u8, 0u8]));
        assert(all_ones == (b =~= seq![0xffu8, 0xffu8, 0xffu8, 0xffu8, 0xffu8, 0xffu8]));
    }
    if all_zero || all_ones || multicast {
        let mut msg: Vec<char> = Vec::new();
        push_str(&mut msg, "Invalid MAC address '");
        push_str(&mut msg, m);
        push_str(&mut msg, "': expected a unicast, non-zero, non-broadcast address");
        proof {
            assert(msg@ =~= mac_not_unicast_msg(m@));
        }
        return Err(string_of(&msg));
    }
    Ok(m.to_string())
}

/// Every generated address passes the check for user-given addresses.
pub proof fn law_generated_mac_is_usable(random: Seq<u8>)
    requires
        random.len() == 6,
    ensures
        spec_check_mac_address(spec_format_mac(generated_mac_bytes(random))) is Ok,
{
    let b = generated_mac_bytes(random);
    law_generated_mac_is_local_unicast(random);
    law_format_mac_parses_back(b);
    assert((0u8 & 2u8) == 0u8 && (0xffu8 & 1u8) == 1u8) by (bit_vector);
    if b == seq![0u8, 0u8, 0u8, 0u8, 0u8, 0u8] {
        assert(b[0] == 0u8);
    }
    if b == seq![0xffu8, 0xffu8, 0xffu8, 0xffu8, 0xffu8, 0xffu8] {
        assert(b[0] == 0xffu8);
    }
}

/// Joins a relative path onto a base directory as `Path::join` does.
pub fn join_path(base: &str, rel: &str) -> (r: String)
    ensures
        r@ == spec_join_path(base@, rel@),
{
    let b = chars_of(base);
    let mut out: Vec<char> = Vec::new();
    push_str(&mut out, base);
    if b.len() > 0 && b[b.len() - 1] != '/' {
        out.push('/');
    }
    push_str(&mut out, rel);
    string_of(&out)
}

/// Whether `p` is an absolute path.
pub fn is_absolute(p: &str) -> (b: bool)
    ensures
        b == is_absolute_path(p@),
{
    let c = chars_of(p);
    c.len() > 0 && c[0] == '/'
}

/// The error that stops a creation, in the order the options are checked,
/// given the current directory (or the reason it is unknown) and whether
/// the user-given MAC address is usable.
pub open spec fn spec_create_failure(
    cmd: CreateCmd,
    vms: Map<Seq<char>, VmConfig>,
    cwd: Result<Seq<char>, Seq<char>>,
) -> Option<Seq<char>> {
    if cmd.mac is Some && cmd.net is None {
        Some("--mac requires --net"@)
    } else if cmd.net is Some && cmd.ports.len() > 0 {
        Some("--net and --port are mutually exclusive"@)
    } else if cmd.net matches Some(p) && !is_absolute_path(p@) && cwd is Err {
        Some("Error resolving current directory: "@ + cwd->Err_0)
    } else if cmd.net is Some && (cmd.mac matches Some(m) && spec_check_mac_address(m@) is Err) {
        Some(spec_check_mac_address(cmd.mac->0@)->Err_0)
    } else if cmd.name matches Some(n) && n@.len() == 0 {
        Some("Invalid name for VM"@)
    } else if cmd.name matches Some(n) && vms.dom().contains(n@) {
        Some("A VM with this name already exists"@)
    } else {
        None
    }
}

/// The gvproxy socket path that a creation stores.
pub open spec fn spec_net_socket(cmd: CreateCmd, cwd: Result<Seq<char>, Seq<char>>) -> Option<Seq<char>> {
    match cmd.net {
        None => None,
        Some(p) => if is_absolute_path(p@) {
            Some(p@)
        } else {
            Some(spec_join_path(cwd->Ok_0, p@))
        },
    }
}

/// The MAC address that a creation stores.
pub open spec fn spec_mac_address(cmd: CreateCmd, random: Seq<u8>) -> Option<Seq<char>> {
    match cmd.net {
        None => None,
        Some(_) => match cmd.mac {
            Some(m) => Some(m@),
            None => Some(spec_format_mac(generated_mac_bytes(random))),
        },
    }
}

/// An optional string seen as an optional character sequence.
pub open spec fn opt_view(o: Option<String>) -> Option<Seq<char>> {
    match o {
        Some(s) => Some(s@),
        None => None,
    }
}

fn message2(a: &str, b: &str) -> (r: String)
    ensures
        r@ == a@ + b@,
{
    let mut m: Vec<char> = Vec::new();
    push_str(&mut m, a);
    push_str(&mut m, b);
    string_of(&m)
}

impl CreateCmd {
    /// Which outside inputs `prepare` will consult.
    pub fn needs(&self) -> (r: CreateNeeds)
        ensures
            r.current_dir == (self.net matches Some(p) && !is_absolute_path(p@)),
            r.random_mac == (self.net is Some && self.mac is None),
    {
        let current_dir = match &self.net {
            Some(p) => !is_absolute(p.as_str()),
            None => false,
        };
        CreateNeeds { current_dir, random_mac: self.net.is_some() && self.mac.is_none() }
    }

    /// Decides the new VM's settings. `cwd` is the current directory (or why
    /// it is unknown) and `random` six random bytes; each is consulted only
    /// when `needs` says so. `base_args` are the platform's `buildah from`
    /// arguments.
    pub fn prepare(
        self,
        cfg: &KrunvmConfig,
        cwd: Result<String, String>,
        random: [u8; 6],
        base_args: Vec<String>,
    ) -> (r: Result<CreatePlan, String>)
        ensures
            ({
                let cwd_v: Result<Seq<char>, Seq<char>> = match cwd {
                    Ok(c) => Ok(c@),
                    Err(e) => Err(e@),
                };
                match spec_create_failure(self, cfg.vmconfig_map@, cwd_v) {
                    Some(m) => r matches Err(e) && e@ == m,
                    None => r matches Ok(p) && {
                        &&& p.cpus == if self.x86 {
                            1
                        } else {
                            match self.cpus {
                                Some(c) => c,
                                None => cfg.default_cpus,
                            }
                        }
                        &&& p.mem == match self.mem {
                            Some(m) => m,
                            None => cfg.default_mem,
                        }
                        &&& p.dns@ == match self.dns {
                            Some(d) => d@,
                            None => cfg.default_dns@,
                        }
                        &&& p.workdir == self.workdir
                        &&& p.mapped_volumes@ == path_pairs_map(self.volumes@)
                        &&& p.mapped_ports@ == port_pairs_map(self.ports@)
                        &&& opt_view(p.net_socket) == spec_net_socket(self, cwd_v)
                        &&& opt_view(p.mac_address) == spec_mac_address(self, random@)
                        &&& (p.net_socket is Some <==> p.mac_address is Some)
                        &&& p.name == self.name
                        &&& p.image == self.image
                        &&& string_views(p.from_args@) == (if self.x86 {
                            string_views(base_args@) + seq!["--arch"@, "x86_64"@]
                        } else {
                            string_views(base_args@)
                        }).push(self.image@)
                        &&& string_views(p.notices@) == if self.x86 && (match self.cpus {
                            Some(c) => c,
                            None => cfg.default_cpus,
                        }) != 1 {
                            seq!["x86 microVMs on Aarch64 are restricted to 1 CPU"@]
                        } else {
                            Seq::<Seq<char>>::empty()
                        }
                    },
                }
            }),
    {
        let requested_cpus: u32 = match self.cpus {
            Some(c) => c,
            None => cfg.default_cpus,
        };
        let mem: u32 = match self.mem {
            Some(m) => m,
            None => cfg.default_mem,
        };
        let dns = match self.dns {
            Some(d) => d,
            None => cfg.default_dns.clone(),
        };
        if self.mac.is_some() && self.net.is_none() {
            return Err("--mac requires --net".to_string());
        }
        if self.net.is_some() && self.ports.len() > 0 {
            return Err("--net and --port are mutually exclusive".to_string());
        }
        let (net_socket, mac_address) = match &self.net {
            Some(net_path) => {
                let path = if is_absolute(net_path.as_str()) {
                    net_path.clone()
                } else {
                    match &cwd {
                        Ok(c) => join_path(c.as_str(), net_path.as_str()),
                        Err(e) => {
                            return Err(message2("Error resolving current directory: ", e.as_str()));
                        },
                    }
                };
                let mac = match &self.mac {
                    Some(m) => match check_mac_address(m.as_str()) {
                        Ok(s) => s,
                        Err(e) => {
                            return Err(e);
                        },
                    },
                    None => mac_from_random_bytes(random),
                };
                (Some(path), Some(mac))
            },
            None => (None, None),
        };
        if let Some(n) = &self.name {
            if n.as_str().is_empty() {
                return Err("Invalid name for VM".to_string());
            }
            if cfg.vmconfig_map.contains_key(n.as_str()) {
                return Err("A VM with this name already exists".to_string());
            }
        }
        let mapped_volumes = path_pairs_to_hash_map(self.volumes);
        let mapped_ports = port_pairs_to_hash_map(self.ports);
        let mut notices: Vec<String> = Vec::new();
        let mut args = base_args;
        let ghost base = string_views(args@);
        let cpus: u32 = if self.x86 {
            if requested_cpus != 1 {
                notices.push("x86 microVMs on Aarch64 are restricted to 1 CPU".to_string());
            }
            args.push("--arch".to_string());
            args.push("x86_64".to_string());
            1
        } else {
            requested_cpus
        };
        proof {
            if self.x86 {
                assert(string_views(args@) =~= base + seq!["--arch"@, "x86_64"@]);
            }
            assert(string_views(notices@) =~= (if self.x86 && requested_cpus != 1 {
                seq!["x86 microVMs on Aarch64 are restricted to 1 CPU"@]
            } else {
                Seq::<Seq<char>>::empty()
            }));
        }
        let from_args = with_operand(args, self.image.as_str());
        Ok(CreatePlan {
            cpus,
            mem,
            dns,
            workdir: self.workdir,
            mapped_volumes,
            mapped_ports,
            net_socket,
            mac_address,
            name: self.name,
            image: self.image,
            from_args,
            notices,
        })
    }
}

impl CreatePlan {
    /// The new VM, stored under its requested name or the container's name
    /// that buildah printed.
    pub fn into_vm_config(self, container: String) -> (r: (String, VmConfig))
        ensures
            r.0@ == match self.name {
                Some(n) => n@,
                None => container@,
            },
            r.1.name@ == r.0@,
            r.1.cpus == self.cpus,
            r.1.mem == self.mem,
            r.1.dns == self.dns,
            r.1.container == container,
            r.1.workdir == self.workdir,
            r.1.mapped_volumes@ == self.mapped_volumes@,
            r.1.mapped_ports@ == self.mapped_ports@,
            r.1.net_socket == self.net_socket,
            r.1.mac_address == self.mac_address,
            !r.1.rootfs_ro,
            r.1.cap_drop@.len() == 0,
            r.1.balloon_target_mb is None,
            r.1.control_socket is None,
    {
        let name = match self.name {
            Some(n) => n,
            None => container.clone(),
        };
        let vm = VmConfig {
            name: name.clone(),
            cpus: self.cpus,
            mem: self.mem,
            dns: self.dns,
            container,
            workdir: self.workdir,
            mapped_volumes: self.mapped_volumes,
            mapped_ports: self.mapped_ports,
            net_socket: self.net_socket,
            mac_address: self.mac_address,
            rootfs_ro: false,
            cap_drop: Vec::new(),
            balloon_target_mb: None,
            control_socket: None,
        };
        (name, vm)
    }
}

impl CreatePlan {
    /// Stores the new VM in the configuration, under its requested name or
    /// the container's name that buildah printed, and returns that name.
    pub fn store(self, cfg: &mut KrunvmConfig, container: String) -> (r: String)
        ensures
            r@ == match self.name {
                Some(n) => n@,
                None => container@,
            },
            final(cfg).vmconfig_map@ == old(cfg).vmconfig_map@.insert(r@, final(cfg).vmconfig_map@[r@]),
            final(cfg).vmconfig_map@[r@].name@ == r@,
            final(cfg).vmconfig_map@[r@].cpus == self.cpus,
            final(cfg).vmconfig_map@[r@].mem == self.mem,
            final(cfg).vmconfig_map@[r@].dns == self.dns,
            final(cfg).vmconfig_map@[r@].container == container,
            final(cfg).vmconfig_map@[r@].workdir == self.workdir,
            final(cfg).vmconfig_map@[r@].mapped_volumes@ == self.mapped_volumes@,
            final(cfg).vmconfig_map@[r@].mapped_ports@ == self.mapped_ports@,
            final(cfg).vmconfig_map@[r@].net_socket == self.net_socket,
            final(cfg).vmconfig_map@[r@].mac_address == self.mac_address,
            !final(cfg).vmconfig_map@[r@].rootfs_ro,
            final(cfg).vmconfig_map@[r@].cap_drop@.len() == 0,
            final(cfg).vmconfig_map@[r@].balloon_target_mb is None,
            final(cfg).vmconfig_map@[r@].control_socket is None,
            final(cfg).default_cpus == old(cfg).default_cpus,
            final(cfg).default_mem == old(cfg).default_mem,
            final(cfg).default_dns == old(cfg).default_dns,
            final(cfg).storage_volume == old(cfg).storage_volume,
            configs_consistent(old(cfg).vmconfig_map@) && (self.net_socket is Some
                <==> self.mac_address is Some) ==> configs_consistent(final(cfg).vmconfig_map@),
    {
        let (name, vm) = self.into_vm_config(container);
        let ghost stored = vm;
        proof {
            if configs_consistent(cfg.vmconfig_map@) && (stored.net_socket is Some
                <==> stored.mac_address is Some) {
                law_created_vm_keeps_configs_consistent(cfg.vmconfig_map@, name@, stored);
            }
        }
        cfg.vmconfig_map.insert(name.clone(), vm);
        proof {
            assert(cfg.vmconfig_map@[name@] == stored);
        }
        name
    }
}

/// Storing a VM whose name is its key, and which has a socket exactly when
/// it has a MAC address, keeps every stored VM so.
pub proof fn law_created_vm_keeps_configs_consistent(
    vms: Map<Seq<char>, VmConfig>,
    name: Seq<char>,
    vm: VmConfig,
)
    requires
        configs_consistent(vms),
        vm.name@ == name,
        vm.net_socket is Some <==> vm.mac_address is Some,
    ensures
        configs_consistent(vms.insert(name, vm)),
{
    let after = vms.insert(name, vm);
    assert forall|k: Seq<char>| #[trigger] after.dom().contains(k) implies {
        &&& after[k].name@ == k
        &&& (after[k].net_socket is Some <==> after[k].mac_address is Some)
    } by {
        if k != name {
            assert(vms.dom().contains(k));
        }
    }
}

/// The resolv.conf written into a new root file system.
pub open spec fn spec_resolv_conf(dns: Seq<char>) -> Seq<char> {
    "options use-vc\nnameserver "@ + dns + "\n"@
}

/// Contents of the resolv.conf that points the guest at `dns`.
pub fn resolv_conf_text(dns: &str) -> (r: String)
    ensures
        r@ == spec_resolv_conf(dns@),
{
    let mut m: Vec<char> = Vec::new();
    push_str(&mut m, "options use-vc\nnameserver ");
    push_str(&mut m, dns);
    push_str(&mut m, "\n");
    string_of(&m)
}

/// A creation that succeeds stores a complete network setup: a socket and a
/// MAC address together or neither, and no port mappings beside a socket.
pub proof fn law_created_network_is_complete(
    cmd: CreateCmd,
    vms: Map<Seq<char>, VmConfig>,
    cwd: Result<Seq<char>, Seq<char>>,
    random: Seq<u8>,
)
    requires
        spec_create_failure(cmd, vms, cwd) is None,
    ensures
        spec_net_socket(cmd, cwd) is Some <==> spec_mac_address(cmd, random) is Some,
        spec_net_socket(cmd, cwd) is Some ==> port_pairs_map(cmd.ports@) == Map::<
            Seq<char>,
            String,
        >::empty(),
{
    if cmd.net is Some {
        assert(cmd.ports@.len() == 0);
        assert(cmd.ports@ =~= Seq::<PortPair>::empty());
    }
}

/// A creation that passes its checks (`prepare`) and is stored under its
/// name (`store`) keeps every stored VM under its own name with a socket
/// exactly when it has a MAC address, adds the VM without overwriting one
/// when a name was given, and stores an absolute socket path whenever the
/// current directory is absolute.
pub proof fn law_create_keeps_configs_consistent(
    cmd: CreateCmd,
    before: Map<Seq<char>, VmConfig>,
    after: Map<Seq<char>, VmConfig>,
    cwd: Result<Seq<char>, Seq<char>>,
    random: Seq<u8>,
    container: Seq<char>,
)
    requires
        before.dom().finite(),
        configs_consistent(before),
        spec_create_failure(cmd, before, cwd) is None,
        ({
            let key = match cmd.name {
                Some(n) => n@,
                None => container,
            };
            &&& after == before.insert(key, after[key])
            &&& after[key].name@ == key
            &&& opt_view(after[key].net_socket) == spec_net_socket(cmd, cwd)
            &&& opt_view(after[key].mac_address) == spec_mac_address(cmd, random)
        }),
    ensures
        configs_consistent(after),
        cmd.name is Some ==> after.dom().len() == before.dom().len() + 1,
        ({
            let key = match cmd.name {
                Some(n) => n@,
                None => container,
            };
            (cwd matches Ok(c) && is_absolute_path(c)) ==> match after[key].net_socket {
                Some(p) => is_absolute_path(p@),
                None => true,
            }
        }),
{
    let key = match cmd.name {
        Some(n) => n@,
        None => container,
    };
    let vm = after[key];
    law_created_network_is_complete(cmd, before, cwd, random);
    law_created_vm_keeps_configs_consistent(before, key, vm);
    if let Some(n) = cmd.name {
        assert(!before.dom().contains(n@));
        assert(after.dom() =~= before.dom().insert(key));
    }
    if let Some(p) = cmd.net {
        if !is_absolute_path(p@) {
            if let Ok(c) = cwd {
                if is_absolute_path(c) {
                    assert(spec_join_path(c, p@)[0] == c[0]);
                }
            }
        }
    }
}

/// A user-given MAC address is accepted, unchanged, exactly when it parses
/// to six bytes that are unicast (bit 0 of the first byte clear), not all
/// zero and not all `ff`; a parsed address that fails this is refused with
/// the unicast message, and one that does not parse with the parse error.
pub proof fn law_unicast_mac_is_accepted(m: Seq<char>)
    ensures
        spec_parse_mac(m) matches Ok(b) ==> {
            (b[0] & 1u8 == 0u8 && (exists|i: int| 0 <= i < b.len() && b[i] != 0u8) && (exists|i: int|
                0 <= i < b.len() && b[i] != 0xffu8)) ==> spec_check_mac_address(m) == Ok::<
                Seq<char>,
                Seq<char>,
            >(m)
        },
        spec_parse_mac(m) matches Ok(b) ==> {
            (b[0] & 1u8 != 0u8 || (forall|i: int| 0 <= i < b.len() ==> b[i] == 0u8) || (forall|i: int|
                0 <= i < b.len() ==> b[i] == 0xffu8)) ==> spec_check_mac_address(m) == Err::<
                Seq<char>,
                Seq<char>,
            >(mac_not_unicast_msg(m))
        },
        spec_parse_mac(m) matches Err(e) ==> spec_check_mac_address(m) == Err::<Seq<char>, Seq<char>>(e),
{
    if let Ok(b) = spec_parse_mac(m) {
        let zeros = seq![0u8, 0u8, 0u8, 0u8, 0u8, 0u8];
        let ones = seq![0xffu8, 0xffu8, 0xffu8, 0xffu8, 0xffu8, 0xffu8];
        if exists|i: int| 0 <= i < b.len() && b[i] != 0u8 {
            let i = choose|i: int| 0 <= i < b.len() && b[i] != 0u8;
            if b == zeros {
                assert(b[i] == 0u8);
            }
        }
        if exists|i: int| 0 <= i < b.len() && b[i] != 0xffu8 {
            let i = choose|i: int| 0 <= i < b.len() && b[i] != 0xffu8;
            if b == ones {
                assert(b[i] == 0xffu8);
            }
        }
        lemma_parsed_mac_has_six_bytes(m);
        if forall|i: int| 0 <= i < b.len() ==> b[i] == 0u8 {
            assert(b =~= zeros);
        }
        if forall|i: int| 0 <= i < b.len() ==> b[i] == 0xffu8 {
            assert(b =~= ones);
        }
    }
}

/// A creation goes ahead exactly when its options agree: `--mac` only with
/// `--net`, no `--port` beside `--net`, a current directory to resolve a
/// relative socket path, a usable MAC address, and a name (when given) that
/// is not empty and not taken. The first two refusals come with their
/// messages.
pub proof fn law_create_checks(cmd: CreateCmd, vms: Map<Seq<char>, VmConfig>, cwd: Result<Seq<char>, Seq<char>>)
    ensures
        spec_create_failure(cmd, vms, cwd) is None <==> {
            &&& (cmd.mac is Some ==> cmd.net is Some)
            &&& (cmd.net is Some ==> cmd.ports.len() == 0)
            &&& (cmd.net is Some && !is_absolute_path(cmd.net->0@) ==> cwd is Ok)
            &&& (cmd.net is Some && cmd.mac is Some ==> spec_check_mac_address(cmd.mac->0@) is Ok)
            &&& (cmd.name is Some ==> cmd.name->0@.len() > 0 && !vms.dom().contains(cmd.name->0@))
        },
        cmd.mac is Some && cmd.net is None ==> spec_create_failure(cmd, vms, cwd) == Some(
            "--mac requires --net"@,
        ),
        cmd.net is Some && cmd.ports.len() > 0 ==> spec_create_failure(cmd, vms, cwd) == Some(
            "--net and --port are mutually exclusive"@,
        ),
{
}

} // verus!

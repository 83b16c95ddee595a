//! `changevm`: change the configuration of a microVM.

use vstd::prelude::*;
use crate::capability::{spec_validate_capabilities, validate_capabilities};
use crate::commands::balloon::{no_vm_message, no_vm_msg};
use crate::config::{configs_consistent, KrunvmConfig, VmConfig};
use crate::pairs::{path_pairs_map, path_pairs_to_hash_map, port_pairs_map, port_pairs_to_hash_map, PathPair, PortPair};
use crate::strmap::StringMap;
use crate::text::{push_str, string_of, string_views};

verus! {

/// Change the configuration of a microVM
pub struct ChangeVmCmd {
    /// Name of the VM to be modified
    pub name: String,
    /// Assign a new name to the VM
    pub new_name: Option<String>,
    /// Number of vCPUs
    pub cpus: Option<u32>,
    /// Amount of RAM in MiB
    pub mem: Option<u32>,
    /// Working directory inside the microVM
    pub workdir: Option<String>,
    /// Remove all volume mappings
    pub remove_volumes: bool,
    /// Volume(s) in form "host_path:guest_path" to be exposed to the guest
    pub volumes: Vec<PathPair>,
    /// Remove all port mappings
    pub remove_ports: bool,
    /// Port(s) in format "host_port:guest_port" to be exposed to the host
    pub ports: Vec<PortPair>,
    /// Mount the root filesystem as read-only
    pub rootfs_ro: bool,
    /// Remove read-only rootfs setting
    pub remove_rootfs_ro: bool,
    /// Remove all capability drop rules
    pub remove_cap_drop: bool,
    /// Linux capabilities to drop inside the guest VM
    pub cap_drop: Vec<String>,
}

/// What a change did, and what to tell the user.
pub struct ChangeReport {
    /// Messages about options that were not applied, in order.
    pub notices: Vec<String>,
    /// The error that stops the command; nothing was changed then.
    pub failure: Option<String>,
    /// Whether the configuration changed and must be stored.
    pub changed: bool,
    /// The name under which the VM is now found.
    pub vm_name: String,
}

/// Most vCPUs a VM may have.
pub open spec fn max_cpus() -> u32 {
    8
}

/// Most RAM a VM may have, in MiB.
pub open spec fn max_mem() -> u32 {
    16384
}

/// The error that stops a change before anything else is looked at.
pub open spec fn spec_lookup_failure(cmd: ChangeVmCmd, vms: Map<Seq<char>, VmConfig>) -> Option<Seq<char>> {
    match cmd.new_name {
        Some(n) if vms.dom().contains(n@) => Some("A VM with name "@ + n@ + " already exists"@),
        _ => if !vms.dom().contains(cmd.name@) {
            Some(no_vm_msg(cmd.name@))
        } else {
            None
        },
    }
}

/// Notices for limits that an option exceeds; the option is then ignored.
pub open spec fn spec_change_notices(cmd: ChangeVmCmd) -> Seq<Seq<char>> {
    (if cmd.cpus matches Some(c) && c > max_cpus() {
        seq!["Error: the maximum number of CPUs supported is 8"@]
    } else {
        Seq::<Seq<char>>::empty()
    }) + (if cmd.mem matches Some(m) && m > max_mem() {
        seq!["Error: the maximum amount of RAM supported is 16384 MiB"@]
    } else {
        Seq::<Seq<char>>::empty()
    })
}

/// The capability names to store, or the message for the first unknown one.
pub open spec fn spec_new_caps(cmd: ChangeVmCmd) -> Result<Seq<Seq<char>>, Seq<char>> {
    if !cmd.remove_cap_drop && cmd.cap_drop.len() > 0 {
        spec_validate_capabilities(string_views(cmd.cap_drop@))
    } else {
        Ok(Seq::<Seq<char>>::empty())
    }
}

/// The key of the VM after the change.
pub open spec fn spec_new_key(cmd: ChangeVmCmd) -> Seq<char> {
    match cmd.new_name {
        Some(n) => n@,
        None => cmd.name@,
    }
}

/// Whether the change alters the stored configuration.
pub open spec fn spec_changes_config(cmd: ChangeVmCmd) -> bool {
    ||| cmd.new_name is Some
    ||| (cmd.cpus matches Some(c) && c <= max_cpus())
    ||| (cmd.mem matches Some(m) && m <= max_mem())
    ||| cmd.remove_volumes
    ||| cmd.volumes.len() > 0
    ||| cmd.remove_ports
    ||| cmd.ports.len() > 0
    ||| cmd.workdir is Some
    ||| cmd.rootfs_ro
    ||| cmd.remove_rootfs_ro
    ||| cmd.remove_cap_drop
    ||| cmd.cap_drop.len() > 0
}

/// `new` is `old` with the change applied, `caps` being the validated
/// capability names.
pub open spec fn spec_vm_changed(cmd: ChangeVmCmd, old: VmConfig, new: VmConfig, caps: Seq<Seq<char>>) -> bool {
    &&& new.name@ == match cmd.new_name {
        Some(n) => n@,
        None => old.name@,
    }
    &&& new.cpus == match cmd.cpus {
        Some(c) => if c <= max_cpus() {
            c
        } else {
            old.cpus
        },
        None => old.cpus,
    }
    &&& new.mem == match cmd.mem {
        Some(m) => if m <= max_mem() {
            m
        } else {
            old.mem
        },
        None => old.mem,
    }
    &&& new.dns == old.dns
    &&& new.container == old.container
    &&& new.workdir@ == match cmd.workdir {
        Some(w) => w@,
        None => old.workdir@,
    }
    &&& new.mapped_volumes@ == if cmd.remove_volumes {
        Map::<Seq<char>, String>::empty()
    } else if cmd.volumes.len() > 0 {
        path_pairs_map(cmd.volumes@)
    } else {
        old.mapped_volumes@
    }
    &&& new.mapped_ports@ == if cmd.remove_ports {
        Map::<Seq<char>, String>::empty()
    } else if cmd.ports.len() > 0 {
        port_pairs_map(cmd.ports@)
    } else {
        old.mapped_ports@
    }
    &&& new.net_socket == old.net_socket
    &&& new.mac_address == old.mac_address
    &&& new.rootfs_ro == if cmd.rootfs_ro {
        true
    } else if cmd.remove_rootfs_ro {
        false
    } else {
        old.rootfs_ro
    }
    &&& string_views(new.cap_drop@) == if cmd.remove_cap_drop {
        Seq::<Seq<char>>::empty()
    } else if cmd.cap_drop.len() > 0 {
        caps
    } else {
        string_views(old.cap_drop@)
    }
    &&& new.balloon_target_mb == old.balloon_target_mb
    &&& new.control_socket == old.control_socket
}

fn message3(a: &str, b: &str, c: &str) -> (r: String)
    ensures
        r@ == a@ + b@ + c@,
{
    let mut m: Vec<char> = Vec::new();
    push_str(&mut m, a);
    push_str(&mut m, b);
    push_str(&mut m, c);
    string_of(&m)
}

fn has_pairs<T>(v: &Vec<T>) -> (b: bool)
    ensures
        b == (v@.len() > 0),
{
    v.len() > 0
}

impl ChangeVmCmd {
    /// Applies the change to the configuration. A new name must be free and
    /// the VM must exist; vCPUs above 8 and RAM above 16384 MiB are refused
    /// with a notice; capability names must all be known. On a failure the
    /// configuration is left as it was.
    pub fn apply(self, cfg: &mut KrunvmConfig) -> (r: ChangeReport)
        ensures
            match spec_lookup_failure(self, old(cfg).vmconfig_map@) {
                Some(m) => {
                    &&& r.failure matches Some(f) && f@ == m
                    &&& r.notices@.len() == 0
                    &&& !r.changed
                    &&& *final(cfg) == *old(cfg)
                },
                None => {
                    &&& string_views(r.notices@) == spec_change_notices(self)
                    &&& match spec_new_caps(self) {
                        Err(e) => {
                            &&& r.failure matches Some(f) && f@ == e
                            &&& !r.changed
                            &&& *final(cfg) == *old(cfg)
                        },
                        Ok(caps) => {
                            &&& r.failure is None
                            &&& r.changed == spec_changes_config(self)
                            &&& r.vm_name@ == spec_new_key(self)
                            &&& final(cfg).default_cpus == old(cfg).default_cpus
                            &&& final(cfg).default_mem == old(cfg).default_mem
                            &&& final(cfg).default_dns == old(cfg).default_dns
                            &&& final(cfg).storage_volume == old(cfg).storage_volume
                            &&& final(cfg).vmconfig_map@ == old(cfg).vmconfig_map@.remove(
                                self.name@,
                            ).insert(spec_new_key(self), final(cfg).vmconfig_map@[spec_new_key(self)])
                            &&& spec_vm_changed(
                                self,
                                old(cfg).vmconfig_map@[self.name@],
                                final(cfg).vmconfig_map@[spec_new_key(self)],
                                caps,
                            )
                        },
                    }
                },
            },
    {
        let ghost cmd = self;
        let empty_notices: Vec<String> = Vec::new();
        if let Some(new_name) = &self.new_name {
            if cfg.vmconfig_map.contains_key(new_name.as_str()) {
                let f = message3("A VM with name ", new_name.as_str(), " already exists");
                return ChangeReport { notices: empty_notices, failure: Some(f), changed: false, vm_name: self.name };
            }
        }
        if !cfg.vmconfig_map.contains_key(self.name.as_str()) {
            let f = no_vm_message(self.name.as_str());
            return ChangeReport { notices: empty_notices, failure: Some(f), changed: false, vm_name: self.name };
        }
        let mut notices: Vec<String> = Vec::new();
        let cpus_ok = match self.cpus {
            Some(c) => {
                if c > 8 {
                    notices.push("Error: the maximum number of CPUs supported is 8".to_string());
                    false
                } else {
                    true
                }
            },
            None => false,
        };
        let ghost after_cpus = string_views(notices@);
        let mem_ok = match self.mem {
            Some(m) => {
                if m > 16384 {
                    notices.push("Error: the maximum amount of RAM supported is 16384 MiB".to_string());
                    false
                } else {
                    true
                }
            },
            None => false,
        };
        proof {
            assert(string_views(notices@) =~= spec_change_notices(cmd));
        }
        let validated: Option<Vec<String>> = if !self.remove_cap_drop && self.cap_drop.len() > 0 {
            match validate_capabilities(&self.cap_drop) {
                Ok(v) => Some(v),
                Err(e) => {
                    return ChangeReport { notices, failure: Some(e), changed: false, vm_name: self.name };
                },
            }
        } else {
            None
        };
        let mut changed = false;
        let mut vm = match cfg.vmconfig_map.remove(self.name.as_str()) {
            Some(vm) => vm,
            None => {
                return ChangeReport { notices, failure: None, changed: false, vm_name: self.name };
            },
        };
        let ghost old_vm = vm;
        let key = match &self.new_name {
            Some(n) => {
                vm.name = n.clone();
                changed = true;
                n.clone()
            },
            None => self.name.clone(),
        };
        if cpus_ok {
            vm.cpus = self.cpus.unwrap();
            changed = true;
        }
        if mem_ok {
            vm.mem = self.mem.unwrap();
            changed = true;
        }
        if self.remove_volumes {
            vm.mapped_volumes = StringMap::new();
            changed = true;
        } else if has_pairs(&self.volumes) {
            vm.mapped_volumes = path_pairs_to_hash_map(self.volumes);
            changed = true;
        }
        if self.remove_ports {
            vm.mapped_ports = StringMap::new();
            changed = true;
        } else if has_pairs(&self.ports) {
            vm.mapped_ports = port_pairs_to_hash_map(self.ports);
            changed = true;
        }
        if let Some(w) = self.workdir {
            vm.workdir = w;
            changed = true;
        }
        if self.rootfs_ro {
            vm.rootfs_ro = true;
            changed = true;
        } else if self.remove_rootfs_ro {
            vm.rootfs_ro = false;
            changed = true;
        }
        if self.remove_cap_drop {
            vm.cap_drop = Vec::new();
            changed = true;
        } else if let Some(v) = validated {
            vm.cap_drop = v;
            changed = true;
        }
        proof {
            if let Ok(caps) = spec_new_caps(cmd) {
                if cmd.remove_cap_drop {
                    assert(string_views(vm.cap_drop@) =~= Seq::<Seq<char>>::empty());
                }
                assert(spec_vm_changed(cmd, old_vm, vm, caps));
            }
        }
        let ghost mid = cfg.vmconfig_map@;
        let report_name = key.clone();
        cfg.vmconfig_map.insert(key, vm);
        proof {
            assert(cfg.vmconfig_map@ =~= mid.insert(spec_new_key(cmd), vm));
        }
        ChangeReport { notices, failure: None, changed, vm_name: report_name }
    }
}

/// A change that succeeds leaves the VM under its new key only: the old name
/// is gone when the VM was renamed, and every other VM is untouched.
pub proof fn law_change_moves_only_the_vm(
    cmd: ChangeVmCmd,
    before: Map<Seq<char>, VmConfig>,
    after: Map<Seq<char>, VmConfig>,
    vm: VmConfig,
)
    requires
        before.dom().finite(),
        spec_lookup_failure(cmd, before) is None,
        after == before.remove(cmd.name@).insert(spec_new_key(cmd), vm),
    ensures
        after.dom().contains(spec_new_key(cmd)),
        cmd.new_name is Some ==> !after.dom().contains(cmd.name@),
        forall|k: Seq<char>|
            k != cmd.name@ && k != spec_new_key(cmd) ==> (after.dom().contains(k) == before.dom().contains(k)
                && (before.dom().contains(k) ==> after[k] == before[k])),
        after.dom().len() == before.dom().len(),
{
    let removed = before.remove(cmd.name@);
    assert(removed.dom() =~= before.dom().remove(cmd.name@));
    assert(removed.dom().len() == before.dom().len() - 1);
    if let Some(n) = cmd.new_name {
        assert(!before.dom().contains(n@));
        assert(n@ != cmd.name@);
        assert(!removed.dom().contains(n@));
    } else {
        assert(!removed.dom().contains(cmd.name@));
    }
    assert(after.dom() =~= removed.dom().insert(spec_new_key(cmd)));
}

/// An applied change keeps the VM within the limits: its vCPUs and RAM are
/// either unchanged or at most 8 and 16384 MiB.
pub proof fn law_change_respects_limits(cmd: ChangeVmCmd, old: VmConfig, new: VmConfig, caps: Seq<Seq<char>>)
    requires
        spec_vm_changed(cmd, old, new, caps),
    ensures
        new.cpus == old.cpus || new.cpus <= max_cpus(),
        new.mem == old.mem || new.mem <= max_mem(),
{
}

/// A change that succeeds keeps every stored VM under its own name, with a
/// socket exactly when it has a MAC address.
pub proof fn law_change_keeps_configs_consistent(
    cmd: ChangeVmCmd,
    before: Map<Seq<char>, VmConfig>,
    vm: VmConfig,
    caps: Seq<Seq<char>>,
)
    requires
        configs_consistent(before),
        spec_lookup_failure(cmd, before) is None,
        spec_vm_changed(cmd, before[cmd.name@], vm, caps),
    ensures
        configs_consistent(before.remove(cmd.name@).insert(spec_new_key(cmd), vm)),
{
    let after = before.remove(cmd.name@).insert(spec_new_key(cmd), vm);
    assert(before.dom().contains(cmd.name@));
    assert forall|k: Seq<char>| #[trigger] after.dom().contains(k) implies {
        &&& after[k].name@ == k
        &&& (after[k].net_socket is Some <==> after[k].mac_address is Some)
    } by {
        if k != spec_new_key(cmd) {
            assert(before.dom().contains(k));
        }
    }
}

/// An applied change does what each option asks: a vCPU count up to 8 and a
/// RAM size up to 16384 MiB are set (larger ones leave the old value), the
/// new name, working directory, volumes, ports, read-only flag and
/// capability drops replace the old ones as asked, and everything else stays.
pub proof fn law_change_applies_each_option(
    cmd: ChangeVmCmd,
    old: VmConfig,
    new: VmConfig,
    caps: Seq<Seq<char>>,
)
    requires
        spec_vm_changed(cmd, old, new, caps),
    ensures
        cmd.new_name matches Some(n) ==> new.name@ == n@,
        cmd.new_name is None ==> new.name@ == old.name@,
        cmd.cpus matches Some(c) ==> (c <= 8 ==> new.cpus == c),
        (cmd.cpus is None || cmd.cpus->0 > 8) ==> new.cpus == old.cpus,
        cmd.mem matches Some(m) ==> (m <= 16384 ==> new.mem == m),
        (cmd.mem is None || cmd.mem->0 > 16384) ==> new.mem == old.mem,
        cmd.workdir matches Some(w) ==> new.workdir@ == w@,
        cmd.workdir is None ==> new.workdir@ == old.workdir@,
        cmd.remove_volumes ==> new.mapped_volumes@.dom().is_empty(),
        !cmd.remove_volumes && cmd.volumes.len() > 0 ==> new.mapped_volumes@ == path_pairs_map(
            cmd.volumes@,
        ),
        !cmd.remove_volumes && cmd.volumes.len() == 0 ==> new.mapped_volumes@ == old.mapped_volumes@,
        cmd.remove_ports ==> new.mapped_ports@.dom().is_empty(),
        !cmd.remove_ports && cmd.ports.len() > 0 ==> new.mapped_ports@ == port_pairs_map(cmd.ports@),
        !cmd.remove_ports && cmd.ports.len() == 0 ==> new.mapped_ports@ == old.mapped_ports@,
        cmd.rootfs_ro ==> new.rootfs_ro,
        !cmd.rootfs_ro && cmd.remove_rootfs_ro ==> !new.rootfs_ro,
        !cmd.rootfs_ro && !cmd.remove_rootfs_ro ==> new.rootfs_ro == old.rootfs_ro,
        cmd.remove_cap_drop ==> new.cap_drop@.len() == 0,
        !cmd.remove_cap_drop && cmd.cap_drop.len() > 0 ==> string_views(new.cap_drop@) == caps,
        !cmd.remove_cap_drop && cmd.cap_drop.len() == 0 ==> string_views(new.cap_drop@) == string_views(
            old.cap_drop@,
        ),
        new.dns == old.dns,
        new.container == old.container,
        new.net_socket == old.net_socket,
        new.mac_address == old.mac_address,
        new.balloon_target_mb == old.balloon_target_mb,
        new.control_socket == old.control_socket,
{
    if cmd.remove_cap_drop {
        assert(string_views(new.cap_drop@).len() == new.cap_drop@.len());
    }
}

/// A change looks at the VM only when its new name (if any) is free and the
/// VM exists; a vCPU count above 8 or a RAM size above 16384 MiB each bring
/// their notice, in that order, and within the limits there is none.
pub proof fn law_change_lookup_and_notices(cmd: ChangeVmCmd, vms: Map<Seq<char>, VmConfig>)
    ensures
        spec_lookup_failure(cmd, vms) is None <==> ((cmd.new_name is Some ==> !vms.dom().contains(
            cmd.new_name->0@,
        )) && vms.dom().contains(cmd.name@)),
        (cmd.new_name is None || !vms.dom().contains(cmd.new_name->0@)) && !vms.dom().contains(cmd.name@)
            ==> spec_lookup_failure(cmd, vms) == Some("No VM found with name "@ + cmd.name@),
        ({
            let n = spec_change_notices(cmd);
            let cpus_over = cmd.cpus is Some && cmd.cpus->0 > 8;
            let mem_over = cmd.mem is Some && cmd.mem->0 > 16384;
            &&& n.len() == (if cpus_over { 1int } else { 0int }) + (if mem_over { 1int } else { 0int })
            &&& cpus_over ==> n[0] == "Error: the maximum number of CPUs supported is 8"@
            &&& mem_over ==> n.last() == "Error: the maximum amount of RAM supported is 16384 MiB"@
        }),
{
}

/// A change is reported as a change to store exactly when some option asks
/// for one: a change that gives nothing, or only limits that are exceeded,
/// changes nothing.
pub proof fn law_change_reports_changes(cmd: ChangeVmCmd)
    ensures
        !spec_changes_config(cmd) <==> {
            &&& cmd.new_name is None
            &&& (cmd.cpus is None || cmd.cpus->0 > 8)
            &&& (cmd.mem is None || cmd.mem->0 > 16384)
            &&& !cmd.remove_volumes && cmd.volumes.len() == 0
            &&& !cmd.remove_ports && cmd.ports.len() == 0
            &&& cmd.workdir is None
            &&& !cmd.rootfs_ro && !cmd.remove_rootfs_ro
            &&& !cmd.remove_cap_drop && cmd.cap_drop.len() == 0
        },
{
}

} // verus!

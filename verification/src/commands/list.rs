//! `list`: list the microVMs.

use vstd::prelude::*;
use crate::capability::{format_cap_list, spec_cap_list};
use crate::config::VmConfig;
use crate::decimal::{decimal, decimal_string};
use crate::strmap::StringMap;
use crate::text::{join_with, push_all, push_str, string_of, string_views};

verus! {

/// List microVMs
pub struct ListCmd {
    /// Print debug information verbosely
    pub debug: bool,
}

/// What `{:?}` writes for a string: the text in double quotes, with quotes,
/// backslashes and unprintable characters escaped.
pub uninterp spec fn str_debug(s: Seq<char>) -> Seq<char>;

/// `{:?}` of a string.
#[verifier::external_body]
fn debug_of(s: &str) -> (r: String)
    ensures
        r@ == str_debug(s@),
{
    format!("{:?}", s)
}

/// One entry of a map as `{:?}` writes it: `"key": "value"`.
pub open spec fn spec_entry_debug(e: (String, String)) -> Seq<char> {
    str_debug(e.0@) + ": "@ + str_debug(e.1@)
}

/// A string map as `{:?}` writes a map whose entries come in this order.
pub open spec fn spec_map_debug(entries: Seq<(String, String)>) -> Seq<char> {
    "{"@ + join_with(entries.map_values(|e: (String, String)| spec_entry_debug(e)), ", "@) + "}"@
}

/// `{:?}` of the map, its entries in their stored order.
pub fn map_debug(m: &StringMap<String>) -> (r: String)
    ensures
        r@ == spec_map_debug(m.spec_entries()),
{
    let entries = m.entries();
    let ghost items = entries@.map_values(|e: (String, String)| spec_entry_debug(e));
    let mut inner: Vec<char> = Vec::new();
    let mut i: usize = 0;
    proof {
        assert(items.take(0) =~= Seq::<Seq<char>>::empty());
    }
    while i < entries.len()
        invariant
            0 <= i <= entries.len(),
            items == entries@.map_values(|e: (String, String)| spec_entry_debug(e)),
            inner@ == join_with(items.take(i as int), ", "@),
        decreases entries.len() - i,
    {
        let ghost before = inner@;
        if i > 0 {
            push_str(&mut inner, ", ");
        }
        let k = debug_of(entries[i].0.as_str());
        let v = debug_of(entries[i].1.as_str());
        push_str(&mut inner, k.as_str());
        push_str(&mut inner, ": ");
        push_str(&mut inner, v.as_str());
        proof {
            let t = items.take(i + 1);
            assert(t.last() == spec_entry_debug(entries@[i as int]));
            if i == 0 {
                assert(inner@ =~= t[0]);
            } else {
                assert(t.drop_last() =~= items.take(i as int));
                assert(inner@ =~= before + ", "@ + t.last());
            }
        }
        i = i + 1;
    }
    proof {
        assert(items.take(entries@.len() as int) =~= items);
    }
    let mut out: Vec<char> = Vec::new();
    out.push('{');
    push_all(&mut out, inner.as_slice());
    out.push('}');
    proof {
        reveal_strlit("{");
        reveal_strlit("}");
        assert(inner@ == join_with(items, ", "@));
        assert(out@ =~= "{"@ + inner@ + "}"@);
    }
    string_of(&out)
}

/// A line `label` + the value when there is one, none otherwise.
pub open spec fn optional_line(label: Seq<char>, value: Option<String>) -> Seq<Seq<char>> {
    match value {
        Some(v) => seq![label + v@],
        None => Seq::<Seq<char>>::empty(),
    }
}

/// The line for a balloon target, when there is one.
pub open spec fn balloon_line(target: Option<u32>) -> Seq<Seq<char>> {
    match target {
        Some(b) => seq![" Balloon target (MiB): "@ + decimal(b as nat)],
        None => Seq::<Seq<char>>::empty(),
    }
}

/// The line for a read-only root file system, when it is read-only.
pub open spec fn rootfs_ro_line(ro: bool) -> Seq<Seq<char>> {
    if ro {
        seq![" Read-only rootfs: yes"@]
    } else {
        Seq::<Seq<char>>::empty()
    }
}

/// The line for dropped capabilities, when some are dropped.
pub open spec fn cap_drop_line(caps: Seq<Seq<char>>) -> Seq<Seq<char>> {
    if caps.len() > 0 {
        seq![" Dropped capabilities: "@ + spec_cap_list(caps, ", "@)]
    } else {
        Seq::<Seq<char>>::empty()
    }
}

/// The lines that describe a VM: its name, then its settings, the optional
/// ones only when they are set.
pub open spec fn spec_vm_summary(vm: VmConfig) -> Seq<Seq<char>> {
    seq![
        vm.name@,
        " CPUs: "@ + decimal(vm.cpus as nat),
        " RAM (MiB): "@ + decimal(vm.mem as nat),
        " DNS server: "@ + vm.dns@,
        " Buildah container: "@ + vm.container@,
        " Workdir: "@ + vm.workdir@,
        " Mapped volumes: "@ + spec_map_debug(vm.mapped_volumes.spec_entries()),
        " Mapped ports: "@ + spec_map_debug(vm.mapped_ports.spec_entries()),
    ] + balloon_line(vm.balloon_target_mb) + optional_line(" Net socket: "@, vm.net_socket)
        + optional_line(" MAC address: "@, vm.mac_address) + rootfs_ro_line(vm.rootfs_ro)
        + cap_drop_line(string_views(vm.cap_drop@))
}

fn labelled(label: &str, value: &str) -> (r: String)
    ensures
        r@ == label@ + value@,
{
    let mut m: Vec<char> = Vec::new();
    push_str(&mut m, label);
    push_str(&mut m, value);
    string_of(&m)
}

/// The lines that `list` and `changevm` print for a VM.
pub fn vm_summary_lines(vm: &VmConfig) -> (r: Vec<String>)
    ensures
        string_views(r@) == spec_vm_summary(*vm),
{
    let mut lines: Vec<String> = Vec::new();
    lines.push(vm.name.clone());
    lines.push(labelled(" CPUs: ", decimal_string(vm.cpus as u64).as_str()));
    lines.push(labelled(" RAM (MiB): ", decimal_string(vm.mem as u64).as_str()));
    lines.push(labelled(" DNS server: ", vm.dns.as_str()));
    lines.push(labelled(" Buildah container: ", vm.container.as_str()));
    lines.push(labelled(" Workdir: ", vm.workdir.as_str()));
    lines.push(labelled(" Mapped volumes: ", map_debug(&vm.mapped_volumes).as_str()));
    lines.push(labelled(" Mapped ports: ", map_debug(&vm.mapped_ports).as_str()));
    let ghost fixed = string_views(lines@);
    if let Some(b) = vm.balloon_target_mb {
        lines.push(labelled(" Balloon target (MiB): ", decimal_string(b as u64).as_str()));
    }
    let ghost with_balloon = string_views(lines@);
    if let Some(n) = &vm.net_socket {
        lines.push(labelled(" Net socket: ", n.as_str()));
    }
    let ghost with_net = string_views(lines@);
    if let Some(m) = &vm.mac_address {
        lines.push(labelled(" MAC address: ", m.as_str()));
    }
    let ghost with_mac = string_views(lines@);
    if vm.rootfs_ro {
        lines.push(" Read-only rootfs: yes".to_string());
    }
    let ghost with_ro = string_views(lines@);
    if vm.cap_drop.len() > 0 {
        lines.push(labelled(" Dropped capabilities: ", format_cap_list(&vm.cap_drop, ", ").as_str()));
    }
    proof {
        let b_part = balloon_line(vm.balloon_target_mb);
        let n_part = optional_line(" Net socket: "@, vm.net_socket);
        let m_part = optional_line(" MAC address: "@, vm.mac_address);
        let r_part = rootfs_ro_line(vm.rootfs_ro);
        let c_part = cap_drop_line(string_views(vm.cap_drop@));
        assert(with_balloon =~= fixed + b_part);
        assert(with_net =~= fixed + b_part + n_part);
        assert(with_mac =~= fixed + b_part + n_part + m_part);
        assert(with_ro =~= fixed + b_part + n_part + m_part + r_part);
        assert(string_views(lines@) =~= fixed + b_part + n_part + m_part + r_part + c_part);
    }
    lines
}

/// A VM is described by its name, then its vCPUs, RAM, DNS server,
/// container, working directory and mappings, then one line for each
/// optional setting that is set, in a fixed order.
pub proof fn law_summary_describes_vm(vm: VmConfig)
    ensures
        ({
            let l = spec_vm_summary(vm);
            let extra = (if vm.balloon_target_mb is Some { 1int } else { 0int }) + (if vm.net_socket is Some {
                1int
            } else {
                0int
            }) + (if vm.mac_address is Some { 1int } else { 0int }) + (if vm.rootfs_ro { 1int } else { 0int })
                + (if vm.cap_drop@.len() > 0 { 1int } else { 0int });
            &&& l.len() == 8 + extra
            &&& l[0] == vm.name@
            &&& l[1] == " CPUs: "@ + decimal(vm.cpus as nat)
            &&& l[2] == " RAM (MiB): "@ + decimal(vm.mem as nat)
            &&& l[3] == " DNS server: "@ + vm.dns@
            &&& l[4] == " Buildah container: "@ + vm.container@
            &&& l[5] == " Workdir: "@ + vm.workdir@
            &&& vm.balloon_target_mb matches Some(b) ==> l[8] == " Balloon target (MiB): "@ + decimal(b as nat)
            &&& vm.cap_drop@.len() > 0 ==> l.last() == " Dropped capabilities: "@ + spec_cap_list(
                string_views(vm.cap_drop@),
                ", "@,
            )
        }),
{
}

} // verus!

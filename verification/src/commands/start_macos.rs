//! The parts of `start` used where volumes are shared over virtio-fs and
//! mounted by a helper script in the guest (macOS hosts).

use vstd::prelude::*;
use crate::commands::start::{
    capsh_lines, cd_line, clone_strings, exec_view, spec_capsh_lines, spec_cd_line, ExecSetup,
};
use crate::decimal::{decimal, decimal_chars};
use crate::shell::{shell_escape, spec_shell_escape};
use crate::strmap::StringMap;
use crate::text::{push_all, push_str, string_of, string_views};

verus! {

/// A host directory shared with the guest under a virtio-fs tag.
pub struct VirtiofsShare {
    pub tag: String,
    pub host_path: String,
    pub guest_path: String,
}

/// The helper script that mounts the shares and runs the command.
pub struct MountWrapper {
    /// Where the script is written on the host.
    pub script_host_path: String,
    pub script: String,
    /// The script's path in the guest.
    pub exec_path: String,
    pub argv: Vec<String>,
}

/// The tag of the share with index `idx`.
pub open spec fn spec_share_tag(idx: nat) -> Seq<char> {
    "krunvm"@ + decimal(idx)
}

/// Tag, host path and guest path of each volume, in the map's order.
pub open spec fn spec_shares(entries: Seq<(String, String)>) -> Seq<(Seq<char>, Seq<char>, Seq<char>)> {
    Seq::new(entries.len(), |i: int| (spec_share_tag(i as nat), entries[i].0@, entries[i].1@))
}

/// Shares seen as plain values.
pub open spec fn shares_view(v: Seq<VirtiofsShare>) -> Seq<(Seq<char>, Seq<char>, Seq<char>)> {
    v.map_values(|s: VirtiofsShare| (s.tag@, s.host_path@, s.guest_path@))
}

/// The shares for the volumes of a VM, tagged `krunvm0`, `krunvm1`, ...
pub fn virtiofs_shares(volumes: &StringMap<String>) -> (r: Vec<VirtiofsShare>)
    ensures
        shares_view(r@) == spec_shares(volumes.spec_entries()),
{
    let es = volumes.entries();
    let mut out: Vec<VirtiofsShare> = Vec::new();
    let mut i: usize = 0;
    while i < es.len()
        invariant
            0 <= i <= es.len(),
            es@ == volumes.spec_entries(),
            shares_view(out@) == spec_shares(es@.take(i as int)),
        decreases es.len() - i,
    {
        let mut t: Vec<char> = Vec::new();
        push_str(&mut t, "krunvm");
        let d = decimal_chars(i as u64);
        push_all(&mut t, d.as_slice());
        let share = VirtiofsShare {
            tag: string_of(&t),
            host_path: es[i].0.clone(),
            guest_path: es[i].1.clone(),
        };
        let ghost prev = shares_view(out@);
        let ghost item = (share.tag@, share.host_path@, share.guest_path@);
        proof {
            assert(spec_shares(es@.take(i + 1)) =~= spec_shares(es@.take(i as int)).push(item));
        }
        out.push(share);
        i = i + 1;
        proof {
            assert(shares_view(out@) =~= prev.push(item));
        }
    }
    proof {
        assert(es@.take(i as int) =~= es@);
    }
    out
}

/// The mount lines of the helper script.
pub open spec fn spec_mount_lines(shares: Seq<(Seq<char>, Seq<char>, Seq<char>)>) -> Seq<char>
    decreases shares.len(),
{
    if shares.len() == 0 {
        Seq::<char>::empty()
    } else {
        spec_mount_lines(shares.drop_last()) + "mount -t virtiofs "@ + shares.last().0 + " "@
            + spec_shell_escape(shares.last().2) + "\n"@
    }
}

/// The helper script that mounts the shares, changes to the working
/// directory and runs the command given as its arguments, dropping `caps`
/// when there are any.
pub open spec fn spec_mount_script(
    workdir: Seq<char>,
    shares: Seq<(Seq<char>, Seq<char>, Seq<char>)>,
    caps: Seq<Seq<char>>,
) -> Seq<char> {
    "#!/bin/sh\n"@ + "set -e\n"@ + spec_mount_lines(shares) + spec_cd_line(workdir) + if caps.len()
        == 0 {
        "exec \"$@\"\n"@
    } else {
        spec_capsh_lines(caps)
    }
}

/// The text of the helper script.
pub fn mount_script(workdir: &str, shares: &Vec<VirtiofsShare>, cap_drop: &Vec<String>) -> (r: String)
    ensures
        r@ == spec_mount_script(workdir@, shares_view(shares@), string_views(cap_drop@)),
{
    let mut m: Vec<char> = Vec::new();
    push_str(&mut m, "#!/bin/sh\n");
    push_str(&mut m, "set -e\n");
    let ghost head = m@;
    let mut i: usize = 0;
    proof {
        assert(shares_view(shares@).take(0) =~= Seq::<(Seq<char>, Seq<char>, Seq<char>)>::empty());
        assert(m@ =~= head + spec_mount_lines(shares_view(shares@).take(0)));
    }
    while i < shares.len()
        invariant
            0 <= i <= shares.len(),
            m@ == head + spec_mount_lines(shares_view(shares@).take(i as int)),
        decreases shares.len() - i,
    {
        let ghost before = m@;
        push_str(&mut m, "mount -t virtiofs ");
        push_str(&mut m, shares[i].tag.as_str());
        push_str(&mut m, " ");
        let e = shell_escape(shares[i].guest_path.as_str());
        push_str(&mut m, e.as_str());
        push_str(&mut m, "\n");
        proof {
            let t = shares_view(shares@).take(i + 1);
            assert(t.drop_last() =~= shares_view(shares@).take(i as int));
            assert(t.last() == (shares@[i as int].tag@, shares@[i as int].host_path@, shares@[i as int].guest_path@));
            assert(m@ =~= head + spec_mount_lines(t));
        }
        i = i + 1;
    }
    proof {
        assert(shares_view(shares@).take(i as int) =~= shares_view(shares@));
    }
    let cd = cd_line(workdir);
    push_str(&mut m, cd.as_str());
    if cap_drop.len() == 0 {
        push_str(&mut m, "exec \"$@\"\n");
    } else {
        let lines = capsh_lines(cap_drop);
        push_str(&mut m, lines.as_str());
    }
    proof {
        assert(m@ =~= spec_mount_script(workdir@, shares_view(shares@), string_views(cap_drop@)));
    }
    string_of(&m)
}

/// The command line that the helper script runs: the given command and its
/// arguments; without a command, the image's command (or `/bin/sh` when it
/// has none) followed by the arguments.
pub open spec fn spec_wrapper_argv(
    cmd: Option<Seq<char>>,
    args: Seq<Seq<char>>,
    oci_cmd: Seq<Seq<char>>,
) -> Seq<Seq<char>> {
    match cmd {
        Some(c) => seq![c] + args,
        None => (if oci_cmd.len() == 0 {
            seq!["/bin/sh"@]
        } else {
            oci_cmd
        }) + args,
    }
}

fn append_all(out: &mut Vec<String>, v: &Vec<String>)
    ensures
        string_views(final(out)@) == string_views(old(out)@) + string_views(v@),
{
    let ghost start = string_views(out@);
    let mut i: usize = 0;
    proof {
        assert(string_views(v@).take(0) =~= Seq::<Seq<char>>::empty());
        assert(string_views(out@) =~= start + string_views(v@).take(0));
    }
    while i < v.len()
        invariant
            0 <= i <= v.len(),
            string_views(out@) == start + string_views(v@).take(i as int),
        decreases v.len() - i,
    {
        let ghost prev = string_views(out@);
        let s = v[i].clone();
        out.push(s);
        i = i + 1;
        proof {
            assert(string_views(out@) =~= prev.push(s@));
            assert(string_views(v@).take(i as int) =~= string_views(v@).take(i - 1).push(s@));
            assert(string_views(out@) =~= start + string_views(v@).take(i as int));
        }
    }
    proof {
        assert(string_views(v@).take(i as int) =~= string_views(v@));
    }
}

/// The helper script and how to run it, when there are shares to mount or
/// capabilities to drop. `oci_cmd` is the image's command, consulted only
/// when no command is given.
pub fn mount_wrapper(
    rootfs: &str,
    workdir: &str,
    shares: &Vec<VirtiofsShare>,
    cap_drop: &Vec<String>,
    cmd: Option<&str>,
    args: &Vec<String>,
    oci_cmd: &Vec<String>,
) -> (r: Option<MountWrapper>)
    ensures
        (shares@.len() == 0 && cap_drop@.len() == 0) <==> r is None,
        r matches Some(w) ==> {
            &&& w.script_host_path@ == rootfs@ + "/.krunvm-mount.sh"@
            &&& w.script@ == spec_mount_script(workdir@, shares_view(shares@), string_views(cap_drop@))
            &&& w.exec_path@ == "/.krunvm-mount.sh"@
            &&& string_views(w.argv@) == spec_wrapper_argv(
                match cmd {
                    Some(c) => Some(c@),
                    None => None,
                },
                string_views(args@),
                string_views(oci_cmd@),
            )
        },
{
    if shares.len() == 0 && cap_drop.len() == 0 {
        return None;
    }
    let script = mount_script(workdir, shares, cap_drop);
    let mut argv: Vec<String> = Vec::new();
    match cmd {
        Some(c) => {
            argv.push(c.to_string());
        },
        None => {
            if oci_cmd.len() == 0 {
                argv.push("/bin/sh".to_string());
            } else {
                append_all(&mut argv, oci_cmd);
            }
        },
    }
    let ghost head = string_views(argv@);
    append_all(&mut argv, args);
    proof {
        assert(string_views(argv@) =~= spec_wrapper_argv(
            match cmd {
                Some(c) => Some(c@),
                None => None,
            },
            string_views(args@),
            string_views(oci_cmd@),
        ));
    }
    let mut p: Vec<char> = Vec::new();
    push_str(&mut p, rootfs);
    push_str(&mut p, "/.krunvm-mount.sh");
    Some(MountWrapper {
        script_host_path: string_of(&p),
        script,
        exec_path: "/.krunvm-mount.sh".to_string(),
        argv,
    })
}

/// The `Entrypoint` and `Cmd` members of an image configuration: for each,
/// the array elements (a string, or nothing for another kind of value), or
/// nothing when the member is missing or not an array.
pub struct OciConfigArrays {
    pub entrypoint: Option<Vec<Option<String>>>,
    pub cmd: Option<Vec<Option<String>>>,
}

/// An optional array of optional strings as plain values.
pub type OptStrArray = Option<Seq<Option<Seq<char>>>>;

/// Array elements seen as plain values.
pub open spec fn items_view(v: Option<Vec<Option<String>>>) -> OptStrArray {
    match v {
        Some(items) => Some(
            items@.map_values(
                |x: Option<String>|
                    match x {
                        Some(s) => Some(s@),
                        None => None,
                    },
            ),
        ),
        None => None,
    }
}

/// What serde_json reads from `text` at `<section>.config`: the
/// `Entrypoint` and `Cmd` arrays; nothing when `text` is not JSON or the
/// section or its `config` member is missing.
pub uninterp spec fn json_oci_config_of(text: Seq<char>, section: Seq<char>) -> Option<
    (OptStrArray, OptStrArray),
>;

/// `serde_json::from_str::<serde_json::Value>`, then `get(section)`,
/// `get("config")`, and for `Entrypoint` and `Cmd` `get` / `as_array` /
/// `as_str` on each element. The contract only names the result.
#[verifier::external_body]
fn oci_config_section(text: &str, section: &str) -> (r: Option<OciConfigArrays>)
    ensures
        match r {
            Some(a) => json_oci_config_of(text@, section@) == Some((items_view(a.entrypoint), items_view(a.cmd))),
            None => json_oci_config_of(text@, section@) is None,
        },
{
    let v: serde_json::Value = match serde_json::from_str(text) {
        Ok(v) => v,
        Err(_) => return None,
    };
    let c = v.get(section)?.get("config")?;
    let arr = |key: &str| {
        c.get(key)
            .and_then(serde_json::Value::as_array)
            .map(|a| a.iter().map(|e| e.as_str().map(String::from)).collect())
    };
    Some(OciConfigArrays { entrypoint: arr("Entrypoint"), cmd: arr("Cmd") })
}

/// The strings of an array, other values skipped; nothing for no array.
pub open spec fn spec_string_items(a: OptStrArray) -> Seq<Seq<char>> {
    match a {
        None => Seq::<Seq<char>>::empty(),
        Some(items) => items.filter(|x: Option<Seq<char>>| x is Some).map_values(
            |x: Option<Seq<char>>| x->0,
        ),
    }
}

proof fn lemma_filter_push(items: Seq<Option<Seq<char>>>, x: Option<Seq<char>>)
    ensures
        items.push(x).filter(|y: Option<Seq<char>>| y is Some) == if x is Some {
            items.filter(|y: Option<Seq<char>>| y is Some).push(x)
        } else {
            items.filter(|y: Option<Seq<char>>| y is Some)
        },
{
    reveal_with_fuel(Seq::filter, 1);
    assert(items.push(x).drop_last() =~= items);
}

/// The strings of an array, other values skipped (empty for no array).
pub fn string_items(a: &Option<Vec<Option<String>>>) -> (r: Vec<String>)
    ensures
        string_views(r@) == spec_string_items(items_view(*a)),
{
    let mut out: Vec<String> = Vec::new();
    match a {
        None => {
            proof {
                assert(string_views(out@) =~= Seq::<Seq<char>>::empty());
            }
        },
        Some(items) => {
            let ghost iv = items_view(*a)->0;
            let mut i: usize = 0;
            proof {
                assert(iv.take(0) =~= Seq::<Option<Seq<char>>>::empty());
                assert(iv.take(0).filter(|y: Option<Seq<char>>| y is Some) =~= Seq::<Option<Seq<char>>>::empty()) by {
                    reveal_with_fuel(Seq::filter, 1);
                }
            }
            while i < items.len()
                invariant
                    0 <= i <= items.len(),
                    iv == items_view(*a)->0,
                    *a == Some(*items),
                    iv.len() == items@.len(),
                    string_views(out@) == iv.take(i as int).filter(|y: Option<Seq<char>>| y is Some).map_values(
                        |x: Option<Seq<char>>| x->0,
                    ),
                decreases items.len() - i,
            {
                let ghost prev = string_views(out@);
                proof {
                    assert(iv.take(i + 1) =~= iv.take(i as int).push(iv[i as int]));
                    lemma_filter_push(iv.take(i as int), iv[i as int]);
                }
                match &items[i] {
                    Some(s) => {
                        out.push(s.clone());
                        proof {
                            assert(string_views(out@) =~= prev.push(s@));
                        }
                    },
                    None => {},
                }
                i = i + 1;
                proof {
                    assert(string_views(out@) =~= iv.take(i as int).filter(|y: Option<Seq<char>>| y is Some).map_values(
                        |x: Option<Seq<char>>| x->0,
                    ));
                }
            }
            proof {
                assert(iv.take(i as int) =~= iv);
            }
        },
    }
    out
}

/// The command of an image by the OCI rules: in the `OCIv1` section, then
/// the `Docker` one, Entrypoint followed by Cmd from the first section that
/// has either; empty when none has.
pub open spec fn spec_oci_command(text: Seq<char>) -> Seq<Seq<char>> {
    let first = json_oci_config_of(text, "OCIv1"@);
    let second = json_oci_config_of(text, "Docker"@);
    let from = |s: Option<(OptStrArray, OptStrArray)>|
        match s {
            Some((e, c)) => spec_string_items(e) + spec_string_items(c),
            None => Seq::<Seq<char>>::empty(),
        };
    if from(first).len() > 0 {
        from(first)
    } else {
        from(second)
    }
}

/// Entrypoint and Cmd of one section, or nothing for a missing section.
fn section_command(text: &str, section: &str) -> (r: Vec<String>)
    ensures
        string_views(r@) == match json_oci_config_of(text@, section@) {
            Some((e, c)) => spec_string_items(e) + spec_string_items(c),
            None => Seq::<Seq<char>>::empty(),
        },
{
    match oci_config_section(text, section) {
        None => Vec::new(),
        Some(arrays) => {
            let mut r = string_items(&arrays.entrypoint);
            let c = string_items(&arrays.cmd);
            append_all(&mut r, &c);
            r
        },
    }
}

/// Resolve the OCI command from the text of `.krun_config.json`:
/// Entrypoint + Cmd when both are set, either one alone otherwise, and
/// empty when neither is (the caller falls back to `/bin/sh`).
pub fn resolve_oci_cmd_from_config(config_text: &str) -> (r: Vec<String>)
    ensures
        string_views(r@) == spec_oci_command(config_text@),
{
    let first = section_command(config_text, "OCIv1");
    if first.len() > 0 {
        return first;
    }
    section_command(config_text, "Docker")
}

/// What the guest runs on a macOS host: the mount helper when there is one,
/// else the given command with its arguments, else the image's own command.
pub fn hosted_launch(wrapper: Option<MountWrapper>, cmd: Option<&str>, args: &Vec<String>) -> (r: ExecSetup)
    ensures
        exec_view(r) == match wrapper {
            Some(w) => (1int, Seq::<char>::empty(), Seq::<char>::empty(), w.exec_path@, string_views(w.argv@)),
            None => match cmd {
                Some(c) => (1int, Seq::<char>::empty(), Seq::<char>::empty(), c@, string_views(args@)),
                None => (
                    2int,
                    Seq::<char>::empty(),
                    Seq::<char>::empty(),
                    Seq::<char>::empty(),
                    Seq::<Seq<char>>::empty(),
                ),
            },
        },
{
    match wrapper {
        Some(w) => ExecSetup::Command { path: w.exec_path, argv: w.argv },
        None => match cmd {
            Some(c) => ExecSetup::Command { path: c.to_string(), argv: clone_strings(args) },
            None => ExecSetup::EnvOnly,
        },
    }
}

/// The mount helper runs the given command followed by exactly the given
/// arguments, in order; without a command it runs the image's command, or
/// `/bin/sh` when the image has none, followed by the arguments.
pub proof fn law_wrapper_runs_given_command(
    cmd: Option<Seq<char>>,
    args: Seq<Seq<char>>,
    oci_cmd: Seq<Seq<char>>,
)
    ensures
        cmd matches Some(c) ==> {
            let a = spec_wrapper_argv(cmd, args, oci_cmd);
            &&& a.len() == 1 + args.len()
            &&& a[0] == c
            &&& forall|i: int| 0 <= i < args.len() ==> a[i + 1] == #[trigger] args[i]
        },
        cmd is None ==> {
            let a = spec_wrapper_argv(cmd, args, oci_cmd);
            let head = if oci_cmd.len() == 0 {
                1
            } else {
                oci_cmd.len()
            };
            &&& a.len() == head + args.len()
            &&& oci_cmd.len() == 0 ==> a[0] == "/bin/sh"@
            &&& forall|i: int| 0 <= i < oci_cmd.len() ==> a[i] == #[trigger] oci_cmd[i]
            &&& forall|i: int| 0 <= i < args.len() ==> a[head + i] == #[trigger] args[i]
        },
{
}

/// Each volume becomes one share, in order, with its host and guest paths,
/// and no two shares carry the same tag.
pub proof fn law_shares_follow_volumes(entries: Seq<(String, String)>)
    ensures
        spec_shares(entries).len() == entries.len(),
        forall|i: int|
            0 <= i < entries.len() ==> (#[trigger] spec_shares(entries)[i]).1 == entries[i].0@
                && spec_shares(entries)[i].2 == entries[i].1@,
        forall|i: int, j: int|
            0 <= i < entries.len() && 0 <= j < entries.len() && i != j ==> (#[trigger] spec_shares(
                entries,
            )[i]).0 != (#[trigger] spec_shares(entries)[j]).0,
{
    assert forall|i: int, j: int|
        0 <= i < entries.len() && 0 <= j < entries.len() && i != j implies (#[trigger] spec_shares(
            entries,
        )[i]).0 != (#[trigger] spec_shares(entries)[j]).0 by {
        let ti = spec_share_tag(i as nat);
        let tj = spec_share_tag(j as nat);
        if ti == tj {
            reveal_strlit("krunvm");
            assert(ti.skip(6) =~= decimal(i as nat));
            assert(tj.skip(6) =~= decimal(j as nat));
            crate::decimal::lemma_decimal(i as nat);
            crate::decimal::lemma_decimal(j as nat);
        }
    }
}

} // verus!

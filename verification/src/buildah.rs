//! Arguments for the buildah invocations that manage the VM root file systems.

use vstd::prelude::*;
use crate::config::KrunvmConfig;
use crate::text::{push_str, string_of, string_views};

verus! {

/// The buildah operations in use.
pub enum BuildahCommand {
    From,
    Inspect,
    Mount,
    Unmount,
    Remove,
}

/// The buildah subcommand for an operation.
pub open spec fn buildah_verb(cmd: BuildahCommand) -> Seq<char> {
    match cmd {
        BuildahCommand::From => "from"@,
        BuildahCommand::Inspect => "inspect"@,
        BuildahCommand::Mount => "mount"@,
        BuildahCommand::Unmount => "umount"@,
        BuildahCommand::Remove => "rm"@,
    }
}

/// Arguments on a system with buildah's default storage (Linux).
pub fn get_buildah_args(_cfg: &KrunvmConfig, cmd: BuildahCommand) -> (r: Vec<String>)
    ensures
        string_views(r@) == seq![buildah_verb(cmd)],
{
    let mut v: Vec<String> = Vec::new();
    match cmd {
        BuildahCommand::From => v.push("from".to_string()),
        BuildahCommand::Inspect => v.push("inspect".to_string()),
        BuildahCommand::Mount => v.push("mount".to_string()),
        BuildahCommand::Unmount => v.push("umount".to_string()),
        BuildahCommand::Remove => v.push("rm".to_string()),
    }
    proof {
        assert(string_views(v@) =~= seq![buildah_verb(cmd)]);
    }
    v
}

/// Arguments with storage under the configured volume and the container
/// policy files under `prefix`, the installation directory (macOS).
pub open spec fn spec_buildah_args_hosted(
    storage_volume: Seq<char>,
    prefix: Seq<char>,
    cmd: BuildahCommand,
) -> Seq<Seq<char>> {
    let base = seq![
        "--root"@,
        storage_volume + "/root"@,
        "--runroot"@,
        storage_volume + "/runroot"@,
    ];
    match cmd {
        BuildahCommand::From => base + seq![
            "--signature-policy"@,
            prefix + "/etc/containers/policy.json"@,
            "--registries-conf"@,
            prefix + "/etc/containers/registries.conf"@,
            "from"@,
            "--os"@,
            "linux"@,
        ],
        _ => base.push(buildah_verb(cmd)),
    }
}

fn concat_str(a: &str, b: &str) -> (r: String)
    ensures
        r@ == a@ + b@,
{
    let mut v: Vec<char> = Vec::new();
    push_str(&mut v, a);
    push_str(&mut v, b);
    string_of(&v)
}

/// Arguments with storage under the configured volume and the container
/// policy files under `prefix`, the installation directory (macOS layout).
pub fn get_buildah_args_hosted(cfg: &KrunvmConfig, cmd: BuildahCommand, prefix: &str) -> (r: Vec<
    String,
>)
    ensures
        string_views(r@) == spec_buildah_args_hosted(cfg.storage_volume@, prefix@, cmd),
{
    let mut args: Vec<String> = Vec::new();
    args.push("--root".to_string());
    args.push(concat_str(cfg.storage_volume.as_str(), "/root"));
    args.push("--runroot".to_string());
    args.push(concat_str(cfg.storage_volume.as_str(), "/runroot"));
    match cmd {
        BuildahCommand::From => {
            args.push("--signature-policy".to_string());
            args.push(concat_str(prefix, "/etc/containers/policy.json"));
            args.push("--registries-conf".to_string());
            args.push(concat_str(prefix, "/etc/containers/registries.conf"));
            args.push("from".to_string());
            args.push("--os".to_string());
            args.push("linux".to_string());
        },
        BuildahCommand::Inspect => args.push("inspect".to_string()),
        BuildahCommand::Mount => args.push("mount".to_string()),
        BuildahCommand::Unmount => args.push("umount".to_string()),
        BuildahCommand::Remove => args.push("rm".to_string()),
    }
    proof {
        assert(string_views(args@) =~= spec_buildah_args_hosted(
            cfg.storage_volume@,
            prefix@,
            cmd,
        ));
    }
    args
}

/// `args` followed by the object of the operation (an image or a container).
pub fn with_operand(args: Vec<String>, operand: &str) -> (r: Vec<String>)
    ensures
        string_views(r@) == string_views(args@).push(operand@),
{
    let mut r = args;
    let ghost before = r@;
    r.push(operand.to_string());
    proof {
        assert(string_views(r@) =~= string_views(before).push(operand@));
    }
    r
}

/// What `Path::parent` gives for the path `p`: the path without its final
/// component, or nothing when `p` ends in a root or is empty.
pub uninterp spec fn path_parent_of(p: Seq<char>) -> Option<Seq<char>>;

/// `Path::parent` of the path `p`.
#[verifier::external_body]
fn path_parent(p: &str) -> (r: Option<String>)
    ensures
        match r {
            Some(q) => path_parent_of(p@) == Some(q@),
            None => path_parent_of(p@) is None,
        },
{
    match std::path::Path::new(p).parent() {
        Some(q) => Some(q.display().to_string()),
        None => None,
    }
}

/// The path after `PathBuf::pop`: its parent, or the path itself when it has
/// none.
pub open spec fn spec_pop_path(p: Seq<char>) -> Seq<char> {
    match path_parent_of(p) {
        Some(q) => q,
        None => p,
    }
}

/// The installation directory of the program at `exe_path`: two levels up
/// from the executable (`<prefix>/bin/krunvm`).
pub fn install_prefix(exe_path: &str) -> (r: String)
    ensures
        r@ == spec_pop_path(spec_pop_path(exe_path@)),
{
    let once = match path_parent(exe_path) {
        Some(q) => q,
        None => exe_path.to_string(),
    };
    match path_parent(once.as_str()) {
        Some(q) => q,
        None => once,
    }
}

/// Each operation runs the buildah subcommand of its name.
pub proof fn law_buildah_verbs()
    ensures
        buildah_verb(BuildahCommand::From) == "from"@,
        buildah_verb(BuildahCommand::Inspect) == "inspect"@,
        buildah_verb(BuildahCommand::Mount) == "mount"@,
        buildah_verb(BuildahCommand::Unmount) == "umount"@,
        buildah_verb(BuildahCommand::Remove) == "rm"@,
{
}

/// With hosted storage every buildah call first names the root and run-root
/// under the storage volume; an image is fetched with the installation's
/// policy and registries files for a Linux guest, and every other operation
/// ends with its own subcommand.
pub proof fn law_hosted_args_use_storage(storage_volume: Seq<char>, prefix: Seq<char>, cmd: BuildahCommand)
    ensures
        ({
            let a = spec_buildah_args_hosted(storage_volume, prefix, cmd);
            &&& a.len() >= 5
            &&& a[0] == "--root"@ && a[1] == storage_volume + "/root"@
            &&& a[2] == "--runroot"@ && a[3] == storage_volume + "/runroot"@
            &&& cmd is From ==> a.len() == 11 && a[5] == prefix + "/etc/containers/policy.json"@ && a[7]
                == prefix + "/etc/containers/registries.conf"@ && a[8] == "from"@ && a[9] == "--os"@
                && a[10] == "linux"@
            &&& !(cmd is From) ==> a.len() == 5 && a[4] == buildah_verb(cmd)
        }),
{
}

} // verus!

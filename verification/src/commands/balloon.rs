//! `balloon`: adjust or query the memory balloon of a running microVM.

use vstd::prelude::*;
use crate::balloon::{balloon_set_cmd, control_socket_path, spec_balloon_set_cmd, spec_control_socket_path};
use crate::config::KrunvmConfig;
use crate::decimal::{decimal, decimal_chars};
use crate::text::{push_all, push_str, string_of};

verus! {

/// Adjust or query the memory balloon of a running microVM
pub struct BalloonCmd {
    /// Name of the microVM
    pub name: String,
    /// Set balloon inflation target in MiB (how much memory to reclaim from VM)
    pub target: Option<u32>,
    /// Show current balloon statistics (actual/target/free in MiB)
    pub stats: bool,
}

/// What to send over the control socket.
pub struct BalloonPlan {
    /// The control socket of the VM.
    pub socket: String,
    /// The `balloon_set` command, when a target was given.
    pub set_command: Option<String>,
    /// Whether to ask for statistics afterwards.
    pub query_stats: bool,
}

/// "No VM found with name <name>".
pub open spec fn no_vm_msg(name: Seq<char>) -> Seq<char> {
    "No VM found with name "@ + name
}

/// The line that reports balloon statistics.
pub open spec fn spec_stats_report(actual: u64, target: u64, free: u64) -> Seq<char> {
    "actual: "@ + decimal(actual as nat) + " MiB, target: "@ + decimal(target as nat)
        + " MiB, free: "@ + decimal(free as nat) + " MiB"@
}

/// Formats balloon statistics for the user.
pub fn stats_report(actual: u64, target: u64, free: u64) -> (r: String)
    ensures
        r@ == spec_stats_report(actual, target, free),
{
    let mut m: Vec<char> = Vec::new();
    push_str(&mut m, "actual: ");
    let a = decimal_chars(actual);
    push_all(&mut m, a.as_slice());
    push_str(&mut m, " MiB, target: ");
    let t = decimal_chars(target);
    push_all(&mut m, t.as_slice());
    push_str(&mut m, " MiB, free: ");
    let f = decimal_chars(free);
    push_all(&mut m, f.as_slice());
    push_str(&mut m, " MiB");
    string_of(&m)
}

/// The message for a VM that does not exist.
pub fn no_vm_message(name: &str) -> (r: String)
    ensures
        r@ == no_vm_msg(name@),
{
    let mut m: Vec<char> = Vec::new();
    push_str(&mut m, "No VM found with name ");
    push_str(&mut m, name);
    string_of(&m)
}

impl BalloonCmd {
    /// Decides what to send: the VM must exist and at least one of
    /// `--target` and `--stats` must be given; the socket is the VM's own
    /// control socket or the default one for its name.
    pub fn plan(&self, cfg: &KrunvmConfig) -> (r: Result<BalloonPlan, String>)
        ensures
            !cfg.vmconfig_map@.dom().contains(self.name@) ==> (r matches Err(e) && e@ == no_vm_msg(
                self.name@,
            )),
            cfg.vmconfig_map@.dom().contains(self.name@) && !self.stats && self.target is None
                ==> (r matches Err(e) && e@ == "Either --target or --stats must be specified"@),
            cfg.vmconfig_map@.dom().contains(self.name@) && (self.stats || self.target is Some)
                ==> (r matches Ok(p) && {
                &&& p.socket@ == match cfg.vmconfig_map@[self.name@].control_socket {
                    Some(s) => s@,
                    None => spec_control_socket_path(self.name@),
                }
                &&& p.query_stats == self.stats
                &&& match self.target {
                    Some(t) => p.set_command matches Some(c) && c@ == spec_balloon_set_cmd(t),
                    None => p.set_command is None,
                }
            }),
    {
        let vm = match cfg.vmconfig_map.get(self.name.as_str()) {
            None => {
                return Err(no_vm_message(self.name.as_str()));
            },
            Some(vm) => vm,
        };
        if !self.stats && self.target.is_none() {
            return Err("Either --target or --stats must be specified".to_string());
        }
        let socket = match &vm.control_socket {
            Some(s) => s.clone(),
            None => control_socket_path(self.name.as_str()),
        };
        let set_command = match self.target {
            Some(t) => Some(balloon_set_cmd(t)),
            None => None,
        };
        Ok(BalloonPlan { socket, set_command, query_stats: self.stats })
    }
}

} // verus!

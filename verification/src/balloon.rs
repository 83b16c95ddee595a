//! The memory balloon: validation of targets, page counts, and the JSON
//! exchanged with a running VM over its control socket.

use vstd::prelude::*;
use crate::decimal::{decimal, decimal_chars};
use crate::text::{push_all, push_str, string_of};

verus! {

/// Smallest memory, in MiB, that a VM may keep resident.
pub open spec fn min_balloon_mib() -> nat {
    32
}

/// The balloon target `balloon_mb` checked against the VM memory `mem_mb`.
pub open spec fn spec_validate_balloon(balloon_mb: u32, mem_mb: u32) -> Result<u32, Seq<char>> {
    if balloon_mb >= mem_mb {
        Err("--balloon ("@ + decimal(balloon_mb as nat) + " MiB) must be less than --mem ("@ + decimal(
            mem_mb as nat,
        ) + " MiB)"@)
    } else if balloon_mb < 32 {
        Err("--balloon ("@ + decimal(balloon_mb as nat)
            + " MiB) must be at least 32 MiB (boot may fail below this)"@)
    } else {
        Ok(balloon_mb)
    }
}

/// Validate balloon target against memory size.
/// Returns Ok(balloon_mb) or Err with a human-readable message.
pub fn validate_balloon(balloon_mb: u32, mem_mb: u32) -> (r: Result<u32, String>)
    ensures
        match r {
            Ok(b) => spec_validate_balloon(balloon_mb, mem_mb) == Ok::<u32, Seq<char>>(b),
            Err(e) => spec_validate_balloon(balloon_mb, mem_mb) == Err::<u32, Seq<char>>(e@),
        },
{
    if balloon_mb >= mem_mb {
        let mut m: Vec<char> = Vec::new();
        push_str(&mut m, "--balloon (");
        let b = decimal_chars(balloon_mb as u64);
        push_all(&mut m, b.as_slice());
        push_str(&mut m, " MiB) must be less than --mem (");
        let t = decimal_chars(mem_mb as u64);
        push_all(&mut m, t.as_slice());
        push_str(&mut m, " MiB)");
        return Err(string_of(&m));
    }
    if balloon_mb < 32 {
        let mut m: Vec<char> = Vec::new();
        push_str(&mut m, "--balloon (");
        let b = decimal_chars(balloon_mb as u64);
        push_all(&mut m, b.as_slice());
        push_str(&mut m, " MiB) must be at least 32 MiB (boot may fail below this)");
        return Err(string_of(&m));
    }
    Ok(balloon_mb)
}

/// Calculate the balloon initial target in 4KB pages.
/// The balloon inflates (mem - balloon) MiB worth of pages so the VM
/// starts with only `balloon_mb` resident.
pub fn balloon_pages(mem_mb: u32, balloon_mb: u32) -> (r: u32)
    requires
        balloon_mb <= mem_mb,
        (mem_mb - balloon_mb) * 256 <= u32::MAX,
    ensures
        r == (mem_mb - balloon_mb) * 256,
{
    (mem_mb - balloon_mb) * 256
}

/// A target that validation accepts leaves at least one MiB to inflate, so
/// the VM starts with fewer pages than its memory and at least 32 MiB resident.
pub proof fn law_validated_balloon_inflates(balloon_mb: u32, mem_mb: u32)
    ensures
        spec_validate_balloon(balloon_mb, mem_mb) is Ok ==> {
            &&& balloon_mb < mem_mb
            &&& balloon_mb >= min_balloon_mib()
            &&& (mem_mb - balloon_mb) * 256 >= 256
        },
{
}

/// The default control socket path of a VM.
pub open spec fn spec_control_socket_path(vm_name: Seq<char>) -> Seq<char> {
    "/tmp/krunvm-"@ + vm_name + ".sock"@
}

/// Derive the default control socket path for a VM.
pub fn control_socket_path(vm_name: &str) -> (r: String)
    ensures
        r@ == spec_control_socket_path(vm_name@),
{
    let mut m: Vec<char> = Vec::new();
    push_str(&mut m, "/tmp/krunvm-");
    push_str(&mut m, vm_name);
    push_str(&mut m, ".sock");
    string_of(&m)
}

/// The `balloon_set` command for a target.
pub open spec fn spec_balloon_set_cmd(target_mib: u32) -> Seq<char> {
    "{\"cmd\":\"balloon_set\",\"target_mib\":"@ + decimal(target_mib as nat) + "}"@
}

/// Format a balloon_set JSON command.
pub fn balloon_set_cmd(target_mib: u32) -> (r: String)
    ensures
        r@ == spec_balloon_set_cmd(target_mib),
{
    let mut m: Vec<char> = Vec::new();
    push_str(&mut m, "{\"cmd\":\"balloon_set\",\"target_mib\":");
    let t = decimal_chars(target_mib as u64);
    push_all(&mut m, t.as_slice());
    push_str(&mut m, "}");
    string_of(&m)
}

/// Format a balloon_stats JSON command.
pub fn balloon_stats_cmd() -> (r: String)
    ensures
        r@ == "{\"cmd\":\"balloon_stats\"}"@,
{
    "{\"cmd\":\"balloon_stats\"}".to_string()
}

/// What a reply of the VM says, as far as balloon commands read it.
pub struct BalloonReply {
    /// The `ok` member when it is a boolean.
    pub ok: Option<bool>,
    /// The `error` member when it is a string.
    pub error: Option<String>,
    /// The `actual_mib` member when it is an unsigned 64-bit integer.
    pub actual_mib: Option<u64>,
    /// The `target_mib` member when it is an unsigned 64-bit integer.
    pub target_mib: Option<u64>,
    /// The `free_mib` member when it is an unsigned 64-bit integer.
    pub free_mib: Option<u64>,
}

/// A reply as plain values: `ok`, `error`, `actual_mib`, `target_mib`, `free_mib`.
pub type ReplyFields = (Option<bool>, Option<Seq<char>>, Option<u64>, Option<u64>, Option<u64>);

/// A reply seen as plain values.
pub open spec fn reply_fields(r: BalloonReply) -> ReplyFields {
    (
        r.ok,
        match r.error {
            Some(e) => Some(e@),
            None => None,
        },
        r.actual_mib,
        r.target_mib,
        r.free_mib,
    )
}

/// A decoded reply, or serde_json's message, seen as plain values.
pub open spec fn decoded_view(r: Result<BalloonReply, String>) -> Result<ReplyFields, Seq<char>> {
    match r {
        Ok(reply) => Ok(reply_fields(reply)),
        Err(e) => Err(e@),
    }
}

/// What serde_json reads from `text`: the members of a reply, or the
/// message of its parse error.
pub uninterp spec fn json_reply_of(text: Seq<char>) -> Result<ReplyFields, Seq<char>>;

/// `serde_json::from_str::<serde_json::Value>` followed by indexing the
/// value by member name and `as_bool` / `as_str` / `as_u64` (a missing member,
/// or a value that is not an object, indexes to `null`); on a parse error,
/// the error's `Display` text. The contract only names the result.
#[verifier::external_body]
fn decode_reply(text: &str) -> (r: Result<BalloonReply, String>)
    ensures
        decoded_view(r) == json_reply_of(text@),
{
    match serde_json::from_str::<serde_json::Value>(text) {
        Ok(v) => Ok(BalloonReply {
            ok: v["ok"].as_bool(),
            error: v["error"].as_str().map(String::from),
            actual_mib: v["actual_mib"].as_u64(),
            target_mib: v["target_mib"].as_u64(),
            free_mib: v["free_mib"].as_u64(),
        }),
        Err(e) => Err(e.to_string()),
    }
}

/// The statistics that a decoded stats reply gives, or the error to report.
pub open spec fn spec_balloon_stats(decoded: Result<ReplyFields, Seq<char>>) -> Result<
    (u64, u64, u64),
    Seq<char>,
> {
    match decoded {
        Err(m) => Err("Failed to parse response: "@ + m),
        Ok((ok, error, actual, target, free)) => if ok != Some(true) {
            Err(
                match error {
                    Some(e) => e,
                    None => "unknown error"@,
                },
            )
        } else {
            Ok(
                (
                    match actual {
                        Some(v) => v,
                        None => 0u64,
                    },
                    match target {
                        Some(v) => v,
                        None => 0u64,
                    },
                    match free {
                        Some(v) => v,
                        None => 0u64,
                    },
                ),
            )
        },
    }
}

/// A statistics result seen as plain values.
pub open spec fn stats_view(r: Result<(u64, u64, u64), String>) -> Result<(u64, u64, u64), Seq<char>> {
    match r {
        Ok(t) => Ok(t),
        Err(e) => Err(e@),
    }
}

/// Interprets a decoded balloon_stats reply as (actual, target, free) in MiB:
/// a reply whose `ok` is not `true` gives its `error` (or "unknown error"),
/// and missing figures count as zero.
pub fn interpret_balloon_stats(decoded: Result<BalloonReply, String>) -> (r: Result<
    (u64, u64, u64),
    String,
>)
    ensures
        stats_view(r) == spec_balloon_stats(decoded_view(decoded)),
{
    match decoded {
        Err(m) => {
            let mut out: Vec<char> = Vec::new();
            push_str(&mut out, "Failed to parse response: ");
            push_str(&mut out, m.as_str());
            Err(string_of(&out))
        },
        Ok(reply) => {
            if reply.ok != Some(true) {
                match reply.error {
                    Some(e) => Err(e),
                    None => Err("unknown error".to_string()),
                }
            } else {
                let actual: u64 = match reply.actual_mib {
                    Some(v) => v,
                    None => 0,
                };
                let target: u64 = match reply.target_mib {
                    Some(v) => v,
                    None => 0,
                };
                let free: u64 = match reply.free_mib {
                    Some(v) => v,
                    None => 0,
                };
                Ok((actual, target, free))
            }
        },
    }
}

/// Parse a balloon_stats JSON response into (actual, target, free) in MiB.
/// Returns Err with the error string if the response indicates failure.
pub fn parse_balloon_stats(response: &str) -> (r: Result<(u64, u64, u64), String>)
    ensures
        stats_view(r) == spec_balloon_stats(json_reply_of(response@)),
{
    let decoded = decode_reply(response);
    interpret_balloon_stats(decoded)
}

/// The failure that a decoded reply reports: its `error` (or "unknown
/// error") when `ok` is `false`; nothing when the reply is not JSON or does
/// not say `ok: false`.
pub open spec fn spec_reply_failure(decoded: Result<ReplyFields, Seq<char>>) -> Option<Seq<char>> {
    match decoded {
        Ok((ok, error, _, _, _)) => if ok == Some(false) {
            Some(
                match error {
                    Some(e) => e,
                    None => "unknown error"@,
                },
            )
        } else {
            None
        },
        Err(_) => None,
    }
}

/// The failure that a decoded reply reports, if any.
pub fn interpret_reply_failure(decoded: Result<BalloonReply, String>) -> (r: Option<String>)
    ensures
        match r {
            Some(e) => spec_reply_failure(decoded_view(decoded)) == Some(e@),
            None => spec_reply_failure(decoded_view(decoded)) is None,
        },
{
    match decoded {
        Ok(reply) => {
            if reply.ok == Some(false) {
                match reply.error {
                    Some(e) => Some(e),
                    None => Some("unknown error".to_string()),
                }
            } else {
                None
            }
        },
        Err(_) => None,
    }
}

/// The failure that a reply line of the VM reports, if any.
pub fn reply_failure(response: &str) -> (r: Option<String>)
    ensures
        match r {
            Some(e) => spec_reply_failure(json_reply_of(response@)) == Some(e@),
            None => spec_reply_failure(json_reply_of(response@)) is None,
        },
{
    interpret_reply_failure(decode_reply(response))
}

/// A reply that reports a failure to a command reports the same error when
/// statistics are read from it.
pub proof fn law_failed_reply_fails_stats(decoded: Result<ReplyFields, Seq<char>>)
    ensures
        spec_reply_failure(decoded) matches Some(e) ==> spec_balloon_stats(decoded) == Err::<
            (u64, u64, u64),
            Seq<char>,
        >(e),
{
}

/// A balloon target is accepted exactly when it leaves at least 32 MiB
/// resident and is below the VM's memory, and it is accepted as given.
pub proof fn law_balloon_target_bounds(balloon_mb: u32, mem_mb: u32)
    ensures
        spec_validate_balloon(balloon_mb, mem_mb) is Ok <==> (32 <= balloon_mb && balloon_mb < mem_mb),
        spec_validate_balloon(balloon_mb, mem_mb) matches Ok(b) ==> b == balloon_mb,
{
}

/// Statistics are read only from a reply that says `ok: true`; each figure
/// is the reply's own, or 0 when the reply leaves it out. Any other reply
/// gives its error, or "unknown error" when it names none.
pub proof fn law_stats_read_from_reply(
    ok: Option<bool>,
    error: Option<Seq<char>>,
    actual: Option<u64>,
    target: Option<u64>,
    free: Option<u64>,
)
    ensures
        ok == Some(true) ==> {
            let r = spec_balloon_stats(Ok((ok, error, actual, target, free)));
            &&& r is Ok
            &&& (actual matches Some(a) ==> r->Ok_0.0 == a)
            &&& (actual is None ==> r->Ok_0.0 == 0)
            &&& (target matches Some(t) ==> r->Ok_0.1 == t)
            &&& (target is None ==> r->Ok_0.1 == 0)
            &&& (free matches Some(f) ==> r->Ok_0.2 == f)
            &&& (free is None ==> r->Ok_0.2 == 0)
        },
        ok != Some(true) ==> spec_balloon_stats(Ok((ok, error, actual, target, free))) == Err::<
            (u64, u64, u64),
            Seq<char>,
        >(
            match error {
                Some(e) => e,
                None => "unknown error"@,
            },
        ),
        ok == Some(false) ==> spec_reply_failure(Ok((ok, error, actual, target, free))) == Some(
            match error {
                Some(e) => e,
                None => "unknown error"@,
            },
        ),
        ok != Some(false) ==> spec_reply_failure(Ok((ok, error, actual, target, free))) is None,
{
}

} // verus!

//! Linux capabilities that can be dropped inside the guest.

use vstd::prelude::*;
use crate::text::{chars_eq, chars_of, join_with, push_all, push_str, string_of, string_views};

verus! {

/// Linux capabilities that can be dropped inside the guest VM.
/// Names follow the kernel convention (lowercase, no "cap_" prefix stored).
pub open spec fn valid_capabilities() -> Seq<Seq<char>> {
    seq![
        "audit_control"@,
        "audit_read"@,
        "audit_write"@,
        "block_suspend"@,
        "bpf"@,
        "checkpoint_restore"@,
        "chown"@,
        "dac_override"@,
        "dac_read_search"@,
        "fowner"@,
        "fsetid"@,
        "ipc_lock"@,
        "ipc_owner"@,
        "kill"@,
        "lease"@,
        "linux_immutable"@,
        "mac_admin"@,
        "mac_override"@,
        "mknod"@,
        "net_admin"@,
        "net_bind_service"@,
        "net_broadcast"@,
        "net_raw"@,
        "perfmon"@,
        "setfcap"@,
        "setgid"@,
        "setpcap"@,
        "setuid"@,
        "sys_admin"@,
        "sys_boot"@,
        "sys_chroot"@,
        "sys_module"@,
        "sys_nice"@,
        "sys_pacct"@,
        "sys_ptrace"@,
        "sys_rawio"@,
        "sys_resource"@,
        "sys_time"@,
        "sys_tty_config"@,
        "syslog"@,
        "wake_alarm"@,
    ]
}

/// The prefix that capability names may carry.
pub open spec fn cap_prefix() -> Seq<char> {
    seq!['c', 'a', 'p', '_']
}

/// `s` without a leading `cap_`, if it has one.
pub open spec fn strip_cap_prefix(s: Seq<char>) -> Seq<char> {
    if s.len() >= 4 && s.take(4) == cap_prefix() {
        s.skip(4)
    } else {
        s
    }
}

/// The names `caps`, each written with the `cap_` prefix, joined with `sep`.
pub open spec fn spec_cap_list(caps: Seq<Seq<char>>, sep: Seq<char>) -> Seq<char> {
    join_with(caps.map_values(|c: Seq<char>| cap_prefix() + c), sep)
}

/// What `str::to_lowercase` returns for `s` (full Unicode lowercase mapping).
pub uninterp spec fn lowercase_of(s: Seq<char>) -> Seq<char>;

/// The message for a name that is not a known capability.
pub open spec fn unknown_capability_msg(name: Seq<char>) -> Seq<char> {
    "Unknown capability '"@ + name + "'. Valid capabilities: "@ + spec_cap_list(
        valid_capabilities(),
        ", "@,
    )
}

/// The capability that `name`, already lowercased to `lowered`, denotes, or
/// the message that rejects `name`.
pub open spec fn spec_normalize_capability(name: Seq<char>, lowered: Seq<char>) -> Result<
    Seq<char>,
    Seq<char>,
> {
    let stripped = strip_cap_prefix(lowered);
    if valid_capabilities().contains(stripped) {
        Ok(stripped)
    } else {
        Err(unknown_capability_msg(name))
    }
}

/// The normalized capability name for `name`, or the message that rejects it.
pub open spec fn spec_validate_capability(name: Seq<char>) -> Result<Seq<char>, Seq<char>> {
    spec_normalize_capability(name, lowercase_of(name))
}

/// `str::to_lowercase`: the lowercase equivalent of `s`, by the Unicode
/// Derived Core Property Lowercase. The contract only names the result.
#[verifier::external_body]
fn to_lowercase(s: &str) -> (r: String)
    ensures
        r@ == lowercase_of(s@),
{
    s.to_lowercase()
}

/// The valid capability names, in table order.
pub fn valid_capability_names() -> (r: Vec<String>)
    ensures
        string_views(r@) == valid_capabilities(),
{
    let mut v: Vec<String> = Vec::new();
    v.push("audit_control".to_string());
    v.push("audit_read".to_string());
    v.push("audit_write".to_string());
    v.push("block_suspend".to_string());
    v.push("bpf".to_string());
    v.push("checkpoint_restore".to_string());
    v.push("chown".to_string());
    v.push("dac_override".to_string());
    v.push("dac_read_search".to_string());
    v.push("fowner".to_string());
    v.push("fsetid".to_string());
    v.push("ipc_lock".to_string());
    v.push("ipc_owner".to_string());
    v.push("kill".to_string());
    v.push("lease".to_string());
    v.push("linux_immutable".to_string());
    v.push("mac_admin".to_string());
    v.push("mac_override".to_string());
    v.push("mknod".to_string());
    v.push("net_admin".to_string());
    v.push("net_bind_service".to_string());
    v.push("net_broadcast".to_string());
    v.push("net_raw".to_string());
    v.push("perfmon".to_string());
    v.push("setfcap".to_string());
    v.push("setgid".to_string());
    v.push("setpcap".to_string());
    v.push("setuid".to_string());
    v.push("sys_admin".to_string());
    v.push("sys_boot".to_string());
    v.push("sys_chroot".to_string());
    v.push("sys_module".to_string());
    v.push("sys_nice".to_string());
    v.push("sys_pacct".to_string());
    v.push("sys_ptrace".to_string());
    v.push("sys_rawio".to_string());
    v.push("sys_resource".to_string());
    v.push("sys_time".to_string());
    v.push("sys_tty_config".to_string());
    v.push("syslog".to_string());
    v.push("wake_alarm".to_string());
    proof {
        assert(string_views(v@) =~= valid_capabilities());
    }
    v
}

/// The names `caps`, each written with the `cap_` prefix, joined with `sep`
/// (`cap_net_raw, cap_sys_admin` for `", "`).
pub fn format_cap_list(caps: &Vec<String>, sep: &str) -> (r: String)
    ensures
        r@ == spec_cap_list(string_views(caps@), sep@),
{
    let ghost items = string_views(caps@).map_values(|c: Seq<char>| cap_prefix() + c);
    let mut out: Vec<char> = Vec::new();
    let mut i: usize = 0;
    proof {
        assert(items.take(0) =~= Seq::<Seq<char>>::empty());
    }
    while i < caps.len()
        invariant
            0 <= i <= caps.len(),
            items == string_views(caps@).map_values(|c: Seq<char>| cap_prefix() + c),
            out@ == join_with(items.take(i as int), sep@),
        decreases caps.len() - i,
    {
        let ghost before = out@;
        if i > 0 {
            push_str(&mut out, sep);
        }
        out.push('c');
        out.push('a');
        out.push('p');
        out.push('_');
        push_str(&mut out, caps[i].as_str());
        proof {
            let t = items.take(i + 1);
            assert(t.last() == cap_prefix() + caps@[i as int]@);
            if i == 0 {
                assert(out@ =~= t[0]);
            } else {
                assert(t.drop_last() =~= items.take(i as int));
                assert(out@ =~= before + sep@ + t.last());
            }
        }
        i = i + 1;
    }
    proof {
        assert(items.take(caps@.len() as int) =~= items);
    }
    string_of(&out)
}

/// The capability that `name` denotes once lowercased to `lowered`: an
/// optional `cap_` prefix is dropped and the rest must be a known name; the
/// error message quotes `name` as the user gave it.
pub fn normalize_capability(name: &str, lowered: &str) -> (r: Result<String, String>)
    ensures
        match r {
            Ok(c) => spec_normalize_capability(name@, lowered@) == Ok::<Seq<char>, Seq<char>>(c@),
            Err(e) => spec_normalize_capability(name@, lowered@) == Err::<Seq<char>, Seq<char>>(e@),
        },
{
    let lc = chars_of(lowered);
    let mut stripped: Vec<char> = Vec::new();
    if lc.len() >= 4 && lc[0] == 'c' && lc[1] == 'a' && lc[2] == 'p' && lc[3] == '_' {
        let mut i: usize = 4;
        while i < lc.len()
            invariant
                4 <= i <= lc.len(),
                stripped@ == lc@.subrange(4, i as int),
            decreases lc.len() - i,
        {
            stripped.push(lc[i]);
            i = i + 1;
            proof {
                assert(stripped@ =~= lc@.subrange(4, i as int));
            }
        }
        proof {
            assert(lc@.take(4) =~= cap_prefix());
            assert(stripped@ =~= lc@.skip(4));
        }
    } else {
        push_all(&mut stripped, lc.as_slice());
        proof {
            if lc@.len() >= 4 {
                if lc@.take(4) == cap_prefix() {
                    assert(lc@.take(4)[0] == lc@[0]);
                    assert(lc@.take(4)[1] == lc@[1]);
                    assert(lc@.take(4)[2] == lc@[2]);
                    assert(lc@.take(4)[3] == lc@[3]);
                }
            }
            assert(stripped@ =~= lc@);
        }
    }
    let valid = valid_capability_names();
    let mut k: usize = 0;
    while k < valid.len()
        invariant
            0 <= k <= valid.len(),
            string_views(valid@) == valid_capabilities(),
            stripped@ == strip_cap_prefix(lowered@),
            forall|j: int| 0 <= j < k ==> valid_capabilities()[j] != stripped@,
        decreases valid.len() - k,
    {
        let candidate = chars_of(valid[k].as_str());
        if chars_eq(candidate.as_slice(), stripped.as_slice()) {
            proof {
                assert(valid_capabilities()[k as int] == stripped@);
            }
            return Ok(string_of(&stripped));
        }
        k = k + 1;
    }
    proof {
        assert(!valid_capabilities().contains(stripped@));
    }
    let mut msg: Vec<char> = Vec::new();
    push_str(&mut msg, "Unknown capability '");
    push_str(&mut msg, name);
    push_str(&mut msg, "'. Valid capabilities: ");
    let list = format_cap_list(&valid, ", ");
    push_str(&mut msg, list.as_str());
    proof {
        assert(msg@ =~= unknown_capability_msg(name@));
    }
    Err(string_of(&msg))
}

/// Normalize and validate a capability name.
/// Accepts "CAP_NET_RAW", "cap_net_raw", or "net_raw" — returns "net_raw".
pub fn validate_capability(name: &str) -> (r: Result<String, String>)
    ensures
        match r {
            Ok(c) => spec_validate_capability(name@) == Ok::<Seq<char>, Seq<char>>(c@),
            Err(e) => spec_validate_capability(name@) == Err::<Seq<char>, Seq<char>>(e@),
        },
{
    let lower = to_lowercase(name);
    normalize_capability(name, lower.as_str())
}

/// The normalized names of all of `names`, or the message for the first that
/// is not a capability.
pub open spec fn spec_validate_capabilities(names: Seq<Seq<char>>) -> Result<Seq<Seq<char>>, Seq<char>>
    decreases names.len(),
{
    if names.len() == 0 {
        Ok(Seq::<Seq<char>>::empty())
    } else {
        match spec_validate_capability(names[0]) {
            Err(e) => Err(e),
            Ok(c) => match spec_validate_capabilities(names.drop_first()) {
                Ok(rest) => Ok(seq![c] + rest),
                Err(e) => Err(e),
            },
        }
    }
}

/// Validates each name in order; the first unknown one gives the error.
pub fn validate_capabilities(names: &Vec<String>) -> (r: Result<Vec<String>, String>)
    ensures
        match r {
            Ok(v) => spec_validate_capabilities(string_views(names@)) == Ok::<
                Seq<Seq<char>>,
                Seq<char>,
            >(string_views(v@)),
            Err(e) => spec_validate_capabilities(string_views(names@)) == Err::<
                Seq<Seq<char>>,
                Seq<char>,
            >(e@),
        },
{
    let ghost all = string_views(names@);
    let mut out: Vec<String> = Vec::new();
    let mut i: usize = 0;
    proof {
        assert(all.skip(0) =~= all);
        assert(string_views(out@) + Seq::<Seq<char>>::empty() =~= Seq::<Seq<char>>::empty());
    }
    while i < names.len()
        invariant
            0 <= i <= names.len(),
            all == string_views(names@),
            spec_validate_capabilities(all) == (match spec_validate_capabilities(all.skip(i as int)) {
                Ok(rest) => Ok(string_views(out@) + rest),
                Err(e) => Err(e),
            }),
        decreases names.len() - i,
    {
        proof {
            assert(all.skip(i as int)[0] == names@[i as int]@);
            assert(all.skip(i as int).drop_first() =~= all.skip(i + 1));
        }
        match validate_capability(names[i].as_str()) {
            Err(e) => {
                return Err(e);
            },
            Ok(c) => {
                let ghost before = string_views(out@);
                out.push(c);
                proof {
                    assert(string_views(out@) =~= before.push(c@));
                    match spec_validate_capabilities(all.skip(i + 1)) {
                        Ok(rest) => {
                            assert(before + (seq![c@] + rest) =~= string_views(out@) + rest);
                        },
                        Err(_) => {},
                    }
                }
            },
        }
        i = i + 1;
    }
    proof {
        assert(all.skip(i as int) =~= Seq::<Seq<char>>::empty());
        assert(string_views(out@) + Seq::<Seq<char>>::empty() =~= string_views(out@));
    }
    Ok(out)
}

/// Every accepted capability is one of the known capability names.
pub proof fn law_validated_capability_is_known(name: Seq<char>)
    ensures
        spec_validate_capability(name) matches Ok(c) ==> valid_capabilities().contains(c),
{
}

proof fn lemma_no_capability_has_prefix()
    ensures
        forall|i: int|
            0 <= i < valid_capabilities().len() ==> strip_cap_prefix(#[trigger] valid_capabilities()[i])
                == valid_capabilities()[i],
{
    reveal_strlit("audit_control");
    reveal_strlit("audit_read");
    reveal_strlit("audit_write");
    reveal_strlit("block_suspend");
    reveal_strlit("bpf");
    reveal_strlit("checkpoint_restore");
    reveal_strlit("chown");
    reveal_strlit("dac_override");
    reveal_strlit("dac_read_search");
    reveal_strlit("fowner");
    reveal_strlit("fsetid");
    reveal_strlit("ipc_lock");
    reveal_strlit("ipc_owner");
    reveal_strlit("kill");
    reveal_strlit("lease");
    reveal_strlit("linux_immutable");
    reveal_strlit("mac_admin");
    reveal_strlit("mac_override");
    reveal_strlit("mknod");
    reveal_strlit("net_admin");
    reveal_strlit("net_bind_service");
    reveal_strlit("net_broadcast");
    reveal_strlit("net_raw");
    reveal_strlit("perfmon");
    reveal_strlit("setfcap");
    reveal_strlit("setgid");
    reveal_strlit("setpcap");
    reveal_strlit("setuid");
    reveal_strlit("sys_admin");
    reveal_strlit("sys_boot");
    reveal_strlit("sys_chroot");
    reveal_strlit("sys_module");
    reveal_strlit("sys_nice");
    reveal_strlit("sys_pacct");
    reveal_strlit("sys_ptrace");
    reveal_strlit("sys_rawio");
    reveal_strlit("sys_resource");
    reveal_strlit("sys_time");
    reveal_strlit("sys_tty_config");
    reveal_strlit("syslog");
    reveal_strlit("wake_alarm");
    assert forall|i: int| 0 <= i < valid_capabilities().len() implies strip_cap_prefix(
        #[trigger] valid_capabilities()[i],
    ) == valid_capabilities()[i] by {
        let c = valid_capabilities()[i];
        if c.len() >= 4 && c.take(4) == cap_prefix() {
            assert(c.take(4)[0] == c[0]);
            assert(c.take(4)[1] == c[1]);
        }
    }
}

/// A normalized capability is a known name without the `cap_` prefix;
/// normalizing it again (it is already lowercase) gives it back, and so does
/// validating it wherever lowercasing leaves it unchanged.
pub proof fn law_normalized_capability_is_fixed(name: Seq<char>, lowered: Seq<char>)
    ensures
        spec_normalize_capability(name, lowered) matches Ok(c) ==> {
            &&& valid_capabilities().contains(c)
            &&& !(c.len() >= 4 && c.take(4) == cap_prefix())
            &&& spec_normalize_capability(c, c) == Ok::<Seq<char>, Seq<char>>(c)
            &&& lowercase_of(c) == c ==> spec_validate_capability(c) == Ok::<Seq<char>, Seq<char>>(c)
        },
{
    lemma_no_capability_has_prefix();
    if let Ok(c) = spec_normalize_capability(name, lowered) {
        let i = choose|i: int| 0 <= i < valid_capabilities().len() && valid_capabilities()[i] == c;
        assert(strip_cap_prefix(valid_capabilities()[i]) == valid_capabilities()[i]);
    }
}

/// The position of a capability name in the table, told apart by its
/// length and its first, fourth and fifth characters.
spec fn capability_rank(s: Seq<char>) -> int {
    if s.len() == 13 && s[0] == 'a' && s[3] == 'i' && s[4] == 't' {
        0
    } else if s.len() == 10 && s[0] == 'a' && s[3] == 'i' && s[4] == 't' {
        1
    } else if s.len() == 11 && s[0] == 'a' && s[3] == 'i' && s[4] == 't' {
        2
    } else if s.len() == 13 && s[0] == 'b' && s[3] == 'c' && s[4] == 'k' {
        3
    } else if s.len() == 3 && s[0] == 'b' {
        4
    } else if s.len() == 18 && s[0] == 'c' && s[3] == 'c' && s[4] == 'k' {
        5
    } else if s.len() == 5 && s[0] == 'c' && s[3] == 'w' && s[4] == 'n' {
        6
    } else if s.len() == 12 && s[0] == 'd' && s[3] == '_' && s[4] == 'o' {
        7
    } else if s.len() == 15 && s[0] == 'd' && s[3] == '_' && s[4] == 'r' {
        8
    } else if s.len() == 6 && s[0] == 'f' && s[3] == 'n' && s[4] == 'e' {
        9
    } else if s.len() == 6 && s[0] == 'f' && s[3] == 't' && s[4] == 'i' {
        10
    } else if s.len() == 8 && s[0] == 'i' && s[3] == '_' && s[4] == 'l' {
        11
    } else if s.len() == 9 && s[0] == 'i' && s[3] == '_' && s[4] == 'o' {
        12
    } else if s.len() == 4 && s[0] == 'k' && s[3] == 'l' {
        13
    } else if s.len() == 5 && s[0] == 'l' && s[3] == 's' && s[4] == 'e' {
        14
    } else if s.len() == 15 && s[0] == 'l' && s[3] == 'u' && s[4] == 'x' {
        15
    } else if s.len() == 9 && s[0] == 'm' && s[3] == '_' && s[4] == 'a' {
        16
    } else if s.len() == 12 && s[0] == 'm' && s[3] == '_' && s[4] == 'o' {
        17
    } else if s.len() == 5 && s[0] == 'm' && s[3] == 'o' && s[4] == 'd' {
        18
    } else if s.len() == 9 && s[0] == 'n' && s[3] == '_' && s[4] == 'a' {
        19
    } else if s.len() == 16 && s[0] == 'n' && s[3] == '_' && s[4] == 'b' {
        20
    } else if s.len() == 13 && s[0] == 'n' && s[3] == '_' && s[4] == 'b' {
        21
    } else if s.len() == 7 && s[0] == 'n' && s[3] == '_' && s[4] == 'r' {
        22
    } else if s.len() == 7 && s[0] == 'p' && s[3] == 'f' && s[4] == 'm' {
        23
    } else if s.len() == 7 && s[0] == 's' && s[3] == 'f' && s[4] == 'c' {
        24
    } else if s.len() == 6 && s[0] == 's' && s[3] == 'g' && s[4] == 'i' {
        25
    } else if s.len() == 7 && s[0] == 's' && s[3] == 'p' && s[4] == 'c' {
        26
    } else if s.len() == 6 && s[0] == 's' && s[3] == 'u' && s[4] == 'i' {
        27
    } else if s.len() == 9 && s[0] == 's' && s[3] == '_' && s[4] == 'a' {
        28
    } else if s.len() == 8 && s[0] == 's' && s[3] == '_' && s[4] == 'b' {
        29
    } else if s.len() == 10 && s[0] == 's' && s[3] == '_' && s[4] == 'c' {
        30
    } else if s.len() == 10 && s[0] == 's' && s[3] == '_' && s[4] == 'm' {
        31
    } else if s.len() == 8 && s[0] == 's' && s[3] == '_' && s[4] == 'n' {
        32
    } else if s.len() == 9 && s[0] == 's' && s[3] == '_' && s[4] == 'p' {
        33
    } else if s.len() == 10 && s[0] == 's' && s[3] == '_' && s[4] == 'p' {
        34
    } else if s.len() == 9 && s[0] == 's' && s[3] == '_' && s[4] == 'r' {
        35
    } else if s.len() == 12 && s[0] == 's' && s[3] == '_' && s[4] == 'r' {
        36
    } else if s.len() == 8 && s[0] == 's' && s[3] == '_' && s[4] == 't' {
        37
    } else if s.len() == 14 && s[0] == 's' && s[3] == '_' && s[4] == 't' {
        38
    } else if s.len() == 6 && s[0] == 's' && s[3] == 'l' && s[4] == 'o' {
        39
    } else if s.len() == 10 && s[0] == 'w' && s[3] == 'e' && s[4] == '_' {
        40
    } else {
        -1
    }
}

/// The accepted capability names are exactly the kernel's capabilities:
/// each of these names is accepted, there are no others, and none is listed
/// twice.
#[verifier::rlimit(100)]
pub proof fn law_capability_names_are_the_kernels()
    ensures
        valid_capabilities().len() == 41,
        valid_capabilities().no_duplicates(),
        valid_capabilities().contains("audit_control"@),
        valid_capabilities().contains("audit_read"@),
        valid_capabilities().contains("audit_write"@),
        valid_capabilities().contains("block_suspend"@),
        valid_capabilities().contains("bpf"@),
        valid_capabilities().contains("checkpoint_restore"@),
        valid_capabilities().contains("chown"@),
        valid_capabilities().contains("dac_override"@),
        valid_capabilities().contains("dac_read_search"@),
        valid_capabilities().contains("fowner"@),
        valid_capabilities().contains("fsetid"@),
        valid_capabilities().contains("ipc_lock"@),
        valid_capabilities().contains("ipc_owner"@),
        valid_capabilities().contains("kill"@),
        valid_capabilities().contains("lease"@),
        valid_capabilities().contains("linux_immutable"@),
        valid_capabilities().contains("mac_admin"@),
        valid_capabilities().contains("mac_override"@),
        valid_capabilities().contains("mknod"@),
        valid_capabilities().contains("net_admin"@),
        valid_capabilities().contains("net_bind_service"@),
        valid_capabilities().contains("net_broadcast"@),
        valid_capabilities().contains("net_raw"@),
        valid_capabilities().contains("perfmon"@),
        valid_capabilities().contains("setfcap"@),
        valid_capabilities().contains("setgid"@),
        valid_capabilities().contains("setpcap"@),
        valid_capabilities().contains("setuid"@),
        valid_capabilities().contains("sys_admin"@),
        valid_capabilities().contains("sys_boot"@),
        valid_capabilities().contains("sys_chroot"@),
        valid_capabilities().contains("sys_module"@),
        valid_capabilities().contains("sys_nice"@),
        valid_capabilities().contains("sys_pacct"@),
        valid_capabilities().contains("sys_ptrace"@),
        valid_capabilities().contains("sys_rawio"@),
        valid_capabilities().contains("sys_resource"@),
        valid_capabilities().contains("sys_time"@),
        valid_capabilities().contains("sys_tty_config"@),
        valid_capabilities().contains("syslog"@),
        valid_capabilities().contains("wake_alarm"@),
{
    reveal_strlit("audit_control");
    reveal_strlit("audit_read");
    reveal_strlit("audit_write");
    reveal_strlit("block_suspend");
    reveal_strlit("bpf");
    reveal_strlit("checkpoint_restore");
    reveal_strlit("chown");
    reveal_strlit("dac_override");
    reveal_strlit("dac_read_search");
    reveal_strlit("fowner");
    reveal_strlit("fsetid");
    reveal_strlit("ipc_lock");
    reveal_strlit("ipc_owner");
    reveal_strlit("kill");
    reveal_strlit("lease");
    reveal_strlit("linux_immutable");
    reveal_strlit("mac_admin");
    reveal_strlit("mac_override");
    reveal_strlit("mknod");
    reveal_strlit("net_admin");
    reveal_strlit("net_bind_service");
    reveal_strlit("net_broadcast");
    reveal_strlit("net_raw");
    reveal_strlit("perfmon");
    reveal_strlit("setfcap");
    reveal_strlit("setgid");
    reveal_strlit("setpcap");
    reveal_strlit("setuid");
    reveal_strlit("sys_admin");
    reveal_strlit("sys_boot");
    reveal_strlit("sys_chroot");
    reveal_strlit("sys_module");
    reveal_strlit("sys_nice");
    reveal_strlit("sys_pacct");
    reveal_strlit("sys_ptrace");
    reveal_strlit("sys_rawio");
    reveal_strlit("sys_resource");
    reveal_strlit("sys_time");
    reveal_strlit("sys_tty_config");
    reveal_strlit("syslog");
    reveal_strlit("wake_alarm");
    let v = valid_capabilities();
    assert(v[0] == "audit_control"@ && capability_rank(v[0]) == 0);
    assert(v[1] == "audit_read"@ && capability_rank(v[1]) == 1);
    assert(v[2] == "audit_write"@ && capability_rank(v[2]) == 2);
    assert(v[3] == "block_suspend"@ && capability_rank(v[3]) == 3);
    assert(v[4] == "bpf"@ && capability_rank(v[4]) == 4);
    assert(v[5] == "checkpoint_restore"@ && capability_rank(v[5]) == 5);
    assert(v[6] == "chown"@ && capability_rank(v[6]) == 6);
    assert(v[7] == "dac_override"@ && capability_rank(v[7]) == 7);
    assert(v[8] == "dac_read_search"@ && capability_rank(v[8]) == 8);
    assert(v[9] == "fowner"@ && capability_rank(v[9]) == 9);
    assert(v[10] == "fsetid"@ && capability_rank(v[10]) == 10);
    assert(v[11] == "ipc_lock"@ && capability_rank(v[11]) == 11);
    assert(v[12] == "ipc_owner"@ && capability_rank(v[12]) == 12);
    assert(v[13] == "kill"@ && capability_rank(v[13]) == 13);
    assert(v[14] == "lease"@ && capability_rank(v[14]) == 14);
    assert(v[15] == "linux_immutable"@ && capability_rank(v[15]) == 15);
    assert(v[16] == "mac_admin"@ && capability_rank(v[16]) == 16);
    assert(v[17] == "mac_override"@ && capability_rank(v[17]) == 17);
    assert(v[18] == "mknod"@ && capability_rank(v[18]) == 18);
    assert(v[19] == "net_admin"@ && capability_rank(v[19]) == 19);
    assert(v[20] == "net_bind_service"@ && capability_rank(v[20]) == 20);
    assert(v[21] == "net_broadcast"@ && capability_rank(v[21]) == 21);
    assert(v[22] == "net_raw"@ && capability_rank(v[22]) == 22);
    assert(v[23] == "perfmon"@ && capability_rank(v[23]) == 23);
    assert(v[24] == "setfcap"@ && capability_rank(v[24]) == 24);
    assert(v[25] == "setgid"@ && capability_rank(v[25]) == 25);
    assert(v[26] == "setpcap"@ && capability_rank(v[26]) == 26);
    assert(v[27] == "setuid"@ && capability_rank(v[27]) == 27);
    assert(v[28] == "sys_admin"@ && capability_rank(v[28]) == 28);
    assert(v[29] == "sys_boot"@ && capability_rank(v[29]) == 29);
    assert(v[30] == "sys_chroot"@ && capability_rank(v[30]) == 30);
    assert(v[31] == "sys_module"@ && capability_rank(v[31]) == 31);
    assert(v[32] == "sys_nice"@ && capability_rank(v[32]) == 32);
    assert(v[33] == "sys_pacct"@ && capability_rank(v[33]) == 33);
    assert(v[34] == "sys_ptrace"@ && capability_rank(v[34]) == 34);
    assert(v[35] == "sys_rawio"@ && capability_rank(v[35]) == 35);
    assert(v[36] == "sys_resource"@ && capability_rank(v[36]) == 36);
    assert(v[37] == "sys_time"@ && capability_rank(v[37]) == 37);
    assert(v[38] == "sys_tty_config"@ && capability_rank(v[38]) == 38);
    assert(v[39] == "syslog"@ && capability_rank(v[39]) == 39);
    assert(v[40] == "wake_alarm"@ && capability_rank(v[40]) == 40);
    assert forall|i: int| 0 <= i < v.len() implies capability_rank(#[trigger] v[i]) == i by {
        assert(i == 0 || i == 1 || i == 2 || i == 3 || i == 4 || i == 5 || i == 6 || i == 7 || i == 8 || i == 9 || i == 10 || i == 11 || i == 12 || i == 13 || i == 14 || i == 15 || i == 16 || i == 17 || i == 18 || i == 19 || i == 20 || i == 21 || i == 22 || i == 23 || i == 24 || i == 25 || i == 26 || i == 27 || i == 28 || i == 29 || i == 30 || i == 31 || i == 32 || i == 33 || i == 34 || i == 35 || i == 36 || i == 37 || i == 38 || i == 39 || i == 40);
    }
    assert forall|i: int, j: int| 0 <= i < v.len() && 0 <= j < v.len() && i != j implies v[i] != v[j] by {
        assert(capability_rank(v[i]) == i);
        assert(capability_rank(v[j]) == j);
    }
}

/// Every known capability is accepted, written bare or with the `cap_`
/// prefix (as `CAP_NET_ADMIN` is once lowercased), and comes back bare.
pub proof fn law_known_capability_is_accepted(name: Seq<char>, c: Seq<char>)
    requires
        valid_capabilities().contains(c),
    ensures
        spec_normalize_capability(name, c) == Ok::<Seq<char>, Seq<char>>(c),
        spec_normalize_capability(name, cap_prefix() + c) == Ok::<Seq<char>, Seq<char>>(c),
{
    lemma_no_capability_has_prefix();
    let i = choose|i: int| 0 <= i < valid_capabilities().len() && valid_capabilities()[i] == c;
    assert(strip_cap_prefix(valid_capabilities()[i]) == valid_capabilities()[i]);
    let p = cap_prefix() + c;
    assert(p.take(4) =~= cap_prefix());
    assert(p.skip(4) =~= c);
}

/// A capability list names each capability with the `cap_` prefix, in
/// order, with the separator between neighbours.
pub proof fn law_cap_list_names_each(caps: Seq<Seq<char>>, c: Seq<char>, sep: Seq<char>)
    ensures
        spec_cap_list(Seq::<Seq<char>>::empty(), sep) == Seq::<char>::empty(),
        spec_cap_list(seq![c], sep) == "cap_"@ + c,
        caps.len() > 0 ==> spec_cap_list(caps.push(c), sep) == spec_cap_list(caps, sep) + sep + "cap_"@
            + c,
{
    reveal_strlit("cap_");
    assert("cap_"@ =~= cap_prefix());
    let f = |x: Seq<char>| cap_prefix() + x;
    assert(seq![c].map_values(f) =~= seq![cap_prefix() + c]);
    if caps.len() > 0 {
        let m = caps.push(c).map_values(f);
        assert(m.drop_last() =~= caps.map_values(f));
        assert(m.last() == cap_prefix() + c);
        assert(spec_cap_list(caps.push(c), sep) == join_with(m.drop_last(), sep) + sep + m.last());
    }
    assert(Seq::<Seq<char>>::empty().map_values(f) =~= Seq::<Seq<char>>::empty());
}

} // verus!

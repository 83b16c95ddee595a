//! MAC addresses: parsing of the `xx:xx:xx:xx:xx:xx` form and formatting of
//! randomly generated, locally administered unicast addresses.

use vstd::prelude::*;
use crate::text::{
    chars_of, free_of, join_with, law_join_split, push_all, push_str, split_chars, split_on,
    string_of, views,
};

verus! {

/// Number of bytes that the UTF-8 encoding of `c` takes.
pub open spec fn utf8_width(c: char) -> nat {
    if (c as u32) < 0x80 {
        1
    } else if (c as u32) < 0x800 {
        2
    } else if (c as u32) < 0x10000 {
        3
    } else {
        4
    }
}

/// Number of bytes that the UTF-8 encoding of `s` takes (what `str::len` gives).
pub open spec fn utf8_len(s: Seq<char>) -> nat
    decreases s.len(),
{
    if s.len() == 0 {
        0
    } else {
        utf8_width(s[0]) + utf8_len(s.drop_first())
    }
}

/// Value of a hexadecimal digit, either case.
pub open spec fn hex_value(c: char) -> Option<u8> {
    let n: u32 = c as u32;
    if 48 <= n <= 57 {
        Some((n - 48) as u8)
    } else if 97 <= n <= 102 {
        Some((n - 87) as u8)
    } else if 65 <= n <= 70 {
        Some((n - 55) as u8)
    } else {
        None
    }
}

/// The byte that a part of exactly two hex digits (either case) denotes.
pub open spec fn spec_hex_byte(part: Seq<char>) -> Option<u8> {
    if part.len() != 2 {
        None
    } else {
        match (hex_value(part[0]), hex_value(part[1])) {
            (Some(hi), Some(lo)) => Some((hi * 16 + lo) as u8),
            _ => None,
        }
    }
}

/// The common start of the messages about an address `s`.
pub open spec fn mac_msg_prefix(s: Seq<char>) -> Seq<char> {
    "Invalid MAC address '"@ + s
}

/// Message for an address that does not have six parts.
pub open spec fn mac_msg_count(s: Seq<char>) -> Seq<char> {
    mac_msg_prefix(s) + "': expected 6 colon-separated hex pairs"@
}

/// Message for a part that is not two bytes long.
pub open spec fn mac_msg_length(s: Seq<char>, part: Seq<char>) -> Seq<char> {
    mac_msg_prefix(s) + "': '"@ + part + "' must be exactly two hex digits"@
}

/// Message for a two-byte part that is not a hex byte.
pub open spec fn mac_msg_hex(s: Seq<char>, part: Seq<char>) -> Seq<char> {
    mac_msg_prefix(s) + "': '"@ + part + "' is not a valid hex byte"@
}

/// The byte that one part denotes, or the message for it.
pub open spec fn spec_octet(s: Seq<char>, part: Seq<char>) -> Result<u8, Seq<char>> {
    if utf8_len(part) != 2 {
        Err(mac_msg_length(s, part))
    } else {
        match spec_hex_byte(part) {
            Some(b) => Ok(b),
            None => Err(mac_msg_hex(s, part)),
        }
    }
}

/// The bytes of all parts, or the message for the first part that fails.
pub open spec fn spec_octets(s: Seq<char>, parts: Seq<Seq<char>>) -> Result<Seq<u8>, Seq<char>>
    decreases parts.len(),
{
    if parts.len() == 0 {
        Ok(Seq::<u8>::empty())
    } else {
        match spec_octet(s, parts[0]) {
            Err(e) => Err(e),
            Ok(b) => match spec_octets(s, parts.drop_first()) {
                Ok(rest) => Ok(seq![b] + rest),
                Err(e) => Err(e),
            },
        }
    }
}

/// The six bytes that `s` denotes, or the message that explains why it does not.
pub open spec fn spec_parse_mac(s: Seq<char>) -> Result<Seq<u8>, Seq<char>> {
    let parts = split_on(s, ':');
    if parts.len() != 6 {
        Err(mac_msg_count(s))
    } else {
        spec_octets(s, parts)
    }
}

spec fn prepend_ok(bs: Seq<u8>, r: Result<Seq<u8>, Seq<char>>) -> Result<Seq<u8>, Seq<char>> {
    match r {
        Ok(x) => Ok(bs + x),
        Err(e) => Err(e),
    }
}

proof fn lemma_utf8_len_at_least(s: Seq<char>)
    ensures
        utf8_len(s) >= s.len(),
    decreases s.len(),
{
    if s.len() > 0 {
        lemma_utf8_len_at_least(s.drop_first());
    }
}

fn utf8_width_of(c: char) -> (r: u32)
    ensures
        r == utf8_width(c),
{
    let n: u32 = c as u32;
    if n < 0x80 {
        1
    } else if n < 0x800 {
        2
    } else if n < 0x10000 {
        3
    } else {
        4
    }
}

fn utf8_len_is_two(p: &Vec<char>) -> (r: bool)
    ensures
        r == (utf8_len(p@) == 2),
{
    proof {
        lemma_utf8_len_at_least(p@);
    }
    if p.len() == 1 {
        proof {
            assert(p@.drop_first() =~= Seq::<char>::empty());
            assert(utf8_len(Seq::<char>::empty()) == 0);
        }
        utf8_width_of(p[0]) == 2
    } else if p.len() == 2 {
        proof {
            assert(p@.drop_first().drop_first() =~= Seq::<char>::empty());
            assert(p@.drop_first()[0] == p@[1]);
            assert(utf8_len(Seq::<char>::empty()) == 0);
            assert(utf8_len(p@.drop_first()) == utf8_width(p@[1]));
        }
        utf8_width_of(p[0]) == 1 && utf8_width_of(p[1]) == 1
    } else {
        false
    }
}

fn hex_value_of(c: char) -> (r: Option<u8>)
    ensures
        r == hex_value(c),
{
    let n: u32 = c as u32;
    if 48 <= n && n <= 57 {
        Some((n - 48) as u8)
    } else if 97 <= n && n <= 102 {
        Some((n - 87) as u8)
    } else if 65 <= n && n <= 70 {
        Some((n - 55) as u8)
    } else {
        None
    }
}

fn hex_byte(p: &Vec<char>) -> (r: Option<u8>)
    ensures
        r == spec_hex_byte(p@),
{
    if p.len() != 2 {
        None
    } else {
        match (hex_value_of(p[0]), hex_value_of(p[1])) {
            (Some(hi), Some(lo)) => Some(hi * 16 + lo),
            _ => None,
        }
    }
}

/// `"Invalid MAC address '<s>"` followed by `tail`, `part` and `what`.
fn mac_error(s: &str, tail: &str, part: &[char], what: &str) -> (r: String)
    ensures
        r@ == mac_msg_prefix(s@) + tail@ + part@ + what@,
{
    let mut out: Vec<char> = Vec::new();
    push_str(&mut out, "Invalid MAC address '");
    push_str(&mut out, s);
    push_str(&mut out, tail);
    push_all(&mut out, part);
    push_str(&mut out, what);
    proof {
        assert(out@ =~= mac_msg_prefix(s@) + tail@ + part@ + what@);
    }
    string_of(&out)
}

/// Parse a MAC address string "xx:xx:xx:xx:xx:xx" into 6 bytes.
pub fn parse_mac(s: &str) -> (r: Result<[u8; 6], String>)
    ensures
        match r {
            Ok(bytes) => spec_parse_mac(s@) == Ok::<Seq<u8>, Seq<char>>(bytes@),
            Err(e) => spec_parse_mac(s@) == Err::<Seq<u8>, Seq<char>>(e@),
        },
{
    let cs = chars_of(s);
    let parts = split_chars(&cs, ':');
    if parts.len() != 6 {
        let empty: Vec<char> = Vec::new();
        let e = mac_error(s, "': expected 6 colon-separated hex pairs", empty.as_slice(), "");
        proof {
            reveal_strlit("");
            assert(e@ =~= mac_msg_count(s@));
        }
        return Err(e);
    }
    let ghost all = views(parts@);
    let mut bytes: Vec<u8> = Vec::new();
    let mut i: usize = 0;
    proof {
        assert(all.skip(0) =~= all);
        assert(bytes@ + Seq::<u8>::empty() =~= Seq::<u8>::empty());
    }
    while i < 6
        invariant
            parts.len() == 6,
            all == views(parts@),
            all == split_on(s@, ':'),
            0 <= i <= 6,
            bytes@.len() == i,
            spec_octets(s@, all) == prepend_ok(bytes@, spec_octets(s@, all.skip(i as int))),
        decreases 6 - i,
    {
        let part = &parts[i];
        proof {
            assert(all.skip(i as int)[0] == part@);
            assert(all.skip(i as int).drop_first() =~= all.skip(i + 1));
        }
        if !utf8_len_is_two(part) {
            let e = mac_error(s, "': '", part.as_slice(), "' must be exactly two hex digits");
            return Err(e);
        }
        match hex_byte(part) {
            None => {
                let e = mac_error(s, "': '", part.as_slice(), "' is not a valid hex byte");
                return Err(e);
            },
            Some(b) => {
                let ghost before = bytes@;
                bytes.push(b);
                proof {
                    match spec_octets(s@, all.skip(i + 1)) {
                        Ok(rest) => {
                            assert(before + (seq![b] + rest) =~= bytes@ + rest);
                        },
                        Err(_) => {},
                    }
                }
            },
        }
        i = i + 1;
    }
    proof {
        assert(all.skip(6) =~= Seq::<Seq<char>>::empty());
        assert(bytes@ + Seq::<u8>::empty() =~= bytes@);
    }
    let arr: [u8; 6] = [bytes[0], bytes[1], bytes[2], bytes[3], bytes[4], bytes[5]];
    proof {
        assert(arr@ =~= bytes@);
    }
    Ok(arr)
}

/// Lowercase hex digit for a value below 16.
pub open spec fn hex_char(n: u8) -> char {
    if n < 10 {
        ((48 + n) as u8) as char
    } else {
        ((87 + n) as u8) as char
    }
}

/// Two lowercase hex digits for a byte.
pub open spec fn hex_pair(b: u8) -> Seq<char> {
    seq![hex_char(b / 16), hex_char(b % 16)]
}

/// `bytes` written as colon-separated pairs of lowercase hex digits.
pub open spec fn spec_format_mac(bytes: Seq<u8>) -> Seq<char> {
    join_with(bytes.map_values(|b: u8| hex_pair(b)), seq![':'])
}

/// A first octet with the locally-administered bit set and the multicast bit
/// cleared.
pub open spec fn locally_administered_unicast(b: u8) -> u8 {
    (b | 2) & 0xfe
}

/// The address bytes made from six random bytes.
pub open spec fn generated_mac_bytes(random: Seq<u8>) -> Seq<u8> {
    random.update(0, locally_administered_unicast(random[0]))
}

proof fn lemma_hex_char(n: u8)
    requires
        n < 16,
    ensures
        hex_value(hex_char(n)) == Some(n),
        (hex_char(n) as u32) < 0x80,
        hex_char(n) != ':',
{
    if n < 10 {
        assert(((48 + n) as u8) as char as u32 == 48 + n);
    } else {
        assert(((87 + n) as u8) as char as u32 == 87 + n);
    }
}

proof fn lemma_hex_pair(s: Seq<char>, b: u8)
    ensures
        spec_octet(s, hex_pair(b)) == Ok::<u8, Seq<char>>(b),
        free_of(hex_pair(b), ':'),
{
    let p = hex_pair(b);
    lemma_hex_char(b / 16);
    lemma_hex_char(b % 16);
    assert(p.drop_first()[0] == p[1]);
    assert(p.drop_first().drop_first() =~= Seq::<char>::empty());
    assert(utf8_len(Seq::<char>::empty()) == 0);
    assert(utf8_len(p.drop_first()) == 1);
    assert(utf8_len(p) == 2);
    assert(((b / 16) * 16 + b % 16) as u8 == b);
}

proof fn lemma_octets_of_pairs(s: Seq<char>, bs: Seq<u8>)
    ensures
        spec_octets(s, bs.map_values(|b: u8| hex_pair(b))) == Ok::<Seq<u8>, Seq<char>>(bs),
    decreases bs.len(),
{
    let parts = bs.map_values(|b: u8| hex_pair(b));
    if bs.len() == 0 {
        assert(parts =~= Seq::<Seq<char>>::empty());
        assert(bs =~= Seq::<u8>::empty());
    } else {
        lemma_hex_pair(s, bs[0]);
        lemma_octets_of_pairs(s, bs.drop_first());
        assert(parts.drop_first() =~= bs.drop_first().map_values(|b: u8| hex_pair(b)));
        assert(parts[0] == hex_pair(bs[0]));
        assert(spec_octet(s, parts[0]) == Ok::<u8, Seq<char>>(bs[0]));
        assert(seq![bs[0]] + bs.drop_first() =~= bs);
        assert(spec_octets(s, parts) == Ok::<Seq<u8>, Seq<char>>(seq![bs[0]] + bs.drop_first()));
    }
}

/// Every six bytes, written out as an address, parse back to themselves;
/// in particular every generated address is accepted by `parse_mac`.
pub proof fn law_format_mac_parses_back(bytes: Seq<u8>)
    requires
        bytes.len() == 6,
    ensures
        spec_parse_mac(spec_format_mac(bytes)) == Ok::<Seq<u8>, Seq<char>>(bytes),
{
    let parts = bytes.map_values(|b: u8| hex_pair(b));
    let s = spec_format_mac(bytes);
    assert forall|i: int| 0 <= i < parts.len() implies free_of(#[trigger] parts[i], ':') by {
        lemma_hex_pair(s, bytes[i]);
    }
    law_join_split(parts, ':');
    lemma_octets_of_pairs(s, bytes);
}

proof fn lemma_octets_len(s: Seq<char>, parts: Seq<Seq<char>>)
    ensures
        spec_octets(s, parts) matches Ok(b) ==> b.len() == parts.len(),
    decreases parts.len(),
{
    if parts.len() > 0 {
        lemma_octets_len(s, parts.drop_first());
    }
}

/// An address that parses gives exactly six bytes.
pub proof fn lemma_parsed_mac_has_six_bytes(s: Seq<char>)
    ensures
        spec_parse_mac(s) matches Ok(b) ==> b.len() == 6,
{
    lemma_octets_len(s, split_on(s, ':'));
}

proof fn lemma_octets_each(s: Seq<char>, parts: Seq<Seq<char>>)
    ensures
        spec_octets(s, parts) matches Ok(b) ==> b.len() == parts.len() && forall|i: int|
            0 <= i < parts.len() ==> spec_octet(s, #[trigger] parts[i]) == Ok::<u8, Seq<char>>(b[i]),
        (forall|i: int| 0 <= i < parts.len() ==> #[trigger] spec_octet(s, parts[i]) is Ok) ==> spec_octets(
            s,
            parts,
        ) is Ok,
    decreases parts.len(),
{
    if parts.len() > 0 {
        lemma_octets_each(s, parts.drop_first());
        if let Ok(b) = spec_octets(s, parts) {
            assert forall|i: int| 0 <= i < parts.len() implies spec_octet(s, #[trigger] parts[i])
                == Ok::<u8, Seq<char>>(b[i]) by {
                if i > 0 {
                    assert(parts[i] == parts.drop_first()[i - 1]);
                }
            }
        }
        if forall|i: int| 0 <= i < parts.len() ==> #[trigger] spec_octet(s, parts[i]) is Ok {
            assert forall|i: int| 0 <= i < parts.drop_first().len() implies #[trigger] spec_octet(
                s,
                parts.drop_first()[i],
            ) is Ok by {
                assert(parts.drop_first()[i] == parts[i + 1]);
            }
            assert(spec_octet(s, parts[0]) is Ok);
        }
    }
}

/// A part of two characters that are hex digits takes two bytes.
proof fn lemma_hex_part_len(part: Seq<char>)
    requires
        part.len() == 2,
        hex_value(part[0]) is Some,
        hex_value(part[1]) is Some,
    ensures
        utf8_len(part) == 2,
{
    assert(part.drop_first()[0] == part[1]);
    assert(part.drop_first().drop_first() =~= Seq::<char>::empty());
    assert(utf8_len(Seq::<char>::empty()) == 0);
    assert(utf8_width(part[1]) == 1);
    assert(utf8_len(part.drop_first()) == 1);
    assert(utf8_width(part[0]) == 1);
}

/// The value of a hex digit: `0`-`9`, `a`-`f` and `A`-`F` denote 0 to 15,
/// and nothing else is a hex digit.
pub proof fn law_hex_digit_values(c: char)
    ensures
        hex_value(c) is Some <==> (('0' <= c && c <= '9') || ('a' <= c && c <= 'f') || ('A' <= c
            && c <= 'F')),
        '0' <= c && c <= '9' ==> hex_value(c) == Some(((c as u32) - ('0' as u32)) as u8),
        'a' <= c && c <= 'f' ==> hex_value(c) == Some(((c as u32) - ('a' as u32) + 10) as u8),
        'A' <= c && c <= 'F' ==> hex_value(c) == Some(((c as u32) - ('A' as u32) + 10) as u8),
{
}

/// An address is accepted exactly when it has six colon-separated parts of
/// two hex digits each, and each byte is the value of its part read as a
/// two-digit hexadecimal number.
pub proof fn law_parsed_mac_reads_hex_pairs(s: Seq<char>)
    ensures
        ({
            let parts = split_on(s, ':');
            spec_parse_mac(s) is Ok <==> (parts.len() == 6 && forall|i: int|
                0 <= i < 6 ==> (#[trigger] parts[i]).len() == 2 && hex_value(parts[i][0]) is Some
                    && hex_value(parts[i][1]) is Some)
        }),
        spec_parse_mac(s) matches Ok(b) ==> {
            let parts = split_on(s, ':');
            &&& b.len() == 6
            &&& forall|i: int|
                0 <= i < 6 ==> #[trigger] b[i] == hex_value(parts[i][0])->0 * 16 + hex_value(
                    parts[i][1],
                )->0
        },
{
    let parts = split_on(s, ':');
    lemma_octets_each(s, parts);
    if parts.len() == 6 {
        if forall|i: int|
            0 <= i < 6 ==> (#[trigger] parts[i]).len() == 2 && hex_value(parts[i][0]) is Some
                && hex_value(parts[i][1]) is Some {
            assert forall|i: int| 0 <= i < parts.len() implies #[trigger] spec_octet(s, parts[i]) is Ok by {
                lemma_hex_part_len(parts[i]);
            }
        }
        if let Ok(b) = spec_parse_mac(s) {
            assert forall|i: int| 0 <= i < 6 implies (#[trigger] parts[i]).len() == 2 && hex_value(
                parts[i][0],
            ) is Some && hex_value(parts[i][1]) is Some && b[i] == hex_value(parts[i][0])->0 * 16
                + hex_value(parts[i][1])->0 by {
                assert(spec_octet(s, parts[i]) == Ok::<u8, Seq<char>>(b[i]));
                let hi = hex_value(parts[i][0])->0;
                let lo = hex_value(parts[i][1])->0;
                assert(hi < 16 && lo < 16);
                assert(hi * 16 + lo < 256) by (nonlinear_arith)
                    requires
                        hi < 16,
                        lo < 16,
                ;
            }
        }
    }
}

/// Uppercase hex digit for a value below 16.
pub open spec fn hex_char_upper(n: u8) -> char {
    if n < 10 {
        ((48 + n) as u8) as char
    } else {
        ((55 + n) as u8) as char
    }
}

/// Two uppercase hex digits for a byte.
pub open spec fn hex_pair_upper(b: u8) -> Seq<char> {
    seq![hex_char_upper(b / 16), hex_char_upper(b % 16)]
}

/// `bytes` written as colon-separated pairs of uppercase hex digits.
pub open spec fn spec_format_mac_upper(bytes: Seq<u8>) -> Seq<char> {
    join_with(bytes.map_values(|b: u8| hex_pair_upper(b)), seq![':'])
}

proof fn lemma_hex_char_upper(n: u8)
    requires
        n < 16,
    ensures
        hex_value(hex_char_upper(n)) == Some(n),
        (hex_char_upper(n) as u32) < 0x80,
        hex_char_upper(n) != ':',
{
    if n < 10 {
        assert(((48 + n) as u8) as char as u32 == 48 + n);
    } else {
        assert(((55 + n) as u8) as char as u32 == 55 + n);
    }
}

proof fn lemma_hex_pair_upper(s: Seq<char>, b: u8)
    ensures
        spec_octet(s, hex_pair_upper(b)) == Ok::<u8, Seq<char>>(b),
        free_of(hex_pair_upper(b), ':'),
{
    let p = hex_pair_upper(b);
    lemma_hex_char_upper(b / 16);
    lemma_hex_char_upper(b % 16);
    assert(p.drop_first()[0] == p[1]);
    assert(p.drop_first().drop_first() =~= Seq::<char>::empty());
    assert(utf8_len(Seq::<char>::empty()) == 0);
    assert(utf8_len(p.drop_first()) == 1);
    assert(utf8_len(p) == 2);
    assert(((b / 16) * 16 + b % 16) as u8 == b);
}

proof fn lemma_octets_of_upper_pairs(s: Seq<char>, bs: Seq<u8>)
    ensures
        spec_octets(s, bs.map_values(|b: u8| hex_pair_upper(b))) == Ok::<Seq<u8>, Seq<char>>(bs),
    decreases bs.len(),
{
    let parts = bs.map_values(|b: u8| hex_pair_upper(b));
    if bs.len() == 0 {
        assert(parts =~= Seq::<Seq<char>>::empty());
        assert(bs =~= Seq::<u8>::empty());
    } else {
        lemma_hex_pair_upper(s, bs[0]);
        lemma_octets_of_upper_pairs(s, bs.drop_first());
        assert(parts.drop_first() =~= bs.drop_first().map_values(|b: u8| hex_pair_upper(b)));
        assert(parts[0] == hex_pair_upper(bs[0]));
        assert(spec_octet(s, parts[0]) == Ok::<u8, Seq<char>>(bs[0]));
        assert(seq![bs[0]] + bs.drop_first() =~= bs);
        assert(spec_octets(s, parts) == Ok::<Seq<u8>, Seq<char>>(seq![bs[0]] + bs.drop_first()));
    }
}

/// Hex digits are read in either case: six bytes written in uppercase parse
/// back to themselves, as they do in lowercase.
pub proof fn law_uppercase_mac_parses_back(bytes: Seq<u8>)
    requires
        bytes.len() == 6,
    ensures
        spec_parse_mac(spec_format_mac_upper(bytes)) == Ok::<Seq<u8>, Seq<char>>(bytes),
        spec_parse_mac(spec_format_mac_upper(bytes)) == spec_parse_mac(spec_format_mac(bytes)),
{
    let parts = bytes.map_values(|b: u8| hex_pair_upper(b));
    let s = spec_format_mac_upper(bytes);
    assert forall|i: int| 0 <= i < parts.len() implies free_of(#[trigger] parts[i], ':') by {
        lemma_hex_pair_upper(s, bytes[i]);
    }
    law_join_split(parts, ':');
    lemma_octets_of_upper_pairs(s, bytes);
    law_format_mac_parses_back(bytes);
}

/// A generated address is unicast (multicast bit clear) and locally
/// administered (bit 1 set).
pub proof fn law_generated_mac_is_local_unicast(random: Seq<u8>)
    requires
        random.len() == 6,
    ensures
        generated_mac_bytes(random).len() == 6,
        generated_mac_bytes(random)[0] & 1 == 0,
        generated_mac_bytes(random)[0] & 2 == 2,
{
    let b: u8 = random[0];
    assert(((b | 2) & 0xfe) & 1 == 0 && ((b | 2) & 0xfe) & 2 == 2) by (bit_vector);
}

fn hex_char_of(n: u8) -> (c: char)
    requires
        n < 16,
    ensures
        c == hex_char(n),
{
    if n < 10 {
        (48 + n) as char
    } else {
        (87 + n) as char
    }
}

/// Formats six random bytes as a locally-administered unicast MAC address
/// `xx:xx:xx:xx:xx:xx` in lowercase hex: the first byte gets bit 1 set and
/// bit 0 cleared.
pub fn mac_from_random_bytes(random: [u8; 6]) -> (r: String)
    ensures
        r@ == spec_format_mac(generated_mac_bytes(random@)),
{
    let first: u8 = (random[0] | 2) & 0xfe;
    let ghost bytes = generated_mac_bytes(random@);
    let ghost pairs = bytes.map_values(|b: u8| hex_pair(b));
    let mut out: Vec<char> = Vec::new();
    let mut i: usize = 0;
    proof {
        assert(pairs.take(0) =~= Seq::<Seq<char>>::empty());
    }
    while i < 6
        invariant
            0 <= i <= 6,
            bytes == generated_mac_bytes(random@),
            pairs == bytes.map_values(|b: u8| hex_pair(b)),
            first == bytes[0],
            out@ == join_with(pairs.take(i as int), seq![':']),
        decreases 6 - i,
    {
        let b: u8 = if i == 0 {
            first
        } else {
            random[i]
        };
        assert(b == bytes[i as int]);
        let ghost before = out@;
        if i > 0 {
            out.push(':');
        }
        out.push(hex_char_of(b / 16));
        out.push(hex_char_of(b % 16));
        proof {
            let t = pairs.take(i + 1);
            assert(t.last() == hex_pair(b));
            if i == 0 {
                assert(out@ =~= t[0]);
            } else {
                assert(t.drop_last() =~= pairs.take(i as int));
                assert(out@ =~= before + seq![':'] + t.last());
            }
        }
        i = i + 1;
    }
    proof {
        assert(pairs.take(6) =~= pairs);
    }
    string_of(&out)
}

} // verus!

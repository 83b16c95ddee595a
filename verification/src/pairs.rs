//! `host:guest` pairs given on the command line: port mappings and volumes.

use vstd::prelude::*;
use crate::decimal::{decimal, decimal_string, lemma_decimal, parse_u16_chars, spec_parse_u16};
use crate::strmap::StringMap;
use crate::text::{chars_of, free_of, join_with, law_join_split, split_chars, split_on, string_of};

verus! {

/// A port of the host forwarded to a port of the guest, both in decimal.
#[derive(Debug, Clone)]
pub struct PortPair {
    pub host_port: String,
    pub guest_port: String,
}

/// A directory of the host exposed at a path of the guest.
#[derive(Debug, Clone)]
pub struct PathPair {
    pub host_path: String,
    pub guest_path: String,
}

/// The host and guest ports that `input` denotes, written back in canonical
/// decimal, or the message that rejects it.
pub open spec fn spec_port_pair(input: Seq<char>) -> Result<(Seq<char>, Seq<char>), Seq<char>> {
    let parts = split_on(input, ':');
    if parts.len() != 2 {
        Err("Too many ':' separators"@)
    } else {
        match spec_parse_u16(parts[0]) {
            None => Err("Invalid host port"@),
            Some(h) => match spec_parse_u16(parts[1]) {
                None => Err("Invalid guest port"@),
                Some(g) => Ok((decimal(h as nat), decimal(g as nat))),
            },
        }
    }
}

/// A port-pair parse result, seen as character sequences.
pub open spec fn port_pair_result_view(r: Result<PortPair, &str>) -> Result<
    (Seq<char>, Seq<char>),
    Seq<char>,
> {
    match r {
        Ok(p) => Ok((p.host_port@, p.guest_port@)),
        Err(e) => Err(e@),
    }
}

/// `p` starts at the root of the file system.
pub open spec fn is_absolute_path(p: Seq<char>) -> bool {
    p.len() > 0 && p[0] == '/'
}

/// A piece of a path between slashes that names a component: not empty and
/// not `.`.
pub open spec fn is_named_piece(q: Seq<char>) -> bool {
    q.len() > 0 && q != seq!['.']
}

/// How many of `pieces` name a component.
pub open spec fn named_piece_count(pieces: Seq<Seq<char>>) -> nat
    decreases pieces.len(),
{
    if pieces.len() == 0 {
        0
    } else {
        named_piece_count(pieces.drop_last()) + if is_named_piece(pieces.last()) {
            1nat
        } else {
            0nat
        }
    }
}

/// Number of components of an absolute path: the root, then each named
/// piece (`.` pieces and repeated slashes add none).
pub open spec fn absolute_path_components(p: Seq<char>) -> nat {
    1 + named_piece_count(split_on(p, '/'))
}

/// The host and guest paths that `input` denotes, or the message that rejects
/// it, given whether the host path exists.
pub open spec fn spec_path_pair(input: Seq<char>, host_exists: bool) -> Result<
    (Seq<char>, Seq<char>),
    Seq<char>,
> {
    let parts = split_on(input, ':');
    if parts.len() != 2 {
        Err("Too many ':' separators"@)
    } else if !is_absolute_path(parts[0]) {
        Err("Invalid volume, host_path is not an absolute path"@)
    } else if !host_exists {
        Err("Invalid volume, host_path does not exists"@)
    } else if !is_absolute_path(parts[1]) {
        Err("Invalid volume, guest_path is not an absolute path"@)
    } else if absolute_path_components(parts[1]) != 2 {
        Err("Invalid volume, only single direct root children are supported as guest_path"@)
    } else {
        Ok((parts[0], parts[1]))
    }
}

/// A path-pair parse result, seen as character sequences.
pub open spec fn path_pair_result_view(r: Result<PathPair, &str>) -> Result<
    (Seq<char>, Seq<char>),
    Seq<char>,
> {
    match r {
        Ok(p) => Ok((p.host_path@, p.guest_path@)),
        Err(e) => Err(e@),
    }
}

/// The map that a list of port pairs gives: host port to guest port, a later
/// pair replacing an earlier one with the same host port.
pub open spec fn port_pairs_map(ps: Seq<PortPair>) -> Map<Seq<char>, String>
    decreases ps.len(),
{
    if ps.len() == 0 {
        Map::<Seq<char>, String>::empty()
    } else {
        port_pairs_map(ps.drop_last()).insert(ps.last().host_port@, ps.last().guest_port)
    }
}

/// The map that a list of path pairs gives: host path to guest path, a later
/// pair replacing an earlier one with the same host path.
pub open spec fn path_pairs_map(ps: Seq<PathPair>) -> Map<Seq<char>, String>
    decreases ps.len(),
{
    if ps.len() == 0 {
        Map::<Seq<char>, String>::empty()
    } else {
        path_pairs_map(ps.drop_last()).insert(ps.last().host_path@, ps.last().guest_path)
    }
}

/// `std::path::Path::exists`: whether the file system holds an entry at `p`,
/// following symbolic links. The answer comes from the disk, so nothing is
/// stated of it.
#[verifier::external_body]
fn path_exists(p: &str) -> bool {
    std::path::Path::new(p).exists()
}

impl PortPair {
    /// Parses `host_port:guest_port`, each a 16-bit port number.
    pub fn parse(input: &str) -> (r: Result<PortPair, &'static str>)
        ensures
            port_pair_result_view(r) == spec_port_pair(input@),
    {
        let cs = chars_of(input);
        let parts = split_chars(&cs, ':');
        if parts.len() != 2 {
            return Err("Too many ':' separators");
        }
        proof {
            assert(parts@[0]@ == split_on(input@, ':')[0]);
            assert(parts@[1]@ == split_on(input@, ':')[1]);
        }
        let host_port = match parse_u16_chars(parts[0].as_slice()) {
            Some(p) => p,
            None => {
                return Err("Invalid host port");
            },
        };
        let guest_port = match parse_u16_chars(parts[1].as_slice()) {
            Some(p) => p,
            None => {
                return Err("Invalid guest port");
            },
        };
        Ok(PortPair {
            host_port: decimal_string(host_port as u64),
            guest_port: decimal_string(guest_port as u64),
        })
    }
}

impl std::str::FromStr for PortPair {
    type Err = &'static str;

    fn from_str(input: &str) -> (r: Result<Self, Self::Err>)
        ensures
            port_pair_result_view(r) == spec_port_pair(input@),
    {
        PortPair::parse(input)
    }
}

/// Counts the pieces that name a path component.
fn count_named_pieces(pieces: &Vec<Vec<char>>) -> (n: usize)
    ensures
        n == named_piece_count(crate::text::views(pieces@)),
{
    let ghost all = crate::text::views(pieces@);
    let mut n: usize = 0;
    let mut i: usize = 0;
    proof {
        assert(all.take(0) =~= Seq::<Seq<char>>::empty());
    }
    while i < pieces.len()
        invariant
            0 <= i <= pieces.len(),
            all == crate::text::views(pieces@),
            n <= i,
            n == named_piece_count(all.take(i as int)),
        decreases pieces.len() - i,
    {
        let q = &pieces[i];
        proof {
            assert(all.take(i + 1).drop_last() =~= all.take(i as int));
            assert(all.take(i + 1).last() == q@);
        }
        let named = q.len() > 0 && !(q.len() == 1 && q[0] == '.');
        proof {
            if q@.len() == 1 && q@[0] == '.' {
                assert(q@ =~= seq!['.']);
            }
            if q@ == seq!['.'] {
                assert(q@.len() == 1);
            }
        }
        if named {
            n = n + 1;
        }
        i = i + 1;
    }
    proof {
        assert(all.take(i as int) =~= all);
    }
    n
}

/// Whether `p` is an absolute path.
fn is_absolute_chars(p: &Vec<char>) -> (b: bool)
    ensures
        b == is_absolute_path(p@),
{
    p.len() > 0 && p[0] == '/'
}

/// Decides a volume pair given whether its host path exists; the existence
/// answer is consulted only once the host path is known to be absolute.
pub fn decide_path_pair(input: &str, host_exists: bool) -> (r: Result<PathPair, &'static str>)
    ensures
        path_pair_result_view(r) == spec_path_pair(input@, host_exists),
{
    let cs = chars_of(input);
    let parts = split_chars(&cs, ':');
    if parts.len() != 2 {
        return Err("Too many ':' separators");
    }
    proof {
        assert(parts@[0]@ == split_on(input@, ':')[0]);
        assert(parts@[1]@ == split_on(input@, ':')[1]);
    }
    if !is_absolute_chars(&parts[0]) {
        return Err("Invalid volume, host_path is not an absolute path");
    }
    if !host_exists {
        return Err("Invalid volume, host_path does not exists");
    }
    if !is_absolute_chars(&parts[1]) {
        return Err("Invalid volume, guest_path is not an absolute path");
    }
    let pieces = split_chars(&parts[1], '/');
    if count_named_pieces(&pieces) != 1 {
        return Err("Invalid volume, only single direct root children are supported as guest_path");
    }
    Ok(PathPair { host_path: string_of(&parts[0]), guest_path: string_of(&parts[1]) })
}

/// The host part of `input`, when `input` has exactly two parts and the host
/// part is absolute: the only case in which existence is checked.
fn host_to_check(input: &str) -> (r: Option<String>)
    ensures
        match r {
            Some(h) => split_on(input@, ':').len() == 2 && is_absolute_path(split_on(input@, ':')[0])
                && h@ == split_on(input@, ':')[0],
            None => !(split_on(input@, ':').len() == 2 && is_absolute_path(
                split_on(input@, ':')[0],
            )),
        },
{
    let cs = chars_of(input);
    let parts = split_chars(&cs, ':');
    if parts.len() == 2 && is_absolute_chars(&parts[0]) {
        proof {
            assert(parts@[0]@ == split_on(input@, ':')[0]);
        }
        Some(string_of(&parts[0]))
    } else {
        proof {
            if parts@.len() == 2 {
                assert(parts@[0]@ == split_on(input@, ':')[0]);
            }
        }
        None
    }
}

impl PathPair {
    /// Parses `host_path:guest_path`: the host path must be absolute and
    /// exist; the guest path must be absolute with exactly one component
    /// below the root.
    pub fn parse(input: &str) -> (r: Result<PathPair, &'static str>)
        ensures
            path_pair_result_view(r) == spec_path_pair(input@, true) || path_pair_result_view(r)
                == spec_path_pair(input@, false),
            !(split_on(input@, ':').len() == 2 && is_absolute_path(split_on(input@, ':')[0]))
                ==> path_pair_result_view(r) == spec_path_pair(input@, false),
    {
        let exists = match host_to_check(input) {
            Some(h) => path_exists(h.as_str()),
            None => false,
        };
        decide_path_pair(input, exists)
    }
}

impl std::str::FromStr for PathPair {
    type Err = &'static str;

    fn from_str(input: &str) -> (r: Result<Self, Self::Err>)
        ensures
            path_pair_result_view(r) == spec_path_pair(input@, true) || path_pair_result_view(r)
                == spec_path_pair(input@, false),
            !(split_on(input@, ':').len() == 2 && is_absolute_path(split_on(input@, ':')[0]))
                ==> path_pair_result_view(r) == spec_path_pair(input@, false),
    {
        PathPair::parse(input)
    }
}

/// A pair written back as `host:guest` parses to itself: the parsed ports are
/// canonical.
pub proof fn law_port_pair_canonical(input: Seq<char>)
    ensures
        spec_port_pair(input) matches Ok((h, g)) ==> spec_port_pair(h + seq![':'] + g) == Ok::<
            (Seq<char>, Seq<char>),
            Seq<char>,
        >((h, g)),
{
    if let Ok((h, g)) = spec_port_pair(input) {
        let parts = split_on(input, ':');
        let a = spec_parse_u16(parts[0]).unwrap();
        let b = spec_parse_u16(parts[1]).unwrap();
        lemma_decimal(a as nat);
        lemma_decimal(b as nat);
        let ps = seq![h, g];
        assert forall|i: int| 0 <= i < ps.len() implies free_of(#[trigger] ps[i], ':') by {
            if i == 0 {
                assert forall|j: int| 0 <= j < h.len() implies h[j] != ':' by {
                    assert(crate::decimal::is_digit(h[j]));
                }
            } else {
                assert forall|j: int| 0 <= j < g.len() implies g[j] != ':' by {
                    assert(crate::decimal::is_digit(g[j]));
                }
            }
        }
        law_join_split(ps, ':');
        assert(ps.drop_last() =~= seq![h]);
        assert(join_with(seq![h], seq![':']) == h);
        assert(join_with(ps, seq![':']) =~= h + seq![':'] + g);
        crate::decimal::law_u16_decimal_round_trip(a);
        crate::decimal::law_u16_decimal_round_trip(b);
    }
}

/// Collects port pairs into a map from host port to guest port; a later pair
/// replaces an earlier one with the same host port.
pub fn port_pairs_to_hash_map(port_pairs: Vec<PortPair>) -> (r: StringMap<String>)
    ensures
        r@ == port_pairs_map(port_pairs@),
{
    let mut m: StringMap<String> = StringMap::new();
    let mut i: usize = 0;
    proof {
        assert(port_pairs@.take(0) =~= Seq::<PortPair>::empty());
    }
    while i < port_pairs.len()
        invariant
            0 <= i <= port_pairs.len(),
            m@ == port_pairs_map(port_pairs@.take(i as int)),
        decreases port_pairs.len() - i,
    {
        m.insert(port_pairs[i].host_port.clone(), port_pairs[i].guest_port.clone());
        proof {
            assert(port_pairs@.take(i + 1).drop_last() =~= port_pairs@.take(i as int));
        }
        i = i + 1;
    }
    proof {
        assert(port_pairs@.take(i as int) =~= port_pairs@);
    }
    m
}

/// Collects volume pairs into a map from host path to guest path; a later
/// pair replaces an earlier one with the same host path.
pub fn path_pairs_to_hash_map(volume_pairs: Vec<PathPair>) -> (r: StringMap<String>)
    ensures
        r@ == path_pairs_map(volume_pairs@),
{
    let mut m: StringMap<String> = StringMap::new();
    let mut i: usize = 0;
    proof {
        assert(volume_pairs@.take(0) =~= Seq::<PathPair>::empty());
    }
    while i < volume_pairs.len()
        invariant
            0 <= i <= volume_pairs.len(),
            m@ == path_pairs_map(volume_pairs@.take(i as int)),
        decreases volume_pairs.len() - i,
    {
        m.insert(volume_pairs[i].host_path.clone(), volume_pairs[i].guest_path.clone());
        proof {
            assert(volume_pairs@.take(i + 1).drop_last() =~= volume_pairs@.take(i as int));
        }
        i = i + 1;
    }
    proof {
        assert(volume_pairs@.take(i as int) =~= volume_pairs@);
    }
    m
}

/// A port pair is accepted exactly when the input has one `:` with a 16-bit
/// port number on each side; the ports kept are those numbers.
pub proof fn law_port_pair_reads_both_ports(input: Seq<char>)
    ensures
        ({
            let parts = split_on(input, ':');
            spec_port_pair(input) is Ok <==> (parts.len() == 2 && spec_parse_u16(parts[0]) is Some
                && spec_parse_u16(parts[1]) is Some)
        }),
        spec_port_pair(input) matches Ok((h, g)) ==> {
            let parts = split_on(input, ':');
            &&& spec_parse_u16(h) == spec_parse_u16(parts[0])
            &&& spec_parse_u16(g) == spec_parse_u16(parts[1])
        },
        split_on(input, ':').len() != 2 ==> spec_port_pair(input) == Err::<
            (Seq<char>, Seq<char>),
            Seq<char>,
        >("Too many ':' separators"@),
{
    let parts = split_on(input, ':');
    if parts.len() == 2 {
        if let Some(a) = spec_parse_u16(parts[0]) {
            crate::decimal::law_u16_decimal_round_trip(a);
        }
        if let Some(b) = spec_parse_u16(parts[1]) {
            crate::decimal::law_u16_decimal_round_trip(b);
        }
    }
}

/// A volume is accepted only when its host path exists, both paths are
/// absolute, and they are the two sides of the input's single `:`.
pub proof fn law_path_pair_sides(input: Seq<char>, host_exists: bool)
    ensures
        spec_path_pair(input, host_exists) matches Ok((h, g)) ==> {
            &&& host_exists
            &&& is_absolute_path(h)
            &&& is_absolute_path(g)
            &&& h + seq![':'] + g == input
            &&& free_of(h, ':') && free_of(g, ':')
        },
        !host_exists ==> spec_path_pair(input, host_exists) is Err,
{
    let parts = split_on(input, ':');
    if parts.len() == 2 {
        crate::text::law_split_join(input, ':');
        assert(parts.drop_last() =~= seq![parts[0]]);
        assert(join_with(parts.drop_last(), seq![':']) == parts[0]);
        assert(free_of(parts[0], ':'));
        assert(free_of(parts[1], ':'));
    }
}

} // verus!

use crate::models::ServerInfo;
use crate::text::{chars_of, push_char};
use vstd::prelude::*;
use vstd::string::*;

verus! {

/// Port of a server whose connection string names none, or names one that
/// does not read as a port number.
pub const DEFAULT_PORT: u16 = 27017;

/// Version reported for a server that did not say which it runs.
pub open spec fn unknown_version() -> Seq<char> {
    "unknown"@
}

/// What is known of the server reached by `uri`: the version it reported, if
/// any, and the host and port the string names.
pub fn server_info_for(uri: &str, version: Option<String>) -> (r: ServerInfo)
    ensures
        r.version@ == match version {
            Some(v) => v@,
            None => unknown_version(),
        },
        (r.host@, r.port) == host_port(uri@),
{
    let (host, port) = parse_host_port(uri);
    let version = match version {
        Some(v) => v,
        None => String::from_str("unknown"),
    };
    ServerInfo { version, host, port }
}

/// Host named by a connection string with no recognised scheme.
pub open spec fn default_host() -> Seq<char> {
    "localhost"@
}

/// What follows `prefix` in `s`, where `s` starts with it.
pub open spec fn strip_prefix(s: Seq<char>, prefix: Seq<char>) -> Option<Seq<char>> {
    if prefix.len() <= s.len() && s.take(prefix.len() as int) == prefix {
        Some(s.skip(prefix.len() as int))
    } else {
        None
    }
}

/// Position of the first `c` in `s`, or the length of `s` where there is none.
pub open spec fn first_index(s: Seq<char>, c: char) -> nat
    decreases s.len(),
{
    if s.len() == 0 {
        0
    } else if s[0] == c {
        0
    } else {
        1 + first_index(s.skip(1), c)
    }
}

/// Position of the last `c` in `s`.
pub open spec fn last_index(s: Seq<char>, c: char) -> Option<nat>
    decreases s.len(),
{
    if s.len() == 0 {
        None
    } else if s.last() == c {
        Some((s.len() - 1) as nat)
    } else {
        last_index(s.drop_last(), c)
    }
}

pub open spec fn is_digit(c: char) -> bool {
    '0' <= c <= '9'
}

/// Value of a run of decimal digits.
pub open spec fn digits_value(d: Seq<char>) -> nat
    decreases d.len(),
{
    if d.len() == 0 {
        0
    } else {
        digits_value(d.drop_last()) * 10 + (d.last() as nat - '0' as nat) as nat
    }
}

/// `p` without one leading `+`.
pub open spec fn unsigned_digits(p: Seq<char>) -> Seq<char> {
    if p.len() > 0 && p[0] == '+' {
        p.skip(1)
    } else {
        p
    }
}

pub open spec fn all_digits(d: Seq<char>) -> bool {
    forall|i: int| 0 <= i < d.len() ==> is_digit(#[trigger] d[i])
}

/// A port number as `u16::from_str` reads it: an optional `+`, then at least
/// one decimal digit, for a value that fits.
pub open spec fn parse_port(p: Seq<char>) -> Option<u16> {
    let d = unsigned_digits(p);
    if d.len() > 0 && all_digits(d) && digits_value(d) <= u16::MAX {
        Some(digits_value(d) as u16)
    } else {
        None
    }
}

/// Host and port named by the part of a connection string between its scheme
/// and the first `/`, with any credentials before the last `@` left out.
pub open spec fn host_port_of_authority(a: Seq<char>) -> (Seq<char>, u16) {
    let hp = match last_index(a, '@') {
        Some(k) => a.skip(k + 1int),
        None => a,
    };
    let colon = first_index(hp, ':');
    if colon < hp.len() {
        (
            hp.take(colon as int),
            match parse_port(hp.skip(colon + 1int)) {
                Some(v) => v,
                None => DEFAULT_PORT,
            },
        )
    } else {
        (hp, DEFAULT_PORT)
    }
}

/// Host and port that a connection string names.
pub open spec fn host_port(uri: Seq<char>) -> (Seq<char>, u16) {
    let rest = match strip_prefix(uri, "mongodb://"@) {
        Some(r) => Some(r),
        None => strip_prefix(uri, "mongodb+srv://"@),
    };
    match rest {
        Some(r) => host_port_of_authority(r.take(first_index(r, '/') as int)),
        None => (default_host(), DEFAULT_PORT),
    }
}

proof fn lemma_first_index_bound(s: Seq<char>, c: char)
    ensures
        first_index(s, c) <= s.len(),
        first_index(s, c) < s.len() ==> s[first_index(s, c) as int] == c,
    decreases s.len(),
{
    if s.len() > 0 && s[0] != c {
        lemma_first_index_bound(s.skip(1), c);
        assert(s.skip(1)[first_index(s.skip(1), c) as int] == s[first_index(s, c) as int]
            || first_index(s.skip(1), c) >= s.skip(1).len());
    }
}

proof fn lemma_last_index_bound(s: Seq<char>, c: char)
    ensures
        last_index(s, c) matches Some(k) ==> k < s.len() && s[k as int] == c,
    decreases s.len(),
{
    if s.len() > 0 && s.last() != c {
        lemma_last_index_bound(s.drop_last(), c);
    }
}

/// Position of the first `c` in `s[from..to]`, or `to` where there is none.
fn find_first(s: &Vec<char>, from: usize, to: usize, c: char) -> (r: usize)
    requires
        from <= to <= s.len(),
    ensures
        r == from + first_index(s@.subrange(from as int, to as int), c),
{
    let mut i: usize = from;
    while i < to && s[i] != c
        invariant
            from <= i <= to <= s.len(),
            first_index(s@.subrange(from as int, to as int), c) == (i - from) + first_index(
                s@.subrange(i as int, to as int),
                c,
            ),
        decreases to - i,
    {
        assert(s@.subrange(i as int, to as int).skip(1) =~= s@.subrange(i as int + 1, to as int));
        i = i + 1;
    }
    if i < to {
        assert(s@.subrange(i as int, to as int)[0] == c);
    } else {
        assert(s@.subrange(i as int, to as int).len() == 0);
    }
    i
}

/// Position of the last `c` in `s[from..to]`.
fn find_last(s: &Vec<char>, from: usize, to: usize, c: char) -> (r: Option<usize>)
    requires
        from <= to <= s.len(),
    ensures
        r matches Some(k) ==> from <= k < to && last_index(
            s@.subrange(from as int, to as int),
            c,
        ) == Some((k - from) as nat),
        r is None ==> last_index(s@.subrange(from as int, to as int), c) is None,
{
    let mut i: usize = to;
    while i > from && s[i - 1] != c
        invariant
            from <= i <= to <= s.len(),
            last_index(s@.subrange(from as int, to as int), c) == last_index(
                s@.subrange(from as int, i as int),
                c,
            ),
        decreases i,
    {
        assert(s@.subrange(from as int, i as int).drop_last() =~= s@.subrange(
            from as int,
            i as int - 1,
        ));
        i = i - 1;
    }
    if i > from {
        Some(i - 1)
    } else {
        assert(s@.subrange(from as int, i as int).len() == 0);
        None
    }
}

/// Whether `s` starts with `p`.
fn starts_with(s: &Vec<char>, p: &Vec<char>) -> (r: bool)
    ensures
        r == (p@.len() <= s@.len() && s@.take(p@.len() as int) == p@),
{
    if p.len() > s.len() {
        return false;
    }
    let mut i: usize = 0;
    while i < p.len()
        invariant
            p.len() <= s.len(),
            i <= p.len(),
            s@.take(i as int) == p@.take(i as int),
        decreases p.len() - i,
    {
        if s[i] != p[i] {
            assert(s@.take(p@.len() as int)[i as int] != p@[i as int]);
            return false;
        }
        assert(s@.take(i as int + 1) =~= p@.take(i as int + 1));
        i = i + 1;
    }
    assert(p@.take(i as int) =~= p@);
    true
}

/// The text of `s[from..to]`.
fn text_between(s: &Vec<char>, from: usize, to: usize) -> (r: String)
    requires
        from <= to <= s.len(),
    ensures
        r@ == s@.subrange(from as int, to as int),
{
    let mut out = String::new();
    let mut i: usize = from;
    while i < to
        invariant
            from <= i <= to <= s.len(),
            out@ == s@.subrange(from as int, i as int),
        decreases to - i,
    {
        push_char(&mut out, s[i]);
        assert(out@ =~= s@.subrange(from as int, i as int + 1));
        i = i + 1;
    }
    out
}

/// A longer run of digits is worth at least as much as its start.
proof fn lemma_digits_prefix(d: Seq<char>, k: int)
    requires
        0 <= k <= d.len(),
        forall|i: int| 0 <= i < d.len() ==> is_digit(#[trigger] d[i]),
    ensures
        digits_value(d.take(k)) <= digits_value(d),
    decreases d.len(),
{
    if k < d.len() {
        assert(d.drop_last().take(k) =~= d.take(k));
        lemma_digits_prefix(d.drop_last(), k);
    } else {
        assert(d.take(k) =~= d);
    }
}

/// Reads `s[from..to]` as a port number.
fn parse_port_at(s: &Vec<char>, from: usize, to: usize) -> (r: Option<u16>)
    requires
        from <= to <= s.len(),
    ensures
        r == parse_port(s@.subrange(from as int, to as int)),
{
    let ghost p = s@.subrange(from as int, to as int);
    let mut start: usize = from;
    if start < to && s[start] == '+' {
        start = start + 1;
    }
    let ghost d = s@.subrange(start as int, to as int);
    assert(d =~= unsigned_digits(p));
    if start == to {
        return None;
    }
    let mut acc: u32 = 0;
    let mut i: usize = start;
    while i < to
        invariant
            start <= i <= to <= s.len(),
            d == s@.subrange(start as int, to as int),
            d == unsigned_digits(p),
            p == s@.subrange(from as int, to as int),
            acc == digits_value(d.take(i - start)),
            acc <= u16::MAX,
            forall|j: int| 0 <= j < i - start ==> is_digit(#[trigger] d[j]),
        decreases to - i,
    {
        let c = s[i];
        if !('0' <= c && c <= '9') {
            assert(!is_digit(d[i - start]));
            assert(!all_digits(d));
            return None;
        }
        assert(d.take(i - start + 1).drop_last() =~= d.take(i - start));
        acc = acc * 10 + (c as u32 - '0' as u32);
        if acc > u16::MAX as u32 {
            proof {
                if forall|j: int| 0 <= j < d.len() ==> is_digit(#[trigger] d[j]) {
                    lemma_digits_prefix(d, i - start + 1);
                    assert(digits_value(d) > u16::MAX);
                }
            }
            return None;
        }
        i = i + 1;
    }
    assert(d.take(i - start) =~= d);
    Some(acc as u16)
}

/// Host and port that a connection string names: what follows `mongodb://`
/// or `mongodb+srv://` up to the first `/`, after the last `@`, split at the
/// first `:`. A port that does not read as a number, or a missing one, gives
/// the default port; a string with neither scheme gives the local host.
pub fn parse_host_port(uri: &str) -> (r: (String, u16))
    ensures
        (r.0@, r.1) == host_port(uri@),
{
    let s = chars_of(uri);
    let plain = chars_of("mongodb://");
    let srv = chars_of("mongodb+srv://");
    let start: usize;
    if starts_with(&s, &plain) {
        start = plain.len();
    } else if starts_with(&s, &srv) {
        start = srv.len();
    } else {
        return (String::from_str("localhost"), DEFAULT_PORT);
    }
    let ghost rest = s@.skip(start as int);
    assert(rest =~= s@.subrange(start as int, s.len() as int));
    let end = find_first(&s, start, s.len(), '/');
    proof {
        lemma_first_index_bound(rest, '/');
    }
    assert(rest.take(first_index(rest, '/') as int) =~= s@.subrange(start as int, end as int));
    authority_host_port(&s, start, end)
}

/// Host and port named by `s[from..to]`, the part of a connection string
/// between its scheme and the first `/`.
fn authority_host_port(s: &Vec<char>, from: usize, to: usize) -> (r: (String, u16))
    requires
        from <= to <= s.len(),
    ensures
        (r.0@, r.1) == host_port_of_authority(s@.subrange(from as int, to as int)),
{
    let ghost a = s@.subrange(from as int, to as int);
    let at = find_last(s, from, to, '@');
    let host_start: usize = match at {
        Some(k) => k + 1,
        None => from,
    };
    let ghost hp = s@.subrange(host_start as int, to as int);
    assert(hp =~= match last_index(a, '@') {
        Some(k) => a.skip(k + 1int),
        None => a,
    });
    let colon = find_first(s, host_start, to, ':');
    proof {
        lemma_first_index_bound(hp, ':');
    }
    if colon < to {
        let host = text_between(s, host_start, colon);
        let port = parse_port_at(s, colon + 1, to);
        assert(hp.take(colon - host_start) =~= host@);
        assert(hp.skip(colon - host_start + 1) =~= s@.subrange(colon + 1, to as int));
        match port {
            Some(v) => (host, v),
            None => (host, DEFAULT_PORT),
        }
    } else {
        (text_between(s, host_start, to), DEFAULT_PORT)
    }
}

} // verus!

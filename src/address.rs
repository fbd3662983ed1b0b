//! Recognising IP address literals: dotted-quad IPv4 and RFC 4291 IPv6.
use vstd::prelude::*;
use crate::service::AddressKind;
use crate::text::views;

verus! {

/// `s` cut at every `sep`: the pieces between separators, empty ones included.
pub open spec fn split_spec(s: Seq<char>, sep: char) -> Seq<Seq<char>>
    decreases s.len(),
{
    if s.len() == 0 {
        seq![Seq::empty()]
    } else {
        let parts = split_spec(s.drop_last(), sep);
        if s.last() == sep {
            parts.push(Seq::empty())
        } else {
            parts.update(parts.len() - 1, parts.last().push(s.last()))
        }
    }
}

pub open spec fn is_dec_digit(c: char) -> bool {
    '0' <= c <= '9'
}

pub open spec fn is_hex_digit(c: char) -> bool {
    ('0' <= c <= '9') || ('a' <= c <= 'f') || ('A' <= c <= 'F')
}

/// The value of a run of decimal digits.
pub open spec fn dec_value(s: Seq<char>) -> nat
    decreases s.len(),
{
    if s.len() == 0 {
        0
    } else {
        dec_value(s.drop_last()) * 10 + ((s.last() as u32) - ('0' as u32)) as nat
    }
}

/// One part of a dotted quad: one to three digits, no leading zero, at most 255.
pub open spec fn is_octet(p: Seq<char>) -> bool {
    &&& 1 <= p.len() <= 3
    &&& forall|i: int| 0 <= i < p.len() ==> is_dec_digit(#[trigger] p[i])
    &&& (p.len() == 1 || p[0] != '0')
    &&& dec_value(p) <= 255
}

/// A dotted-quad IPv4 literal.
pub open spec fn is_ipv4(s: Seq<char>) -> bool {
    let parts = split_spec(s, '.');
    parts.len() == 4 && forall|i: int| 0 <= i < 4 ==> is_octet(#[trigger] parts[i])
}

/// One group of an IPv6 literal: one to four hex digits.
pub open spec fn is_hex_group(p: Seq<char>) -> bool {
    1 <= p.len() <= 4 && forall|i: int| 0 <= i < p.len() ==> is_hex_digit(#[trigger] p[i])
}

/// How many 16-bit groups a run of `:`-separated parts stands for: hex groups,
/// the last of which may be a dotted quad worth two; none when a part is neither.
pub open spec fn group_count(parts: Seq<Seq<char>>) -> Option<nat> {
    if parts.len() == 0 {
        Some(0)
    } else if forall|i: int| 0 <= i < parts.len() - 1 ==> is_hex_group(#[trigger] parts[i]) {
        if is_hex_group(parts.last()) {
            Some(parts.len())
        } else if is_ipv4(parts.last()) {
            Some(parts.len() + 1)
        } else {
            None
        }
    } else {
        None
    }
}

/// How many groups the text on one side of `::` stands for.
pub open spec fn side_count(s: Seq<char>, dotted_quad_allowed: bool) -> Option<nat> {
    if s.len() == 0 {
        Some(0)
    } else {
        let parts = split_spec(s, ':');
        if dotted_quad_allowed {
            group_count(parts)
        } else if forall|i: int| 0 <= i < parts.len() ==> is_hex_group(#[trigger] parts[i]) {
            Some(parts.len())
        } else {
            None
        }
    }
}

/// Whether `::` starts at `k`.
pub open spec fn colon_pair(s: Seq<char>, k: int) -> bool {
    0 <= k < s.len() - 1 && s[k] == ':' && s[k + 1] == ':'
}

/// The position of the first `::`, if any.
pub open spec fn double_colon(s: Seq<char>) -> Option<int> {
    if exists|k: int| #[trigger] colon_pair(s, k) {
        Some(choose|k: int| #[trigger] colon_pair(s, k) && forall|j: int| 0 <= j < k ==> !#[trigger] colon_pair(s, j))
    } else {
        None
    }
}

/// An IPv6 literal: eight groups, or fewer around one `::`; the last two groups
/// may be written as a dotted quad.
pub open spec fn is_ipv6(s: Seq<char>) -> bool {
    match double_colon(s) {
        Some(k) => match (
            side_count(s.subrange(0, k), false),
            side_count(s.subrange(k + 2, s.len() as int), true),
        ) {
            (Some(h), Some(t)) => h + t <= 7,
            _ => false,
        },
        None => group_count(split_spec(s, ':')) == Some(8nat),
    }
}

/// How an address is written.
pub open spec fn address_kind_of(s: Seq<char>) -> AddressKind {
    if is_ipv4(s) {
        AddressKind::Ipv4
    } else if is_ipv6(s) {
        AddressKind::Ipv6
    } else {
        AddressKind::Hostname
    }
}

/// Cuts `s` at every `sep`.
pub fn split(s: &str, sep: char) -> (r: Vec<String>)
    ensures
        views(r@) == split_spec(s@, sep),
{
    let n = s.unicode_len();
    let mut parts: Vec<String> = Vec::new();
    let mut cur = String::new();
    let mut i: usize = 0;
    while i < n
        invariant
            n == s@.len(),
            i <= n,
            views(parts@).push(cur@) == split_spec(s@.subrange(0, i as int), sep),
        decreases n - i,
    {
        let c = s.get_char(i);
        let ghost prev = s@.subrange(0, i as int);
        let ghost next = s@.subrange(0, i + 1);
        assert(next.drop_last() =~= prev);
        assert(next.last() == c);
        if c == sep {
            parts.push(cur);
            cur = String::new();
            assert(views(parts@).push(cur@) =~= split_spec(prev, sep).push(Seq::empty()));
        } else {
            let ghost old_cur = cur@;
            cur.append(s.substring_char(i, i + 1));
            assert(cur@ =~= old_cur.push(c));
            let ghost ps = split_spec(prev, sep);
            assert(views(parts@).push(cur@) =~= ps.update(ps.len() - 1, ps.last().push(c)));
        }
        i = i + 1;
    }
    assert(s@.subrange(0, n as int) =~= s@);
    parts.push(cur);
    assert(views(parts@) =~= split_spec(s@, sep));
    parts
}

fn char_at(s: &String, i: usize) -> (c: char)
    requires
        i < s@.len(),
    ensures
        c == s@[i as int],
{
    s.as_str().get_char(i)
}

/// Whether `p` is one part of a dotted quad.
pub fn is_octet_exec(p: &String) -> (r: bool)
    ensures
        r == is_octet(p@),
{
    let n = p.as_str().unicode_len();
    if n < 1 || n > 3 {
        return false;
    }
    let mut value: u32 = 0;
    let mut i: usize = 0;
    while i < n
        invariant
            n == p@.len(),
            1 <= n <= 3,
            i <= n,
            forall|j: int| 0 <= j < i ==> is_dec_digit(#[trigger] p@[j]),
            value == dec_value(p@.subrange(0, i as int)),
            i == 0 ==> value < 1,
            i == 1 ==> value < 10,
            i == 2 ==> value < 100,
            i == 3 ==> value < 1000,
        decreases n - i,
    {
        let c = char_at(p, i);
        if !('0' <= c && c <= '9') {
            return false;
        }
        let ghost next = p@.subrange(0, i + 1);
        assert(next.drop_last() =~= p@.subrange(0, i as int));
        assert(next.last() == c);
        value = value * 10 + ((c as u32) - ('0' as u32));
        i = i + 1;
    }
    assert(p@.subrange(0, n as int) =~= p@);
    (n == 1 || char_at(p, 0) != '0') && value <= 255
}

/// Whether `s` is a dotted-quad IPv4 literal.
pub fn is_ipv4_exec(s: &str) -> (r: bool)
    ensures
        r == is_ipv4(s@),
{
    let parts = split(s, '.');
    if parts.len() != 4 {
        return false;
    }
    let mut i: usize = 0;
    while i < 4
        invariant
            parts@.len() == 4,
            views(parts@) == split_spec(s@, '.'),
            i <= 4,
            forall|j: int| 0 <= j < i ==> is_octet(#[trigger] split_spec(s@, '.')[j]),
        decreases 4 - i,
    {
        assert(views(parts@)[i as int] == parts@[i as int]@);
        if !is_octet_exec(&parts[i]) {
            return false;
        }
        i = i + 1;
    }
    true
}

/// Whether `p` is one group of an IPv6 literal.
pub fn is_hex_group_exec(p: &String) -> (r: bool)
    ensures
        r == is_hex_group(p@),
{
    let n = p.as_str().unicode_len();
    if n < 1 || n > 4 {
        return false;
    }
    let mut i: usize = 0;
    while i < n
        invariant
            n == p@.len(),
            i <= n,
            forall|j: int| 0 <= j < i ==> is_hex_digit(#[trigger] p@[j]),
        decreases n - i,
    {
        let c = char_at(p, i);
        if !(('0' <= c && c <= '9') || ('a' <= c && c <= 'f') || ('A' <= c && c <= 'F')) {
            return false;
        }
        i = i + 1;
    }
    true
}

fn all_hex_groups(parts: &Vec<String>, upto: usize) -> (r: bool)
    requires
        upto <= parts@.len(),
    ensures
        r == forall|i: int| 0 <= i < upto ==> is_hex_group(#[trigger] views(parts@)[i]),
{
    let mut i: usize = 0;
    while i < upto
        invariant
            upto <= parts@.len(),
            i <= upto,
            forall|j: int| 0 <= j < i ==> is_hex_group(#[trigger] views(parts@)[j]),
        decreases upto - i,
    {
        assert(views(parts@)[i as int] == parts@[i as int]@);
        if !is_hex_group_exec(&parts[i]) {
            return false;
        }
        i = i + 1;
    }
    true
}

fn group_count_exec(parts: &Vec<String>) -> (r: Option<u128>)
    ensures
        r matches Some(c) ==> group_count(views(parts@)) == Some(c as nat),
        r is None ==> group_count(views(parts@)) is None,
{
    let n = parts.len();
    if n == 0 {
        assert(views(parts@).len() == 0);
        return Some(0);
    }
    if !all_hex_groups(parts, n - 1) {
        return None;
    }
    assert(views(parts@).last() == parts@[n - 1]@);
    if is_hex_group_exec(&parts[n - 1]) {
        Some(n as u128)
    } else if is_ipv4_exec(parts[n - 1].as_str()) {
        Some(n as u128 + 1)
    } else {
        None
    }
}

proof fn lemma_double_colon(s: Seq<char>, k: int)
    requires
        colon_pair(s, k),
        forall|j: int| 0 <= j < k ==> !#[trigger] colon_pair(s, j),
    ensures
        double_colon(s) == Some(k),
{
    let i = choose|i: int| #[trigger] colon_pair(s, i) && forall|j: int| 0 <= j < i ==> !#[trigger] colon_pair(s, j);
    assert(colon_pair(s, i) && forall|j: int| 0 <= j < i ==> !#[trigger] colon_pair(s, j));
    assert(i == k) by {
        if i < k {
            assert(!colon_pair(s, i));
        } else if i > k {
            assert(!colon_pair(s, k));
        }
    }
}

fn find_double_colon(s: &str) -> (r: Option<usize>)
    ensures
        r matches Some(k) ==> colon_pair(s@, k as int),
        r matches Some(k) ==> double_colon(s@) == Some(k as int),
        r is None ==> double_colon(s@) is None,
{
    let n = s.unicode_len();
    if n < 2 {
        assert forall|j: int| !#[trigger] colon_pair(s@, j) by {}
        return None;
    }
    let mut k: usize = 0;
    while k < n - 1
        invariant
            n == s@.len(),
            n >= 2,
            k <= n - 1,
            forall|j: int| 0 <= j < k ==> !#[trigger] colon_pair(s@, j),
        decreases n - k,
    {
        if s.get_char(k) == ':' && s.get_char(k + 1) == ':' {
            proof { lemma_double_colon(s@, k as int); }
            return Some(k);
        }
        k = k + 1;
    }
    assert forall|j: int| !#[trigger] colon_pair(s@, j) by {
        if 0 <= j < k {
        }
    }
    None
}

fn side_count_exec(s: &str, dotted_quad_allowed: bool) -> (r: Option<u128>)
    ensures
        r matches Some(c) ==> side_count(s@, dotted_quad_allowed) == Some(c as nat),
        r is None ==> side_count(s@, dotted_quad_allowed) is None,
{
    if s.unicode_len() == 0 {
        return Some(0);
    }
    let parts = split(s, ':');
    if dotted_quad_allowed {
        group_count_exec(&parts)
    } else if all_hex_groups(&parts, parts.len()) {
        Some(parts.len() as u128)
    } else {
        None
    }
}

/// Whether `s` is an IPv6 literal.
#[verifier::rlimit(60)]
pub fn is_ipv6_exec(s: &str) -> (r: bool)
    ensures
        r == is_ipv6(s@),
{
    let n = s.unicode_len();
    match find_double_colon(s) {
        Some(k) => {
            let head_text = s.substring_char(0, k);
            let tail_text = s.substring_char(k + 2, n);
            let head = side_count_exec(head_text, false);
            let tail = side_count_exec(tail_text, true);
            let ghost hc = side_count(s@.subrange(0, k as int), false);
            let ghost tc = side_count(s@.subrange(k + 2, s@.len() as int), true);
            assert(double_colon(s@) == Some(k as int));
            match (head, tail) {
                (Some(h), Some(t)) => {
                    assert(hc == Some(h as nat) && tc == Some(t as nat));
                    h <= 7 && t <= 7 - h
                },
                _ => {
                    assert(hc is None || tc is None);
                    false
                },
            }
        },
        None => {
            let parts = split(s, ':');
            match group_count_exec(&parts) {
                Some(c) => {
                    assert(group_count(split_spec(s@, ':')) == Some(c as nat));
                    c == 8
                },
                None => false,
            }
        },
    }
}

/// How `host` is written: an IPv4 literal, an IPv6 literal, or a name.
pub fn classify_address(host: &str) -> (r: AddressKind)
    ensures
        r == address_kind_of(host@),
{
    if is_ipv4_exec(host) {
        AddressKind::Ipv4
    } else if is_ipv6_exec(host) {
        AddressKind::Ipv6
    } else {
        AddressKind::Hostname
    }
}

} // verus!

//! Socket addresses as plain values, with a verified parser for the textual
//! `a.b.c.d:port` form.
//!
//! The grammar read here: four decimal octets (each `0..=255`, written
//! without leading zeros) separated by single dots, then a colon, then a
//! decimal port (`0..=65535`, no leading zeros), and nothing else. Whether
//! a payload's address is *accepted* is the engine parser's decision (see
//! the translate module); this module gives an accepted text's dotted-quad
//! reading as plain values, where it has one.

use vstd::prelude::*;

verus! {

/// An IPv4 socket address held as plain numeric values.
#[derive(Clone, Copy, Debug, PartialEq, Eq, Structural)]
pub struct SocketAddress {
    pub ip0: u8,
    pub ip1: u8,
    pub ip2: u8,
    pub ip3: u8,
    pub port: u16,
}

/// Whether `c` is a decimal digit (`'0'` is code point 48, `'9'` is 57).
pub open spec fn is_digit(c: char) -> bool {
    48 <= c as u32 <= 57
}

/// Numeric value of a decimal digit.
pub open spec fn digit_val(c: char) -> int {
    c as u32 - 48
}

/// Value of a sequence of decimal digits, most significant first.
pub open spec fn digits_val(s: Seq<char>) -> int
    decreases s.len(),
{
    if s.len() == 0 {
        0
    } else {
        digits_val(s.drop_last()) * 10 + digit_val(s.last())
    }
}

/// A decimal numeral: at least one digit, and no leading zero except for
/// the numeral `0` itself.
pub open spec fn is_numeral(s: Seq<char>) -> bool {
    &&& s.len() >= 1
    &&& forall|i: int| 0 <= i < s.len() ==> is_digit(#[trigger] s[i])
    &&& (s.len() > 1 ==> s[0] != '0')
}

/// A numeral of at most `max_len` digits whose value is at most `max`.
pub open spec fn is_bounded_numeral(s: Seq<char>, max_len: int, max: int) -> bool {
    is_numeral(s) && s.len() <= max_len && digits_val(s) <= max
}

/// The text of one address octet.
pub open spec fn is_octet_text(s: Seq<char>) -> bool {
    is_bounded_numeral(s, 3, 255)
}

/// The text of a port.
pub open spec fn is_port_text(s: Seq<char>) -> bool {
    is_bounded_numeral(s, 5, 65535)
}

/// Smallest index at or after `from` holding `c`, if any.
pub open spec fn first_at(s: Seq<char>, c: char, from: nat) -> Option<nat>
    decreases s.len() - from,
{
    if from >= s.len() {
        None
    } else if s[from as int] == c {
        Some(from)
    } else {
        first_at(s, c, from + 1)
    }
}

/// The address encoded by `s` split at separator positions `d1 < d2 < d3`
/// (dots) and `co` (colon), if each segment is well formed.
pub open spec fn parse_split(s: Seq<char>, d1: int, d2: int, d3: int, co: int) -> Option<
    SocketAddress,
> {
    let a = s.subrange(0, d1);
    let b = s.subrange(d1 + 1, d2);
    let c = s.subrange(d2 + 1, d3);
    let d = s.subrange(d3 + 1, co);
    let p = s.subrange(co + 1, s.len() as int);
    if is_octet_text(a) && is_octet_text(b) && is_octet_text(c) && is_octet_text(d)
        && is_port_text(p) {
        Some(
            SocketAddress {
                ip0: digits_val(a) as u8,
                ip1: digits_val(b) as u8,
                ip2: digits_val(c) as u8,
                ip3: digits_val(d) as u8,
                port: digits_val(p) as u16,
            },
        )
    } else {
        None
    }
}

/// The socket address denoted by `s`, if `s` is of the form `a.b.c.d:port`.
/// The split positions are the first dot, the next dot after it, the next
/// after that, and the first colon after the third dot; for every string
/// the grammar accepts these are exactly its separators, since octets hold
/// digits only.
pub open spec fn spec_parse_socket(s: Seq<char>) -> Option<SocketAddress> {
    match first_at(s, '.', 0) {
        None => None,
        Some(d1) => match first_at(s, '.', d1 + 1) {
            None => None,
            Some(d2) => match first_at(s, '.', d2 + 1) {
                None => None,
                Some(d3) => match first_at(s, ':', d3 + 1) {
                    None => None,
                    Some(co) => parse_split(s, d1 as int, d2 as int, d3 as int, co as int),
                },
            },
        },
    }
}

/// Powers of ten, for bounding numeral values by their length.
pub open spec fn pow10(n: nat) -> int
    decreases n,
{
    if n == 0 {
        1
    } else {
        10 * pow10((n - 1) as nat)
    }
}

/// A sequence of `n` digits denotes a value below `10^n` (and none is
/// negative).
pub proof fn lemma_digits_val_bound(s: Seq<char>)
    requires
        forall|i: int| 0 <= i < s.len() ==> is_digit(#[trigger] s[i]),
    ensures
        0 <= digits_val(s) < pow10(s.len()),
    decreases s.len(),
{
    if s.len() > 0 {
        lemma_digits_val_bound(s.drop_last());
    }
}

/// Find the first occurrence of `c` in `s` at or after `from`.
fn find_from(s: &str, from: usize, c: char) -> (r: Option<usize>)
    requires
        from <= s@.len(),
    ensures
        match r {
            Some(i) => first_at(s@, c, from as nat) == Some(i as nat) && from <= i < s@.len(),
            None => first_at(s@, c, from as nat) is None,
        },
{
    let n = s.unicode_len();
    let mut i = from;
    while i < n
        invariant
            from <= i <= n,
            n == s@.len(),
            first_at(s@, c, from as nat) == first_at(s@, c, i as nat),
        decreases n - i,
    {
        if s.get_char(i) == c {
            return Some(i);
        }
        i = i + 1;
    }
    None
}

/// Parse the characters of `s` from `from` (inclusive) to `to` (exclusive)
/// as a decimal numeral of at most `max_len` digits and value at most `max`.
fn parse_decimal(s: &str, from: usize, to: usize, max_len: usize, max: u32) -> (r: Option<u32>)
    requires
        from <= to <= s@.len(),
        max_len <= 5,
        max <= 65535,
    ensures
        match r {
            Some(v) => is_bounded_numeral(
                s@.subrange(from as int, to as int),
                max_len as int,
                max as int,
            ) && v == digits_val(s@.subrange(from as int, to as int)),
            None => !is_bounded_numeral(
                s@.subrange(from as int, to as int),
                max_len as int,
                max as int,
            ),
        },
{
    let ghost seg = s@.subrange(from as int, to as int);
    let len = to - from;
    if len == 0 || len > max_len {
        return None;
    }
    if len > 1 && s.get_char(from) == '0' {
        assert(seg[0] == '0');
        return None;
    }
    let mut v: u32 = 0;
    let mut i = from;
    while i < to
        invariant
            from <= i <= to,
            to <= s@.len(),
            to - from <= max_len <= 5,
            seg == s@.subrange(from as int, to as int),
            forall|k: int| from <= k < i ==> is_digit(#[trigger] s@[k]),
            v == digits_val(s@.subrange(from as int, i as int)),
        decreases to - i,
    {
        let c = s.get_char(i);
        let u = c as u32;
        if u < 48 || u > 57 {
            assert(!is_digit(seg[i - from]));
            return None;
        }
        proof {
            let pre = s@.subrange(from as int, i as int);
            assert(forall|j: int| 0 <= j < pre.len() ==> is_digit(#[trigger] pre[j]));
            lemma_digits_val_bound(pre);
            assert(pre.len() <= 4);
            assert(pow10(0) == 1);
            assert(pow10(1) == 10);
            assert(pow10(2) == 100);
            assert(pow10(3) == 1000);
            assert(pow10(4) == 10000);
            assert(pow10(pre.len()) <= 10000) by {
                if pre.len() == 0 {
                } else if pre.len() == 1 {
                } else if pre.len() == 2 {
                } else if pre.len() == 3 {
                } else {
                }
            }
            assert(v < 10000);
        }
        v = v * 10 + (u - 48);
        proof {
            let pre = s@.subrange(from as int, i as int);
            let ext = s@.subrange(from as int, i + 1);
            assert(ext.drop_last() =~= pre);
            assert(ext.last() == s@[i as int]);
            assert(digits_val(ext) == digits_val(pre) * 10 + digit_val(s@[i as int]));
        }
        i = i + 1;
    }
    assert(s@.subrange(from as int, i as int) =~= seg);
    if v > max {
        return None;
    }
    proof {
        assert(forall|j: int| 0 <= j < seg.len() ==> is_digit(#[trigger] seg[j])) by {
            assert(forall|j: int| 0 <= j < seg.len() ==> seg[j] == s@[from + j]);
        }
        if seg.len() > 1 {
            assert(seg[0] == s@[from as int]);
            assert(seg[0] != '0');
        }
    }
    Some(v)
}

/// Parse `a.b.c.d:port` into a socket address; `None` exactly when `s` is
/// not of that form.
pub fn parse_socket_address(s: &str) -> (r: Option<SocketAddress>)
    ensures
        r == spec_parse_socket(s@),
{
    let n = s.unicode_len();
    let d1 = match find_from(s, 0, '.') {
        Some(i) => i,
        None => {
            return None;
        },
    };
    let d2 = match find_from(s, d1 + 1, '.') {
        Some(i) => i,
        None => {
            return None;
        },
    };
    let d3 = match find_from(s, d2 + 1, '.') {
        Some(i) => i,
        None => {
            return None;
        },
    };
    let co = match find_from(s, d3 + 1, ':') {
        Some(i) => i,
        None => {
            return None;
        },
    };
    let a = match parse_decimal(s, 0, d1, 3, 255) {
        Some(v) => v,
        None => {
            return None;
        },
    };
    let b = match parse_decimal(s, d1 + 1, d2, 3, 255) {
        Some(v) => v,
        None => {
            return None;
        },
    };
    let c = match parse_decimal(s, d2 + 1, d3, 3, 255) {
        Some(v) => v,
        None => {
            return None;
        },
    };
    let d = match parse_decimal(s, d3 + 1, co, 3, 255) {
        Some(v) => v,
        None => {
            return None;
        },
    };
    let p = match parse_decimal(s, co + 1, n, 5, 65535) {
        Some(v) => v,
        None => {
            return None;
        },
    };
    Some(
        SocketAddress {
            ip0: a as u8,
            ip1: b as u8,
            ip2: c as u8,
            ip3: d as u8,
            port: p as u16,
        },
    )
}

/// `first_at` answers `i` when `c` occurs at `i` and nowhere earlier in
/// the searched range.
proof fn lemma_first_at_found(s: Seq<char>, c: char, from: nat, i: nat)
    requires
        from <= i < s.len(),
        s[i as int] == c,
        forall|k: int| from <= k < i ==> s[k] != c,
    ensures
        first_at(s, c, from) == Some(i),
    decreases i - from,
{
    if from < i {
        lemma_first_at_found(s, c, from + 1, i);
    }
}

/// Completeness of the grammar: gluing any four octet texts and a port
/// text with dots and a colon yields a text the parser accepts, with
/// exactly those segment values. Together with `parse_socket_address`'s
/// own contract, this pins the accepted language from both sides.
pub proof fn lemma_parse_socket_complete(
    a: Seq<char>,
    b: Seq<char>,
    c: Seq<char>,
    d: Seq<char>,
    p: Seq<char>,
)
    requires
        is_octet_text(a),
        is_octet_text(b),
        is_octet_text(c),
        is_octet_text(d),
        is_port_text(p),
    ensures
        ({
            let s = a + seq!['.'] + b + seq!['.'] + c + seq!['.'] + d + seq![':'] + p;
            let v = SocketAddress {
                ip0: digits_val(a) as u8,
                ip1: digits_val(b) as u8,
                ip2: digits_val(c) as u8,
                ip3: digits_val(d) as u8,
                port: digits_val(p) as u16,
            };
            spec_parse_socket(s) == Some(v)
        }),
{
    let s = a + seq!['.'] + b + seq!['.'] + c + seq!['.'] + d + seq![':'] + p;
    let d1 = a.len() as int;
    let d2 = d1 + 1 + b.len();
    let d3 = d2 + 1 + c.len();
    let co = d3 + 1 + d.len();
    assert(s.len() == co + 1 + p.len());
    assert(s[d1] == '.');
    assert(s[d2] == '.');
    assert(s[d3] == '.');
    assert(s[co] == ':');
    assert forall|k: int| 0 <= k < d1 implies s[k] != '.' by {
        assert(s[k] == a[k]);
        assert(is_digit(a[k]));
    }
    assert forall|k: int| d1 + 1 <= k < d2 implies s[k] != '.' by {
        assert(s[k] == b[k - (d1 + 1)]);
        assert(is_digit(b[k - (d1 + 1)]));
    }
    assert forall|k: int| d2 + 1 <= k < d3 implies s[k] != '.' by {
        assert(s[k] == c[k - (d2 + 1)]);
        assert(is_digit(c[k - (d2 + 1)]));
    }
    assert forall|k: int| d3 + 1 <= k < co implies s[k] != ':' by {
        assert(s[k] == d[k - (d3 + 1)]);
        assert(is_digit(d[k - (d3 + 1)]));
    }
    lemma_first_at_found(s, '.', 0, d1 as nat);
    lemma_first_at_found(s, '.', (d1 + 1) as nat, d2 as nat);
    lemma_first_at_found(s, '.', (d2 + 1) as nat, d3 as nat);
    lemma_first_at_found(s, ':', (d3 + 1) as nat, co as nat);
    assert(s.subrange(0, d1) =~= a);
    assert(s.subrange(d1 + 1, d2) =~= b);
    assert(s.subrange(d2 + 1, d3) =~= c);
    assert(s.subrange(d3 + 1, co) =~= d);
    assert(s.subrange(co + 1, s.len() as int) =~= p);
}

} // verus!

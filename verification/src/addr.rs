//! Dotted-decimal IPv4 literals and the OS-level address record.
//!
//! `parse_ipv4` decides whether a string is a valid IPv4 literal in
//! standard dotted-decimal notation (four decimal components, each at
//! most 255, no leading zeros) and returns the four octets.
//! `addr_record` lays the parsed address and a port out byte for byte as
//! the 16-byte IPv4/TCP address record that the OS bind call expects on
//! this platform, with the port and address fields in network byte
//! order.

use vstd::prelude::*;

verus! {

/// A decimal digit character.
pub open spec fn is_dec_digit(c: char) -> bool {
    '0' <= c && c <= '9'
}

/// Numeric value of a decimal digit character.
pub open spec fn digit_value(c: char) -> int {
    c as int - '0' as int
}

/// Every character of `s` is a decimal digit.
pub open spec fn all_digits(s: Seq<char>) -> bool {
    forall|i: int| 0 <= i < s.len() ==> is_dec_digit(#[trigger] s[i])
}

/// Value of a string of decimal digits read in base 10.
pub open spec fn dec_value(s: Seq<char>) -> int
    decreases s.len(),
{
    if s.len() == 0 {
        0
    } else {
        dec_value(s.drop_last()) * 10 + digit_value(s.last())
    }
}

/// One component of a dotted-decimal IPv4 literal: one to three decimal
/// digits, no leading zero, value at most 255.
pub open spec fn valid_octet(s: Seq<char>) -> bool {
    &&& 1 <= s.len() <= 3
    &&& all_digits(s)
    &&& (s.len() > 1 ==> s[0] != '0')
    &&& dec_value(s) <= 255
}

/// The positions `i < j < k` carry the three dots of a dotted-decimal
/// IPv4 literal, and the four components between them are valid octets.
pub open spec fn ipv4_split_at(s: Seq<char>, i: int, j: int, k: int) -> bool {
    &&& 0 <= i < j < k < s.len()
    &&& s[i] == '.'
    &&& s[j] == '.'
    &&& s[k] == '.'
    &&& valid_octet(s.subrange(0, i))
    &&& valid_octet(s.subrange(i + 1, j))
    &&& valid_octet(s.subrange(j + 1, k))
    &&& valid_octet(s.subrange(k + 1, s.len() as int))
}

/// `s` is a valid IPv4 literal in dotted-decimal notation.
pub open spec fn valid_ipv4(s: Seq<char>) -> bool {
    exists|i: int, j: int, k: int| ipv4_split_at(s, i, j, k)
}

/// A string of at most three decimal digits reads as a value between 0
/// and 999.
proof fn lemma_dec_value_bound(s: Seq<char>)
    requires
        all_digits(s),
        s.len() <= 3,
    ensures
        0 <= dec_value(s),
        s.len() <= 1 ==> dec_value(s) <= 9,
        s.len() <= 2 ==> dec_value(s) <= 99,
        dec_value(s) <= 999,
    decreases s.len(),
{
    if s.len() > 0 {
        assert(is_dec_digit(s[s.len() - 1]));
        lemma_dec_value_bound(s.drop_last());
    }
}

/// In a valid dotted-decimal split, every position other than the three
/// dots carries a decimal digit.
proof fn lemma_octets_all_digits(s: Seq<char>, i: int, j: int, k: int, p: int)
    requires
        ipv4_split_at(s, i, j, k),
        0 <= p < s.len(),
        p != i,
        p != j,
        p != k,
    ensures
        is_dec_digit(s[p]),
{
    if p < i {
        assert(s.subrange(0, i)[p] == s[p]);
    } else if p < j {
        assert(s.subrange(i + 1, j)[p - (i + 1)] == s[p]);
    } else if p < k {
        assert(s.subrange(j + 1, k)[p - (j + 1)] == s[p]);
    } else {
        assert(s.subrange(k + 1, s.len() as int)[p - (k + 1)] == s[p]);
    }
}

/// When a string holds exactly three dots, they are the only possible
/// dot positions of a valid dotted-decimal split.
proof fn lemma_split_unique(s: Seq<char>, d0: int, d1: int, d2: int, i: int, j: int, k: int)
    requires
        0 <= d0 < d1 < d2 < s.len(),
        forall|p: int| 0 <= p < s.len() && s[p] == '.' ==> p == d0 || p == d1 || p == d2,
        ipv4_split_at(s, i, j, k),
    ensures
        i == d0,
        j == d1,
        k == d2,
{
    assert(s[i] == '.');
    assert(s[j] == '.');
    assert(s[k] == '.');
}

/// Decides whether `s[start .. end]` is a valid octet of a
/// dotted-decimal IPv4 literal, and returns its value.
fn check_octet(s: &str, start: usize, end: usize) -> (r: Option<u8>)
    requires
        start <= end,
        end <= s@.len(),
    ensures
        r.is_some() <==> valid_octet(s@.subrange(start as int, end as int)),
        r matches Some(v) ==> v as int == dec_value(s@.subrange(start as int, end as int)),
{
    let ghost seg = s@.subrange(start as int, end as int);
    let n = end - start;
    if n == 0 || n > 3 {
        return None;
    }
    let first = s.get_char(start);
    if n > 1 && first == '0' {
        assert(seg[0] == '0');
        return None;
    }
    let mut val: u32 = 0;
    let mut t: usize = 0;
    while t < n
        invariant
            t <= n,
            1 <= n <= 3,
            start + n == end <= s@.len(),
            seg == s@.subrange(start as int, end as int),
            all_digits(seg.subrange(0, t as int)),
            val as int == dec_value(seg.subrange(0, t as int)),
        decreases n - t,
    {
        let c = s.get_char(start + t);
        let cv = c as u32;
        if cv < 48 || cv > 57 {
            assert(seg[t as int] == c);
            assert(!is_dec_digit(c));
            return None;
        }
        let ghost pref = seg.subrange(0, t as int);
        proof {
            lemma_dec_value_bound(pref);
        }
        val = val * 10 + (cv - 48);
        proof {
            let pref2 = seg.subrange(0, t as int + 1);
            assert(pref2.drop_last() =~= pref);
            assert(pref2.last() == c);
            assert(is_dec_digit(c));
            assert(digit_value(c) == cv - 48);
            assert(dec_value(pref2) == dec_value(pref) * 10 + digit_value(c));
        }
        t += 1;
    }
    assert(seg.subrange(0, n as int) =~= seg);
    if val > 255 {
        None
    } else {
        assert(valid_octet(seg)) by {
            if n > 1 {
                assert(seg[0] == s@[start as int]);
            }
        }
        Some(val as u8)
    }
}

/// Parses a dotted-decimal IPv4 literal into its four octets.
///
/// Returns the octets exactly when the whole string is a valid IPv4
/// literal (four decimal components separated by dots, each between 0
/// and 255, with no leading zeros), and `None` otherwise.
pub fn parse_ipv4(s: &str) -> (r: Option<(u8, u8, u8, u8)>)
    ensures
        r.is_some() <==> valid_ipv4(s@),
        forall|i: int, j: int, k: int|
            #[trigger] ipv4_split_at(s@, i, j, k) ==> r == Some(
                (
                    dec_value(s@.subrange(0, i)) as u8,
                    dec_value(s@.subrange(i + 1, j)) as u8,
                    dec_value(s@.subrange(j + 1, k)) as u8,
                    dec_value(s@.subrange(k + 1, s@.len() as int)) as u8,
                ),
            ),
{
    let n = s.unicode_len();
    let mut dots: Vec<usize> = Vec::new();
    let mut idx: usize = 0;
    while idx < n
        invariant
            idx <= n,
            n == s@.len(),
            forall|t: int|
                0 <= t < dots@.len() ==> (#[trigger] dots@[t]) < idx && s@[dots@[t] as int]
                    == '.',
            forall|p: int|
                0 <= p < idx && s@[p] == '.' ==> exists|t: int|
                    0 <= t < dots@.len() && (#[trigger] dots@[t]) as int == p,
            forall|t1: int, t2: int|
                0 <= t1 < t2 < dots@.len() ==> dots@[t1] < dots@[t2],
        decreases n - idx,
    {
        let c = s.get_char(idx);
        let ghost pre = dots@;
        if c == '.' {
            dots.push(idx);
        }
        proof {
            assert forall|p: int| 0 <= p < idx + 1 && s@[p] == '.' implies exists|t: int|
                0 <= t < dots@.len() && (#[trigger] dots@[t]) as int == p by {
                if p == idx as int {
                    assert(dots@[dots@.len() - 1] as int == p);
                } else {
                    let t = choose|t: int| 0 <= t < pre.len() && (#[trigger] pre[t]) as int == p;
                    assert(dots@[t] as int == p);
                }
            }
        }
        idx += 1;
    }
    if dots.len() != 3 {
        proof {
            if valid_ipv4(s@) {
                let (i, j, k) = choose|i: int, j: int, k: int| ipv4_split_at(s@, i, j, k);
                if dots@.len() < 3 {
                    assert(s@[i] == '.');
                    assert(s@[j] == '.');
                    assert(s@[k] == '.');
                    let ti = choose|t: int| 0 <= t < dots@.len() && dots@[t] as int == i;
                    let tj = choose|t: int| 0 <= t < dots@.len() && dots@[t] as int == j;
                    let tk = choose|t: int| 0 <= t < dots@.len() && dots@[t] as int == k;
                    assert(false);
                } else {
                    assert forall|t: int| 0 <= t < 4 implies dots@[t] as int == i
                        || dots@[t] as int == j || dots@[t] as int == k by {
                        let p = dots@[t] as int;
                        if p != i && p != j && p != k {
                            lemma_octets_all_digits(s@, i, j, k, p);
                            assert(s@[p] == '.');
                            assert(!is_dec_digit('.'));
                        }
                    }
                    assert(dots@[0] < dots@[1] < dots@[2] < dots@[3]);
                    assert(false);
                }
            }
        }
        return None;
    }
    let d0 = dots[0];
    let d1 = dots[1];
    let d2 = dots[2];
    proof {
        assert(dots@[0] < dots@[1] < dots@[2]);
        assert forall|p: int| 0 <= p < s@.len() && s@[p] == '.' implies p == d0 as int || p
            == d1 as int || p == d2 as int by {
            let t = choose|t: int| 0 <= t < dots@.len() && dots@[t] as int == p;
            assert(t == 0 || t == 1 || t == 2);
        }
    }
    let a = check_octet(s, 0, d0);
    let b = check_octet(s, d0 + 1, d1);
    let c = check_octet(s, d1 + 1, d2);
    let d = check_octet(s, d2 + 1, n);
    match (a, b, c, d) {
        (Some(av), Some(bv), Some(cv), Some(dv)) => {
            proof {
                assert(ipv4_split_at(s@, d0 as int, d1 as int, d2 as int));
                assert forall|i: int, j: int, k: int| #[trigger] ipv4_split_at(s@, i, j, k)
                    implies i == d0 as int && j == d1 as int && k == d2 as int by {
                    lemma_split_unique(s@, d0 as int, d1 as int, d2 as int, i, j, k);
                }
            }
            Some((av, bv, cv, dv))
        },
        _ => {
            proof {
                if valid_ipv4(s@) {
                    let (i, j, k) = choose|i: int, j: int, k: int| ipv4_split_at(s@, i, j, k);
                    lemma_split_unique(s@, d0 as int, d1 as int, d2 as int, i, j, k);
                    assert(valid_octet(s@.subrange(0, d0 as int)));
                    assert(valid_octet(s@.subrange(d0 as int + 1, d1 as int)));
                    assert(valid_octet(s@.subrange(d1 as int + 1, d2 as int)));
                    assert(valid_octet(s@.subrange(d2 as int + 1, s@.len() as int)));
                    assert(false);
                }
            }
            None
        },
    }
}

/// The 16-byte IPv4/TCP address record for this platform (Linux,
/// little-endian): the address-family tag for IPv4 (the native-order
/// 16-bit value 2), the port in network byte order, the four address
/// octets in network byte order, and eight bytes of zero padding.
pub open spec fn record_spec(a: u8, b: u8, c: u8, d: u8, port: u16) -> Seq<u8> {
    seq![
        2u8,
        0u8,
        (port as int / 256) as u8,
        (port as int % 256) as u8,
        a,
        b,
        c,
        d,
        0u8,
        0u8,
        0u8,
        0u8,
        0u8,
        0u8,
        0u8,
        0u8,
    ]
}

/// Builds the OS-level address record for the address `a.b.c.d` and the
/// given port, byte for byte as `record_spec` lays it out.
pub fn addr_record(a: u8, b: u8, c: u8, d: u8, port: u16) -> (r: Vec<u8>)
    ensures
        r@ == record_spec(a, b, c, d, port),
{
    let mut v: Vec<u8> = Vec::new();
    v.push(2u8);
    v.push(0u8);
    v.push((port / 256) as u8);
    v.push((port % 256) as u8);
    v.push(a);
    v.push(b);
    v.push(c);
    v.push(d);
    let mut pad: usize = 0;
    while pad < 8
        invariant
            pad <= 8,
            v@.len() == 8 + pad,
            v@.subrange(0, 8) == record_spec(a, b, c, d, port).subrange(0, 8),
            forall|z: int| 8 <= z < v@.len() ==> v@[z] == 0u8,
        decreases 8 - pad,
    {
        v.push(0u8);
        assert(v@.subrange(0, 8) =~= record_spec(a, b, c, d, port).subrange(0, 8));
        pad += 1;
    }
    proof {
        let rs = record_spec(a, b, c, d, port);
        assert forall|z: int| 0 <= z < 16 implies v@[z] == rs[z] by {
            if z < 8 {
                assert(v@.subrange(0, 8)[z] == v@[z]);
                assert(rs.subrange(0, 8)[z] == rs[z]);
            } else {
                assert(rs[z] == 0u8);
            }
        }
        assert(v@ =~= rs);
    }
    v
}

} // verus!


//! Byte-string helpers shared by the header, cookie and credential logic:
//! prefix tests, byte search, ASCII lowercasing, decimal rendering of
//! integers, and the bridge between byte strings and UTF-8 text.

use vstd::prelude::*;
use vstd::slice::slice_index_get;
use vstd::utf8::{decode_utf8, valid_utf8};

verus! {

/// True when `p` is a prefix of `s`.
pub open spec fn starts_with(s: Seq<u8>, p: Seq<u8>) -> bool {
    p.len() <= s.len() && s.subrange(0, p.len() as int) == p
}

/// Index of the first occurrence of `b` in `s`, or `s.len()` when `b` is absent.
pub open spec fn first_split(s: Seq<u8>, b: u8) -> int
    decreases s.len(),
{
    if s.len() == 0 {
        0
    } else if s[0] == b {
        0
    } else {
        1 + first_split(s.drop_first(), b)
    }
}

/// A scan that saw no `b` before `m`, and `b` (or the end) at `m`, pins
/// `first_split` to `m`.
pub proof fn lemma_first_split_at(s: Seq<u8>, b: u8, m: int)
    requires
        0 <= m <= s.len(),
        forall|k: int| 0 <= k < m ==> s[k] != b,
        m < s.len() ==> s[m] == b,
    ensures
        first_split(s, b) == m,
    decreases m,
{
    if m > 0 {
        assert(s[0] != b);
        assert forall|k: int| 0 <= k < m - 1 implies s.drop_first()[k] != b by {
            assert(s.drop_first()[k] == s[k + 1]);
        }
        if m - 1 < s.drop_first().len() {
            assert(s.drop_first()[m - 1] == s[m]);
        }
        lemma_first_split_at(s.drop_first(), b, m - 1);
    }
}

/// Find the first occurrence of `b` in `s` at or after `start`; returns
/// `s.len()` when there is none.
pub fn find_byte_from(s: &[u8], start: usize, b: u8) -> (j: usize)
    requires
        start <= s@.len(),
    ensures
        start <= j <= s@.len(),
        forall|k: int| start <= k < j ==> s@[k] != b,
        j < s@.len() ==> s@[j as int] == b,
{
    let mut i: usize = start;
    while i < s.len()
        invariant
            start <= i <= s@.len(),
            forall|k: int| start <= k < i ==> s@[k] != b,
        decreases s@.len() - i,
    {
        if *slice_index_get(s, i) == b {
            return i;
        }
        i = i + 1;
    }
    i
}

pub fn bytes_eq(a: &[u8], b: &[u8]) -> (r: bool)
    ensures
        r == (a@ == b@),
{
    if a.len() != b.len() {
        return false;
    }
    let mut i: usize = 0;
    while i < a.len()
        invariant
            0 <= i <= a@.len(),
            a@.len() == b@.len(),
            forall|k: int| 0 <= k < i ==> a@[k] == b@[k],
        decreases a@.len() - i,
    {
        if *slice_index_get(a, i) != *slice_index_get(b, i) {
            return false;
        }
        i = i + 1;
    }
    proof {
        assert(a@ =~= b@);
    }
    true
}

pub fn bytes_starts_with(s: &[u8], p: &[u8]) -> (r: bool)
    ensures
        r == starts_with(s@, p@),
{
    if p.len() > s.len() {
        return false;
    }
    let mut i: usize = 0;
    while i < p.len()
        invariant
            0 <= i <= p@.len(),
            p@.len() <= s@.len(),
            forall|k: int| 0 <= k < i ==> s@[k] == p@[k],
        decreases p@.len() - i,
    {
        if *slice_index_get(s, i) != *slice_index_get(p, i) {
            proof {
                assert(s@.subrange(0, p@.len() as int)[i as int] != p@[i as int]);
            }
            return false;
        }
        i = i + 1;
    }
    proof {
        assert(s@.subrange(0, p@.len() as int) =~= p@);
    }
    true
}

/// Append all of `src` to `dst`.
pub fn push_all(dst: &mut Vec<u8>, src: &[u8])
    ensures
        final(dst)@ == old(dst)@ + src@,
{
    let mut i: usize = 0;
    while i < src.len()
        invariant
            0 <= i <= src@.len(),
            dst@ == old(dst)@ + src@.take(i as int),
        decreases src@.len() - i,
    {
        let x = *slice_index_get(src, i);
        dst.push(x);
        proof {
            assert(old(dst)@ + src@.take(i as int) + seq![src@[i as int]] =~= old(dst)@
                + src@.take(i + 1));
        }
        i = i + 1;
    }
    proof {
        assert(old(dst)@ + src@.take(src@.len() as int) =~= old(dst)@ + src@);
    }
}

/// An ASCII upper-case letter mapped to lower case; anything else unchanged.
pub open spec fn lower_byte(b: u8) -> u8 {
    if 65 <= b <= 90 {
        (b + 32) as u8
    } else {
        b
    }
}

pub open spec fn lower_bytes(s: Seq<u8>) -> Seq<u8> {
    s.map_values(|b: u8| lower_byte(b))
}

pub fn to_lower_bytes(s: &[u8]) -> (r: Vec<u8>)
    ensures
        r@ == lower_bytes(s@),
{
    let mut out: Vec<u8> = Vec::new();
    let mut i: usize = 0;
    while i < s.len()
        invariant
            0 <= i <= s@.len(),
            out@ == lower_bytes(s@.take(i as int)),
        decreases s@.len() - i,
    {
        let b = *slice_index_get(s, i);
        if 65 <= b && b <= 90 {
            out.push(b + 32);
        } else {
            out.push(b);
        }
        proof {
            assert(lower_bytes(s@.take(i as int)).push(lower_byte(s@[i as int])) =~= lower_bytes(
                s@.take(i + 1),
            ));
        }
        i = i + 1;
    }
    proof {
        assert(s@.take(s@.len() as int) =~= s@);
    }
    out
}

/// The decimal rendering of a non-negative integer, as ASCII digit bytes.
pub open spec fn dec_bytes(n: int) -> Seq<u8>
    recommends
        n >= 0,
    decreases n,
{
    if n < 10 {
        seq![(48 + if n >= 0 { n } else { 0 }) as u8]
    } else {
        dec_bytes(n / 10) + seq![(48 + n % 10) as u8]
    }
}

pub fn u64_to_dec(n: u64) -> (r: Vec<u8>)
    ensures
        r@ == dec_bytes(n as int),
{
    let mut acc: Vec<u8> = Vec::new();
    acc.push(48 + (n % 10) as u8);
    let mut cur: u64 = n / 10;
    proof {
        if cur > 0 {
            assert(dec_bytes(n as int) == dec_bytes(cur as int) + acc@);
        } else {
            assert(dec_bytes(n as int) =~= acc@);
        }
    }
    while cur > 0
        invariant
            cur > 0 ==> dec_bytes(n as int) == dec_bytes(cur as int) + acc@,
            cur == 0 ==> dec_bytes(n as int) == acc@,
        decreases cur,
    {
        let d: u8 = 48 + (cur % 10) as u8;
        acc.insert(0, d);
        proof {
            assert(acc@ =~= seq![d] + acc@.drop_first());
            if cur >= 10 {
                assert(dec_bytes(cur as int) == dec_bytes((cur as int) / 10) + seq![d]);
                assert(dec_bytes((cur as int) / 10) + seq![d] + acc@.drop_first() =~= dec_bytes(
                    (cur as int) / 10,
                ) + acc@);
            } else {
                assert(dec_bytes(cur as int) =~= seq![d]);
            }
        }
        cur = cur / 10;
    }
    acc
}

/// Relies on `std::str::from_utf8`: it accepts exactly the valid UTF-8 byte
/// strings and decodes them to the corresponding characters.
#[verifier::external_body]
pub fn utf8_to_string(bytes: &[u8]) -> (r: Option<String>)
    ensures
        match r {
            Some(s) => valid_utf8(bytes@) && s@ == decode_utf8(bytes@),
            None => !valid_utf8(bytes@),
        },
{
    match std::str::from_utf8(bytes) {
        Ok(s) => Some(s.to_string()),
        Err(_) => None,
    }
}

} // verus!

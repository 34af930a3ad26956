//! Little-endian reads and writes over an owned byte arena.

use vstd::prelude::*;
use vstd::string::StringSliceAdditionalSpecFns;

verus! {

/// The 64-bit little-endian value stored at `at`.
pub open spec fn read_u64_le(s: Seq<u8>, at: int) -> u64 {
    (s[at] as u64) | ((s[at + 1] as u64) << 8u64) | ((s[at + 2] as u64) << 16u64) | ((s[at
        + 3] as u64) << 24u64) | ((s[at + 4] as u64) << 32u64) | ((s[at + 5] as u64) << 40u64)
        | ((s[at + 6] as u64) << 48u64) | ((s[at + 7] as u64) << 56u64)
}

/// Byte `i` (0 = least significant) of `v`.
pub open spec fn byte_of(v: u64, i: u64) -> u8 {
    ((v >> (8 * i)) & 0xff) as u8
}

/// `s` with the eight bytes at `at` replaced by `v` in little-endian order.
pub open spec fn write_u64_le(s: Seq<u8>, at: int, v: u64) -> Seq<u8> {
    Seq::new(
        s.len(),
        |k: int|
            if at <= k < at + 8 {
                byte_of(v, (k - at) as u64)
            } else {
                s[k]
            },
    )
}

/// `s` with `d` copied in at offset `off`.
pub open spec fn splice(s: Seq<u8>, off: int, d: Seq<u8>) -> Seq<u8> {
    Seq::new(
        s.len(),
        |k: int|
            if off <= k < off + d.len() {
                d[k - off]
            } else {
                s[k]
            },
    )
}

/// Writing a value and reading it back at the same place gives the value.
pub proof fn lemma_write_then_read(s: Seq<u8>, at: int, v: u64)
    requires
        0 <= at,
        at + 8 <= s.len(),
    ensures
        read_u64_le(write_u64_le(s, at, v), at) == v,
{
    let w = write_u64_le(s, at, v);
    assert(w[at] == byte_of(v, 0));
    assert(w[at + 1] == byte_of(v, 1));
    assert(w[at + 2] == byte_of(v, 2));
    assert(w[at + 3] == byte_of(v, 3));
    assert(w[at + 4] == byte_of(v, 4));
    assert(w[at + 5] == byte_of(v, 5));
    assert(w[at + 6] == byte_of(v, 6));
    assert(w[at + 7] == byte_of(v, 7));
    assert(((((v >> 0u64) & 0xff) as u8) as u64) | (((((v >> 8u64) & 0xff) as u8) as u64)
        << 8u64) | (((((v >> 16u64) & 0xff) as u8) as u64) << 16u64) | (((((v >> 24u64) & 0xff)
        as u8) as u64) << 24u64) | (((((v >> 32u64) & 0xff) as u8) as u64) << 32u64) | (((((v
        >> 40u64) & 0xff) as u8) as u64) << 40u64) | (((((v >> 48u64) & 0xff) as u8) as u64)
        << 48u64) | (((((v >> 56u64) & 0xff) as u8) as u64) << 56u64) == v) by (bit_vector);
}

/// Reads the 64-bit little-endian value at `at`.
pub fn read_u64_at(s: &Vec<u8>, at: usize) -> (r: u64)
    requires
        at + 8 <= s@.len(),
    ensures
        r == read_u64_le(s@, at as int),
{
    let _len = s.len();
    (s[at] as u64) | ((s[at + 1] as u64) << 8u64) | ((s[at + 2] as u64) << 16u64) | ((s[at
        + 3] as u64) << 24u64) | ((s[at + 4] as u64) << 32u64) | ((s[at + 5] as u64) << 40u64)
        | ((s[at + 6] as u64) << 48u64) | ((s[at + 7] as u64) << 56u64)
}

/// Writes `v` in little-endian order at `at`.
pub fn write_u64_at(s: &mut Vec<u8>, at: usize, v: u64)
    requires
        at + 8 <= old(s)@.len(),
    ensures
        final(s)@ == write_u64_le(old(s)@, at as int, v),
{
    let n = s.len();
    let mut i: usize = 0;
    while i < 8
        invariant
            i <= 8,
            at + 8 <= s@.len(),
            s@.len() == old(s)@.len(),
            s@.len() == n,
            forall|k: int|
                0 <= k < s@.len() ==> #[trigger] s@[k] == if at <= k < at + i {
                    byte_of(v, (k - at) as u64)
                } else {
                    old(s)@[k]
                },
        decreases 8 - i,
    {
        let b: u8 = #[verifier::truncate] (((v >> (8 * i as u64)) & 0xff) as u8);
        s.set(at + i, b);
        i = i + 1;
    }
    assert(s@ =~= write_u64_le(old(s)@, at as int, v));
}

/// Copies `d` into `s` at offset `off`.
pub fn copy_into(s: &mut Vec<u8>, off: usize, d: &[u8])
    requires
        off + d@.len() <= old(s)@.len(),
    ensures
        final(s)@ == splice(old(s)@, off as int, d@),
{
    let n = s.len();
    let mut j: usize = 0;
    while j < d.len()
        invariant
            j <= d@.len(),
            off + d@.len() <= s@.len(),
            s@.len() == old(s)@.len(),
            s@.len() == n,
            forall|k: int|
                0 <= k < s@.len() ==> #[trigger] s@[k] == if off <= k < off + j {
                    d@[k - off]
                } else {
                    old(s)@[k]
                },
        decreases d@.len() - j,
    {
        s.set(off + j, d[j]);
        j = j + 1;
    }
    assert(s@ =~= splice(old(s)@, off as int, d@));
}

/// True when the two byte strings are equal.
pub fn bytes_eq(a: &[u8], b: &[u8]) -> (r: bool)
    ensures
        r == (a@ == b@),
{
    if a.len() != b.len() {
        return false;
    }
    let mut i: usize = 0;
    while i < a.len()
        invariant
            i <= a@.len(),
            a@.len() == b@.len(),
            forall|k: int| 0 <= k < i ==> a@[k] == b@[k],
        decreases a@.len() - i,
    {
        if a[i] != b[i] {
            return false;
        }
        i = i + 1;
    }
    assert(a@ =~= b@);
    true
}

/// The first `n` bytes of `s`, copied.
pub fn prefix_of(s: &[u8], n: usize) -> (r: Vec<u8>)
    requires
        n <= s@.len(),
    ensures
        r@ == s@.take(n as int),
{
    let mut r: Vec<u8> = Vec::new();
    let mut i: usize = 0;
    while i < n
        invariant
            i <= n,
            n <= s@.len(),
            r@ =~= s@.take(i as int),
        decreases n - i,
    {
        r.push(s[i]);
        i = i + 1;
    }
    r
}

/// True when the two strings hold the same characters.
pub fn str_eq(a: &str, b: &str) -> (r: bool)
    ensures
        r == (a@ == b@),
{
    let r = bytes_eq(a.as_bytes(), b.as_bytes());
    proof {
        vstd::utf8::encode_utf8_decode_utf8(a@);
        vstd::utf8::encode_utf8_decode_utf8(b@);
    }
    r
}

} // verus!

//! Comparison of texts and of bytes.

use vstd::prelude::*;
use vstd::utf8::encode_utf8_decode_utf8;

verus! {

/// Whether two byte slices hold the same bytes.
pub fn bytes_eq(a: &[u8], b: &[u8]) -> (same: bool)
    ensures
        same == (a@ == b@),
{
    if a.len() != b.len() {
        return false;
    }
    let n: usize = a.len();
    let mut i: usize = 0;
    while i < n
        invariant
            n == a@.len(),
            n == b@.len(),
            i <= n,
            forall|j: int| 0 <= j < i ==> a@[j] == b@[j],
        decreases n - i,
    {
        if a[i] != b[i] {
            return false;
        }
        i += 1;
    }
    assert(a@ =~= b@);
    true
}

/// Whether `whole` begins with the bytes of `start`.
pub fn bytes_start_with(whole: &[u8], start: &[u8]) -> (begins: bool)
    ensures
        begins == start@.is_prefix_of(whole@),
{
    if start.len() > whole.len() {
        return false;
    }
    let n: usize = start.len();
    let mut i: usize = 0;
    while i < n
        invariant
            n == start@.len(),
            n <= whole@.len(),
            i <= n,
            forall|j: int| 0 <= j < i ==> start@[j] == whole@[j],
        decreases n - i,
    {
        if start[i] != whole[i] {
            return false;
        }
        i += 1;
    }
    true
}

/// Whether two string slices hold the same characters.
pub fn str_eq(a: &str, b: &str) -> (same: bool)
    ensures
        same == (a@ == b@),
{
    proof {
        encode_utf8_decode_utf8(a@);
        encode_utf8_decode_utf8(b@);
    }
    bytes_eq(a.as_bytes(), b.as_bytes())
}

} // verus!

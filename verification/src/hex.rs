//! Hexadecimal record identifiers.
//!
//! Records in the event log are identified by the hex form of a 32-byte
//! content hash: 64 ASCII hex digits. Both event hashes and author public
//! keys use this shape. Identifiers are held as byte vectors so that
//! equality and set algebra over them can be verified directly.

use vstd::prelude::*;

verus! {

/// True for the ASCII code of a hex digit, upper or lower case.
pub open spec fn is_hex_digit_byte(b: u8) -> bool {
    (48 <= b && b <= 57) || (97 <= b && b <= 102) || (65 <= b && b <= 70)
}

/// A well-formed record identifier: exactly 64 ASCII hex digits.
pub open spec fn is_hex_id(s: Seq<u8>) -> bool {
    s.len() == 64 && forall|i: int| 0 <= i < s.len() ==> is_hex_digit_byte(s[i])
}

/// Checks whether one byte is an ASCII hex digit.
pub fn hex_digit_byte(b: u8) -> (r: bool)
    ensures
        r == is_hex_digit_byte(b),
{
    (48 <= b && b <= 57) || (97 <= b && b <= 102) || (65 <= b && b <= 70)
}

/// Checks whether a byte vector has the shape of a record identifier:
/// 64 ASCII hex digits.
pub fn is_valid_hex_id(v: &Vec<u8>) -> (r: bool)
    ensures
        r == is_hex_id(v@),
{
    if v.len() != 64 {
        return false;
    }
    let mut i: usize = 0;
    while i < v.len()
        invariant
            0 <= i <= v@.len(),
            v@.len() == 64,
            forall|j: int| 0 <= j < i ==> is_hex_digit_byte(v@[j]),
        decreases v@.len() - i,
    {
        if !hex_digit_byte(v[i]) {
            return false;
        }
        i = i + 1;
    }
    true
}

/// A fresh byte vector with the same contents.
pub fn copy_bytes(v: &Vec<u8>) -> (r: Vec<u8>)
    ensures
        r@ == v@,
{
    let mut r: Vec<u8> = Vec::new();
    let mut i: usize = 0;
    while i < v.len()
        invariant
            0 <= i <= v@.len(),
            r@ == v@.subrange(0, i as int),
        decreases v@.len() - i,
    {
        r.push(v[i]);
        proof {
            assert(r@ =~= v@.subrange(0, i + 1 as int));
        }
        i = i + 1;
    }
    proof {
        assert(r@ =~= v@);
    }
    r
}

/// Byte-for-byte equality of two byte vectors.
pub fn bytes_eq(a: &Vec<u8>, b: &Vec<u8>) -> (r: bool)
    ensures
        r == (a@ == b@),
{
    if a.len() != b.len() {
        assert(a@ != b@);
        return false;
    }
    let mut i: usize = 0;
    while i < a.len()
        invariant
            0 <= i <= a@.len(),
            a@.len() == b@.len(),
            forall|j: int| 0 <= j < i ==> a@[j] == b@[j],
        decreases a@.len() - i,
    {
        if a[i] != b[i] {
            assert(a@ != b@);
            return false;
        }
        i = i + 1;
    }
    proof {
        assert(a@ =~= b@);
    }
    true
}

/// True when `x` occurs among the elements of `s`, compared by content.
pub open spec fn seq_contains_bytes(s: Seq<Seq<u8>>, x: Seq<u8>) -> bool {
    exists|i: int| 0 <= i < s.len() && s[i] == x
}

/// The contents of a vector of identifiers, as a sequence of byte sequences.
pub open spec fn deep_view_of(v: Seq<Vec<u8>>) -> Seq<Seq<u8>> {
    v.map_values(|x: Vec<u8>| x@)
}

/// Checks whether `x` occurs in `ids`, by content.
pub fn contains_bytes(ids: &Vec<Vec<u8>>, x: &Vec<u8>) -> (r: bool)
    ensures
        r == seq_contains_bytes(deep_view_of(ids@), x@),
{
    let mut i: usize = 0;
    while i < ids.len()
        invariant
            0 <= i <= ids@.len(),
            forall|j: int| 0 <= j < i ==> deep_view_of(ids@)[j] != x@,
        decreases ids@.len() - i,
    {
        if bytes_eq(&ids[i], x) {
            assert(deep_view_of(ids@)[i as int] == x@);
            return true;
        }
        i = i + 1;
    }
    false
}

} // verus!

//! Sender-information marshalling: the transport's info record carries
//! product name, manufacturer and version as fixed-size, NUL-terminated
//! character fields.

use vstd::prelude::*;
use vstd::slice::slice_index_get;
use vstd::string::*;

verus! {

/// How many bytes of the source land in a field of `len` bytes: everything
/// that fits while leaving room for the terminator.
pub open spec fn field_copy_len(src_len: int, len: int) -> int {
    if len <= 0 {
        0
    } else if src_len <= len - 1 {
        src_len
    } else {
        len - 1
    }
}

/// Lay the bytes of `src` into a fixed-size field of exactly `len` bytes:
/// truncated to leave room for a terminator, then zero-filled to the end,
/// so the field is always NUL-terminated when `len > 0`.
pub fn c_string_field(src: &str, len: usize) -> (r: Vec<u8>)
    ensures
        r@.len() == len,
        forall|i: int|
            0 <= i < field_copy_len(src.spec_bytes().len() as int, len as int) ==> r@[i]
                == src.spec_bytes()[i],
        forall|i: int|
            field_copy_len(src.spec_bytes().len() as int, len as int) <= i < len ==> r@[i] == 0u8,
{
    let bytes = src.as_bytes();
    let n: usize = if len == 0 {
        0
    } else if bytes.len() <= len - 1 {
        bytes.len()
    } else {
        len - 1
    };
    let mut r: Vec<u8> = Vec::new();
    let mut i: usize = 0;
    while i < n
        invariant
            bytes@ == src.spec_bytes(),
            n == field_copy_len(bytes@.len() as int, len as int),
            n <= len,
            n <= bytes@.len(),
            i <= n,
            r@.len() == i,
            forall|j: int| 0 <= j < i ==> r@[j] == bytes@[j],
        decreases n - i,
    {
        r.push(*slice_index_get(bytes, i));
        i += 1;
    }
    while r.len() < len
        invariant
            bytes@ == src.spec_bytes(),
            n == field_copy_len(bytes@.len() as int, len as int),
            n <= r@.len() <= len,
            forall|j: int| 0 <= j < n ==> r@[j] == bytes@[j],
            forall|j: int| n <= j < r@.len() ==> r@[j] == 0u8,
        decreases len - r@.len(),
    {
        r.push(0);
    }
    r
}

} // verus!

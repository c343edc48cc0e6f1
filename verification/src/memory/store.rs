//! Byte arrays of a fixed size.

use vstd::prelude::*;

verus! {

/// `len` bytes: those of `content` as far as they go, then zeros.
pub open spec fn padded(content: Seq<u8>, len: nat) -> Seq<u8> {
    Seq::new(len, |i: int| if i < content.len() { content[i] } else { 0u8 })
}

/// `len` zero bytes.
pub open spec fn zeros(len: nat) -> Seq<u8> {
    Seq::new(len, |i: int| 0u8)
}

/// A vector of `len` bytes that starts with `content` and is zero after it.
pub fn padded_copy(content: &[u8], len: usize) -> (bytes: Vec<u8>)
    ensures
        bytes@ == padded(content@, len as nat),
{
    let mut bytes: Vec<u8> = Vec::new();
    let mut i: usize = 0;
    while i < len
        invariant
            i <= len,
            bytes@ == padded(content@, i as nat),
        decreases len - i,
    {
        let byte: u8 = if i < content.len() { content[i] } else { 0 };
        bytes.push(byte);
        i = i + 1;
        assert(bytes@ =~= padded(content@, i as nat));
    }
    bytes
}

/// A vector of `len` zero bytes.
pub fn zeroed(len: usize) -> (bytes: Vec<u8>)
    ensures
        bytes@ == zeros(len as nat),
{
    let mut bytes: Vec<u8> = Vec::new();
    let mut i: usize = 0;
    while i < len
        invariant
            i <= len,
            bytes@ == zeros(i as nat),
        decreases len - i,
    {
        bytes.push(0);
        i = i + 1;
        assert(bytes@ =~= zeros(i as nat));
    }
    bytes
}

} // verus!

//! The deterministic payload that the publisher floods.

use vstd::prelude::*;

verus! {

/// Byte `i` of the payload: the decimal digit position, `i % 10`.
pub open spec fn payload_byte(i: int) -> u8 {
    (i % 10) as u8
}

/// Builds the flood payload: `size` bytes with `byte[i] = i % 10`. The
/// content is never interpreted by the receiver; it only exercises the link.
pub fn make_payload(size: usize) -> (r: Vec<u8>)
    ensures
        r@.len() == size,
        forall|i: int| 0 <= i < size ==> r@[i] == payload_byte(i),
{
    let mut data: Vec<u8> = Vec::new();
    let mut i: usize = 0;
    while i < size
        invariant
            i <= size,
            data@.len() == i,
            forall|j: int| 0 <= j < i ==> data@[j] == payload_byte(j),
        decreases size - i,
    {
        data.push((i % 10) as u8);
        i = i + 1;
    }
    data
}

} // verus!

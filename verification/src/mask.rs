//! The masking engine: the XOR transform that clients apply to payload
//! bytes, and that the server reverses.

use vstd::prelude::*;

verus! {

/// The byte-wise XOR transform: byte `i` of the result is byte `i` of
/// `b` XORed with byte `i mod 4` of the key.
pub open spec fn mask_bytes(b: Seq<u8>, k: Seq<u8>) -> Seq<u8>
    recommends
        k.len() == 4,
{
    Seq::new(b.len(), |i: int| b[i] ^ k[i % 4])
}

/// Applying the mask twice with the same key restores the input: the
/// transform is its own inverse, so one function serves both masking
/// and unmasking.
pub proof fn lemma_mask_involution(b: Seq<u8>, k: Seq<u8>)
    requires
        k.len() == 4,
    ensures
        mask_bytes(mask_bytes(b, k), k) == b,
{
    let twice = mask_bytes(mask_bytes(b, k), k);
    assert forall|i: int| 0 <= i < b.len() implies twice[i] == b[i] by {
        let x = b[i];
        let m = k[i % 4];
        assert((x ^ m) ^ m == x) by (bit_vector);
    }
    assert(twice =~= b);
}

/// Unmasks (equally: masks) the payload in place, XORing each byte with
/// the key byte at its index modulo 4.
pub fn unmask_easy(payload: &mut Vec<u8>, mask: [u8; 4])
    ensures
        final(payload)@ == mask_bytes(old(payload)@, mask@),
{
    let mut i: usize = 0;
    while i < payload.len()
        invariant
            i <= payload@.len(),
            payload@.len() == old(payload)@.len(),
            forall|j: int| 0 <= j < i ==> payload@[j] == (old(payload)@[j] ^ mask@[j % 4]),
            forall|j: int| i <= j < payload@.len() ==> payload@[j] == old(payload)@[j],
        decreases payload@.len() - i,
    {
        let b = payload[i];
        let m = mask[i % 4];
        payload.set(i, b ^ m);
        i += 1;
    }
    assert(payload@ =~= mask_bytes(old(payload)@, mask@));
}

} // verus!

//! Random identifiers.

use vstd::prelude::*;
use crate::text::{hex_bytes, hex_encode};

verus! {

/// The random number generator of the current thread (`rand`'s
/// `ThreadRng`).
#[verifier::external_type_specification]
#[verifier::external_body]
pub struct ExThreadRng(rand::rngs::ThreadRng);

/// Calls `rand::thread_rng`.
#[verifier::external_body]
fn thread_rng() -> (r: rand::rngs::ThreadRng) {
    rand::thread_rng()
}

/// Calls `RngCore::fill_bytes`: fills `dest` with random bytes, keeping
/// its length; nothing is known of the bytes.
#[verifier::external_body]
fn fill_bytes(rng: &mut rand::rngs::ThreadRng, dest: &mut Vec<u8>)
    ensures
        final(dest)@.len() == old(dest)@.len(),
{
    rand::RngCore::fill_bytes(rng, dest.as_mut_slice())
}

/// `len` random bytes as a lowercase hex string: two digits per byte.
pub fn rand_hex(len: usize) -> (r: String)
    ensures
        exists|b: Seq<u8>| b.len() == len && r@ == hex_bytes(b),
{
    let mut rng = thread_rng();
    let mut bytes: Vec<u8> = Vec::new();
    let mut i: usize = 0;
    while i < len
        invariant
            i <= len,
            bytes@.len() == i,
        decreases len - i,
    {
        bytes.push(0u8);
        i = i + 1;
    }
    fill_bytes(&mut rng, &mut bytes);
    let r = hex_encode(bytes.as_slice());
    assert(bytes@.len() == len && r@ == hex_bytes(bytes@));
    r
}

} // verus!

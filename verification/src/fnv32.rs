//! The 32-bit FNV-1a hasher.

use crate::FnvHasher;
use crate::be_bytes::{lemma_nat_to_be_bytes_injective, lemma_nat_to_be_bytes_len, nat_to_be_bytes};
use crate::consts::{FNV_OFFSET_32, FNV_PRIME_32};
use crate::fnv::{fnv1a, fnv1a_step, lemma_fnv1a_push, lemma_u32_xor_byte, width_modulus, xor_low_byte};
use crate::hash_result::FnvHashResult;
use vstd::arithmetic::power2::{lemma2_to64, pow2};
use vstd::prelude::*;

verus! {

/// An FNV-1a hasher that produces a 32-bit (4-byte) output. Its state is
/// a native `u32`, so the wrapping multiplication is the machine's.
#[derive(Debug)]
pub struct FnvHasher32 {
    state: u32,
}

impl FnvHasher for FnvHasher32 {
    closed spec fn wf(&self) -> bool {
        true
    }

    closed spec fn spec_state(&self) -> nat {
        self.state as nat
    }

    open spec fn spec_width_bytes() -> nat {
        4
    }

    open spec fn spec_prime() -> nat {
        FNV_PRIME_32 as nat
    }

    open spec fn spec_offset() -> nat {
        FNV_OFFSET_32 as nat
    }

    proof fn lemma_state_in_width(&self) {
        lemma2_to64();
        assert(self.state < pow2(32));
    }

    fn new() -> (r: Self) {
        FnvHasher32::default()
    }

    fn update(&mut self, bytes: &[u8]) {
        let ghost s0 = self.state as nat;
        let mut h = self.state;
        proof {
            assert(bytes@.take(0) =~= Seq::<u8>::empty());
        }
        let mut i: usize = 0;
        while i < bytes.len()
            invariant
                i <= bytes@.len(),
                h as nat == fnv1a(bytes@.take(i as int), s0, FNV_PRIME_32 as nat, pow2(32)),
            decreases bytes@.len() - i,
        {
            let b = bytes[i];
            let x = h ^ (b as u32);
            let h2 = x.wrapping_mul(FNV_PRIME_32);
            proof {
                lemma_u32_xor_byte(h, b);
                lemma2_to64();
                assert(h2 as nat == fnv1a_step(h as nat, b, FNV_PRIME_32 as nat, pow2(32)));
                assert(bytes@.take(i as int + 1) =~= bytes@.take(i as int).push(b));
                lemma_fnv1a_push(bytes@.take(i as int), b, s0, FNV_PRIME_32 as nat, pow2(32));
            }
            h = h2;
            i = i + 1;
        }
        proof {
            assert(bytes@.take(bytes@.len() as int) =~= bytes@);
        }
        self.state = h;
    }

    fn finalize(&self) -> (r: FnvHashResult) {
        proof {
            lemma_nat_to_be_bytes_len(self.state as nat, 4);
        }
        FnvHashResult::from_u32(self.state)
    }
}

impl Default for FnvHasher32 {
    /// A fresh hasher, the same as `FnvHasher::new`.
    fn default() -> (r: Self)
        ensures
            r.wf(),
            r.spec_state() == <FnvHasher32 as FnvHasher>::spec_offset(),
    {
        FnvHasher32 { state: FNV_OFFSET_32 }
    }
}

impl FnvHasher32 {
    /// The raw 32-bit state.
    pub fn to_u32(&self) -> (r: u32)
        ensures
            r as nat == self.spec_state(),
    {
        self.state
    }
}

/// No collapse on single-byte inputs: any two distinct bytes hash to
/// distinct 32-bit outputs, so all 256 one-byte hashes are distinct. The
/// XOR step separates the two states and multiplication by the odd prime
/// is invertible modulo `2^32`.
pub proof fn lemma_single_byte_hashes_distinct(b1: u8, b2: u8)
    requires
        b1 != b2,
    ensures
        nat_to_be_bytes(
            fnv1a(seq![b1], FNV_OFFSET_32 as nat, FNV_PRIME_32 as nat, width_modulus(4)),
            4,
        ) != nat_to_be_bytes(
            fnv1a(seq![b2], FNV_OFFSET_32 as nat, FNV_PRIME_32 as nat, width_modulus(4)),
            4,
        ),
{
    let o = FNV_OFFSET_32 as nat;
    let p = FNV_PRIME_32 as nat;
    let m = width_modulus(4);
    lemma2_to64();
    assert(m == 0x100000000);
    assert(seq![b1].drop_first() =~= Seq::<u8>::empty());
    assert(seq![b2].drop_first() =~= Seq::<u8>::empty());
    assert(fnv1a(seq![b1], o, p, m) == fnv1a(Seq::<u8>::empty(), fnv1a_step(o, b1, p, m), p, m));
    assert(fnv1a(seq![b2], o, p, m) == fnv1a(Seq::<u8>::empty(), fnv1a_step(o, b2, p, m), p, m));
    assert(xor_low_byte(o, b1) == 0x811C9D00 + ((0xC5u8 ^ b1) as nat));
    assert(xor_low_byte(o, b2) == 0x811C9D00 + ((0xC5u8 ^ b2) as nat));
    let v1 = fnv1a_step(o, b1, p, m);
    let v2 = fnv1a_step(o, b2, p, m);
    assert(((0x811C9D00u32 + ((0xC5u8 ^ b1) as u32)) * 0x01000193) % 0x100000000
        != ((0x811C9D00u32 + ((0xC5u8 ^ b2) as u32)) * 0x01000193) % 0x100000000) by (bit_vector)
        requires
            b1 != b2,
    ;
    assert(v1 != v2);
    assert(v1 < pow2(32) && v2 < pow2(32));
    if nat_to_be_bytes(v1, 4) == nat_to_be_bytes(v2, 4) {
        lemma_nat_to_be_bytes_injective(v1, v2, 4);
    }
}

} // verus!

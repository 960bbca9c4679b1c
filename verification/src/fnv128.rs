//! The 128-bit FNV-1a hasher.

use crate::FnvHasher;
use crate::be_bytes::lemma_nat_to_be_bytes_len;
use crate::consts::{FNV_OFFSET_128, FNV_PRIME_128};
use crate::fnv::{fnv1a, fnv1a_step, lemma_fnv1a_push, lemma_u128_xor_byte};
use crate::hash_result::FnvHashResult;
use vstd::arithmetic::power2::{lemma2_to64, lemma_pow2_adds, pow2};
use vstd::prelude::*;

verus! {

/// An FNV-1a hasher that produces a 128-bit (16-byte) output. Its state is
/// a native `u128`, so the wrapping multiplication is the machine's.
#[derive(Debug)]
pub struct FnvHasher128 {
    state: u128,
}

impl FnvHasher for FnvHasher128 {
    closed spec fn wf(&self) -> bool {
        true
    }

    closed spec fn spec_state(&self) -> nat {
        self.state as nat
    }

    open spec fn spec_width_bytes() -> nat {
        16
    }

    open spec fn spec_prime() -> nat {
        FNV_PRIME_128 as nat
    }

    open spec fn spec_offset() -> nat {
        FNV_OFFSET_128 as nat
    }

    proof fn lemma_state_in_width(&self) {
        lemma2_to64();
        lemma_pow2_adds(64, 64);
        assert(self.state < pow2(128));
    }

    fn new() -> (r: Self) {
        FnvHasher128::default()
    }

    fn update(&mut self, bytes: &[u8]) {
        let ghost s0 = self.state as nat;
        let mut h = self.state;
        proof {
            assert(bytes@.take(0) =~= Seq::<u8>::empty());
        }
        let mut i: usize = 0;
        while i < bytes.len()
            invariant
                i <= bytes@.len(),
                h as nat == fnv1a(bytes@.take(i as int), s0, FNV_PRIME_128 as nat, pow2(128)),
            decreases bytes@.len() - i,
        {
            let b = bytes[i];
            let x = h ^ (b as u128);
            let h2 = x.wrapping_mul(FNV_PRIME_128);
            proof {
                lemma_u128_xor_byte(h, b);
                lemma2_to64();
                lemma_pow2_adds(64, 64);
                assert(h2 as nat == fnv1a_step(h as nat, b, FNV_PRIME_128 as nat, pow2(128)));
                assert(bytes@.take(i as int + 1) =~= bytes@.take(i as int).push(b));
                lemma_fnv1a_push(bytes@.take(i as int), b, s0, FNV_PRIME_128 as nat, pow2(128));
            }
            h = h2;
            i = i + 1;
        }
        proof {
            assert(bytes@.take(bytes@.len() as int) =~= bytes@);
        }
        self.state = h;
    }

    fn finalize(&self) -> (r: FnvHashResult) {
        proof {
            lemma_nat_to_be_bytes_len(self.state as nat, 16);
        }
        FnvHashResult::from_u128(self.state)
    }
}

impl Default for FnvHasher128 {
    /// A fresh hasher, the same as `FnvHasher::new`.
    fn default() -> (r: Self)
        ensures
            r.wf(),
            r.spec_state() == <FnvHasher128 as FnvHasher>::spec_offset(),
    {
        FnvHasher128 { state: FNV_OFFSET_128 }
    }
}

impl FnvHasher128 {
    /// The raw 128-bit state.
    pub fn to_u128(&self) -> (r: u128)
        ensures
            r as nat == self.spec_state(),
    {
        self.state
    }
}

} // verus!

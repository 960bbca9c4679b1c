//! The 256-bit FNV-1a hasher.

use crate::FnvHasher;
use crate::be_bytes::lemma_nat_to_be_bytes_len;
use crate::consts::{fnv_offset_256, fnv_prime_256, spec_fnv_offset_256, spec_fnv_prime_256};
use crate::fnv::{fnv1a, fnv1a_step, lemma_fnv1a_push};
use crate::hash_result::FnvHashResult;
use crate::limbs::{lemma_limbs_val_bound, limbs_val, xor_byte_into_limbs};
use vstd::arithmetic::power2::pow2;
use vstd::prelude::*;

verus! {

/// An FNV-1a hasher that produces a 256-bit (32-byte) output. Its state is
/// wider than any machine integer and lives in 4 little-endian 64-bit
/// limbs; the wrapping multiplication is the wide-integer library's.
#[derive(Debug)]
pub struct FnvHasher256 {
    limbs: Vec<u64>,
}

/// Relies on `crypto_bigint::Uint::wrapping_mul`: the product of two
/// 256-bit integers with the overflow discarded, that is reduced modulo
/// 2^256; `from_words` and `to_words` convert between little-endian limb
/// arrays and `U256` values.
#[verifier::external_body]
fn mul_mod_256(a: &Vec<u64>, b: &Vec<u64>) -> (r: Vec<u64>)
    requires
        a@.len() == 4,
        b@.len() == 4,
    ensures
        r@.len() == 4,
        limbs_val(r@) == (limbs_val(a@) * limbs_val(b@)) % pow2(256),
{
    let x = crypto_bigint::U256::from_words(a.as_slice().try_into().unwrap());
    let y = crypto_bigint::U256::from_words(b.as_slice().try_into().unwrap());
    x.wrapping_mul(&y).to_words().to_vec()
}

impl FnvHasher for FnvHasher256 {
    closed spec fn wf(&self) -> bool {
        self.limbs@.len() == 4
    }

    closed spec fn spec_state(&self) -> nat {
        limbs_val(self.limbs@)
    }

    open spec fn spec_width_bytes() -> nat {
        32
    }

    open spec fn spec_prime() -> nat {
        limbs_val(spec_fnv_prime_256())
    }

    open spec fn spec_offset() -> nat {
        limbs_val(spec_fnv_offset_256())
    }

    proof fn lemma_state_in_width(&self) {
        lemma_limbs_val_bound(self.limbs@);
    }

    fn new() -> (r: Self) {
        FnvHasher256::default()
    }

    fn update(&mut self, bytes: &[u8]) {
        let ghost s0 = limbs_val(self.limbs@);
        let prime = fnv_prime_256();
        proof {
            assert(bytes@.take(0) =~= Seq::<u8>::empty());
        }
        let mut i: usize = 0;
        while i < bytes.len()
            invariant
                i <= bytes@.len(),
                self.limbs@.len() == 4,
                prime@ == spec_fnv_prime_256(),
                limbs_val(self.limbs@) == fnv1a(
                    bytes@.take(i as int),
                    s0,
                    limbs_val(spec_fnv_prime_256()),
                    pow2(256),
                ),
            decreases bytes@.len() - i,
        {
            let b = bytes[i];
            let ghost before = limbs_val(self.limbs@);
            xor_byte_into_limbs(&mut self.limbs, b);
            let next = mul_mod_256(&self.limbs, &prime);
            proof {
                assert(limbs_val(next@) == fnv1a_step(
                    before,
                    b,
                    limbs_val(spec_fnv_prime_256()),
                    pow2(256),
                ));
                assert(bytes@.take(i as int + 1) =~= bytes@.take(i as int).push(b));
                lemma_fnv1a_push(
                    bytes@.take(i as int),
                    b,
                    s0,
                    limbs_val(spec_fnv_prime_256()),
                    pow2(256),
                );
            }
            self.limbs = next;
            i = i + 1;
        }
        proof {
            assert(bytes@.take(bytes@.len() as int) =~= bytes@);
        }
    }

    fn finalize(&self) -> (r: FnvHashResult) {
        proof {
            lemma_nat_to_be_bytes_len(limbs_val(self.limbs@), 32);
        }
        FnvHashResult::from_limbs(&self.limbs)
    }
}

impl Default for FnvHasher256 {
    /// A fresh hasher, the same as `FnvHasher::new`.
    fn default() -> (r: Self)
        ensures
            r.wf(),
            r.spec_state() == <FnvHasher256 as FnvHasher>::spec_offset(),
    {
        FnvHasher256 { limbs: fnv_offset_256() }
    }
}

} // verus!

//! The 512-bit FNV-1a hasher.

use crate::FnvHasher;
use crate::be_bytes::lemma_nat_to_be_bytes_len;
use crate::consts::{fnv_offset_512, fnv_prime_512, spec_fnv_offset_512, spec_fnv_prime_512};
use crate::fnv::{fnv1a, fnv1a_step, lemma_fnv1a_push};
use crate::hash_result::FnvHashResult;
use crate::limbs::{lemma_limbs_val_bound, limbs_val, xor_byte_into_limbs};
use vstd::arithmetic::power2::pow2;
use vstd::prelude::*;

verus! {

/// An FNV-1a hasher that produces a 512-bit (64-byte) output. Its state is
/// wider than any machine integer and lives in 8 little-endian 64-bit
/// limbs; the wrapping multiplication is the wide-integer library's.
#[derive(Debug)]
pub struct FnvHasher512 {
    limbs: Vec<u64>,
}

/// Relies on `crypto_bigint::Uint::wrapping_mul`: the product of two
/// 512-bit integers with the overflow discarded, that is reduced modulo
/// 2^512; `from_words` and `to_words` convert between little-endian limb
/// arrays and `U512` values.
#[verifier::external_body]
fn mul_mod_512(a: &Vec<u64>, b: &Vec<u64>) -> (r: Vec<u64>)
    requires
        a@.len() == 8,
        b@.len() == 8,
    ensures
        r@.len() == 8,
        limbs_val(r@) == (limbs_val(a@) * limbs_val(b@)) % pow2(512),
{
    let x = crypto_bigint::U512::from_words(a.as_slice().try_into().unwrap());
    let y = crypto_bigint::U512::from_words(b.as_slice().try_into().unwrap());
    x.wrapping_mul(&y).to_words().to_vec()
}

impl FnvHasher for FnvHasher512 {
    closed spec fn wf(&self) -> bool {
        self.limbs@.len() == 8
    }

    closed spec fn spec_state(&self) -> nat {
        limbs_val(self.limbs@)
    }

    open spec fn spec_width_bytes() -> nat {
        64
    }

    open spec fn spec_prime() -> nat {
        limbs_val(spec_fnv_prime_512())
    }

    open spec fn spec_offset() -> nat {
        limbs_val(spec_fnv_offset_512())
    }

    proof fn lemma_state_in_width(&self) {
        lemma_limbs_val_bound(self.limbs@);
    }

    fn new() -> (r: Self) {
        FnvHasher512::default()
    }

    fn update(&mut self, bytes: &[u8]) {
        let ghost s0 = limbs_val(self.limbs@);
        let prime = fnv_prime_512();
        proof {
            assert(bytes@.take(0) =~= Seq::<u8>::empty());
        }
        let mut i: usize = 0;
        while i < bytes.len()
            invariant
                i <= bytes@.len(),
                self.limbs@.len() == 8,
                prime@ == spec_fnv_prime_512(),
                limbs_val(self.limbs@) == fnv1a(
                    bytes@.take(i as int),
                    s0,
                    limbs_val(spec_fnv_prime_512()),
                    pow2(512),
                ),
            decreases bytes@.len() - i,
        {
            let b = bytes[i];
            let ghost before = limbs_val(self.limbs@);
            xor_byte_into_limbs(&mut self.limbs, b);
            let next = mul_mod_512(&self.limbs, &prime);
            proof {
                assert(limbs_val(next@) == fnv1a_step(
                    before,
                    b,
                    limbs_val(spec_fnv_prime_512()),
                    pow2(512),
                ));
                assert(bytes@.take(i as int + 1) =~= bytes@.take(i as int).push(b));
                lemma_fnv1a_push(
                    bytes@.take(i as int),
                    b,
                    s0,
                    limbs_val(spec_fnv_prime_512()),
                    pow2(512),
                );
            }
            self.limbs = next;
            i = i + 1;
        }
        proof {
            assert(bytes@.take(bytes@.len() as int) =~= bytes@);
        }
    }

    fn finalize(&self) -> (r: FnvHashResult) {
        proof {
            lemma_nat_to_be_bytes_len(limbs_val(self.limbs@), 64);
        }
        FnvHashResult::from_limbs(&self.limbs)
    }
}

impl Default for FnvHasher512 {
    /// A fresh hasher, the same as `FnvHasher::new`.
    fn default() -> (r: Self)
        ensures
            r.wf(),
            r.spec_state() == <FnvHasher512 as FnvHasher>::spec_offset(),
    {
        FnvHasher512 { limbs: fnv_offset_512() }
    }
}

} // verus!

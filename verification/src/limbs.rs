//! Multi-limb states for the widths beyond native machine integers.
//!
//! A wide hash state is a vector of 64-bit limbs, least significant first,
//! valued by [`limbs_val`]. XOR of an input byte touches only the lowest
//! limb and is verified here; the wrapping multiplication is the wide-integer
//! library's work and stands behind a trusted wrapper in the width modules.

use crate::be_bytes::{lemma_nat_to_be_bytes_split, nat_to_be_bytes, push_be_u64};
use crate::fnv::xor_low_byte;
use vstd::arithmetic::div_mod::{lemma_hoist_over_denominator, lemma_mod_multiples_vanish};
use vstd::arithmetic::power2::{lemma2_to64, lemma_pow2_adds, lemma_pow2_pos, pow2};
use vstd::prelude::*;

verus! {

/// The value of a sequence of 64-bit limbs, least significant limb first.
pub open spec fn limbs_val(s: Seq<u64>) -> nat
    decreases s.len(),
{
    if s.len() == 0 {
        0
    } else {
        (s.first() + pow2(64) * limbs_val(s.drop_first())) as nat
    }
}

/// A limb sequence of length `n` holds a value below `2^(64*n)`.
pub proof fn lemma_limbs_val_bound(s: Seq<u64>)
    ensures
        limbs_val(s) < pow2((64 * s.len()) as nat),
    decreases s.len(),
{
    lemma2_to64();
    if s.len() == 0 {
    } else {
        lemma_limbs_val_bound(s.drop_first());
        let r = limbs_val(s.drop_first());
        let p = pow2((64 * (s.len() - 1)) as nat);
        lemma_pow2_adds(64, (64 * (s.len() - 1)) as nat);
        assert(s.first() + pow2(64) * r < pow2(64) * p) by (nonlinear_arith)
            requires
                s.first() < pow2(64),
                r < p,
                0 < pow2(64),
                0 < p,
        ;
    }
}

/// XOR of a byte into the lowest limb is XOR into the low byte of the whole
/// value: the byte is zero-extended across all limbs.
pub proof fn lemma_limbs_xor_first(s: Seq<u64>, b: u8)
    requires
        s.len() >= 1,
    ensures
        limbs_val(s.update(0, (s[0] ^ (b as u64)))) == xor_low_byte(limbs_val(s), b),
{
    let x = s[0];
    let r = limbs_val(s.drop_first());
    assert(s.update(0, x ^ (b as u64)).drop_first() =~= s.drop_first());
    assert(s.update(0, x ^ (b as u64)).first() == x ^ (b as u64));
    assert(s.first() == x);
    assert(limbs_val(s.update(0, x ^ (b as u64))) == (x ^ (b as u64)) + pow2(64) * r);
    assert(x ^ (b as u64) == (x / 256) * 256 + ((((x % 256) as u8) ^ b) as u64)) by (bit_vector);
    lemma2_to64();
    lemma_pow2_adds(8, 56);
    lemma_pow2_pos(56);
    let k = pow2(56) * r;
    assert(pow2(64) * r == 256 * k) by (nonlinear_arith)
        requires
            pow2(64) == 256 * pow2(56),
            k == pow2(56) * r,
    ;
    let v = limbs_val(s);
    assert(v == x + 256 * k);
    lemma_mod_multiples_vanish(k as int, x as int, 256);
    assert(v % 256 == x % 256);
    lemma_hoist_over_denominator(x as int, k as int, 256);
    assert(v / 256 == x / 256 + k);
    let q: int = x as int / 256;
    assert((q + k) * 256 == q * 256 + 256 * k) by (nonlinear_arith);
}

/// XOR a byte into the lowest limb of a wide state.
pub fn xor_byte_into_limbs(limbs: &mut Vec<u64>, b: u8)
    requires
        old(limbs)@.len() >= 1,
    ensures
        final(limbs)@.len() == old(limbs)@.len(),
        limbs_val(final(limbs)@) == xor_low_byte(limbs_val(old(limbs)@), b),
{
    let x = limbs[0] ^ (b as u64);
    proof {
        lemma_limbs_xor_first(limbs@, b);
    }
    limbs.set(0, x);
}

/// Encode the limbs' value as big-endian bytes, eight per limb.
pub fn limbs_to_be_bytes(limbs: &Vec<u64>) -> (r: Vec<u8>)
    ensures
        r@ == nat_to_be_bytes(limbs_val(limbs@), (8 * limbs@.len()) as nat),
{
    let ghost s = limbs@;
    let mut out: Vec<u8> = Vec::new();
    let mut i: usize = limbs.len();
    proof {
        assert(s.skip(i as int) =~= Seq::<u64>::empty());
    }
    while i > 0
        invariant
            i <= s.len(),
            s == limbs@,
            out@ == nat_to_be_bytes(limbs_val(s.skip(i as int)), (8 * (s.len() - i)) as nat),
        decreases i,
    {
        i = i - 1;
        let x = limbs[i];
        proof {
            assert(s.skip(i as int).first() == s[i as int]);
            assert(s.skip(i as int).drop_first() =~= s.skip(i as int + 1));
            assert(limbs_val(s.skip(i as int)) == x + pow2(64) * limbs_val(s.skip(i as int + 1)));
            lemma2_to64();
            lemma_nat_to_be_bytes_split(
                limbs_val(s.skip(i as int + 1)),
                x as nat,
                (8 * (s.len() - i - 1)) as nat,
                8,
            );
        }
        push_be_u64(&mut out, x);
        proof {
            let hi = limbs_val(s.skip(i as int + 1));
            assert(out@ == nat_to_be_bytes(hi, (8 * (s.len() - i - 1)) as nat) + nat_to_be_bytes(
                x as nat,
                8,
            ));
            assert(pow2((8 * 8) as nat) == pow2(64));
            assert(hi * pow2(64) == pow2(64) * hi) by (nonlinear_arith);
            assert((hi * pow2((8 * 8) as nat) + (x as nat)) as nat == limbs_val(s.skip(i as int)));
            assert(((8 * (s.len() - i - 1)) + 8) as nat == (8 * (s.len() - i)) as nat);
        }
    }
    proof {
        assert(s.skip(0) =~= s);
    }
    out
}

} // verus!

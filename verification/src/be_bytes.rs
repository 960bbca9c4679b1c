//! Big-endian byte encoding of unbounded non-negative integers.
//!
//! Every hash result in this crate is the big-endian encoding of the final
//! state, so the encoders here carry the crate's one encoding spec,
//! [`nat_to_be_bytes`].

use vstd::arithmetic::div_mod::{
    lemma_div_denominator, lemma_fundamental_div_mod, lemma_hoist_over_denominator,
    lemma_mod_multiples_vanish, lemma_multiply_divide_lt,
};
use vstd::arithmetic::power2::{lemma2_to64, lemma2_to64_rest, lemma_pow2_adds, lemma_pow2_pos, pow2};
use vstd::prelude::*;

verus! {

/// The `len` big-endian base-256 digits of `v`, most significant first.
///
/// Only `v % 2^(8*len)` matters: higher bits of `v` have no digit to land in.
pub open spec fn nat_to_be_bytes(v: nat, len: nat) -> Seq<u8>
    decreases len,
{
    if len == 0 {
        Seq::empty()
    } else {
        nat_to_be_bytes(v / 256, (len - 1) as nat).push((v % 256) as u8)
    }
}

/// Width-correct output length: the encoding of any value at `len` bytes has
/// exactly `len` bytes.
pub proof fn lemma_nat_to_be_bytes_len(v: nat, len: nat)
    ensures
        nat_to_be_bytes(v, len).len() == len,
    decreases len,
{
    if len > 0 {
        lemma_nat_to_be_bytes_len(v / 256, (len - 1) as nat);
    }
}

/// The digit at position `i` (counting from the most significant end).
pub proof fn lemma_nat_to_be_bytes_index(v: nat, len: nat, i: int)
    requires
        0 <= i < len,
    ensures
        nat_to_be_bytes(v, len).len() == len,
        nat_to_be_bytes(v, len)[i] == ((v / pow2((8 * (len - 1 - i)) as nat)) % 256) as u8,
    decreases len,
{
    lemma_nat_to_be_bytes_len(v, len);
    lemma_nat_to_be_bytes_len(v / 256, (len - 1) as nat);
    if i == len - 1 {
        lemma2_to64();
        assert(nat_to_be_bytes(v, len)[i] == (v % 256) as u8);
        assert(v / pow2(0) == v);
    } else {
        lemma_nat_to_be_bytes_index(v / 256, (len - 1) as nat, i);
        let e = (8 * (len - 2 - i)) as nat;
        lemma2_to64();
        lemma_pow2_adds(8, e);
        lemma_pow2_pos(e);
        lemma_div_denominator(v as int, 256, pow2(e) as int);
        assert((v / 256) / pow2(e) == v / pow2((8 * (len - 1 - i)) as nat));
    }
}

/// Splitting a value at a byte boundary splits its encoding: the high part's
/// digits come first, the low part's digits after.
pub proof fn lemma_nat_to_be_bytes_split(hi: nat, lo: nat, hi_len: nat, lo_len: nat)
    requires
        lo < pow2((8 * lo_len) as nat),
    ensures
        nat_to_be_bytes((hi * pow2((8 * lo_len) as nat) + lo) as nat, (hi_len + lo_len) as nat)
            == nat_to_be_bytes(hi, hi_len) + nat_to_be_bytes(lo, lo_len),
    decreases lo_len,
{
    lemma_nat_to_be_bytes_len(hi, hi_len);
    if lo_len == 0 {
        lemma2_to64();
        assert(pow2(0) == 1);
        assert(lo == 0);
        assert(hi * 1 == hi);
        assert(nat_to_be_bytes(hi, hi_len) + nat_to_be_bytes(lo, 0) =~= nat_to_be_bytes(
            hi,
            hi_len,
        ));
    } else {
        let e = (8 * (lo_len - 1)) as nat;
        lemma2_to64();
        lemma_pow2_adds(8, e);
        lemma_pow2_pos(e);
        let v = (hi * pow2((8 * lo_len) as nat) + lo) as nat;
        let k = hi * pow2(e);
        assert(hi * pow2((8 * lo_len) as nat) == 256 * k) by (nonlinear_arith)
            requires
                pow2((8 * lo_len) as nat) == 256 * pow2(e),
                k == hi * pow2(e),
        ;
        lemma_mod_multiples_vanish(k as int, lo as int, 256);
        assert(v % 256 == lo % 256);
        lemma_hoist_over_denominator(lo as int, k as int, 256);
        assert(v / 256 == lo / 256 + k);
        lemma_multiply_divide_lt(lo as int, 256, pow2(e) as int);
        assert(lo / 256 < pow2(e));
        lemma_nat_to_be_bytes_split(hi, (lo / 256) as nat, hi_len, (lo_len - 1) as nat);
        assert(nat_to_be_bytes(v, (hi_len + lo_len) as nat) == nat_to_be_bytes(
            (v / 256) as nat,
            (hi_len + lo_len - 1) as nat,
        ).push((v % 256) as u8));
        assert((nat_to_be_bytes(hi, hi_len) + nat_to_be_bytes((lo / 256) as nat, (lo_len - 1) as nat)).push(
            (lo % 256) as u8,
        ) =~= nat_to_be_bytes(hi, hi_len) + nat_to_be_bytes((lo / 256) as nat, (lo_len - 1) as nat).push(
            (lo % 256) as u8,
        ));
    }
}

/// Within the width, the encoding is one to one: equal encodings of values
/// below `2^(8*len)` mean equal values.
pub proof fn lemma_nat_to_be_bytes_injective(v1: nat, v2: nat, len: nat)
    requires
        v1 < pow2((8 * len) as nat),
        v2 < pow2((8 * len) as nat),
        nat_to_be_bytes(v1, len) == nat_to_be_bytes(v2, len),
    ensures
        v1 == v2,
    decreases len,
{
    lemma_nat_to_be_bytes_len(v1, len);
    lemma_nat_to_be_bytes_len(v2, len);
    lemma2_to64();
    if len == 0 {
    } else {
        let e = (8 * (len - 1)) as nat;
        lemma_pow2_adds(8, e);
        lemma_pow2_pos(e);
        lemma_nat_to_be_bytes_len(v1 / 256, (len - 1) as nat);
        lemma_nat_to_be_bytes_len(v2 / 256, (len - 1) as nat);
        assert(nat_to_be_bytes(v1, len)[len - 1] == (v1 % 256) as u8);
        assert(nat_to_be_bytes(v2, len)[len - 1] == (v2 % 256) as u8);
        assert(v1 % 256 == v2 % 256);
        assert(nat_to_be_bytes((v1 / 256) as nat, (len - 1) as nat) =~= nat_to_be_bytes(
            (v2 / 256) as nat,
            (len - 1) as nat,
        )) by {
            assert forall|i: int| 0 <= i < len - 1 implies #[trigger] nat_to_be_bytes(
                (v1 / 256) as nat,
                (len - 1) as nat,
            )[i] == nat_to_be_bytes((v2 / 256) as nat, (len - 1) as nat)[i] by {
                assert(nat_to_be_bytes(v1, len)[i] == nat_to_be_bytes(
                    (v1 / 256) as nat,
                    (len - 1) as nat,
                )[i]);
                assert(nat_to_be_bytes(v2, len)[i] == nat_to_be_bytes(
                    (v2 / 256) as nat,
                    (len - 1) as nat,
                )[i]);
            }
        }
        lemma_multiply_divide_lt(v1 as int, 256, pow2(e) as int);
        lemma_multiply_divide_lt(v2 as int, 256, pow2(e) as int);
        lemma_nat_to_be_bytes_injective((v1 / 256) as nat, (v2 / 256) as nat, (len - 1) as nat);
        lemma_fundamental_div_mod(v1 as int, 256);
        lemma_fundamental_div_mod(v2 as int, 256);
    }
}

/// Append the eight big-endian bytes of `x` to `out`.
pub fn push_be_u64(out: &mut Vec<u8>, x: u64)
    ensures
        final(out)@ == old(out)@ + nat_to_be_bytes(x as nat, 8),
{
    let b0 = (x >> 56) as u8;
    let b1 = (x >> 48) as u8;
    let b2 = (x >> 40) as u8;
    let b3 = (x >> 32) as u8;
    let b4 = (x >> 24) as u8;
    let b5 = (x >> 16) as u8;
    let b6 = (x >> 8) as u8;
    let b7 = x as u8;
    proof {
        lemma2_to64();
        lemma2_to64_rest();
        lemma_nat_to_be_bytes_index(x as nat, 8, 0);
        lemma_nat_to_be_bytes_index(x as nat, 8, 1);
        lemma_nat_to_be_bytes_index(x as nat, 8, 2);
        lemma_nat_to_be_bytes_index(x as nat, 8, 3);
        lemma_nat_to_be_bytes_index(x as nat, 8, 4);
        lemma_nat_to_be_bytes_index(x as nat, 8, 5);
        lemma_nat_to_be_bytes_index(x as nat, 8, 6);
        lemma_nat_to_be_bytes_index(x as nat, 8, 7);
        assert((x >> 56) as u8 == ((x / 0x100000000000000) % 256) as u8) by (bit_vector);
        assert((x >> 48) as u8 == ((x / 0x1000000000000) % 256) as u8) by (bit_vector);
        assert((x >> 40) as u8 == ((x / 0x10000000000) % 256) as u8) by (bit_vector);
        assert((x >> 32) as u8 == ((x / 0x100000000) % 256) as u8) by (bit_vector);
        assert((x >> 24) as u8 == ((x / 0x1000000) % 256) as u8) by (bit_vector);
        assert((x >> 16) as u8 == ((x / 0x10000) % 256) as u8) by (bit_vector);
        assert((x >> 8) as u8 == ((x / 0x100) % 256) as u8) by (bit_vector);
        assert(x as u8 == ((x / 0x1) % 256) as u8) by (bit_vector);
        assert(nat_to_be_bytes(x as nat, 8) =~= seq![b0, b1, b2, b3, b4, b5, b6, b7]);
    }
    out.push(b0);
    out.push(b1);
    out.push(b2);
    out.push(b3);
    out.push(b4);
    out.push(b5);
    out.push(b6);
    out.push(b7);
    proof {
        assert(out@ =~= old(out)@ + seq![b0, b1, b2, b3, b4, b5, b6, b7]);
    }
}

/// Append the four big-endian bytes of `x` to `out`.
pub fn push_be_u32(out: &mut Vec<u8>, x: u32)
    ensures
        final(out)@ == old(out)@ + nat_to_be_bytes(x as nat, 4),
{
    let b0 = (x >> 24) as u8;
    let b1 = (x >> 16) as u8;
    let b2 = (x >> 8) as u8;
    let b3 = x as u8;
    proof {
        lemma2_to64();
        lemma_nat_to_be_bytes_index(x as nat, 4, 0);
        lemma_nat_to_be_bytes_index(x as nat, 4, 1);
        lemma_nat_to_be_bytes_index(x as nat, 4, 2);
        lemma_nat_to_be_bytes_index(x as nat, 4, 3);
        assert((x >> 24) as u8 == ((x / 0x1000000) % 256) as u8) by (bit_vector);
        assert((x >> 16) as u8 == ((x / 0x10000) % 256) as u8) by (bit_vector);
        assert((x >> 8) as u8 == ((x / 0x100) % 256) as u8) by (bit_vector);
        assert(x as u8 == ((x / 0x1) % 256) as u8) by (bit_vector);
        assert(nat_to_be_bytes(x as nat, 4) =~= seq![b0, b1, b2, b3]);
    }
    out.push(b0);
    out.push(b1);
    out.push(b2);
    out.push(b3);
    proof {
        assert(out@ =~= old(out)@ + seq![b0, b1, b2, b3]);
    }
}

/// Append the sixteen big-endian bytes of `x` to `out`.
pub fn push_be_u128(out: &mut Vec<u8>, x: u128)
    ensures
        final(out)@ == old(out)@ + nat_to_be_bytes(x as nat, 16),
{
    let hi = (x >> 64) as u64;
    let lo = x as u64;
    proof {
        lemma2_to64();
        assert(x == ((x >> 64) as u64) * 0x10000000000000000 + (x as u64)) by (bit_vector);
        assert(lo < 0x10000000000000000) by (bit_vector);
        lemma_nat_to_be_bytes_split(hi as nat, lo as nat, 8, 8);
    }
    push_be_u64(out, hi);
    push_be_u64(out, lo);
    proof {
        assert(out@ =~= old(out)@ + (nat_to_be_bytes(hi as nat, 8) + nat_to_be_bytes(
            lo as nat,
            8,
        )));
    }
}

} // verus!

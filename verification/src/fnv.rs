//! The FNV-1a mixing function, stated once over unbounded integers.
//!
//! A width only fixes the three parameters: the starting state (offset
//! basis), the multiplier (FNV prime), and the modulus `2^W` at which the
//! multiplication wraps. Every hasher in this crate relates its machine
//! state to [`fnv1a`] through these parameters.

use vstd::prelude::*;

verus! {

/// XOR a byte into the low eight bits of an unbounded state value.
///
/// The byte is zero-extended: only the low eight bits of the state change.
pub open spec fn xor_low_byte(state: nat, b: u8) -> nat {
    ((state / 256) * 256 + ((((state % 256) as u8) ^ b) as nat)) as nat
}

/// The modulus at which a width of `width_bytes` bytes wraps: `2^(8*width_bytes)`.
pub open spec fn width_modulus(width_bytes: nat) -> nat {
    vstd::arithmetic::power2::pow2((8 * width_bytes) as nat)
}

/// XOR of a zero-extended byte into a 32-bit state only touches the low byte.
pub proof fn lemma_u32_xor_byte(x: u32, b: u8)
    ensures
        (x ^ (b as u32)) as nat == xor_low_byte(x as nat, b),
{
    assert(x ^ (b as u32) == (x / 256) * 256 + ((((x % 256) as u8) ^ b) as u32)) by (bit_vector);
}

/// XOR of a zero-extended byte into a 64-bit state only touches the low byte.
pub proof fn lemma_u64_xor_byte(x: u64, b: u8)
    ensures
        (x ^ (b as u64)) as nat == xor_low_byte(x as nat, b),
{
    assert(x ^ (b as u64) == (x / 256) * 256 + ((((x % 256) as u8) ^ b) as u64)) by (bit_vector);
}

/// XOR of a zero-extended byte into a 128-bit state only touches the low byte.
pub proof fn lemma_u128_xor_byte(x: u128, b: u8)
    ensures
        (x ^ (b as u128)) as nat == xor_low_byte(x as nat, b),
{
    assert(x ^ (b as u128) == (x / 256) * 256 + ((((x % 256) as u8) ^ b) as u128)) by (bit_vector);
}

/// One FNV-1a round: XOR the byte in, then multiply by the prime, wrapping
/// at the modulus.
pub open spec fn fnv1a_step(state: nat, b: u8, prime: nat, modulus: nat) -> nat {
    (xor_low_byte(state, b) * prime) % modulus
}

/// The state after absorbing `bytes` in order, starting from `state`.
pub open spec fn fnv1a(bytes: Seq<u8>, state: nat, prime: nat, modulus: nat) -> nat
    decreases bytes.len(),
{
    if bytes.len() == 0 {
        state
    } else {
        fnv1a(bytes.drop_first(), fnv1a_step(state, bytes.first(), prime, modulus), prime, modulus)
    }
}

/// Absorbing one more byte at the end is one more round.
pub proof fn lemma_fnv1a_push(bytes: Seq<u8>, b: u8, state: nat, prime: nat, modulus: nat)
    ensures
        fnv1a(bytes.push(b), state, prime, modulus) == fnv1a_step(
            fnv1a(bytes, state, prime, modulus),
            b,
            prime,
            modulus,
        ),
    decreases bytes.len(),
{
    if bytes.len() == 0 {
        assert(bytes.push(b).drop_first() =~= Seq::<u8>::empty());
        assert(fnv1a(bytes.push(b), state, prime, modulus) == fnv1a(
            Seq::<u8>::empty(),
            fnv1a_step(state, b, prime, modulus),
            prime,
            modulus,
        ));
    } else {
        assert(bytes.push(b).first() == bytes.first());
        assert(bytes.push(b).drop_first() =~= bytes.drop_first().push(b));
        lemma_fnv1a_push(
            bytes.drop_first(),
            b,
            fnv1a_step(state, bytes.first(), prime, modulus),
            prime,
            modulus,
        );
    }
}

/// Chunking invariance: splitting the input into two consecutive pieces and
/// absorbing them one after the other gives the same state as absorbing the
/// whole input at once. Splits into any number of pieces follow by applying
/// this equality once per split point.
pub proof fn lemma_fnv1a_append(a: Seq<u8>, b: Seq<u8>, state: nat, prime: nat, modulus: nat)
    ensures
        fnv1a(a + b, state, prime, modulus) == fnv1a(
            b,
            fnv1a(a, state, prime, modulus),
            prime,
            modulus,
        ),
    decreases a.len(),
{
    if a.len() == 0 {
        assert(a + b =~= b);
    } else {
        assert((a + b).drop_first() =~= a.drop_first() + b);
        lemma_fnv1a_append(
            a.drop_first(),
            b,
            fnv1a_step(state, a.first(), prime, modulus),
            prime,
            modulus,
        );
    }
}

/// The state after absorbing a list of byte-sequence pieces one by one.
pub open spec fn fnv1a_pieces(pieces: Seq<Seq<u8>>, state: nat, prime: nat, modulus: nat) -> nat
    decreases pieces.len(),
{
    if pieces.len() == 0 {
        state
    } else {
        fnv1a_pieces(
            pieces.drop_first(),
            fnv1a(pieces.first(), state, prime, modulus),
            prime,
            modulus,
        )
    }
}

/// Chunking invariance in full: however an input is split into consecutive
/// pieces, absorbing the pieces in order ends at the same state as absorbing
/// the whole input at once.
pub proof fn lemma_fnv1a_chunks(pieces: Seq<Seq<u8>>, state: nat, prime: nat, modulus: nat)
    ensures
        fnv1a(pieces.flatten(), state, prime, modulus) == fnv1a_pieces(
            pieces,
            state,
            prime,
            modulus,
        ),
    decreases pieces.len(),
{
    if pieces.len() == 0 {
    } else {
        lemma_fnv1a_append(pieces.first(), pieces.drop_first().flatten(), state, prime, modulus);
        lemma_fnv1a_chunks(
            pieces.drop_first(),
            fnv1a(pieces.first(), state, prime, modulus),
            prime,
            modulus,
        );
    }
}

/// Determinism: the state after absorbing a byte sequence depends on nothing
/// but the bytes and the width's parameters, so two runs over equal inputs
/// agree.
pub proof fn lemma_fnv1a_deterministic(
    a: Seq<u8>,
    b: Seq<u8>,
    state: nat,
    prime: nat,
    modulus: nat,
)
    requires
        a == b,
    ensures
        fnv1a(a, state, prime, modulus) == fnv1a(b, state, prime, modulus),
{
}

} // verus!

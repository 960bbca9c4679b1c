//! The result of a finished hash computation.

use crate::be_bytes::{nat_to_be_bytes, push_be_u128, push_be_u32, push_be_u64};
use crate::hex_str::{hex_encode_lower, hex_encode_upper, hex_lower_of, hex_upper_of};
use crate::limbs::{limbs_to_be_bytes, limbs_val};
use vstd::prelude::*;

verus! {

/// A hash value: the big-endian bytes of a finalized state, exactly one
/// eighth of the width in bits. Immutable once produced.
#[derive(Debug)]
pub struct FnvHashResult {
    bytes: Vec<u8>,
}

impl View for FnvHashResult {
    type V = Seq<u8>;

    closed spec fn view(&self) -> Seq<u8> {
        self.bytes@
    }
}

impl FnvHashResult {
    /// Wrap a 32-bit state as its four big-endian bytes.
    pub fn from_u32(i: u32) -> (r: Self)
        ensures
            r@ == nat_to_be_bytes(i as nat, 4),
    {
        let mut bytes: Vec<u8> = Vec::new();
        push_be_u32(&mut bytes, i);
        proof {
            assert(Seq::<u8>::empty() + nat_to_be_bytes(i as nat, 4) =~= nat_to_be_bytes(
                i as nat,
                4,
            ));
        }
        FnvHashResult { bytes }
    }

    /// Wrap a 64-bit state as its eight big-endian bytes.
    pub fn from_u64(i: u64) -> (r: Self)
        ensures
            r@ == nat_to_be_bytes(i as nat, 8),
    {
        let mut bytes: Vec<u8> = Vec::new();
        push_be_u64(&mut bytes, i);
        proof {
            assert(Seq::<u8>::empty() + nat_to_be_bytes(i as nat, 8) =~= nat_to_be_bytes(
                i as nat,
                8,
            ));
        }
        FnvHashResult { bytes }
    }

    /// Wrap a 128-bit state as its sixteen big-endian bytes.
    pub fn from_u128(i: u128) -> (r: Self)
        ensures
            r@ == nat_to_be_bytes(i as nat, 16),
    {
        let mut bytes: Vec<u8> = Vec::new();
        push_be_u128(&mut bytes, i);
        proof {
            assert(Seq::<u8>::empty() + nat_to_be_bytes(i as nat, 16) =~= nat_to_be_bytes(
                i as nat,
                16,
            ));
        }
        FnvHashResult { bytes }
    }

    /// Wrap a wide state, eight big-endian bytes per limb.
    pub(crate) fn from_limbs(limbs: &Vec<u64>) -> (r: Self)
        ensures
            r@ == nat_to_be_bytes(limbs_val(limbs@), (8 * limbs@.len()) as nat),
    {
        FnvHashResult { bytes: limbs_to_be_bytes(limbs) }
    }

    /// The hash value's bytes, unchanged.
    pub fn as_bytes(&self) -> (r: &[u8])
        ensures
            r@ == self@,
    {
        self.bytes.as_slice()
    }

    /// The hash value as uppercase hex: two digits per byte, no separators.
    pub fn as_hex(&self) -> (r: String)
        ensures
            r@ == hex_upper_of(self@),
    {
        hex_encode_upper(self.bytes.as_slice())
    }

    /// The hash value as lowercase hex: the same digits as [`Self::as_hex`],
    /// letters in lowercase.
    pub fn as_hex_lower(&self) -> (r: String)
        ensures
            r@ == hex_lower_of(self@),
    {
        hex_encode_lower(self.bytes.as_slice())
    }

    /// The number of bytes in the hash value.
    pub fn len(&self) -> (r: usize)
        ensures
            r == self@.len(),
    {
        self.bytes.len()
    }
}

} // verus!

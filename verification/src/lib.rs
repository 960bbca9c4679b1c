//! FNV-1a hashing at six fixed output widths (32 to 1024 bits).
//!
//! Each width keeps a running state that starts at the width's offset basis
//! and absorbs one input byte at a time: the byte is XORed into the low bits
//! of the state, then the state is multiplied by the width's FNV prime,
//! wrapping at the width. Finalizing encodes the state as big-endian bytes.

use vstd::prelude::*;

pub mod be_bytes;
pub mod consts;
pub mod fnv;
pub mod fnv1024;
pub mod fnv128;
pub mod fnv256;
pub mod fnv32;
pub mod fnv512;
pub mod fnv64;
pub mod hash_result;
pub mod hex_str;
pub mod limbs;

pub use fnv1024::FnvHasher1024;
pub use fnv128::FnvHasher128;
pub use fnv256::FnvHasher256;
pub use fnv32::FnvHasher32;
pub use fnv512::FnvHasher512;
pub use fnv64::FnvHasher64;
pub use hash_result::FnvHashResult;

use crate::be_bytes::nat_to_be_bytes;
use crate::fnv::{fnv1a, width_modulus};

verus! {

/// The common contract of the fixed-width FNV-1a hashers.
///
/// A hasher owns one running state, an integer of exactly the output width.
/// All inputs, the empty one included, are valid: no operation here can
/// fail.
pub trait FnvHasher: Sized {
    /// Structural validity of a hasher (the limb count, for the widths kept
    /// in limbs). Constructors establish it and updates keep it.
    spec fn wf(&self) -> bool;

    /// The running state as an unbounded integer.
    spec fn spec_state(&self) -> nat;

    /// The output width in bytes.
    spec fn spec_width_bytes() -> nat;

    /// The width's FNV prime.
    spec fn spec_prime() -> nat;

    /// The width's offset basis.
    spec fn spec_offset() -> nat;

    /// The state never outgrows the width: a well-formed hasher's state is
    /// below `2^W`.
    proof fn lemma_state_in_width(&self)
        requires
            self.wf(),
        ensures
            self.spec_state() < width_modulus(Self::spec_width_bytes()),
    ;

    /// A fresh hasher, its state at the offset basis.
    fn new() -> (r: Self)
        ensures
            r.wf(),
            r.spec_state() == Self::spec_offset(),
    ;

    /// Absorb `bytes` in order, one XOR-then-multiply round per byte. An
    /// empty slice leaves the state unchanged.
    fn update(&mut self, bytes: &[u8])
        requires
            old(self).wf(),
        ensures
            final(self).wf(),
            final(self).spec_state() == fnv1a(
                bytes@,
                old(self).spec_state(),
                Self::spec_prime(),
                width_modulus(Self::spec_width_bytes()),
            ),
    ;

    /// The current state as big-endian bytes, one byte per eight bits of
    /// width. A pure read: the hasher is untouched and may keep absorbing.
    fn finalize(&self) -> (r: FnvHashResult)
        requires
            self.wf(),
        ensures
            r@ == nat_to_be_bytes(self.spec_state(), Self::spec_width_bytes()),
            r@.len() == Self::spec_width_bytes(),
    ;

    /// One-shot hash of `bytes`: exactly `new`, then `update`, then
    /// `finalize`, so it matches the incremental path byte for byte.
    fn hash(bytes: &[u8]) -> (r: FnvHashResult)
        ensures
            r@ == nat_to_be_bytes(
                fnv1a(
                    bytes@,
                    Self::spec_offset(),
                    Self::spec_prime(),
                    width_modulus(Self::spec_width_bytes()),
                ),
                Self::spec_width_bytes(),
            ),
            r@.len() == Self::spec_width_bytes(),
    {
        let mut hasher = Self::new();
        hasher.update(bytes);
        hasher.finalize()
    }
}

} // verus!

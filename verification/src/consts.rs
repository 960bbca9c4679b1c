//! The FNV prime and offset-basis constants for every width.
//!
//! Native widths carry them as machine integers. Wider widths carry them as
//! little-endian 64-bit limb sequences; [`crate::limbs::limbs_val`] gives the
//! integer each sequence stands for.

use vstd::prelude::*;

verus! {

pub const FNV_PRIME_32: u32 = 0x01000193;

pub const FNV_OFFSET_32: u32 = 0x811C9DC5;

pub const FNV_PRIME_64: u64 = 0x00000100000001B3;

pub const FNV_OFFSET_64: u64 = 0xCBF29CE484222325;

pub const FNV_PRIME_128: u128 = 0x0000000001000000000000000000013B;

pub const FNV_OFFSET_128: u128 = 0x6C62272E07BB014262B821756295C58D;

/// The 256-bit FNV prime, `2^168 + 2^8 + 0x63`.
pub open spec fn spec_fnv_prime_256() -> Seq<u64> {
    seq![0x163u64, 0u64, 0x10000000000u64, 0u64]
}

/// The 256-bit FNV offset basis.
pub open spec fn spec_fnv_offset_256() -> Seq<u64> {
    seq![0x1023B4C8CAEE0535u64, 0xC8B1536847B6BBB3u64, 0x2D98C384C4E576CCu64, 0xDD268DBCAAC55036u64]
}

/// The 512-bit FNV prime, `2^344 + 2^8 + 0x57`.
pub open spec fn spec_fnv_prime_512() -> Seq<u64> {
    seq![0x157u64, 0u64, 0u64, 0u64, 0u64, 0x1000000u64, 0u64, 0u64]
}

/// The 512-bit FNV offset basis.
pub open spec fn spec_fnv_offset_512() -> Seq<u64> {
    seq![
        0xAC982AAC4AFE9FD9u64,
        0x182036415F56E34Bu64,
        0x2EA79BC942DBE7CEu64,
        0xE948F68A34C192F6u64,
        0xD21u64,
        0xAC87D059C9000000u64,
        0xDCA1E50F309990ACu64,
        0xB86DB0B1171F4416u64,
    ]
}

/// The 1024-bit FNV prime, `2^680 + 2^8 + 0x8D`.
pub open spec fn spec_fnv_prime_1024() -> Seq<u64> {
    seq![
        0x18Du64,
        0u64,
        0u64,
        0u64,
        0u64,
        0u64,
        0u64,
        0u64,
        0u64,
        0u64,
        0x10000000000u64,
        0u64,
        0u64,
        0u64,
        0u64,
        0u64,
    ]
}

/// The 1024-bit FNV offset basis.
pub open spec fn spec_fnv_offset_1024() -> Seq<u64> {
    seq![
        0xAFF4B16C71EE90B3u64,
        0x6BDE8CC9C6A93B21u64,
        0x555F256CC005AE55u64,
        0xEB6E73802734510Au64,
        0x4C6D7u64,
        0u64,
        0u64,
        0u64,
        0u64,
        0u64,
        0x9A21D90000000000u64,
        0x6C3BF34EDA3674DAu64,
        0x4B29FC4223FDADA1u64,
        0x32E56D5A591028B7u64,
        0x5F7A76758ECC4Du64,
        0u64,
    ]
}

/// Build the 256-bit prime's limbs.
pub fn fnv_prime_256() -> (r: Vec<u64>)
    ensures
        r@ == spec_fnv_prime_256(),
{
    let mut v: Vec<u64> = Vec::new();
    v.push(0x163);
    v.push(0);
    v.push(0x10000000000);
    v.push(0);
    proof {
        assert(v@ =~= spec_fnv_prime_256());
    }
    v
}

/// Build the 256-bit offset basis's limbs.
pub fn fnv_offset_256() -> (r: Vec<u64>)
    ensures
        r@ == spec_fnv_offset_256(),
{
    let mut v: Vec<u64> = Vec::new();
    v.push(0x1023B4C8CAEE0535);
    v.push(0xC8B1536847B6BBB3);
    v.push(0x2D98C384C4E576CC);
    v.push(0xDD268DBCAAC55036);
    proof {
        assert(v@ =~= spec_fnv_offset_256());
    }
    v
}

/// Build the 512-bit prime's limbs.
pub fn fnv_prime_512() -> (r: Vec<u64>)
    ensures
        r@ == spec_fnv_prime_512(),
{
    let mut v: Vec<u64> = Vec::new();
    v.push(0x157);
    v.push(0);
    v.push(0);
    v.push(0);
    v.push(0);
    v.push(0x1000000);
    v.push(0);
    v.push(0);
    proof {
        assert(v@ =~= spec_fnv_prime_512());
    }
    v
}

/// Build the 512-bit offset basis's limbs.
pub fn fnv_offset_512() -> (r: Vec<u64>)
    ensures
        r@ == spec_fnv_offset_512(),
{
    let mut v: Vec<u64> = Vec::new();
    v.push(0xAC982AAC4AFE9FD9);
    v.push(0x182036415F56E34B);
    v.push(0x2EA79BC942DBE7CE);
    v.push(0xE948F68A34C192F6);
    v.push(0xD21);
    v.push(0xAC87D059C9000000);
    v.push(0xDCA1E50F309990AC);
    v.push(0xB86DB0B1171F4416);
    proof {
        assert(v@ =~= spec_fnv_offset_512());
    }
    v
}

/// Build the 1024-bit prime's limbs.
pub fn fnv_prime_1024() -> (r: Vec<u64>)
    ensures
        r@ == spec_fnv_prime_1024(),
{
    let mut v: Vec<u64> = Vec::new();
    v.push(0x18D);
    v.push(0);
    v.push(0);
    v.push(0);
    v.push(0);
    v.push(0);
    v.push(0);
    v.push(0);
    v.push(0);
    v.push(0);
    v.push(0x10000000000);
    v.push(0);
    v.push(0);
    v.push(0);
    v.push(0);
    v.push(0);
    proof {
        assert(v@ =~= spec_fnv_prime_1024());
    }
    v
}

/// Build the 1024-bit offset basis's limbs.
pub fn fnv_offset_1024() -> (r: Vec<u64>)
    ensures
        r@ == spec_fnv_offset_1024(),
{
    let mut v: Vec<u64> = Vec::new();
    v.push(0xAFF4B16C71EE90B3);
    v.push(0x6BDE8CC9C6A93B21);
    v.push(0x555F256CC005AE55);
    v.push(0xEB6E73802734510A);
    v.push(0x4C6D7);
    v.push(0);
    v.push(0);
    v.push(0);
    v.push(0);
    v.push(0);
    v.push(0x9A21D90000000000);
    v.push(0x6C3BF34EDA3674DA);
    v.push(0x4B29FC4223FDADA1);
    v.push(0x32E56D5A591028B7);
    v.push(0x5F7A76758ECC4D);
    v.push(0);
    proof {
        assert(v@ =~= spec_fnv_offset_1024());
    }
    v
}

} // verus!

use fnv_hash::{
    FnvHasher, FnvHasher1024, FnvHasher128, FnvHasher256, FnvHasher32, FnvHasher512, FnvHasher64,
};

#[test]
fn empty_input_is_offset_basis_32() {
    let hash = FnvHasher32::hash(b"".as_slice());
    assert_eq!(hash.as_bytes(), [0x81u8, 0x1C, 0x9D, 0xC5].as_slice());
    assert_eq!(hash.as_hex(), "811C9DC5");
}

#[test]
fn empty_input_is_offset_basis_64() {
    let hash = FnvHasher64::hash(b"".as_slice());
    assert_eq!(
        hash.as_bytes(),
        [0xCBu8, 0xF2, 0x9C, 0xE4, 0x84, 0x22, 0x23, 0x25].as_slice()
    );
    assert_eq!(hash.as_hex(), "CBF29CE484222325");
}

#[test]
fn empty_input_is_offset_basis_wide() {
    assert_eq!(
        FnvHasher128::hash(b"".as_slice()).as_hex(),
        "6C62272E07BB014262B821756295C58D"
    );
    assert_eq!(
        FnvHasher256::hash(b"".as_slice()).as_hex(),
        "DD268DBCAAC550362D98C384C4E576CCC8B1536847B6BBB31023B4C8CAEE0535"
    );
    assert_eq!(
        FnvHasher512::hash(b"".as_slice()).as_hex(),
        "B86DB0B1171F4416DCA1E50F309990ACAC87D059C90000000000000000000D21E948F68A34C192F62EA79BC942DBE7CE182036415F56E34BAC982AAC4AFE9FD9"
    );
    assert_eq!(
        FnvHasher1024::hash(b"".as_slice()).as_hex(),
        "0000000000000000005F7A76758ECC4D32E56D5A591028B74B29FC4223FDADA16C3BF34EDA3674DA9A21D9000000000000000000000000000000000000000000000000000000000000000000000000000000000000000000000000000004C6D7EB6E73802734510A555F256CC005AE556BDE8CC9C6A93B21AFF4B16C71EE90B3"
    );
}

#[test]
fn known_vectors_32() {
    assert_eq!(FnvHasher32::hash(b"a".as_slice()).as_hex(), "E40C292C");
    assert_eq!(FnvHasher32::hash(b"ab".as_slice()).as_hex(), "4D2505CA");
    assert_eq!(FnvHasher32::hash(b"foobar".as_slice()).as_hex(), "BF9CF968");
}

#[test]
fn known_vectors_64() {
    assert_eq!(
        FnvHasher64::hash(b"a".as_slice()).as_hex(),
        "AF63DC4C8601EC8C"
    );
    assert_eq!(
        FnvHasher64::hash(b"foobar".as_slice()).as_hex(),
        "85944171F73967E8"
    );
}

#[test]
fn known_vectors_128() {
    assert_eq!(
        FnvHasher128::hash(b"a".as_slice()).as_hex(),
        "D228CB696F1A8CAF78912B704E4A8964"
    );
    assert_eq!(
        FnvHasher128::hash(b"foobar".as_slice()).as_hex(),
        "343E1662793C64BF6F0D3597BA446F18"
    );
}

#[test]
fn wide_trace_256() {
    // One round by hand from the offset basis: XOR 'a' into the low byte,
    // multiply by the prime, keep the low 256 bits.
    let mut hasher = FnvHasher256::new();
    hasher.update(b"a".as_slice());
    assert_eq!(
        hasher.finalize().as_hex(),
        "63323FB0F35303EC28DC751D0A33BDFA4DE6A99B7266494F6183B2716811637C"
    );
    // A second round on top of the first.
    hasher.update(b"b".as_slice());
    assert_eq!(
        hasher.finalize().as_hex(),
        "F4F7A1C2EFD0E1E4BB19854525C0721A06DD328FA3D7A91439A07343501C729A"
    );
}

#[test]
fn wide_trace_512() {
    let hash = FnvHasher512::hash(b"a".as_slice());
    assert_eq!(
        hash.as_hex(),
        "E43A992DC8FC5AD7DE493E3D696D6F85D64326EC07000000000000000011986F90C2532CAF5BE7D88291BAA894A395225328B196BD6A8A643FE12CD87B27FF88"
    );
}

#[test]
fn wide_trace_1024() {
    let hash = FnvHasher1024::hash(b"foobar".as_slice());
    assert_eq!(
        hash.as_hex(),
        "00000631175FA7AE643AD08723D312C9FD024ADB91F77F6B19587197A22BCDF23727166C4572D0B985D5AE00000000000000000000000000000000000000000000000000000000000000000000000000000000000000004270D11EF418EF08B8A49E1E825E547EB39937F819222F3B7FC92A0E4707900888847A554BACEC98B0"
    );
}

#[test]
fn chunked_updates_match_one_shot() {
    let data = b"the quick brown fox jumps over the lazy dog";
    for split in 0..data.len() {
        let mut hasher = FnvHasher64::new();
        hasher.update(&data[..split]);
        hasher.update(&data[split..]);
        assert_eq!(
            hasher.finalize().as_bytes(),
            FnvHasher64::hash(data.as_slice()).as_bytes()
        );
    }
}

#[test]
fn chunked_updates_match_one_shot_wide() {
    let data = b"chunking must not affect the result";
    let mut hasher = FnvHasher1024::new();
    for piece in data.chunks(7) {
        hasher.update(piece);
    }
    assert_eq!(
        hasher.finalize().as_bytes(),
        FnvHasher1024::hash(data.as_slice()).as_bytes()
    );
}

#[test]
fn empty_update_is_a_no_op() {
    let mut hasher = FnvHasher32::new();
    hasher.update(b"foo".as_slice());
    hasher.update(b"".as_slice());
    hasher.update(b"bar".as_slice());
    assert_eq!(
        hasher.finalize().as_bytes(),
        FnvHasher32::hash(b"foobar".as_slice()).as_bytes()
    );
}

#[test]
fn hashing_twice_is_deterministic() {
    for data in [b"".as_slice(), b"a".as_slice(), b"determinism".as_slice()] {
        assert_eq!(
            FnvHasher256::hash(data).as_bytes(),
            FnvHasher256::hash(data).as_bytes()
        );
        assert_eq!(
            FnvHasher64::hash(data).as_bytes(),
            FnvHasher64::hash(data).as_bytes()
        );
    }
}

#[test]
fn output_lengths_match_widths() {
    let data = b"width".as_slice();
    assert_eq!(FnvHasher32::hash(data).len(), 4);
    assert_eq!(FnvHasher64::hash(data).len(), 8);
    assert_eq!(FnvHasher128::hash(data).len(), 16);
    assert_eq!(FnvHasher256::hash(data).len(), 32);
    assert_eq!(FnvHasher512::hash(data).len(), 64);
    assert_eq!(FnvHasher1024::hash(data).len(), 128);
    assert_eq!(FnvHasher32::hash(data).as_bytes().len(), 4);
    assert_eq!(FnvHasher1024::hash(data).as_bytes().len(), 128);
}

#[test]
fn single_byte_inputs_stay_distinct() {
    let mut outputs: Vec<Vec<u8>> = (0u16..256)
        .map(|b| FnvHasher32::hash([b as u8].as_slice()).as_bytes().to_vec())
        .collect();
    outputs.sort();
    outputs.dedup();
    assert!(outputs.len() >= 200);
}

#[test]
fn finalize_is_a_pure_read() {
    let mut hasher = FnvHasher512::new();
    hasher.update(b"foo".as_slice());
    let first = hasher.finalize();
    let second = hasher.finalize();
    assert_eq!(first.as_bytes(), second.as_bytes());
    // The hasher keeps absorbing after a finalize.
    hasher.update(b"bar".as_slice());
    assert_eq!(
        hasher.finalize().as_bytes(),
        FnvHasher512::hash(b"foobar".as_slice()).as_bytes()
    );
}

#[test]
fn default_matches_new() {
    assert_eq!(
        FnvHasher64::default().finalize().as_bytes(),
        FnvHasher64::new().finalize().as_bytes()
    );
    assert_eq!(
        FnvHasher256::default().finalize().as_bytes(),
        FnvHasher256::new().finalize().as_bytes()
    );
}

#[test]
fn raw_state_accessors() {
    assert_eq!(FnvHasher32::new().to_u32(), 0x811C9DC5);
    assert_eq!(FnvHasher64::new().to_u64(), 0xCBF29CE484222325);
    assert_eq!(
        FnvHasher128::new().to_u128(),
        0x6C62272E07BB014262B821756295C58D
    );
    let mut hasher = FnvHasher64::new();
    hasher.update(b"a".as_slice());
    assert_eq!(hasher.to_u64(), 0xAF63DC4C8601EC8C);
}

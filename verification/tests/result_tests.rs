use fnv_hash::{
    FnvHasher, FnvHasher1024, FnvHasher128, FnvHasher256, FnvHasher32, FnvHasher512, FnvHasher64,
};

#[test]
fn hex_decodes_back_to_raw_bytes() {
    let data = b"round trip".as_slice();
    assert_eq!(
        hex::decode(FnvHasher32::hash(data).as_hex()).unwrap(),
        FnvHasher32::hash(data).as_bytes()
    );
    assert_eq!(
        hex::decode(FnvHasher64::hash(data).as_hex()).unwrap(),
        FnvHasher64::hash(data).as_bytes()
    );
    assert_eq!(
        hex::decode(FnvHasher128::hash(data).as_hex()).unwrap(),
        FnvHasher128::hash(data).as_bytes()
    );
    assert_eq!(
        hex::decode(FnvHasher256::hash(data).as_hex()).unwrap(),
        FnvHasher256::hash(data).as_bytes()
    );
    assert_eq!(
        hex::decode(FnvHasher512::hash(data).as_hex()).unwrap(),
        FnvHasher512::hash(data).as_bytes()
    );
    assert_eq!(
        hex::decode(FnvHasher1024::hash(data).as_hex()).unwrap(),
        FnvHasher1024::hash(data).as_bytes()
    );
}

#[test]
fn lowercase_hex_decodes_back_too() {
    let data = b"round trip".as_slice();
    assert_eq!(
        hex::decode(FnvHasher256::hash(data).as_hex_lower()).unwrap(),
        FnvHasher256::hash(data).as_bytes()
    );
}

#[test]
fn hex_is_uppercase_two_digits_per_byte() {
    let hash = FnvHasher32::hash(b"a".as_slice());
    assert_eq!(hash.as_hex(), "E40C292C");
    assert_eq!(hash.as_hex().len(), 2 * hash.len());
}

#[test]
fn lowercase_hex_has_the_same_digits() {
    let hash = FnvHasher32::hash(b"a".as_slice());
    assert_eq!(hash.as_hex_lower(), "e40c292c");
    assert_eq!(hash.as_hex_lower(), hash.as_hex().to_lowercase());
    let wide = FnvHasher512::hash(b"foobar".as_slice());
    assert_eq!(wide.as_hex_lower(), wide.as_hex().to_lowercase());
}

#[test]
fn result_length_accessor() {
    assert_eq!(FnvHasher64::hash(b"".as_slice()).len(), 8);
    assert_eq!(
        FnvHasher64::hash(b"abc".as_slice()).as_bytes().len(),
        FnvHasher64::hash(b"abc".as_slice()).len()
    );
}

use amberol::hashing::digest_hex;
use amberol::hashing::hex_string;

#[test]
fn hex_of_known_bytes() {
    assert_eq!(hex_string(&[0xbe, 0xef]), "beef");
    assert_eq!(hex_string(&[0x00, 0x0f, 0xa0]), "000fa0");
    assert_eq!(hex_string(&[]), "");
}

#[test]
fn digest_of_known_vector() {
    // The well-known SHA-256 test vector for "abc".
    assert_eq!(
        digest_hex(b"abc"),
        "ba7816bf8f01cfea414140de5dae2223b00361a396177a9cb410ff61f20015ad"
    );
}

#[test]
fn digest_of_empty_input() {
    assert_eq!(
        digest_hex(b""),
        "e3b0c44298fc1c149afbf4c8996fb92427ae41e4649b934ca495991b7852b855"
    );
}

#[test]
fn digest_matches_hasher_directly() {
    // The wrapper must agree with the hashing crate called directly.
    let data = b"some cover artwork bytes";
    let direct = <sha2::Sha256 as sha2::Digest>::digest(data);
    let mut expect = String::new();
    for b in direct.iter() {
        expect.push_str(&format!("{:02x}", b));
    }
    assert_eq!(digest_hex(data), expect);
}

use aws_lc::rsa::calls::Reply;
use aws_lc::rsa::error::{KeyRejected, Unspecified};
use aws_lc::rsa::generation::{GenerationStage, KeyGeneration};
use aws_lc::rsa::key_pair::{KeyPair, PrivateKeyEncoding};
use aws_lc::rsa::pkey::{
    has_size_between, is_rsa_key, is_valid_fips_key, key_size_bits, key_size_bytes, EvpPkey,
    PublicParts,
};
use aws_lc::rsa::public_key::{hex_encode, PublicKey};
use aws_lc::rsa::size::KeySize;

fn boxed(bytes: &[u8]) -> Option<Box<[u8]>> {
    Some(bytes.to_vec().into_boxed_slice())
}

fn parts() -> PublicParts {
    PublicParts { der: boxed(&[0x30, 0x0a, 0xff]), n: boxed(&[0xc1, 2]), e: boxed(&[1, 0, 1]) }
}

fn key_at(addr: usize, bits: i32) -> EvpPkey {
    EvpPkey { addr, rsa_size: Some(256), bits, size: 256, public: parts() }
}

fn key(bits: i32) -> EvpPkey {
    key_at(7, bits)
}

fn other_key(bits: i32) -> EvpPkey {
    EvpPkey { rsa_size: None, size: 32, ..key(bits) }
}

fn public_key() -> PublicKey {
    PublicKey::new(&key(2048)).unwrap()
}

/// A generation whose calls all succeed, so that the key is at address 7.
fn generated() -> KeyGeneration {
    let mut generation = KeyPair::generate_fips(KeySize::Rsa2048);
    for reply in [Reply::Pointer(1), Reply::Status(1), Reply::Pointer(7), Reply::Status(1)] {
        generation.answer(reply);
    }
    assert_eq!(generation.stage(), GenerationStage::Generated { pkey: 7 });
    generation
}

#[test]
fn sizes_of_keys() {
    for (size, bytes, bits) in [
        (KeySize::Rsa2048, 256, 2048),
        (KeySize::Rsa3072, 384, 3072),
        (KeySize::Rsa4096, 512, 4096),
        (KeySize::Rsa8192, 1024, 8192),
    ] {
        assert_eq!(size.len(), bytes);
        assert_eq!(size.bits(), bits);
        assert_eq!(KeyPair::validate_private_key(&key(bits)).is_ok(), true);
    }
}

#[test]
fn what_is_known_of_a_key() {
    assert_eq!(key_size_bits(&key(2048)), 2048);
    assert_eq!(key_size_bytes(&key(2048)), 256);
    assert!(is_rsa_key(&key(2048)));
    assert!(!is_rsa_key(&other_key(256)));
    assert!(is_valid_fips_key(&key(2048), 1));
    assert!(!is_valid_fips_key(&key(2048), 0));
    assert!(!is_valid_fips_key(&key(2048), -1));
}

#[test]
fn sizes_in_a_range() {
    assert!(has_size_between(&key(2048), 2048, 8192));
    assert!(has_size_between(&key(8192), 2048, 8192));
    assert!(!has_size_between(&key(2047), 2048, 8192));
    assert!(!has_size_between(&key(8193), 2048, 8192));
    assert!(!has_size_between(&key(3000), 4096, 2048));
}

#[test]
fn rsa_keys_from_2048_to_8192_bits_are_accepted() {
    for bits in [2048, 2049, 4096, 8192] {
        assert!(KeyPair::validate_private_key(&key(bits)).is_ok());
    }
    for bits in [0, 1024, 2047, 8193, i32::MAX] {
        let rejected = KeyPair::validate_private_key(&key(bits)).unwrap_err();
        assert_eq!(rejected.reason, "Unspecified");
    }
    assert!(KeyPair::validate_private_key(&other_key(4096)).is_err());
}

#[test]
fn errors_become_each_other() {
    assert_eq!(Unspecified::from(KeyRejected { reason: "TooSmall" }), Unspecified);
    assert_eq!(KeyRejected::from(Unspecified).reason, "Unspecified");
    assert_eq!(KeyRejected::unspecified().reason, "Unspecified");
}

#[test]
fn a_pair_is_made_of_an_acceptable_key_and_its_public_half() {
    let pair = KeyPair::new(key(3072)).unwrap();
    assert_eq!((pair.evp_pkey().addr, pair.evp_pkey().bits), (7, 3072));
    assert_eq!(pair.evp_pkey().public.der.as_deref(), Some(pair.public_key().as_ref()));
    assert_eq!(pair.public_modulus_len(), 256);
    assert_eq!(pair.public_key().as_ref(), [0x30, 0x0a, 0xff]);
    assert!(KeyPair::new(key(1024)).is_err());
    assert!(KeyPair::new(other_key(4096)).is_err());
    for public in [
        PublicParts { der: None, ..parts() },
        PublicParts { n: None, ..parts() },
        PublicParts { e: None, ..parts() },
    ] {
        let incomplete = EvpPkey { public, ..key(2048) };
        assert!(PublicKey::new(&incomplete).is_err());
        let rejected = KeyPair::new(incomplete).err().unwrap();
        assert_eq!(rejected.reason, "Unspecified");
    }
}

#[test]
fn a_generated_key_becomes_a_pair() {
    let pair = KeyPair::from_generated(&generated(), Some(key(2048))).unwrap();
    assert_eq!(pair.evp_pkey().addr, 7);
    let rejected = KeyPair::from_generated(&generated(), Some(key(1024)));
    assert_eq!(rejected.err(), Some(Unspecified));
    let mut failed = KeyPair::generate(KeySize::Rsa2048);
    failed.answer(Reply::Pointer(0));
    assert_eq!(KeyPair::from_generated(&failed, None).err(), Some(Unspecified));
}

#[test]
fn encodings_of_private_keys() {
    let decoding = KeyPair::from_pkcs8(&[1, 2]);
    assert_eq!((decoding.encoding, decoding.input), (PrivateKeyEncoding::Pkcs8, &[1u8, 2][..]));
    let decoding = KeyPair::from_der(&[]);
    assert_eq!((decoding.encoding, decoding.input), (PrivateKeyEncoding::Rfc8017, &[][..]));
}

#[test]
fn a_decoded_key_becomes_a_pair() {
    let pair = KeyPair::from_decoded(Ok(key(8192))).unwrap();
    assert_eq!(pair.evp_pkey().bits, 8192);
    let rejected = KeyPair::from_decoded(Err(KeyRejected { reason: "InvalidEncoding" }));
    assert_eq!(rejected.err().unwrap().reason, "InvalidEncoding");
    let rejected = KeyPair::from_decoded(Ok(key(8193)));
    assert_eq!(rejected.err().unwrap().reason, "Unspecified");
}

#[test]
fn pairs_do_not_show_where_their_key_comes_from() {
    let a = KeyPair::from_generated(&generated(), Some(key(2048))).unwrap();
    let b = KeyPair::from_decoded(Ok(key_at(9, 2048))).unwrap();
    assert_eq!(a.public_key().as_ref(), b.public_key().as_ref());
    assert_eq!(a.public_modulus_len(), b.public_modulus_len());
    assert_eq!(a.public_modulus_len(), key_size_bytes(a.evp_pkey()));
}

#[test]
fn a_pair_is_checked_and_encoded() {
    let pair = KeyPair::new(key(2048)).unwrap();
    assert!(pair.is_valid_fips_key(1));
    assert!(!pair.is_valid_fips_key(0));
    assert_eq!(pair.as_der(Some(vec![1, 2, 3])).unwrap().as_ref(), [1, 2, 3]);
    assert_eq!(pair.as_der(None).err(), Some(Unspecified));
}

#[test]
fn a_public_key_gives_its_numbers() {
    let key = public_key();
    assert_eq!(key.modulus().big_endian_without_leading_zero(), [0xc1, 2]);
    assert_eq!(key.exponent().big_endian_without_leading_zero(), [1, 0, 1]);
}

#[test]
fn a_clone_outlives_the_wiped_key() {
    let mut key = public_key();
    let copy = key.clone();
    key.wipe();
    assert_eq!(key.as_ref(), [0, 0, 0]);
    assert_eq!(key.modulus().big_endian_without_leading_zero(), [0, 0]);
    assert_eq!(key.exponent().big_endian_without_leading_zero(), [0, 0, 0]);
    assert_eq!(copy.as_ref(), [0x30, 0x0a, 0xff]);
    assert_eq!(copy.modulus().big_endian_without_leading_zero(), [0xc1, 2]);
    assert_eq!(copy.exponent().big_endian_without_leading_zero(), [1, 0, 1]);
}

#[test]
fn dropping_a_key_leaves_its_clones_alone() {
    let key = public_key();
    let copy = key.clone();
    drop(key);
    assert_eq!(copy.as_ref(), [0x30, 0x0a, 0xff]);
}

#[test]
fn bytes_in_hexadecimal() {
    assert_eq!(hex_encode(&[]), "");
    assert_eq!(hex_encode(&[0, 9, 10, 0x7f, 0xab, 0xff]), "00090a7fabff");
    for b in 0..=255u8 {
        assert_eq!(hex_encode(&[b]), format!("{b:02x}"));
    }
}

#[test]
fn debugging_output_shows_the_public_half() {
    assert_eq!(public_key().debug_text(), "RsaPublicKey(\"300aff\")");
    let expected = "RsaKeyPair { public_key: RsaPublicKey(\"300aff\") }";
    assert_eq!(KeyPair::new(key(2048)).unwrap().debug_text(), expected);
    assert_eq!(KeyPair::new(key(4096)).unwrap().debug_text(), expected);
}

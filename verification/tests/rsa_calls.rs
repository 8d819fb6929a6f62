use aws_lc::rsa::calls::{is_answer, Call, DigestAlgorithm, Object, Reply, RsaPadding};
use aws_lc::rsa::components::{
    BuildStage, ByteSource, PublicKeyComponents, RsaBuild, RsaParameters, Verification,
};
use aws_lc::rsa::error::Unspecified;
use aws_lc::rsa::generation::{generate_rsa_key, GenerationStage, KeyGeneration};
use aws_lc::rsa::key_pair::KeyPair;
use aws_lc::rsa::pkey::{EvpPkey, PublicParts};
use aws_lc::rsa::signing::{RsaSignatureEncoding, Signing};
use aws_lc::rsa::size::KeySize;

fn generation_step(generation: &mut KeyGeneration, reply: Reply) -> Vec<Object> {
    assert!(is_answer(&generation.next_call().unwrap(), &reply));
    generation.answer(reply)
}

fn build_step(build: &mut RsaBuild<'_>, reply: Reply) -> Vec<Object> {
    assert!(is_answer(&build.next_call().unwrap(), &reply));
    build.answer(reply)
}

fn verification_step(verification: &mut Verification<'_>, reply: Reply) -> Vec<Object> {
    assert!(is_answer(&verification.next_call().unwrap(), &reply));
    verification.answer(reply)
}

fn signing_step(signing: &mut Signing<'_>, reply: Reply) -> Vec<Object> {
    assert!(is_answer(&signing.next_call().unwrap(), &reply));
    signing.answer(reply)
}

fn pair() -> KeyPair {
    let boxed = || Some(vec![1u8].into_boxed_slice());
    KeyPair::new(EvpPkey {
        addr: 7,
        rsa_size: Some(256),
        bits: 2048,
        size: 256,
        public: PublicParts { der: boxed(), n: boxed(), e: boxed() },
    })
    .unwrap()
}

const PSS: RsaSignatureEncoding = RsaSignatureEncoding {
    digest: DigestAlgorithm::Sha256,
    signature_padding: RsaPadding::Pkcs1Pss,
};

const PKCS1: RsaSignatureEncoding = RsaSignatureEncoding {
    digest: DigestAlgorithm::Sha512,
    signature_padding: RsaPadding::Pkcs1,
};

#[test]
fn a_key_is_generated() {
    let mut g = KeyPair::generate(KeySize::Rsa2048);
    assert_eq!(g, generate_rsa_key(2048, false));
    assert!(matches!(g.next_call(), Some(Call::RsaNew)));
    assert!(generation_step(&mut g, Reply::Pointer(1)).is_empty());
    assert!(matches!(g.next_call(), Some(Call::BignumFromU64(65537))));
    assert!(generation_step(&mut g, Reply::Pointer(2)).is_empty());
    assert!(matches!(g.next_call(), Some(Call::RsaGenerateKeyEx { rsa: 1, bits: 2048, e: 2 })));
    assert_eq!(generation_step(&mut g, Reply::Status(1)), [Object::Bignum(2)]);
    assert!(matches!(g.next_call(), Some(Call::PkeyNew)));
    assert!(generation_step(&mut g, Reply::Pointer(3)).is_empty());
    assert!(matches!(g.next_call(), Some(Call::PkeyAssignRsa { pkey: 3, rsa: 1 })));
    assert!(generation_step(&mut g, Reply::Status(1)).is_empty());
    assert_eq!(g.stage(), GenerationStage::Generated { pkey: 3 });
    assert!(g.next_call().is_none());
}

#[test]
fn a_key_is_generated_as_fips_wants_it() {
    let mut g = KeyPair::generate_fips(KeySize::Rsa4096);
    assert_eq!(g, generate_rsa_key(4096, true));
    generation_step(&mut g, Reply::Pointer(1));
    assert!(matches!(g.next_call(), Some(Call::RsaGenerateKeyFips { rsa: 1, bits: 4096 })));
    generation_step(&mut g, Reply::Status(1));
    generation_step(&mut g, Reply::Pointer(3));
    generation_step(&mut g, Reply::Status(1));
    assert_eq!(g.stage(), GenerationStage::Generated { pkey: 3 });
}

#[test]
fn a_failed_generation_releases_everything() {
    let good = [
        Reply::Pointer(1),
        Reply::Pointer(2),
        Reply::Status(1),
        Reply::Pointer(3),
        Reply::Status(1),
    ];
    let bad = [
        (Reply::Pointer(0), vec![]),
        (Reply::Pointer(0), vec![Object::Rsa(1)]),
        (Reply::Status(0), vec![Object::Bignum(2), Object::Rsa(1)]),
        (Reply::Pointer(0), vec![Object::Rsa(1)]),
        (Reply::Status(-1), vec![Object::Pkey(3), Object::Rsa(1)]),
    ];
    for (i, (reply, released)) in bad.into_iter().enumerate() {
        let mut g = generate_rsa_key(2048, false);
        for reply in &good[..i] {
            generation_step(&mut g, *reply);
        }
        assert_eq!(generation_step(&mut g, reply), released);
        assert_eq!(g.stage(), GenerationStage::Failed);
        assert!(g.next_call().is_none());
    }
    let mut g = generate_rsa_key(2048, true);
    generation_step(&mut g, Reply::Pointer(1));
    assert_eq!(generation_step(&mut g, Reply::Status(0)), [Object::Rsa(1)]);
    assert_eq!(g.stage(), GenerationStage::Failed);
}

#[test]
fn a_key_is_built_from_its_components() {
    let components = PublicKeyComponents { n: vec![0xc1, 2], e: vec![1, 0, 1] };
    let mut b = components.build_rsa();
    assert!(matches!(b.next_call(), Some(Call::BignumFromBytes([0xc1, 2]))));
    assert!(build_step(&mut b, Reply::Pointer(1)).is_empty());
    assert!(matches!(b.next_call(), Some(Call::BignumFromBytes([1, 0, 1]))));
    assert!(build_step(&mut b, Reply::Pointer(2)).is_empty());
    assert!(matches!(b.next_call(), Some(Call::RsaNew)));
    assert!(build_step(&mut b, Reply::Pointer(3)).is_empty());
    assert!(matches!(b.next_call(), Some(Call::RsaSet0Key { rsa: 3, n: 1, e: 2 })));
    assert!(build_step(&mut b, Reply::Status(1)).is_empty());
    assert!(matches!(b.next_call(), Some(Call::PkeyNew)));
    assert!(build_step(&mut b, Reply::Pointer(4)).is_empty());
    assert!(matches!(b.next_call(), Some(Call::PkeyAssignRsa { pkey: 4, rsa: 3 })));
    assert_eq!(b.result(), None);
    assert!(build_step(&mut b, Reply::Status(1)).is_empty());
    assert_eq!(b.stage(), BuildStage::Built { pkey: 4 });
    assert_eq!(b.result(), Some(Ok(4)));
    assert!(b.next_call().is_none());
}

#[test]
fn a_modulus_is_no_component_if_empty_or_padded() {
    let e: &[u8] = &[3];
    let empty: &[u8] = &[];
    let padded: &[u8] = &[0, 5];
    for n in [empty, padded] {
        let components = PublicKeyComponents { n, e };
        let b = components.build_rsa();
        assert_eq!(b.result(), Some(Err(Unspecified)));
        assert!(b.next_call().is_none());
    }
}

#[test]
fn an_exponent_is_no_component_if_empty_or_padded() {
    let n: &[u8] = &[0xc1];
    let empty: &[u8] = &[];
    let padded: &[u8] = &[0, 3];
    for e in [empty, padded] {
        let components = PublicKeyComponents { n, e };
        let mut b = components.build_rsa();
        assert_eq!(build_step(&mut b, Reply::Pointer(9)), [Object::Bignum(9)]);
        assert_eq!(b.result(), Some(Err(Unspecified)));
    }
}

#[test]
fn a_failed_building_releases_everything() {
    let components = PublicKeyComponents { n: vec![0xc1], e: vec![3] };
    let good = [
        Reply::Pointer(1),
        Reply::Pointer(2),
        Reply::Pointer(3),
        Reply::Status(1),
        Reply::Pointer(4),
        Reply::Status(1),
    ];
    let bad = [
        (Reply::Pointer(0), vec![]),
        (Reply::Pointer(0), vec![Object::Bignum(1)]),
        (Reply::Pointer(0), vec![Object::Bignum(2), Object::Bignum(1)]),
        (Reply::Status(0), vec![Object::Rsa(3), Object::Bignum(2), Object::Bignum(1)]),
        (Reply::Pointer(0), vec![Object::Rsa(3)]),
        (Reply::Status(0), vec![Object::Pkey(4), Object::Rsa(3)]),
    ];
    for (i, (reply, released)) in bad.into_iter().enumerate() {
        let mut b = components.build_rsa();
        for reply in &good[..i] {
            build_step(&mut b, *reply);
        }
        assert_eq!(build_step(&mut b, reply), released);
        assert_eq!(b.stage(), BuildStage::Failed);
        assert_eq!(b.result(), Some(Err(Unspecified)));
    }
}

#[test]
fn components_hold_bytes() {
    let slice: &[u8] = &[1, 2];
    assert_eq!(slice.as_bytes(), [1, 2]);
    assert_eq!(vec![3u8].as_bytes(), [3]);
    assert_eq!([4u8, 5].as_bytes(), [4, 5]);
    assert_eq!(vec![6u8].into_boxed_slice().as_bytes(), [6]);
    let components = PublicKeyComponents { n: slice, e: slice };
    let copy = components;
    assert_eq!(copy.n, components.n);
    let owned = PublicKeyComponents { n: vec![1u8], e: vec![2u8] };
    assert_eq!(owned.clone().e, owned.e);
}

#[test]
fn a_signature_is_verified_under_the_built_key() {
    let params = RsaParameters {
        digest: DigestAlgorithm::Sha384,
        signature_padding: RsaPadding::Pkcs1Pss,
        min_bits: 2048,
        max_bits: 8192,
    };
    assert_eq!(params.bit_size_range(), (2048, 8192));
    let components = PublicKeyComponents { n: vec![0xc1], e: vec![3] };
    for (valid, expected) in [(true, Ok(())), (false, Err(Unspecified))] {
        let mut v = components.verify(&params, b"message", b"signature");
        for reply in [
            Reply::Pointer(1),
            Reply::Pointer(2),
            Reply::Pointer(3),
            Reply::Status(1),
            Reply::Pointer(4),
            Reply::Status(1),
        ] {
            assert!(verification_step(&mut v, reply).is_empty());
            assert_eq!(v.result(), None);
        }
        match v.next_call() {
            Some(Call::VerifySignature {
                digest,
                padding,
                pkey,
                message,
                signature,
                min_bits,
                max_bits,
            }) => {
                assert_eq!(digest, params.digest_algorithm());
                assert_eq!(padding, params.padding());
                assert_eq!(pkey, 4);
                assert_eq!(message, b"message");
                assert_eq!(signature, b"signature");
                assert_eq!((min_bits, max_bits), (2048, 8192));
            }
            other => panic!("{other:?}"),
        }
        assert_eq!(verification_step(&mut v, Reply::Outcome(valid)), [Object::Pkey(4)]);
        assert_eq!(v.result(), Some(expected));
        assert!(v.next_call().is_none());
    }
}

#[test]
fn no_signature_is_valid_under_no_key() {
    let params = RsaParameters {
        digest: DigestAlgorithm::Sha256,
        signature_padding: RsaPadding::Pkcs1,
        min_bits: 1024,
        max_bits: 8192,
    };
    let components = PublicKeyComponents { n: vec![], e: vec![3] };
    let v = components.verify(&params, b"", b"");
    assert_eq!(v.result(), Some(Err(Unspecified)));
    assert!(v.next_call().is_none());
    let components = PublicKeyComponents { n: vec![0xc1], e: vec![3] };
    let mut v = components.verify(&params, b"", b"");
    verification_step(&mut v, Reply::Pointer(1));
    assert_eq!(verification_step(&mut v, Reply::Pointer(0)), [Object::Bignum(1)]);
    assert_eq!(v.result(), Some(Err(Unspecified)));
}

#[test]
fn a_message_is_signed() {
    let pair = pair();
    let mut s = pair.sign(&PKCS1, b"message", 256);
    assert!(matches!(
        s.next_call(),
        Some(Call::DigestSignInit { digest: DigestAlgorithm::Sha512, pkey: 7 })
    ));
    assert!(signing_step(&mut s, Reply::SignInit { status: 1, pctx: 0 }).is_empty());
    assert!(matches!(s.next_call(), Some(Call::SignatureLength)));
    assert!(s.is_consistent(&Reply::Length(Some(256))));
    assert!(!s.is_consistent(&Reply::Length(Some(257))));
    assert!(signing_step(&mut s, Reply::Length(Some(256))).is_empty());
    match s.next_call() {
        Some(Call::ComputeSignature { message, signature_len }) => {
            assert_eq!(message, b"message");
            assert_eq!(signature_len, 256);
        }
        other => panic!("{other:?}"),
    }
    assert!(s.is_consistent(&Reply::Length(Some(256))));
    assert!(!s.is_consistent(&Reply::Length(Some(255))));
    assert_eq!(s.result(), None);
    assert_eq!(signing_step(&mut s, Reply::Length(Some(256))), [Object::DigestContext]);
    assert_eq!(s.result(), Some(Ok(())));
    assert!(s.next_call().is_none());
}

#[test]
fn pss_padding_is_chosen_before_the_signature() {
    let pair = pair();
    let mut s = pair.sign(&PSS, b"message", 256);
    assert!(signing_step(&mut s, Reply::SignInit { status: 1, pctx: 5 }).is_empty());
    assert!(matches!(s.next_call(), Some(Call::ConfigurePss { pctx: 5 })));
    assert!(signing_step(&mut s, Reply::Outcome(true)).is_empty());
    assert!(matches!(s.next_call(), Some(Call::SignatureLength)));
    let mut s = pair.sign(&PSS, b"message", 256);
    let released = signing_step(&mut s, Reply::SignInit { status: 1, pctx: 0 });
    assert_eq!(released, [Object::DigestContext]);
    assert_eq!(s.result(), Some(Err(Unspecified)));
}

#[test]
fn failed_signing_releases_the_context() {
    let pair = pair();
    let good = [
        Reply::SignInit { status: 1, pctx: 5 },
        Reply::Outcome(true),
        Reply::Length(Some(256)),
        Reply::Length(Some(256)),
    ];
    let bad = [
        Reply::SignInit { status: 0, pctx: 5 },
        Reply::Outcome(false),
        Reply::Length(None),
        Reply::Length(None),
    ];
    for (i, reply) in bad.into_iter().enumerate() {
        let mut s = pair.sign(&PSS, b"message", 256);
        for reply in &good[..i] {
            assert!(signing_step(&mut s, *reply).is_empty());
        }
        assert_eq!(signing_step(&mut s, reply), [Object::DigestContext]);
        assert_eq!(s.result(), Some(Err(Unspecified)));
    }
}

#[test]
fn replies_belong_to_calls() {
    assert!(is_answer(&Call::RsaNew, &Reply::Pointer(0)));
    assert!(!is_answer(&Call::RsaNew, &Reply::Status(1)));
    assert!(is_answer(&Call::PkeyAssignRsa { pkey: 1, rsa: 2 }, &Reply::Status(1)));
    assert!(!is_answer(&Call::ConfigurePss { pctx: 1 }, &Reply::Status(1)));
    assert!(is_answer(&Call::SignatureLength, &Reply::Length(None)));
    assert!(!is_answer(&Call::SignatureLength, &Reply::SignInit { status: 1, pctx: 1 }));
}

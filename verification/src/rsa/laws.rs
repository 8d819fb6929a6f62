//! What holds of RSA keys and of the calls that are made for them, told from outside: which call
//! follows which reply, and what each call is handed.

use vstd::prelude::*;

use crate::rsa::calls;
use crate::rsa::calls::{CallText, DigestAlgorithm, Object, Reply, RsaPadding};
use crate::rsa::components;
use crate::rsa::components::{BuildStage, RsaParameters};
use crate::rsa::error;
use crate::rsa::error::Unspecified;
use crate::rsa::generation;
use crate::rsa::generation::GenerationStage;
use crate::rsa::key_pair::KeyPair;
use crate::rsa::pkey::EvpPkey;
use crate::rsa::public_key;
use crate::rsa::public_key::PublicKey;
use crate::rsa::signing;
use crate::rsa::signing::{RsaSignatureEncoding, SigningStage};
use crate::rsa::size::KeySize;

verus! {

// ---------------------------------------------------------------------------
// Generating a key
// ---------------------------------------------------------------------------

/// Outside FIPS mode a key of the size asked for is generated in the RSA object that was made
/// first, with the number made from 65537, which is released right after; and the `EVP_PKEY` that
/// was made then takes that RSA object over.
pub proof fn a_key_is_generated_as_asked(bits: i32, rsa: usize, e: usize, pkey: usize)
    requires
        rsa != 0,
        e != 0,
        pkey != 0,
    ensures
        ({
            let s0 = generation::generation_start(bits, false);
            let (s1, r1) = s0.answer(Reply::Pointer(rsa));
            let (s2, r2) = s1.answer(Reply::Pointer(e));
            let (s3, r3) = s2.answer(Reply::Status(1));
            let (s4, r4) = s3.answer(Reply::Pointer(pkey));
            let (s5, r5) = s4.answer(Reply::Status(1));
            &&& s0.next_call() == Some(CallText::RsaNew)
            &&& s1.next_call() == Some(CallText::BignumFromU64(65537))
            &&& s2.next_call() == Some(CallText::RsaGenerateKeyEx { rsa, bits, e })
            &&& s3.next_call() == Some(CallText::PkeyNew)
            &&& s4.next_call() == Some(CallText::PkeyAssignRsa { pkey, rsa })
            &&& s5.next_call() is None
            &&& s5.stage == GenerationStage::Generated { pkey }
            &&& r1 =~= Seq::<Object>::empty()
            &&& r2 =~= Seq::<Object>::empty()
            &&& r3 =~= seq![Object::Bignum(e)]
            &&& r4 =~= Seq::<Object>::empty()
            &&& r5 =~= Seq::<Object>::empty()
        }),
{
}

/// In FIPS mode a key of the size asked for is generated in the RSA object that was made first,
/// without a public exponent of the caller's.
pub proof fn a_fips_key_is_generated_as_asked(bits: i32, rsa: usize, pkey: usize)
    requires
        rsa != 0,
        pkey != 0,
    ensures
        ({
            let s0 = generation::generation_start(bits, true);
            let (s1, r1) = s0.answer(Reply::Pointer(rsa));
            let (s2, r2) = s1.answer(Reply::Status(1));
            let (s3, r3) = s2.answer(Reply::Pointer(pkey));
            let (s4, r4) = s3.answer(Reply::Status(1));
            &&& s0.next_call() == Some(CallText::RsaNew)
            &&& s1.next_call() == Some(CallText::RsaGenerateKeyFips { rsa, bits })
            &&& s2.next_call() == Some(CallText::PkeyNew)
            &&& s3.next_call() == Some(CallText::PkeyAssignRsa { pkey, rsa })
            &&& s4.next_call() is None
            &&& s4.stage == GenerationStage::Generated { pkey }
            &&& r1 =~= Seq::<Object>::empty()
            &&& r2 =~= Seq::<Object>::empty()
            &&& r3 =~= Seq::<Object>::empty()
            &&& r4 =~= Seq::<Object>::empty()
        }),
{
}

/// A generation is over.
pub open spec fn generation_failed(generation: generation::GenerationView) -> bool {
    generation.stage is Failed && generation.next_call() is None
}

/// A generation ends with the first call that fails, and then releases what it has, the youngest
/// object first.
pub proof fn a_failed_generation_releases_what_it_has(
    bits: i32,
    rsa: usize,
    e: usize,
    pkey: usize,
    status: i32,
)
    requires
        rsa != 0,
        e != 0,
        pkey != 0,
        status != 1,
    ensures
        ({
            let s0 = generation::generation_start(bits, false);
            let s1 = s0.answer(Reply::Pointer(rsa)).0;
            let s2 = s1.answer(Reply::Pointer(e)).0;
            let s3 = s2.answer(Reply::Status(1)).0;
            let s4 = s3.answer(Reply::Pointer(pkey)).0;
            &&& generation_failed(s0.answer(Reply::Pointer(0)).0)
            &&& s0.answer(Reply::Pointer(0)).1 =~= Seq::<Object>::empty()
            &&& generation_failed(s1.answer(Reply::Pointer(0)).0)
            &&& s1.answer(Reply::Pointer(0)).1 =~= seq![Object::Rsa(rsa)]
            &&& generation_failed(s2.answer(Reply::Status(status)).0)
            &&& s2.answer(Reply::Status(status)).1 =~= seq![Object::Bignum(e), Object::Rsa(rsa)]
            &&& generation_failed(s3.answer(Reply::Pointer(0)).0)
            &&& s3.answer(Reply::Pointer(0)).1 =~= seq![Object::Rsa(rsa)]
            &&& generation_failed(s4.answer(Reply::Status(status)).0)
            &&& s4.answer(Reply::Status(status)).1 =~= seq![Object::Pkey(pkey), Object::Rsa(rsa)]
        }),
        ({
            let s0 = generation::generation_start(bits, true);
            let s1 = s0.answer(Reply::Pointer(rsa)).0;
            let s2 = s1.answer(Reply::Status(1)).0;
            let s3 = s2.answer(Reply::Pointer(pkey)).0;
            &&& generation_failed(s0.answer(Reply::Pointer(0)).0)
            &&& s0.answer(Reply::Pointer(0)).1 =~= Seq::<Object>::empty()
            &&& generation_failed(s1.answer(Reply::Status(status)).0)
            &&& s1.answer(Reply::Status(status)).1 =~= seq![Object::Rsa(rsa)]
            &&& generation_failed(s2.answer(Reply::Pointer(0)).0)
            &&& s2.answer(Reply::Pointer(0)).1 =~= seq![Object::Rsa(rsa)]
            &&& generation_failed(s3.answer(Reply::Status(status)).0)
            &&& s3.answer(Reply::Status(status)).1 =~= seq![Object::Pkey(pkey), Object::Rsa(rsa)]
        }),
{
}

/// Whatever the calls of a generation reply, a call that generates a key asks for the size that
/// the generation was started with, in the RSA object that the first call has made; the one with a
/// public exponent is made outside FIPS mode alone, with the number that the second call has made,
/// and the other in FIPS mode alone. A number is made only from 65537.
pub proof fn a_generation_asks_for_its_size(bits: i32, fips: bool, replies: Seq<Reply>)
    requires
        generation::plausible(generation::generation_start(bits, fips), replies),
    ensures
        match generation::after_replies(
            generation::generation_start(bits, fips),
            replies,
        ).next_call() {
            Some(CallText::RsaGenerateKeyEx { rsa, bits: asked, e }) => asked == bits && !fips
                && replies == seq![Reply::Pointer(rsa), Reply::Pointer(e)],
            Some(CallText::RsaGenerateKeyFips { rsa, bits: asked }) => asked == bits && fips
                && replies == seq![Reply::Pointer(rsa)],
            Some(CallText::BignumFromU64(value)) => value == 65537 && !fips && replies.len() == 1,
            Some(CallText::RsaNew) => replies.len() == 0,
            Some(CallText::PkeyAssignRsa { pkey, rsa }) => replies.len() > 1 && replies[0]
                == Reply::Pointer(rsa) && replies.last() == Reply::Pointer(pkey),
            Some(CallText::PkeyNew) | None => true,
            Some(_) => false,
        },
{
    generation_history(bits, fips, replies);
}

/// The stage of a generation tells the replies that it has had.
proof fn generation_history(bits: i32, fips: bool, replies: Seq<Reply>)
    requires
        generation::plausible(generation::generation_start(bits, fips), replies),
    ensures
        ({
            let end = generation::after_replies(generation::generation_start(bits, fips), replies);
            &&& end.bits == bits
            &&& end.fips == fips
            &&& match end.stage {
                GenerationStage::NewRsa => replies =~= Seq::<Reply>::empty(),
                GenerationStage::NewExponent { rsa } => !fips && replies =~= seq![
                    Reply::Pointer(rsa),
                ],
                GenerationStage::Generate { rsa, e } => !fips && replies =~= seq![
                    Reply::Pointer(rsa),
                    Reply::Pointer(e),
                ],
                GenerationStage::GenerateFips { rsa } => fips && replies =~= seq![
                    Reply::Pointer(rsa),
                ],
                GenerationStage::NewPkey { rsa } => replies.len() > 1 && replies[0]
                    == Reply::Pointer(rsa),
                GenerationStage::AssignRsa { rsa, pkey } => replies.len() > 1 && replies[0]
                    == Reply::Pointer(rsa) && replies.last() == Reply::Pointer(pkey),
                _ => true,
            }
        }),
    decreases replies.len(),
{
    if replies.len() > 0 {
        let fewer = replies.drop_last();
        generation_history(bits, fips, fewer);
        assert(replies =~= fewer.push(replies.last()));
    }
}

/// The sizes of keys are what their names say, and their names are all the sizes there are.
pub proof fn sizes_are_what_their_names_say(size: KeySize)
    ensures
        size.bit_count() == 2048 <==> size == KeySize::Rsa2048,
        size.bit_count() == 3072 <==> size == KeySize::Rsa3072,
        size.bit_count() == 4096 <==> size == KeySize::Rsa4096,
        size.bit_count() == 8192 <==> size == KeySize::Rsa8192,
        size.bit_count() % 1024 == 0,
        2048 <= size.bit_count() <= 8192,
{
}

// ---------------------------------------------------------------------------
// Building a key and verifying under it
// ---------------------------------------------------------------------------

/// A key is built from its components in order: the number of the modulus, that of the exponent,
/// an RSA object that takes both over, each in its place, and an `EVP_PKEY` that takes that over.
/// Nothing is released on the way.
pub proof fn a_key_is_built_from_its_components(
    n: Seq<u8>,
    e: Seq<u8>,
    n_addr: usize,
    e_addr: usize,
    rsa: usize,
    pkey: usize,
)
    requires
        n.len() > 0,
        n[0] != 0,
        e.len() > 0,
        e[0] != 0,
        n_addr != 0,
        e_addr != 0,
        rsa != 0,
        pkey != 0,
    ensures
        ({
            let s0 = components::build_start(n, e);
            let (s1, r1) = s0.answer(Reply::Pointer(n_addr));
            let (s2, r2) = s1.answer(Reply::Pointer(e_addr));
            let (s3, r3) = s2.answer(Reply::Pointer(rsa));
            let (s4, r4) = s3.answer(Reply::Status(1));
            let (s5, r5) = s4.answer(Reply::Pointer(pkey));
            let (s6, r6) = s5.answer(Reply::Status(1));
            &&& s0.next_call() == Some(CallText::BignumFromBytes(n))
            &&& s1.next_call() == Some(CallText::BignumFromBytes(e))
            &&& s2.next_call() == Some(CallText::RsaNew)
            &&& s3.next_call() == Some(CallText::RsaSet0Key { rsa, n: n_addr, e: e_addr })
            &&& s4.next_call() == Some(CallText::PkeyNew)
            &&& s5.next_call() == Some(CallText::PkeyAssignRsa { pkey, rsa })
            &&& s6.next_call() is None
            &&& s5.result() is None
            &&& s6.result() == Some(Ok::<usize, Unspecified>(pkey))
            &&& r1 =~= Seq::<Object>::empty()
            &&& r2 =~= Seq::<Object>::empty()
            &&& r3 =~= Seq::<Object>::empty()
            &&& r4 =~= Seq::<Object>::empty()
            &&& r5 =~= Seq::<Object>::empty()
            &&& r6 =~= Seq::<Object>::empty()
        }),
{
}

/// The building of a key has failed, and is over.
pub open spec fn build_failed(build: components::BuildView) -> bool {
    &&& build.next_call() is None
    &&& build.result() == Some(Err::<usize, Unspecified>(Unspecified))
}

/// Bytes that are empty or begin with a zero are no component. A modulus of that kind is refused
/// before any call, an exponent when the number of the modulus has been made, which is released.
pub proof fn improper_components_are_refused(n: Seq<u8>, e: Seq<u8>, n_addr: usize)
    requires
        n_addr != 0,
    ensures
        n.len() == 0 || n[0] == 0 <==> build_failed(components::build_start(n, e)),
        n.len() > 0 && n[0] != 0 && (e.len() == 0 || e[0] == 0) ==> {
            let (next, released) = components::build_start(n, e).answer(Reply::Pointer(n_addr));
            build_failed(next) && released =~= seq![Object::Bignum(n_addr)]
        },
{
}

/// The building of a key ends with the first call that fails, and then releases what it has, the
/// youngest object first.
pub proof fn a_failed_building_releases_what_it_has(
    n: Seq<u8>,
    e: Seq<u8>,
    n_addr: usize,
    e_addr: usize,
    rsa: usize,
    pkey: usize,
    status: i32,
)
    requires
        n.len() > 0,
        n[0] != 0,
        e.len() > 0,
        e[0] != 0,
        n_addr != 0,
        e_addr != 0,
        rsa != 0,
        pkey != 0,
        status != 1,
    ensures
        ({
            let s0 = components::build_start(n, e);
            let s1 = s0.answer(Reply::Pointer(n_addr)).0;
            let s2 = s1.answer(Reply::Pointer(e_addr)).0;
            let s3 = s2.answer(Reply::Pointer(rsa)).0;
            let s4 = s3.answer(Reply::Status(1)).0;
            let s5 = s4.answer(Reply::Pointer(pkey)).0;
            &&& build_failed(s0.answer(Reply::Pointer(0)).0)
            &&& s0.answer(Reply::Pointer(0)).1 =~= Seq::<Object>::empty()
            &&& build_failed(s1.answer(Reply::Pointer(0)).0)
            &&& s1.answer(Reply::Pointer(0)).1 =~= seq![Object::Bignum(n_addr)]
            &&& build_failed(s2.answer(Reply::Pointer(0)).0)
            &&& s2.answer(Reply::Pointer(0)).1 =~= seq![
                Object::Bignum(e_addr),
                Object::Bignum(n_addr),
            ]
            &&& build_failed(s3.answer(Reply::Status(status)).0)
            &&& s3.answer(Reply::Status(status)).1 =~= seq![
                Object::Rsa(rsa),
                Object::Bignum(e_addr),
                Object::Bignum(n_addr),
            ]
            &&& build_failed(s4.answer(Reply::Pointer(0)).0)
            &&& s4.answer(Reply::Pointer(0)).1 =~= seq![Object::Rsa(rsa)]
            &&& build_failed(s5.answer(Reply::Status(status)).0)
            &&& s5.answer(Reply::Status(status)).1 =~= seq![Object::Pkey(pkey), Object::Rsa(rsa)]
        }),
{
}

/// A verification builds the key that its components give, call for call, and then looks at the
/// signature under that key with the parameters, the message and the signature that it was given.
/// The verdict is the result, and the key is released with it.
pub proof fn a_verification_looks_under_the_built_key(
    n: Seq<u8>,
    e: Seq<u8>,
    params: RsaParameters,
    message: Seq<u8>,
    signature: Seq<u8>,
    n_addr: usize,
    e_addr: usize,
    rsa: usize,
    pkey: usize,
    valid: bool,
)
    requires
        n.len() > 0,
        n[0] != 0,
        e.len() > 0,
        e[0] != 0,
        n_addr != 0,
        e_addr != 0,
        rsa != 0,
        pkey != 0,
    ensures
        ({
            let s0 = components::verification_start(n, e, params, message, signature);
            let s1 = s0.answer(Reply::Pointer(n_addr)).0;
            let s2 = s1.answer(Reply::Pointer(e_addr)).0;
            let s3 = s2.answer(Reply::Pointer(rsa)).0;
            let s4 = s3.answer(Reply::Status(1)).0;
            let s5 = s4.answer(Reply::Pointer(pkey)).0;
            let s6 = s5.answer(Reply::Status(1)).0;
            let (s7, r7) = s6.answer(Reply::Outcome(valid));
            &&& s0.next_call() == Some(CallText::BignumFromBytes(n))
            &&& s1.next_call() == Some(CallText::BignumFromBytes(e))
            &&& s2.next_call() == Some(CallText::RsaNew)
            &&& s3.next_call() == Some(CallText::RsaSet0Key { rsa, n: n_addr, e: e_addr })
            &&& s4.next_call() == Some(CallText::PkeyNew)
            &&& s5.next_call() == Some(CallText::PkeyAssignRsa { pkey, rsa })
            &&& s6.next_call() == Some(
                CallText::VerifySignature {
                    digest: params.digest,
                    padding: params.signature_padding,
                    pkey,
                    message,
                    signature,
                    min_bits: params.min_bits,
                    max_bits: params.max_bits,
                },
            )
            &&& s6.result() is None
            &&& s7.next_call() is None
            &&& s7.result() == Some(
                if valid {
                    Ok::<(), Unspecified>(())
                } else {
                    Err(Unspecified)
                },
            )
            &&& r7 =~= seq![Object::Pkey(pkey)]
        }),
{
}

/// As long as the key is being built, a verification does what the building does: a failure of the
/// one is the failure of the other, and releases the same.
pub proof fn a_verification_fails_with_the_building(
    n: Seq<u8>,
    e: Seq<u8>,
    params: RsaParameters,
    message: Seq<u8>,
    signature: Seq<u8>,
    replies: Seq<Reply>,
    reply: Reply,
)
    requires
        components::plausible(components::build_start(n, e), replies),
        components::after_replies(components::build_start(n, e), replies).expects(reply),
    ensures
        ({
            let build = components::after_replies(components::build_start(n, e), replies);
            let verification = components::verification_after(
                components::verification_start(n, e, params, message, signature),
                replies,
            );
            &&& verification.next_call() == build.next_call()
            &&& verification.answer(reply).1 == build.answer(reply).1
            &&& build.answer(reply).0.result() == Some(Err::<usize, Unspecified>(Unspecified))
                <==> verification.answer(reply).0.result() == Some(
                Err::<(), Unspecified>(Unspecified),
            )
        }),
{
    verification_follows_building(n, e, params, message, signature, replies);
}

proof fn verification_follows_building(
    n: Seq<u8>,
    e: Seq<u8>,
    params: RsaParameters,
    message: Seq<u8>,
    signature: Seq<u8>,
    replies: Seq<Reply>,
)
    requires
        components::plausible(components::build_start(n, e), replies),
    ensures
        ({
            let verification = components::verification_after(
                components::verification_start(n, e, params, message, signature),
                replies,
            );
            &&& verification.build == components::after_replies(
                components::build_start(n, e),
                replies,
            )
            &&& verification.outcome is None
        }),
    decreases replies.len(),
{
    if replies.len() > 0 {
        verification_follows_building(n, e, params, message, signature, replies.drop_last());
    }
}

/// Whatever the calls of a verification reply, a call that looks at a signature has the digest,
/// the padding, the range of sizes, the message and the signature that the verification was started
/// with, and the key that the fifth call has made and the sixth has filled. A number is made from
/// the bytes of the modulus first and from those of the exponent then.
pub proof fn a_verification_looks_at_what_it_was_given(
    n: Seq<u8>,
    e: Seq<u8>,
    params: RsaParameters,
    message: Seq<u8>,
    signature: Seq<u8>,
    replies: Seq<Reply>,
)
    requires
        components::verification_plausible(
            components::verification_start(n, e, params, message, signature),
            replies,
        ),
    ensures
        match components::verification_after(
            components::verification_start(n, e, params, message, signature),
            replies,
        ).next_call() {
            Some(
                CallText::VerifySignature {
                    digest,
                    padding,
                    pkey,
                    message: looked_at,
                    signature: under,
                    min_bits,
                    max_bits,
                },
            ) => {
                &&& digest == params.digest
                &&& padding == params.signature_padding
                &&& min_bits == params.min_bits
                &&& max_bits == params.max_bits
                &&& looked_at == message
                &&& under == signature
                &&& replies.len() == 6
                &&& replies[4] == Reply::Pointer(pkey)
            },
            Some(CallText::BignumFromBytes(bytes)) => (replies.len() == 0 && bytes == n) || (
            replies.len() == 1 && bytes == e),
            Some(CallText::RsaNew) => replies.len() == 2,
            Some(CallText::RsaSet0Key { rsa, n: n_addr, e: e_addr }) => replies == seq![
                Reply::Pointer(n_addr),
                Reply::Pointer(e_addr),
                Reply::Pointer(rsa),
            ],
            Some(CallText::PkeyNew) => replies.len() == 4,
            Some(CallText::PkeyAssignRsa { pkey, rsa }) => replies.len() == 5 && replies[2]
                == Reply::Pointer(rsa) && replies[4] == Reply::Pointer(pkey),
            None => true,
            Some(_) => false,
        },
{
    verification_history(n, e, params, message, signature, replies);
}

/// The stage of a verification tells the replies that it has had.
proof fn verification_history(
    n: Seq<u8>,
    e: Seq<u8>,
    params: RsaParameters,
    message: Seq<u8>,
    signature: Seq<u8>,
    replies: Seq<Reply>,
)
    requires
        components::verification_plausible(
            components::verification_start(n, e, params, message, signature),
            replies,
        ),
    ensures
        ({
            let end = components::verification_after(
                components::verification_start(n, e, params, message, signature),
                replies,
            );
            &&& end.build.n == n
            &&& end.build.e == e
            &&& end.params == params
            &&& end.message == message
            &&& end.signature == signature
            &&& end.outcome is Some ==> end.build.stage is Built
            &&& end.outcome is None ==> match end.build.stage {
                BuildStage::NewModulus => replies.len() == 0,
                BuildStage::NewExponent { n: n_addr } => replies =~= seq![Reply::Pointer(n_addr)],
                BuildStage::NewRsa { n: n_addr, e: e_addr } => replies =~= seq![
                    Reply::Pointer(n_addr),
                    Reply::Pointer(e_addr),
                ],
                BuildStage::SetKey { n: n_addr, e: e_addr, rsa } => replies =~= seq![
                    Reply::Pointer(n_addr),
                    Reply::Pointer(e_addr),
                    Reply::Pointer(rsa),
                ],
                BuildStage::NewPkey { rsa } => replies.len() == 4 && replies[2] == Reply::Pointer(
                    rsa,
                ),
                BuildStage::AssignRsa { rsa, pkey } => replies.len() == 5 && replies[2]
                    == Reply::Pointer(rsa) && replies[4] == Reply::Pointer(pkey),
                BuildStage::Built { pkey } => replies.len() == 6 && replies[4] == Reply::Pointer(
                    pkey,
                ),
                BuildStage::Failed => true,
            }
        }),
    decreases replies.len(),
{
    if replies.len() > 0 {
        let fewer = replies.drop_last();
        verification_history(n, e, params, message, signature, fewer);
        assert(replies =~= fewer.push(replies.last()));
    }
}

// ---------------------------------------------------------------------------
// Signing
// ---------------------------------------------------------------------------

/// A signature is made under the key that it was started with: the message is digested with the
/// algorithm of the encoding, PSS padding is chosen where the encoding has it and through the
/// context that came with the start, the length is asked for, and the signature of the message goes
/// into a buffer of the length that was given. The context is released at the end alone.
pub proof fn a_message_is_signed_as_encoded(
    pkey: usize,
    digest: DigestAlgorithm,
    message: Seq<u8>,
    signature_len: usize,
    pctx: usize,
    max_len: usize,
    len: usize,
)
    ensures
        pctx != 0 ==> {
            let encoding = RsaSignatureEncoding { digest, signature_padding: RsaPadding::Pkcs1Pss };
            let s0 = signing::signing_start(pkey, encoding, message, signature_len);
            let (s1, r1) = s0.answer(Reply::SignInit { status: 1, pctx });
            let (s2, r2) = s1.answer(Reply::Outcome(true));
            let (s3, r3) = s2.answer(Reply::Length(Some(max_len)));
            let (s4, r4) = s3.answer(Reply::Length(Some(len)));
            &&& s0.next_call() == Some(CallText::DigestSignInit { digest, pkey })
            &&& s1.next_call() == Some(CallText::ConfigurePss { pctx })
            &&& s2.next_call() == Some(CallText::SignatureLength)
            &&& s3.next_call() == Some(CallText::ComputeSignature { message, signature_len })
            &&& s4.next_call() is None
            &&& s3.result() is None
            &&& s4.result() == Some(Ok::<(), Unspecified>(()))
            &&& r1 =~= Seq::<Object>::empty()
            &&& r2 =~= Seq::<Object>::empty()
            &&& r3 =~= Seq::<Object>::empty()
            &&& r4 =~= seq![Object::DigestContext]
        },
        ({
            let encoding = RsaSignatureEncoding { digest, signature_padding: RsaPadding::Pkcs1 };
            let s0 = signing::signing_start(pkey, encoding, message, signature_len);
            let (s1, r1) = s0.answer(Reply::SignInit { status: 1, pctx });
            let (s2, r2) = s1.answer(Reply::Length(Some(max_len)));
            let (s3, r3) = s2.answer(Reply::Length(Some(len)));
            &&& s0.next_call() == Some(CallText::DigestSignInit { digest, pkey })
            &&& s1.next_call() == Some(CallText::SignatureLength)
            &&& s2.next_call() == Some(CallText::ComputeSignature { message, signature_len })
            &&& s3.next_call() is None
            &&& s2.result() is None
            &&& s3.result() == Some(Ok::<(), Unspecified>(()))
            &&& r1 =~= Seq::<Object>::empty()
            &&& r2 =~= Seq::<Object>::empty()
            &&& r3 =~= seq![Object::DigestContext]
        }),
{
}

/// The making of a signature has failed, and is over: the context is released.
pub open spec fn signing_failed(step: (signing::SigningView, Seq<Object>)) -> bool {
    &&& step.0.next_call() is None
    &&& step.0.result() == Some(Err::<(), Unspecified>(Unspecified))
    &&& step.1 =~= seq![Object::DigestContext]
}

/// The making of a signature ends with the first call that fails. PSS padding also fails where the
/// start came without a context to choose it through; the other padding does not ask for one.
pub proof fn failed_signing_releases_the_context(
    pkey: usize,
    encoding: RsaSignatureEncoding,
    message: Seq<u8>,
    signature_len: usize,
    pctx: usize,
    status: i32,
    max_len: usize,
)
    requires
        status != 1,
    ensures
        ({
            let s0 = signing::signing_start(pkey, encoding, message, signature_len);
            let s1 = s0.answer(Reply::SignInit { status: 1, pctx }).0;
            let length = if encoding.signature_padding == RsaPadding::Pkcs1Pss {
                s1.answer(Reply::Outcome(true)).0
            } else {
                s1
            };
            let compute = length.answer(Reply::Length(Some(max_len))).0;
            &&& signing_failed(s0.answer(Reply::SignInit { status, pctx }))
            &&& encoding.signature_padding == RsaPadding::Pkcs1Pss ==> signing_failed(
                s0.answer(Reply::SignInit { status: 1, pctx: 0 }),
            )
            &&& encoding.signature_padding == RsaPadding::Pkcs1Pss && pctx != 0 ==> signing_failed(
                s1.answer(Reply::Outcome(false)),
            )
            &&& encoding.signature_padding == RsaPadding::Pkcs1 || pctx != 0 ==> signing_failed(
                length.answer(Reply::Length(None)),
            ) && signing_failed(compute.answer(Reply::Length(None)))
        }),
{
}

/// Whatever the calls that make a signature reply, the first of them starts it with the digest of
/// the encoding under the key that was given, PSS padding is chosen only where the encoding has it,
/// and a call that computes a signature has the message and the length that were given.
pub proof fn a_signing_signs_what_it_was_given(
    pkey: usize,
    encoding: RsaSignatureEncoding,
    message: Seq<u8>,
    signature_len: usize,
    replies: Seq<Reply>,
)
    requires
        signing::plausible(
            signing::signing_start(pkey, encoding, message, signature_len),
            replies,
        ),
    ensures
        match signing::after_replies(
            signing::signing_start(pkey, encoding, message, signature_len),
            replies,
        ).next_call() {
            Some(CallText::DigestSignInit { digest, pkey: key }) => digest == encoding.digest && key
                == pkey && replies.len() == 0,
            Some(CallText::ConfigurePss { pctx }) => encoding.signature_padding
                == RsaPadding::Pkcs1Pss && replies == seq![Reply::SignInit { status: 1, pctx }]
                && pctx != 0,
            Some(CallText::SignatureLength) => if encoding.signature_padding
                == RsaPadding::Pkcs1Pss {
                replies.len() == 2 && replies[1] == Reply::Outcome(true)
            } else {
                replies.len() == 1
            },
            Some(CallText::ComputeSignature { message: signed, signature_len: into }) => signed
                == message && into == signature_len && replies.len() == (
            if encoding.signature_padding == RsaPadding::Pkcs1Pss {
                3int
            } else {
                2
            }),
            None => true,
            Some(_) => false,
        },
{
    signing_history(pkey, encoding, message, signature_len, replies);
}

/// The stage of the making of a signature tells the replies that it has had.
proof fn signing_history(
    pkey: usize,
    encoding: RsaSignatureEncoding,
    message: Seq<u8>,
    signature_len: usize,
    replies: Seq<Reply>,
)
    requires
        signing::plausible(
            signing::signing_start(pkey, encoding, message, signature_len),
            replies,
        ),
    ensures
        ({
            let end = signing::after_replies(
                signing::signing_start(pkey, encoding, message, signature_len),
                replies,
            );
            let pss = encoding.signature_padding == RsaPadding::Pkcs1Pss;
            &&& end.pkey == pkey
            &&& end.encoding == encoding
            &&& end.message == message
            &&& end.signature_len == signature_len
            &&& match end.stage {
                SigningStage::Init => replies.len() == 0,
                SigningStage::ConfigurePss { pctx } => pss && pctx != 0 && replies =~= seq![
                    Reply::SignInit { status: 1, pctx },
                ],
                SigningStage::Length => if pss {
                    replies.len() == 2 && replies[1] == Reply::Outcome(true)
                } else {
                    replies.len() == 1
                },
                SigningStage::Compute => replies.len() == (if pss {
                    3int
                } else {
                    2
                }),
                _ => true,
            }
        }),
    decreases replies.len(),
{
    if replies.len() > 0 {
        let fewer = replies.drop_last();
        signing_history(pkey, encoding, message, signature_len, fewer);
        assert(replies =~= fewer.push(replies.last()));
    }
}

/// A reply is consistent with a buffer where the signature fits and fills it: not longer than the
/// buffer when the length is asked for, and not shorter when it is computed.
pub proof fn consistent_replies_fit_the_buffer(
    signing: signing::SigningView,
    length: usize,
    reply: Reply,
)
    ensures
        signing.stage is Length ==> (signing.is_consistent(Reply::Length(Some(length))) <==> length
            <= signing.signature_len),
        signing.stage is Compute ==> (signing.is_consistent(Reply::Length(Some(length)))
            <==> signing.signature_len <= length),
        !(signing.stage is Length || signing.stage is Compute) ==> signing.is_consistent(reply),
        !(reply is Length) || reply == Reply::Length(None) ==> signing.is_consistent(reply),
{
}

// ---------------------------------------------------------------------------
// Calls and replies
// ---------------------------------------------------------------------------

/// A call that makes an object is answered with a pointer, one that fills an object or hands one
/// over with a status, and so on; no call has two kinds of replies.
pub proof fn calls_have_their_kind_of_reply(call: CallText, reply: Reply)
    ensures
        calls::answers(call, reply) ==> {
            &&& reply is Pointer <==> (call is BignumFromU64 || call is BignumFromBytes
                || call is RsaNew || call is PkeyNew)
            &&& reply is Status <==> (call is RsaGenerateKeyEx || call is RsaGenerateKeyFips
                || call is RsaSet0Key || call is PkeyAssignRsa)
            &&& reply is Outcome <==> (call is VerifySignature || call is ConfigurePss)
            &&& reply is SignInit <==> call is DigestSignInit
            &&& reply is Length <==> (call is SignatureLength || call is ComputeSignature)
        },
        reply is Pointer && (call is BignumFromU64 || call is BignumFromBytes || call is RsaNew
            || call is PkeyNew) ==> calls::answers(call, reply),
        reply is Status && (call is RsaGenerateKeyEx || call is RsaGenerateKeyFips
            || call is RsaSet0Key || call is PkeyAssignRsa) ==> calls::answers(call, reply),
        reply is Outcome && (call is VerifySignature || call is ConfigurePss) ==> calls::answers(
            call,
            reply,
        ),
        reply is SignInit && call is DigestSignInit ==> calls::answers(call, reply),
        reply is Length && (call is SignatureLength || call is ComputeSignature) ==> calls::answers(
            call,
            reply,
        ),
{
}

// ---------------------------------------------------------------------------
// Keys
// ---------------------------------------------------------------------------

/// The keys that are accepted are the RSA keys from the smallest to the largest size that can be
/// generated, both included, whatever else is said of them.
pub proof fn keys_are_accepted_by_their_size(key: EvpPkey)
    ensures
        key.is_acceptable() <==> key.rsa_size is Some && KeySize::Rsa2048.bit_count() <= key.bits
            <= KeySize::Rsa8192.bit_count(),
        key.public.is_complete() <==> key.public.der is Some && key.public.n is Some
            && key.public.e is Some,
{
}

/// The public half of a key holds what was given out of it, each part in its place.
pub proof fn a_public_half_holds_what_was_given_out(
    half: PublicKey,
    key: EvpPkey,
    der: Box<[u8]>,
    n: Box<[u8]>,
    e: Box<[u8]>,
)
    requires
        half.is_public_half_of(key),
        key.public.der == Some(der),
        key.public.n == Some(n),
        key.public.e == Some(e),
    ensures
        half.key_bytes() == der@,
        half.modulus_bytes() == n@,
        half.exponent_bytes() == e@,
{
}

/// A rejection without a reason says so.
pub proof fn a_rejection_without_reason_says_so()
    ensures
        error::unspecified_rejection().reason@ == "Unspecified"@,
{
}

/// The value of a hexadecimal digit in lower case.
pub open spec fn hex_value(c: char) -> Option<int> {
    if '0' <= c && c <= '9' {
        Some(c as int - '0' as int)
    } else if 'a' <= c && c <= 'f' {
        Some(c as int - 'a' as int + 10)
    } else {
        None
    }
}

/// In hexadecimal every byte has two digits in lower case, in the order of the bytes, and their
/// values give the byte back.
pub proof fn hexadecimal_digits_give_the_bytes_back(bytes: Seq<u8>, i: int)
    requires
        0 <= i < bytes.len(),
    ensures
        public_key::hex(bytes).len() == 2 * bytes.len(),
        hex_value(public_key::hex(bytes)[2 * i]) matches Some(high) && hex_value(
            public_key::hex(bytes)[2 * i + 1],
        ) matches Some(low) && bytes[i] == 16 * high + low,
    decreases bytes.len(),
{
    reveal_with_fuel(public_key::hex, 2);
    let before = bytes.drop_last();
    if before.len() > 0 {
        hexadecimal_digits_give_the_bytes_back(
            before,
            if i < before.len() {
                i
            } else {
                0
            },
        );
    }
}

/// Debugging output of a pair is that of its public half in braces, and that of a public half is
/// the hexadecimal text of its DER encoding in quotes: nothing else of a key is shown.
pub proof fn debugging_output_is_the_encoded_public_half(pair: KeyPair, half: PublicKey)
    ensures
        half.debug_view() == "RsaPublicKey(\""@ + public_key::hex(half.key_bytes()) + "\")"@,
        pair.debug_view() == "RsaKeyPair { public_key: "@ + ("RsaPublicKey(\""@ + public_key::hex(
            pair.public().key_bytes(),
        ) + "\")"@) + " }"@,
{
}

} // verus!

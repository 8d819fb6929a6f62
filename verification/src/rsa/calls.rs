//! The calls into AWS-LC that make and use RSA keys, and who owns the objects that they make.

use vstd::prelude::*;

verus! {

/// A digest algorithm.
#[derive(Clone, Copy, Debug, PartialEq, Eq, Structural)]
pub enum DigestAlgorithm {
    Sha1,
    Sha224,
    Sha256,
    Sha384,
    Sha512,
    Sha512_256,
    Sha3_256,
    Sha3_384,
    Sha3_512,
}

/// A padding of RSA signatures.
#[derive(Clone, Copy, Debug, PartialEq, Eq, Structural)]
pub enum RsaPadding {
    /// PKCS#1 v1.5 padding.
    Pkcs1,
    /// PKCS#1 PSS padding.
    Pkcs1Pss,
}

/// An object that AWS-LC has made and that somebody has to release.
#[derive(Clone, Copy, Debug, PartialEq, Eq, Structural)]
pub enum Object {
    /// A `BIGNUM` at an address.
    Bignum(usize),
    /// An `RSA` at an address.
    Rsa(usize),
    /// An `EVP_PKEY` at an address.
    Pkey(usize),
    /// The `EVP_MD_CTX` of a signature under way.
    DigestContext,
}

/// A call into AWS-LC. Objects are given by their addresses.
#[derive(Clone, Copy, Debug)]
pub enum Call<'a> {
    /// `BN_new` and `BN_set_u64`: a number.
    BignumFromU64(u64),
    /// `BN_bin2bn`: the number that big-endian bytes write.
    BignumFromBytes(&'a [u8]),
    /// `RSA_new`: an empty key.
    RsaNew,
    /// `RSA_generate_key_ex`: a new key of a size, with a public exponent.
    RsaGenerateKeyEx { rsa: usize, bits: i32, e: usize },
    /// `RSA_generate_key_fips`: a new key of a size, made as FIPS 186-4 wants it.
    RsaGenerateKeyFips { rsa: usize, bits: i32 },
    /// `RSA_set0_key`: a public key takes over its modulus and its exponent.
    RsaSet0Key { rsa: usize, n: usize, e: usize },
    /// `EVP_PKEY_new`: an empty key of any kind.
    PkeyNew,
    /// `EVP_PKEY_assign_RSA`: a key of any kind takes over an RSA key.
    PkeyAssignRsa { pkey: usize, rsa: usize },
    /// The verification of a signature under a key whose size lies in a range.
    VerifySignature {
        digest: DigestAlgorithm,
        padding: RsaPadding,
        pkey: usize,
        message: &'a [u8],
        signature: &'a [u8],
        min_bits: u32,
        max_bits: u32,
    },
    /// `EVP_DigestSignInit`: the start of a signature.
    DigestSignInit { digest: DigestAlgorithm, pkey: usize },
    /// The choice of PSS padding for a signature, through its `EVP_PKEY_CTX`.
    ConfigurePss { pctx: usize },
    /// The length that a signature can have at most.
    SignatureLength,
    /// `EVP_DigestSign`: the signature of a message, into a buffer of a length.
    ComputeSignature { message: &'a [u8], signature_len: usize },
}

/// The value of a call.
pub enum CallText {
    BignumFromU64(u64),
    BignumFromBytes(Seq<u8>),
    RsaNew,
    RsaGenerateKeyEx { rsa: usize, bits: i32, e: usize },
    RsaGenerateKeyFips { rsa: usize, bits: i32 },
    RsaSet0Key { rsa: usize, n: usize, e: usize },
    PkeyNew,
    PkeyAssignRsa { pkey: usize, rsa: usize },
    VerifySignature {
        digest: DigestAlgorithm,
        padding: RsaPadding,
        pkey: usize,
        message: Seq<u8>,
        signature: Seq<u8>,
        min_bits: u32,
        max_bits: u32,
    },
    DigestSignInit { digest: DigestAlgorithm, pkey: usize },
    ConfigurePss { pctx: usize },
    SignatureLength,
    ComputeSignature { message: Seq<u8>, signature_len: usize },
}

impl<'a> View for Call<'a> {
    type V = CallText;

    open spec fn view(&self) -> CallText {
        match *self {
            Call::BignumFromU64(value) => CallText::BignumFromU64(value),
            Call::BignumFromBytes(bytes) => CallText::BignumFromBytes(bytes@),
            Call::RsaNew => CallText::RsaNew,
            Call::RsaGenerateKeyEx { rsa, bits, e } => CallText::RsaGenerateKeyEx { rsa, bits, e },
            Call::RsaGenerateKeyFips { rsa, bits } => CallText::RsaGenerateKeyFips { rsa, bits },
            Call::RsaSet0Key { rsa, n, e } => CallText::RsaSet0Key { rsa, n, e },
            Call::PkeyNew => CallText::PkeyNew,
            Call::PkeyAssignRsa { pkey, rsa } => CallText::PkeyAssignRsa { pkey, rsa },
            Call::VerifySignature {
                digest,
                padding,
                pkey,
                message,
                signature,
                min_bits,
                max_bits,
            } => CallText::VerifySignature {
                digest,
                padding,
                pkey,
                message: message@,
                signature: signature@,
                min_bits,
                max_bits,
            },
            Call::DigestSignInit { digest, pkey } => CallText::DigestSignInit { digest, pkey },
            Call::ConfigurePss { pctx } => CallText::ConfigurePss { pctx },
            Call::SignatureLength => CallText::SignatureLength,
            Call::ComputeSignature { message, signature_len } => CallText::ComputeSignature {
                message: message@,
                signature_len,
            },
        }
    }
}

/// What a call replies.
#[derive(Clone, Copy, Debug, PartialEq, Eq, Structural)]
pub enum Reply {
    /// The address of a new object; zero where there is none.
    Pointer(usize),
    /// A status; one means success.
    Status(i32),
    /// Success or failure.
    Outcome(bool),
    /// The status of the start of a signature, and the address of its `EVP_PKEY_CTX`.
    SignInit { status: i32, pctx: usize },
    /// A length, if the call succeeded.
    Length(Option<usize>),
}

/// The kind of reply that a call has.
pub open spec fn answers(call: CallText, reply: Reply) -> bool {
    match call {
        CallText::BignumFromU64(_) | CallText::BignumFromBytes(_) | CallText::RsaNew
        | CallText::PkeyNew => reply is Pointer,
        CallText::RsaGenerateKeyEx { .. } | CallText::RsaGenerateKeyFips { .. }
        | CallText::RsaSet0Key { .. } | CallText::PkeyAssignRsa { .. } => reply is Status,
        CallText::VerifySignature { .. } | CallText::ConfigurePss { .. } => reply is Outcome,
        CallText::DigestSignInit { .. } => reply is SignInit,
        CallText::SignatureLength | CallText::ComputeSignature { .. } => reply is Length,
    }
}

/// Tells whether a reply says that the call succeeded.
pub open spec fn succeeded(reply: Reply) -> bool {
    match reply {
        Reply::Pointer(p) => p != 0,
        Reply::Status(status) => status == 1,
        Reply::Outcome(success) => success,
        Reply::SignInit { status, .. } => status == 1,
        Reply::Length(length) => length is Some,
    }
}

/// Tells whether a reply is of the kind that a call has.
pub fn is_answer(call: &Call<'_>, reply: &Reply) -> (r: bool)
    ensures
        r == answers(call@, *reply),
{
    match call {
        Call::BignumFromU64(_)
        | Call::BignumFromBytes(_)
        | Call::RsaNew
        | Call::PkeyNew => matches!(reply, Reply::Pointer(_)),
        Call::RsaGenerateKeyEx { .. }
        | Call::RsaGenerateKeyFips { .. }
        | Call::RsaSet0Key { .. }
        | Call::PkeyAssignRsa { .. } => matches!(reply, Reply::Status(_)),
        Call::VerifySignature { .. } | Call::ConfigurePss { .. } => matches!(
            reply,
            Reply::Outcome(_)
        ),
        Call::DigestSignInit { .. } => matches!(reply, Reply::SignInit { .. }),
        Call::SignatureLength | Call::ComputeSignature { .. } => matches!(reply, Reply::Length(_)),
    }
}

/// The object that a call has made, if it has made one.
pub open spec fn made(call: CallText, reply: Reply) -> Option<Object> {
    match (call, reply) {
        (_, Reply::Pointer(0)) => None,
        (CallText::BignumFromU64(_), Reply::Pointer(p)) => Some(Object::Bignum(p)),
        (CallText::BignumFromBytes(_), Reply::Pointer(p)) => Some(Object::Bignum(p)),
        (CallText::RsaNew, Reply::Pointer(p)) => Some(Object::Rsa(p)),
        (CallText::PkeyNew, Reply::Pointer(p)) => Some(Object::Pkey(p)),
        _ => None,
    }
}

/// The objects that a call has taken over from the caller: `RSA_set0_key` the numbers and
/// `EVP_PKEY_assign_RSA` the RSA key, if they succeed.
pub open spec fn taken(call: CallText, reply: Reply) -> Set<Object> {
    match (call, reply) {
        (CallText::RsaSet0Key { n, e, .. }, Reply::Status(1)) => set![
            Object::Bignum(n),
            Object::Bignum(e),
        ],
        (CallText::PkeyAssignRsa { rsa, .. }, Reply::Status(1)) => set![Object::Rsa(rsa)],
        _ => Set::empty(),
    }
}

/// The objects that the caller has to release after a call, if it had those in `owned` before:
/// one more where the call has made one, fewer where the call has taken some over.
pub open spec fn owned_after(owned: Set<Object>, call: CallText, reply: Reply) -> Set<Object> {
    match made(call, reply) {
        Some(object) => owned.insert(object),
        None => owned.difference(taken(call, reply)),
    }
}

/// An object that a call makes is a new one.
pub open spec fn makes_new(owned: Set<Object>, call: CallText, reply: Reply) -> bool {
    made(call, reply) matches Some(object) ==> !owned.contains(object)
}

/// The given objects are owned, and are released once each.
pub open spec fn releases_properly(owned: Set<Object>, released: Seq<Object>) -> bool {
    &&& released.no_duplicates()
    &&& forall|i: int| 0 <= i < released.len() ==> owned.contains(#[trigger] released[i])
}

} // verus!

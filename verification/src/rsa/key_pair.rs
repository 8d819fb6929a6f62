//! RSA key pairs.

use vstd::prelude::*;

use crate::rsa::error;
use crate::rsa::error::{KeyRejected, Unspecified};
use crate::rsa::generation;
use crate::rsa::generation::{generate_rsa_key, GenerationStage, KeyGeneration};
use crate::rsa::pkey;
use crate::rsa::pkey::{is_rsa_key, key_size_bits, EvpPkey};
use crate::rsa::public_key::PublicKey;
use crate::rsa::signing;
use crate::rsa::signing::{RsaSignatureEncoding, Signing};
use crate::rsa::size::KeySize;

verus! {

/// How a private key is encoded.
#[derive(Clone, Copy, Debug, PartialEq, Eq, Structural)]
pub enum PrivateKeyEncoding {
    /// Unencrypted PKCS#8 in DER.
    Pkcs8,
    /// An `RSAPrivateKey` structure (RFC 8017) in DER.
    Rfc8017,
}

/// A private key that is to be decoded.
#[derive(Clone, Copy, Debug)]
pub struct KeyDecoding<'a> {
    /// How the key is encoded.
    pub encoding: PrivateKeyEncoding,
    /// The encoded key.
    pub input: &'a [u8],
}

/// A private key in PKCS#8 v1, in DER.
#[derive(Debug)]
pub struct Pkcs8V1Der {
    bytes: Vec<u8>,
}

impl Pkcs8V1Der {
    /// The bytes.
    pub closed spec fn view(&self) -> Seq<u8> {
        self.bytes@
    }
}

impl AsRef<[u8]> for Pkcs8V1Der {
    fn as_ref(&self) -> (r: &[u8])
        ensures
            r@ == self@,
    {
        self.bytes.as_slice()
    }
}

/// An RSA key pair, used for signing.
pub struct KeyPair {
    evp_pkey: EvpPkey,
    serialized_public_key: PublicKey,
}

/// The functions that inspect a key say nothing that cannot be: the size of an RSA key is not
/// negative.
pub open spec fn is_inspected(key: EvpPkey) -> bool {
    key.is_rsa() ==> key.bits >= 0
}

impl KeyPair {
    /// What holds of every pair: its key is an RSA key of 2048 to 8192 bits, and its public half is
    /// that of its key.
    #[verifier::type_invariant]
    pub closed spec fn is_valid(self) -> bool {
        &&& self.evp_pkey.is_acceptable()
        &&& self.serialized_public_key.is_public_half_of(self.evp_pkey)
    }

    /// The key that AWS-LC holds.
    pub closed spec fn pkey(&self) -> EvpPkey {
        self.evp_pkey
    }

    /// The public half.
    pub closed spec fn public(&self) -> PublicKey {
        self.serialized_public_key
    }

    /// The pair of a private key.
    pub fn new(evp_pkey: EvpPkey) -> (r: Result<Self, KeyRejected>)
        requires
            is_inspected(evp_pkey),
        ensures
            r is Ok <==> evp_pkey.is_acceptable() && evp_pkey.public.is_complete(),
            r matches Ok(pair) ==> pair.is_valid() && pair.pkey() == evp_pkey
                && pair.public().is_public_half_of(evp_pkey),
            r matches Err(rejected) ==> rejected == error::unspecified_rejection(),
    {
        match KeyPair::validate_private_key(&evp_pkey) {
            Ok(()) => {},
            Err(rejected) => return Err(rejected),
        }
        match PublicKey::new(&evp_pkey) {
            Ok(serialized_public_key) => Ok(KeyPair { evp_pkey, serialized_public_key }),
            Err(unspecified) => Err(KeyRejected::from(unspecified)),
        }
    }

    /// Starts the generation of a RSA `KeyPair` of the specified key-strength.
    pub fn generate(size: KeySize) -> (r: KeyGeneration)
        ensures
            r@ == generation::generation_start(size.bit_count() as i32, false),
    {
        generate_rsa_key(size.bits(), false)
    }

    /// Starts the generation of a RSA `KeyPair` of the specified key-strength, as FIPS wants it.
    ///
    /// Supports the following key sizes:
    /// * `KeySize::Rsa2048`
    /// * `KeySize::Rsa3072`
    /// * `KeySize::Rsa4096`
    ///
    /// The generation function of AWS-LC refuses the other.
    pub fn generate_fips(size: KeySize) -> (r: KeyGeneration)
        ensures
            r@ == generation::generation_start(size.bit_count() as i32, true),
    {
        generate_rsa_key(size.bits(), true)
    }

    /// The pair of the key that a generation has come to, if it has come to one. `inspected` is
    /// what AWS-LC says of that key.
    ///
    /// # Errors
    /// * `Unspecified`: Any key generation failure.
    pub fn from_generated(
        generation: &KeyGeneration,
        inspected: Option<EvpPkey>,
    ) -> (r: Result<Self, Unspecified>)
        requires
            match generation@.stage {
                GenerationStage::Generated { pkey } => inspected matches Some(key) && key.addr
                    == pkey && is_inspected(key),
                GenerationStage::Failed => true,
                _ => false,
            },
        ensures
            r is Ok <==> generation@.stage is Generated && (inspected matches Some(key)
                && key.is_acceptable() && key.public.is_complete()),
            r matches Ok(pair) ==> inspected matches Some(key) && pair.is_valid() && pair.pkey()
                == key && pair.public().is_public_half_of(key),
    {
        match (generation.stage(), inspected) {
            (GenerationStage::Generated { .. }, Some(evp_pkey)) => match KeyPair::new(evp_pkey) {
                Ok(pair) => Ok(pair),
                Err(rejected) => Err(Unspecified::from(rejected)),
            },
            _ => Err(Unspecified),
        }
    }

    /// Starts to parse an unencrypted PKCS#8 DER encoded RSA private key.
    ///
    /// Keys can be generated using [`KeyPair::generate`].
    ///
    /// # *ring*-compatibility
    ///
    /// There are not the same limitations that *ring* has for
    /// RSA keys. Thus signatures may be generated by keys that are not accepted
    /// by *ring*. In particular:
    /// * RSA private keys ranging between 2048-bit keys and 8192-bit keys are supported.
    /// * The public exponent does not have a required minimum size.
    pub fn from_pkcs8<'a>(pkcs8: &'a [u8]) -> (r: KeyDecoding<'a>)
        ensures
            r.encoding == PrivateKeyEncoding::Pkcs8,
            r.input@ == pkcs8@,
    {
        KeyDecoding { encoding: PrivateKeyEncoding::Pkcs8, input: pkcs8 }
    }

    /// Starts to parse a DER-encoded `RSAPrivateKey` structure (RFC 8017).
    pub fn from_der<'a>(input: &'a [u8]) -> (r: KeyDecoding<'a>)
        ensures
            r.encoding == PrivateKeyEncoding::Rfc8017,
            r.input@ == input@,
    {
        KeyDecoding { encoding: PrivateKeyEncoding::Rfc8017, input }
    }

    /// The pair of a key that was decoded, if it was.
    ///
    /// # Errors
    /// `KeyRejected` if the bytes do not encode an RSA private key or if the key is otherwise
    /// not acceptable.
    pub fn from_decoded(decoded: Result<EvpPkey, KeyRejected>) -> (r: Result<Self, KeyRejected>)
        requires
            decoded matches Ok(key) ==> is_inspected(key),
        ensures
            r is Ok <==> (decoded matches Ok(key) && key.is_acceptable()
                && key.public.is_complete()),
            r matches Ok(pair) ==> decoded matches Ok(key) && pair.is_valid() && pair.pkey() == key
                && pair.public().is_public_half_of(key),
            r matches Err(rejected) ==> rejected == match decoded {
                Ok(_) => error::unspecified_rejection(),
                Err(reason) => reason,
            },
    {
        match decoded {
            Ok(evp_pkey) => KeyPair::new(evp_pkey),
            Err(rejected) => Err(rejected),
        }
    }

    /// Returns a boolean indicator if this RSA key is an approved FIPS 140-3 key. `check` is what
    /// `RSA_check_fips` says of it.
    #[must_use]
    pub fn is_valid_fips_key(&self, check: i32) -> (r: bool)
        ensures
            r == (check == 1),
    {
        proof {
            use_type_invariant(self);
        }
        pkey::is_valid_fips_key(&self.evp_pkey, check)
    }

    /// Accepts RSA keys of 2048 to 8192 bits.
    pub fn validate_private_key(key: &EvpPkey) -> (r: Result<(), KeyRejected>)
        requires
            is_inspected(*key),
        ensures
            r == if key.is_acceptable() {
                Ok(())
            } else {
                Err(error::unspecified_rejection())
            },
    {
        if !is_rsa_key(key) {
            return Err(KeyRejected::unspecified());
        }
        let bits: usize = key_size_bits(key);
        if 2048 <= bits && bits <= 8192 {
            Ok(())
        } else {
            Err(KeyRejected::unspecified())
        }
    }

    /// Starts to sign `msg`. `msg` is digested using the digest algorithm from
    /// `encoding` and the digest is then padded using the padding algorithm
    /// from `encoding`. The signature goes into a buffer of `signature_len` bytes, which
    /// must be exactly the length returned by `public_modulus_len()`.
    ///
    /// Many other crypto libraries have signing functions that takes a
    /// precomputed digest as input, instead of the message to digest. This
    /// function does *not* take a precomputed digest; instead, `sign`
    /// calculates the digest itself.
    pub fn sign<'a>(
        &self,
        encoding: &RsaSignatureEncoding,
        msg: &'a [u8],
        signature_len: usize,
    ) -> (r: Signing<'a>)
        ensures
            r@ == signing::signing_start(self.pkey().addr, *encoding, msg@, signature_len),
    {
        Signing::start(self.evp_pkey.addr, encoding, msg, signature_len)
    }

    /// Returns the length in bytes of the key pair's public modulus.
    ///
    /// A signature has the same length as the public modulus.
    #[must_use]
    pub fn public_modulus_len(&self) -> (r: usize)
        ensures
            self.pkey().rsa_size == Some(r as u32),
            r <= u32::MAX,
    {
        proof {
            use_type_invariant(self);
        }
        // Only RSA keys are accepted, so there is a size.
        match self.evp_pkey.rsa_size {
            Some(size) => size as usize,
            None => 0,
        }
    }

    /// The key that AWS-LC holds. It is an RSA key of 2048 to 8192 bits.
    pub fn evp_pkey(&self) -> (r: &EvpPkey)
        ensures
            *r == self.pkey(),
            r.is_acceptable(),
    {
        proof {
            use_type_invariant(self);
        }
        &self.evp_pkey
    }

    /// The public half of the pair, which is that of its key.
    pub fn public_key(&self) -> (r: &PublicKey)
        ensures
            *r == self.public(),
            r.is_public_half_of(self.pkey()),
    {
        proof {
            use_type_invariant(self);
        }
        &self.serialized_public_key
    }

    /// The private key in PKCS#8 v1, in DER. `encoded` is how AWS-LC encodes it, if it can.
    pub fn as_der(&self, encoded: Option<Vec<u8>>) -> (r: Result<Pkcs8V1Der, Unspecified>)
        ensures
            r is Ok <==> encoded is Some,
            r matches Ok(der) ==> der@ == encoded->0@,
    {
        match encoded {
            Some(bytes) => Ok(Pkcs8V1Der { bytes }),
            None => Err(Unspecified),
        }
    }

    /// The pair as debugging output shows it: only the public half.
    pub open spec fn debug_view(&self) -> Seq<char> {
        "RsaKeyPair { public_key: "@ + self.public().debug_view() + " }"@
    }

    /// The pair as debugging output shows it: only the public half.
    pub fn debug_text(&self) -> (r: String)
        ensures
            r@ == self.debug_view(),
    {
        "RsaKeyPair { public_key: ".to_owned().concat(
            self.serialized_public_key.debug_text().as_str(),
        ).concat(" }")
    }
}

/// Every pair holds an RSA key of 2048 to 8192 bits and that key's own public half.
pub proof fn a_pair_holds_the_public_half_of_its_key(pair: KeyPair)
    requires
        pair.is_valid(),
    ensures
        pair.pkey().is_acceptable(),
        pair.pkey().public.is_complete(),
        pair.public().is_public_half_of(pair.pkey()),
{
}

/// Where what AWS-LC says of its key agrees with itself, the length of a pair's modulus is the
/// size of the key in bytes, from 256 to 1024, and the public half writes the modulus with as many
/// bytes and without a leading zero.
pub proof fn modulus_length_follows_from_the_size(pair: KeyPair)
    requires
        pair.is_valid(),
        pair.pkey().agrees_with_itself(),
    ensures
        pair.pkey().rsa_size matches Some(size) && {
            &&& size == pair.pkey().size
            &&& 8 * (size - 1) < pair.pkey().bits <= 8 * size
            &&& 256 <= size <= 1024
            &&& pair.public().modulus_bytes().len() == size
            &&& pair.public().modulus_bytes()[0] != 0
        },
{
}

/// It does not matter where a key comes from: pairs of keys of which AWS-LC says the same have the
/// same public halves and the same length of the modulus.
pub proof fn pairs_are_what_is_said_of_their_keys(a: KeyPair, b: KeyPair)
    requires
        a.is_valid(),
        b.is_valid(),
        a.pkey().rsa_size == b.pkey().rsa_size,
        a.pkey().public.der_bytes() == b.pkey().public.der_bytes(),
        a.pkey().public.n_bytes() == b.pkey().public.n_bytes(),
        a.pkey().public.e_bytes() == b.pkey().public.e_bytes(),
    ensures
        a.public().key_bytes() == b.public().key_bytes(),
        a.public().modulus_bytes() == b.public().modulus_bytes(),
        a.public().exponent_bytes() == b.public().exponent_bytes(),
        a.debug_view() == b.debug_view(),
{
}

/// Two pairs with the same public half look the same in debugging output, whatever their private
/// halves are.
pub proof fn debugging_output_shows_the_public_half_only(a: KeyPair, b: KeyPair)
    requires
        a.public().key_bytes() == b.public().key_bytes(),
    ensures
        a.debug_view() == b.debug_view(),
{
}

} // verus!

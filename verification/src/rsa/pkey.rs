//! What is known of a key that AWS-LC holds.

use vstd::prelude::*;

use crate::rsa::size::KeySize;

verus! {

/// What AWS-LC gives out of the public half of a key.
#[derive(Debug)]
pub struct PublicParts {
    /// The DER encoding of the `RSAPublicKey` structure (RFC 8017), if the key has one.
    pub der: Option<Box<[u8]>>,
    /// The public modulus in big-endian bytes, if the key is an RSA key that has one.
    pub n: Option<Box<[u8]>>,
    /// The public exponent in big-endian bytes, if the key is an RSA key that has one.
    pub e: Option<Box<[u8]>>,
}

/// The bytes in a box, if there is one.
pub open spec fn boxed_bytes(bytes: Option<Box<[u8]>>) -> Option<Seq<u8>> {
    match bytes {
        Some(bytes) => Some(bytes@),
        None => None,
    }
}

impl PublicParts {
    /// The bytes of the DER encoding.
    pub open spec fn der_bytes(self) -> Option<Seq<u8>> {
        boxed_bytes(self.der)
    }

    /// The bytes of the public modulus.
    pub open spec fn n_bytes(self) -> Option<Seq<u8>> {
        boxed_bytes(self.n)
    }

    /// The bytes of the public exponent.
    pub open spec fn e_bytes(self) -> Option<Seq<u8>> {
        boxed_bytes(self.e)
    }

    /// Nothing is missing.
    pub open spec fn is_complete(self) -> bool {
        self.der is Some && self.n is Some && self.e is Some
    }
}

/// A key that AWS-LC holds: where it is, and what the functions that inspect it say of it.
#[derive(Debug)]
pub struct EvpPkey {
    /// The address of the `EVP_PKEY` object.
    pub addr: usize,
    /// What `RSA_size` says of the RSA key inside, where the key is an RSA key.
    pub rsa_size: Option<u32>,
    /// What `EVP_PKEY_bits` says.
    pub bits: i32,
    /// What `EVP_PKEY_size` says.
    pub size: i32,
    /// What the functions that give out the public half say.
    pub public: PublicParts,
}

impl EvpPkey {
    /// The key is an RSA key.
    pub open spec fn is_rsa(self) -> bool {
        self.rsa_size is Some
    }

    /// The key is an RSA key of 2048 to 8192 bits.
    pub open spec fn is_acceptable(self) -> bool {
        self.is_rsa() && 2048 <= self.bits <= 8192
    }

    /// What is said of the key agrees with itself: the size of an RSA key, and of what is made
    /// with it, is its size in bits, rounded up to bytes; and its modulus is written with as many
    /// bytes, the first of which is not zero.
    pub open spec fn agrees_with_itself(self) -> bool {
        self.rsa_size matches Some(size) ==> {
            &&& size == self.size
            &&& size == (self.bits + 7) / 8
            &&& self.public.n_bytes() matches Some(n) ==> n.len() == size && (n.len() > 0 ==> n[0]
                != 0)
        }
    }
}

/// The size of a key in bytes.
pub fn key_size_bytes(key: &EvpPkey) -> (r: usize)
    requires
        key.size >= 0,
    ensures
        r == key.size,
{
    key.size as usize
}

/// The size of a key in bits.
pub fn key_size_bits(key: &EvpPkey) -> (r: usize)
    requires
        key.bits >= 0,
    ensures
        r == key.bits,
{
    key.bits as usize
}

/// Tells whether the size of a key in bits lies in a range, its ends included.
pub fn has_size_between(key: &EvpPkey, min_bits: u32, max_bits: u32) -> (r: bool)
    requires
        key.bits >= 0,
    ensures
        r == (min_bits <= key.bits <= max_bits),
{
    let bits: usize = key_size_bits(key);
    min_bits as usize <= bits && bits <= max_bits as usize
}

/// Tells whether a key is an RSA key.
pub fn is_rsa_key(key: &EvpPkey) -> (r: bool)
    ensures
        r == key.is_rsa(),
{
    key.rsa_size.is_some()
}

/// Tells whether a key is approved under FIPS 140-3. `check` is what `RSA_check_fips` says of it.
pub fn is_valid_fips_key(key: &EvpPkey, check: i32) -> (r: bool)
    requires
        key.is_rsa(),
    ensures
        r == (check == 1),
{
    1 == check
}

/// A key of any of the sizes that can be generated is acceptable.
pub proof fn generated_sizes_are_acceptable(size: KeySize, key: EvpPkey)
    requires
        key.is_rsa(),
        key.bits == size.bit_count(),
    ensures
        key.is_acceptable(),
{
}

} // verus!

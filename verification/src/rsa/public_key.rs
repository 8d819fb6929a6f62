//! Serialized RSA public keys.

use vstd::prelude::*;

use crate::rsa::error::Unspecified;
use crate::rsa::pkey::EvpPkey;

verus! {

// ---------------------------------------------------------------------------
// Calls into other crates and the standard library
// ---------------------------------------------------------------------------

/// `zeroize::Zeroize::zeroize` on a boxed slice of bytes: every byte becomes zero, and their
/// number stays. It walks the bytes and does not panic.
#[verifier::external_body]
fn zeroize_bytes(bytes: &mut Box<[u8]>)
    ensures
        final(bytes)@ == Seq::new(old(bytes)@.len(), |i: int| 0u8),
    opens_invariants none
    no_unwind
{
    zeroize::Zeroize::zeroize(bytes)
}

/// `Clone::clone` on a boxed slice of bytes: a copy of the bytes.
#[verifier::external_body]
fn clone_bytes(bytes: &Box<[u8]>) -> (r: Box<[u8]>)
    ensures
        r@ == bytes@,
{
    bytes.clone()
}

/// The type `untrusted::Input`, which wraps bytes. `input_bytes` names what it holds.
#[verifier::external_type_specification]
#[verifier::external_body]
pub struct ExInput<'a>(untrusted::Input<'a>);

/// The bytes that an `untrusted::Input` wraps.
pub uninterp spec fn input_bytes(input: untrusted::Input<'_>) -> Seq<u8>;

/// `untrusted::Input::from` wraps the given bytes.
pub assume_specification<'a>[ untrusted::Input::<'a>::from ](bytes: &'a [u8]) -> (r:
    untrusted::Input<'a>)
    ensures
        input_bytes(r) == bytes@,
;

/// `untrusted::Input::as_slice_less_safe` gives the wrapped bytes back.
pub assume_specification<'a>[ untrusted::Input::<'a>::as_slice_less_safe ](
    input: &untrusted::Input<'a>,
) -> (r: &'a [u8])
    ensures
        r@ == input_bytes(*input),
;

// ---------------------------------------------------------------------------
// Positive numbers
// ---------------------------------------------------------------------------

/// A big-endian positive number.
pub struct Positive<'a>(untrusted::Input<'a>);

impl<'a> Positive<'a> {
    /// The bytes of the number.
    pub closed spec fn bytes(&self) -> Seq<u8> {
        input_bytes(self.0)
    }

    /// The number whose bytes an input holds. AWS-LC writes a number without leading zeros.
    fn new_non_empty_without_leading_zeros(input: untrusted::Input<'a>) -> (r: Self)
        ensures
            r.bytes() == input_bytes(input),
    {
        Positive(input)
    }

    /// Returns the bytes of the number, the most significant one first.
    pub fn big_endian_without_leading_zero(&self) -> (r: &'a [u8])
        ensures
            r@ == self.bytes(),
    {
        self.0.as_slice_less_safe()
    }
}

// ---------------------------------------------------------------------------
// Hexadecimal text
// ---------------------------------------------------------------------------

/// The hexadecimal digit of a number below sixteen.
pub open spec fn hex_digit(d: u8) -> char {
    if d < 10 {
        (48 + d) as char
    } else {
        (87 + d) as char
    }
}

/// The bytes in hexadecimal, two lower-case digits for each.
pub open spec fn hex(bytes: Seq<u8>) -> Seq<char>
    decreases bytes.len(),
{
    if bytes.len() == 0 {
        Seq::empty()
    } else {
        hex(bytes.drop_last()).push(hex_digit(bytes.last() / 16)).push(
            hex_digit(bytes.last() % 16),
        )
    }
}

fn hex_char(d: u8) -> (r: char)
    requires
        d < 16,
    ensures
        r == hex_digit(d),
{
    if d < 10 {
        (48 + d) as char
    } else {
        (87 + d) as char
    }
}

/// Writes bytes in hexadecimal.
pub fn hex_encode(bytes: &[u8]) -> (r: String)
    ensures
        r@ == hex(bytes@),
{
    let mut out: String = String::new();
    for i in 0..bytes.len()
        invariant
            out@ == hex(bytes@.take(i as int)),
    {
        let b = bytes[i];
        assert(bytes@.take(i + 1).drop_last() =~= bytes@.take(i as int));
        out.push(hex_char(b / 16));
        out.push(hex_char(b % 16));
    }
    assert(bytes@.take(bytes@.len() as int) =~= bytes@);
    out
}

/// Different bytes have different hexadecimal text.
pub proof fn hex_is_injective(a: Seq<u8>, b: Seq<u8>)
    requires
        hex(a) == hex(b),
    ensures
        a == b,
    decreases a.len(),
{
    hex_length(a);
    hex_length(b);
    if a.len() > 0 {
        let n = hex(a).len() as int;
        assert(hex(a)[n - 1] == hex_digit(a.last() % 16));
        assert(hex(a)[n - 2] == hex_digit(a.last() / 16));
        assert(hex(b)[n - 1] == hex_digit(b.last() % 16));
        assert(hex(b)[n - 2] == hex_digit(b.last() / 16));
        hex_digit_is_injective(a.last() % 16, b.last() % 16);
        hex_digit_is_injective(a.last() / 16, b.last() / 16);
        assert(a.last() == b.last());
        assert(hex(a.drop_last()) =~= hex(a).take(n - 2));
        assert(hex(b.drop_last()) =~= hex(b).take(n - 2));
        hex_is_injective(a.drop_last(), b.drop_last());
        assert(a =~= a.drop_last().push(a.last()));
        assert(b =~= b.drop_last().push(b.last()));
    } else {
        assert(a =~= b);
    }
}

proof fn hex_digit_is_injective(a: u8, b: u8)
    requires
        a < 16,
        b < 16,
        hex_digit(a) == hex_digit(b),
    ensures
        a == b,
{
}

proof fn hex_length(bytes: Seq<u8>)
    ensures
        hex(bytes).len() == 2 * bytes.len(),
    decreases bytes.len(),
{
    if bytes.len() > 0 {
        hex_length(bytes.drop_last());
    }
}

// ---------------------------------------------------------------------------
// Public keys
// ---------------------------------------------------------------------------

/// A serialized RSA public key.
pub struct PublicKey {
    key: Box<[u8]>,
    modulus: Box<[u8]>,
    exponent: Box<[u8]>,
}

impl Drop for PublicKey {
    fn drop(&mut self)
        ensures
            final(self).key_bytes() == Seq::new(old(self).key_bytes().len(), |i: int| 0u8),
            final(self).modulus_bytes() == Seq::new(old(self).modulus_bytes().len(), |i: int| 0u8),
            final(self).exponent_bytes() == Seq::new(
                old(self).exponent_bytes().len(),
                |i: int| 0u8,
            ),
        opens_invariants none
        no_unwind
    {
        self.wipe();
    }
}

impl Clone for PublicKey {
    fn clone(&self) -> (r: Self)
        ensures
            r.key_bytes() == self.key_bytes(),
            r.modulus_bytes() == self.modulus_bytes(),
            r.exponent_bytes() == self.exponent_bytes(),
    {
        PublicKey {
            key: clone_bytes(&self.key),
            modulus: clone_bytes(&self.modulus),
            exponent: clone_bytes(&self.exponent),
        }
    }
}

impl PublicKey {
    /// The DER encoding of the key.
    pub closed spec fn key_bytes(&self) -> Seq<u8> {
        self.key@
    }

    /// The big-endian bytes of the public modulus.
    pub closed spec fn modulus_bytes(&self) -> Seq<u8> {
        self.modulus@
    }

    /// The big-endian bytes of the public exponent.
    pub closed spec fn exponent_bytes(&self) -> Seq<u8> {
        self.exponent@
    }

    /// The public key is the public half of a key.
    pub open spec fn is_public_half_of(&self, evp_pkey: EvpPkey) -> bool {
        &&& Some(self.key_bytes()) == evp_pkey.public.der_bytes()
        &&& Some(self.modulus_bytes()) == evp_pkey.public.n_bytes()
        &&& Some(self.exponent_bytes()) == evp_pkey.public.e_bytes()
    }

    /// The public half of a key.
    pub fn new(evp_pkey: &EvpPkey) -> (r: Result<Self, Unspecified>)
        ensures
            r is Ok <==> evp_pkey.public.is_complete(),
            r matches Ok(key) ==> key.is_public_half_of(*evp_pkey),
    {
        let key = match &evp_pkey.public.der {
            Some(key) => clone_bytes(key),
            None => return Err(Unspecified),
        };
        let modulus = match &evp_pkey.public.n {
            Some(modulus) => clone_bytes(modulus),
            None => return Err(Unspecified),
        };
        let exponent = match &evp_pkey.public.e {
            Some(exponent) => clone_bytes(exponent),
            None => return Err(Unspecified),
        };
        Ok(PublicKey { key, modulus, exponent })
    }

    /// Overwrites all bytes with zeros.
    pub fn wipe(&mut self)
        ensures
            final(self).key_bytes() == Seq::new(old(self).key_bytes().len(), |i: int| 0u8),
            final(self).modulus_bytes() == Seq::new(old(self).modulus_bytes().len(), |i: int| 0u8),
            final(self).exponent_bytes() == Seq::new(
                old(self).exponent_bytes().len(),
                |i: int| 0u8,
            ),
        opens_invariants none
        no_unwind
    {
        zeroize_bytes(&mut self.key);
        zeroize_bytes(&mut self.modulus);
        zeroize_bytes(&mut self.exponent);
    }

}

impl AsRef<[u8]> for PublicKey {
    /// DER encode a RSA public key to (RFC 8017) `RSAPublicKey` structure.
    fn as_ref(&self) -> (r: &[u8])
        ensures
            r@ == self.key_bytes(),
    {
        &self.key
    }
}

impl PublicKey {
    /// The public modulus (n).
    #[must_use]
    pub fn modulus(&self) -> (r: Positive<'_>)
        ensures
            r.bytes() == self.modulus_bytes(),
    {
        Positive::new_non_empty_without_leading_zeros(untrusted::Input::from(&self.modulus))
    }

    /// The public exponent (e).
    #[must_use]
    pub fn exponent(&self) -> (r: Positive<'_>)
        ensures
            r.bytes() == self.exponent_bytes(),
    {
        Positive::new_non_empty_without_leading_zeros(untrusted::Input::from(&self.exponent))
    }

    /// The key as debugging output shows it.
    pub open spec fn debug_view(&self) -> Seq<char> {
        "RsaPublicKey(\""@ + hex(self.key_bytes()) + "\")"@
    }

    /// The key as debugging output shows it.
    pub fn debug_text(&self) -> (r: String)
        ensures
            r@ == self.debug_view(),
    {
        "RsaPublicKey(\"".to_owned().concat(hex_encode(self.as_ref()).as_str()).concat("\")")
    }
}

} // verus!

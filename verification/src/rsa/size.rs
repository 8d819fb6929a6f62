//! The sizes of RSA keys.

use vstd::prelude::*;

verus! {

/// RSA key-size.
#[non_exhaustive]
#[derive(Clone, Copy, Debug, PartialEq, Eq, Structural)]
pub enum KeySize {
    /// 2048-bit key
    Rsa2048,
    /// 3072-bit key
    Rsa3072,
    /// 4096-bit key
    Rsa4096,
    /// 8192-bit key
    Rsa8192,
}

impl KeySize {
    /// The key size in bits.
    pub open spec fn bit_count(self) -> int {
        match self {
            KeySize::Rsa2048 => 2048,
            KeySize::Rsa3072 => 3072,
            KeySize::Rsa4096 => 4096,
            KeySize::Rsa8192 => 8192,
        }
    }

    /// Returns the size of the key in bytes.
    #[must_use]
    pub fn len(self) -> (r: usize)
        ensures
            8 * r == self.bit_count(),
    {
        match self {
            Self::Rsa2048 => 256,
            Self::Rsa3072 => 384,
            Self::Rsa4096 => 512,
            Self::Rsa8192 => 1024,
        }
    }

    /// Returns the key size in bits.
    pub fn bits(self) -> (r: i32)
        ensures
            r == self.bit_count(),
    {
        match self {
            Self::Rsa2048 => 2048,
            Self::Rsa3072 => 3072,
            Self::Rsa4096 => 4096,
            Self::Rsa8192 => 8192,
        }
    }
}

} // verus!

//! Errors.

use vstd::prelude::*;

verus! {

/// An error with absolutely no details.
#[derive(Clone, Copy, PartialEq, Eq, Structural, Debug)]
pub struct Unspecified;

/// A key was rejected, for the reason given.
#[derive(Clone, Copy, Debug)]
pub struct KeyRejected {
    /// The reason.
    pub reason: &'static str,
}

/// The rejection that gives no reason.
pub open spec fn unspecified_rejection() -> KeyRejected {
    KeyRejected { reason: "Unspecified" }
}

impl KeyRejected {
    /// The rejection that gives no reason.
    pub fn unspecified() -> (r: Self)
        ensures
            r == unspecified_rejection(),
    {
        KeyRejected { reason: "Unspecified" }
    }
}

impl From<KeyRejected> for Unspecified {
    fn from(_rejected: KeyRejected) -> (r: Self) {
        Unspecified
    }
}

impl vstd::std_specs::convert::FromSpecImpl<KeyRejected> for Unspecified {
    open spec fn obeys_from_spec() -> bool {
        true
    }

    open spec fn from_spec(_rejected: KeyRejected) -> Self {
        Unspecified
    }
}

impl From<Unspecified> for KeyRejected {
    fn from(_unspecified: Unspecified) -> (r: Self) {
        KeyRejected::unspecified()
    }
}

impl vstd::std_specs::convert::FromSpecImpl<Unspecified> for KeyRejected {
    open spec fn obeys_from_spec() -> bool {
        true
    }

    open spec fn from_spec(_unspecified: Unspecified) -> Self {
        unspecified_rejection()
    }
}

} // verus!

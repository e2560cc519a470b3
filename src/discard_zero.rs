//! Whether explicit zeros are dropped when a matrix is copied.
use vstd::prelude::*;

use crate::flags::{FLAG_DISCARD_ZEROS, FLAG_NOFLAGS};

verus! {

/// `DiscardZero(true)` asks the engine to drop stored zeros.
#[derive(Debug, Clone, Copy, PartialEq, Eq, Hash, Structural)]
pub struct DiscardZero(bool);

impl DiscardZero {
    /// Whether zeros are dropped.
    pub closed spec fn spec_enabled(&self) -> bool {
        self.0
    }

    /// The flag bits of this policy.
    pub open spec fn spec_code(&self) -> i32 {
        if self.spec_enabled() {
            FLAG_DISCARD_ZEROS
        } else {
            FLAG_NOFLAGS
        }
    }

    pub fn code(&self) -> (r: i32)
        ensures
            r == self.spec_code(),
    {
        if self.0 {
            FLAG_DISCARD_ZEROS
        } else {
            FLAG_NOFLAGS
        }
    }

    /// Whether zeros are dropped.
    pub fn enabled(&self) -> (r: bool)
        ensures
            r == self.spec_enabled(),
    {
        self.0
    }
}

impl From<bool> for DiscardZero {
    fn from(yes: bool) -> (r: Self)
        ensures
            r.spec_enabled() == yes,
    {
        DiscardZero(yes)
    }
}

impl vstd::std_specs::convert::FromSpecImpl<bool> for DiscardZero {
    open spec fn obeys_from_spec() -> bool {
        true
    }

    closed spec fn from_spec(v: bool) -> Self {
        DiscardZero(v)
    }
}

} // verus!

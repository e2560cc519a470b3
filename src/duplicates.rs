//! How repeated coordinates are resolved when entries are inserted.
use vstd::prelude::*;

use crate::flags::{FLAG_DUPLICATES_KEEP_LAST, FLAG_DUPLICATES_SUM};

verus! {

/// The policy for entries that share a coordinate.
#[derive(Debug, Clone, Copy, PartialEq, Eq, Hash, Structural)]
pub enum Duplicates {
    /// Values at the same coordinate are added up.
    Sum,
    /// The last value given for a coordinate wins.
    Overwrite,
}

impl Duplicates {
    /// The flag bits of this policy.
    pub open spec fn spec_code(&self) -> i32 {
        match self {
            Duplicates::Sum => FLAG_DUPLICATES_SUM,
            Duplicates::Overwrite => FLAG_DUPLICATES_KEEP_LAST,
        }
    }

    pub fn code(&self) -> (r: i32)
        ensures
            r == self.spec_code(),
    {
        match self {
            Duplicates::Sum => FLAG_DUPLICATES_SUM,
            Duplicates::Overwrite => FLAG_DUPLICATES_KEEP_LAST,
        }
    }
}

impl Default for Duplicates {
    /// The last value wins unless a call asks otherwise.
    fn default() -> (r: Self)
        ensures
            r == Duplicates::Overwrite,
    {
        Duplicates::Overwrite
    }
}

} // verus!

//! Storage order of dense operands.
use vstd::prelude::*;

use crate::flags::{FLAG_WANT_COLUMN_MAJOR_ORDER, FLAG_WANT_ROW_MAJOR_ORDER};

verus! {

/// Whether a dense buffer holds its elements column by column or row by row.
#[derive(Debug, Clone, Copy, PartialEq, Eq, Hash, Structural)]
pub enum MajorOrder {
    Column,
    Row,
}

impl MajorOrder {
    /// The flag bits of this order.
    pub open spec fn spec_code(&self) -> i32 {
        match self {
            MajorOrder::Column => FLAG_WANT_COLUMN_MAJOR_ORDER,
            MajorOrder::Row => FLAG_WANT_ROW_MAJOR_ORDER,
        }
    }

    pub fn code(&self) -> (r: i32)
        ensures
            r == self.spec_code(),
    {
        match self {
            MajorOrder::Column => FLAG_WANT_COLUMN_MAJOR_ORDER,
            MajorOrder::Row => FLAG_WANT_ROW_MAJOR_ORDER,
        }
    }
}

} // verus!

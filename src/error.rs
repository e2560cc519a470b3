//! One error type for engine failures and for locally detected invalid input.
use vstd::prelude::*;

verus! {

/// The engine's status code for success.
pub const ERR_NO_ERROR: i32 = 0;

/// What went wrong.
#[derive(Debug, Clone, PartialEq, Eq, Hash)]
pub enum Error {
    /// The engine returned this non-zero status code.
    Rsb(i32),
    /// A dense matrix of `nrows` by `ncols` cannot be laid over a buffer of `len` elements.
    ShapeMismatch { nrows: usize, ncols: usize, len: usize },
    /// A vector stride is zero or does not divide the buffer length `len`.
    InvalidStride { stride: usize, len: usize },
    /// Parallel coordinate arrays differ in length.
    LengthMismatch { rows: usize, cols: usize, vals: usize },
    /// A right-hand side and an output of a solve are stored in different major orders.
    OrderMismatch,
    /// A path cannot be handed to the engine: the unit at `position` is a nul or
    /// cannot be represented as a byte.
    PathEncoding { position: usize },
    /// A count, index or stride does not fit in the engine's 32-bit index type.
    IndexOverflow { value: usize },
    /// Any other failure, described in words.
    Custom(String),
}

/// The result of every fallible operation of this crate.
pub type Result<T, E = Error> = core::result::Result<T, E>;

impl Error {
    /// An error described in words.
    pub fn custom(desc: String) -> (r: Error)
        ensures
            r == Error::Custom(desc),
    {
        Error::Custom(desc)
    }
}

/// What a call into the engine that returned `status` amounts to.
pub open spec fn status_result(status: i32) -> Result<()> {
    if status == ERR_NO_ERROR {
        Ok(())
    } else {
        Err(Error::Rsb(status))
    }
}

/// Turns an engine status code into a result: zero is success, anything else is
/// surfaced unchanged.
pub fn check(status: i32) -> (r: Result<()>)
    ensures
        r == status_result(status),
{
    if status == ERR_NO_ERROR {
        Ok(())
    } else {
        Err(Error::Rsb(status))
    }
}

} // verus!

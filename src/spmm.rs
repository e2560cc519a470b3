//! Options of an iterated sparse-times-dense product.
use vstd::prelude::*;

use crate::transpose::Transpose;
use core::time::Duration;

verus! {

/// When an iterated product stops.
#[derive(Debug, Clone, Copy, PartialEq, Eq, Hash)]
pub enum Limit {
    /// The engine's own choice.
    Default,
    /// After this much time.
    Time(Duration),
    /// After this many iterations.
    Iterations(usize),
}

impl Default for Limit {
    fn default() -> (r: Self)
        ensures
            r == Limit::Default,
    {
        Limit::Default
    }
}

/// Settings of an iterated product.
#[derive(Debug, Clone, PartialEq, Eq, Hash)]
pub struct SpmmOptions {
    /// Threads to use; `None` leaves the choice to the engine.
    pub num_threads: Option<usize>,
    pub max_rounds: usize,
    pub limit: Limit,
    pub transpose: Transpose,
}

impl Default for SpmmOptions {
    /// Engine-chosen threads, no rounds, the engine's limit, and no transposition.
    fn default() -> (r: Self)
        ensures
            r == (SpmmOptions {
                num_threads: None,
                max_rounds: 0,
                limit: Limit::Default,
                transpose: Transpose::NoTranspose,
            }),
    {
        SpmmOptions {
            num_threads: None,
            max_rounds: 0,
            limit: Limit::default(),
            transpose: Transpose::default(),
        }
    }
}

} // verus!

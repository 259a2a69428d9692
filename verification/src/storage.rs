//! Specialized container support.
//!
//! The containers around this core work both over pre-allocated memory
//! and over the heap; what they share is the ability to be put back
//! into a known state.

use vstd::prelude::*;
use crate::connection::Connection;

verus! {

/// A trait for setting a value to a known state: an in-place analog of
/// `Default`, for storage that is reused rather than reallocated.
pub trait Resettable {
    /// Clear or set all elements to a default value.
    fn reset(&mut self);
}

impl Resettable for Connection {
    /// A reset control block is the zeroed, closed one.
    fn reset(&mut self)
        ensures
            *final(self) == crate::connection::spec_zeroed(),
    {
        *self = Connection::zeroed();
    }
}

} // verus!

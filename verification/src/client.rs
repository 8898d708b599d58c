//! Client plumbing shared by the API clients.
//!
//! The HTTP transport itself lives outside this library: a client type is
//! anything the surrounding application can drive requests through. The
//! library only ever stores such a value and hands it back.

use vstd::prelude::*;

verus! {

/// A client type that can construct a default instance of itself, for
/// applications to implement on their transport of choice.
pub trait ClientDefault: Sized {
    /// Constructs the default instance.
    fn default_client() -> Self;
}

} // verus!

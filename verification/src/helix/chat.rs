//! Chat endpoints: the request shapes that carry no parameters of their own.

use vstd::prelude::*;

verus! {

/// Query parameters for Get Global Emotes; the endpoint takes none.
#[derive(Clone, Copy, Debug, PartialEq, Eq, Structural, Default)]
pub struct GetGlobalEmotesRequest {

}

} // verus!

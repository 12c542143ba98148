//! What surrounds a connection and is opaque to it.

use vstd::prelude::*;

verus! {

/// The values that a connection only carries.
pub trait Runtime {
    /// What a pointer of any type in a message leads to, where the connection
    /// does not look into it; also a message as it came.
    type Content;

    /// A capability: calls can be made on it, and a clone is another reference
    /// to the same capability.
    type Hook: Clone;

    /// The context of a call: it holds the parameters and takes the results.
    type Context;

    /// A shared handle to the state of an answer; a clone refers to the same
    /// answer.
    type Answer: Clone;
}

} // verus!

use vstd::prelude::*;

verus! {

/// Marks a type as an actor; `Context` is the context type its handlers
/// receive.
pub trait Actor where Self: Send + Unpin + 'static {
    type Context;
}

} // verus!

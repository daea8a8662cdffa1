use vstd::prelude::*;

verus! {

/// A boxed unit of work, callable from any thread, that consumes itself by
/// being invoked: invocation takes ownership of the boxed value, so after the
/// one invocation the value is gone and a second invocation is impossible by
/// construction. An implementor must be invocable as it stands, with nothing
/// asked of the caller.
pub trait TaskFunc: Send {
    /// Invoke the work, consuming the boxed value.
    fn call_once(self: Box<Self>);
}

} // verus!

//! Calling a callback that may be missing.

use vstd::prelude::*;

verus! {

/// A callback that may be missing: to call it is to call the callback
/// where there is one.
pub trait CallableOption<In, Out>: Sized {
    /// Whether the callback, where there is one, takes `input`.
    spec fn takes(self, input: In) -> bool;

    /// Whether `output` is what the call with `input` may give.
    spec fn gives(self, input: In, output: Option<Out>) -> bool;

    fn call(self, input: In) -> (output: Option<Out>)
        requires
            self.takes(input),
        ensures
            self.gives(input, output),
    ;
}

impl<In, Out, F: FnOnce(In) -> Out> CallableOption<In, Out> for Option<F> {
    open spec fn takes(self, input: In) -> bool {
        self matches Some(callback) ==> callback.requires((input,))
    }

    open spec fn gives(self, input: In, output: Option<Out>) -> bool {
        match self {
            Some(callback) => output matches Some(value) && callback.ensures((input,), value),
            None => output is None,
        }
    }

    fn call(self, input: In) -> (output: Option<Out>) {
        match self {
            Some(callback) => Some(callback(input)),
            None => None,
        }
    }
}

} // verus!

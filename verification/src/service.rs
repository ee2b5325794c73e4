//! The two capabilities every participant of a pipeline exposes: handling one
//! request, and wrapping a handler in new behaviour.

use vstd::prelude::*;

verus! {

/// A unit that consumes one input value and produces one output value.
///
/// Each implementation describes itself with two specification functions:
/// `spec_output` gives the output of a call as a function of the state the
/// service is in and the (viewed) input, and `spec_step` relates that state to
/// the state the call leaves behind. `call` is then bound to both, so the
/// behaviour of any chain of services can be read off their specifications.
pub trait Service: Sized {
    /// What a call consumes.
    type Input: View;

    /// What a call produces.
    type Output: View;

    /// The output of one call, as a function of the current state and the input.
    spec fn spec_output(&self, input: <Self::Input as View>::V) -> <Self::Output as View>::V;

    /// How one call may change the state: `next` is a possible state after a
    /// call on `input` in the current state.
    spec fn spec_step(&self, input: <Self::Input as View>::V, next: Self) -> bool;

    /// Handle one input. The output and the state change are exactly the ones
    /// the service's own specification functions describe; both depend on
    /// nothing but the called instance and the input.
    fn call(&mut self, input: Self::Input) -> (r: Self::Output)
        ensures
            r@ == old(self).spec_output(input@),
            old(self).spec_step(input@, *final(self)),
    ;
}

/// A middleware factory: given an inner service, it constructs the service
/// that wraps it. Wrapping is pure value construction — `spec_layer` is the
/// function it computes, and `layer` returns exactly that value without
/// invoking the inner service.
pub trait Layer<S>: Sized {
    /// The type of the wrapped service this factory produces.
    type Service: Service;

    /// The wrapped service, as a function of the factory and the inner service.
    spec fn spec_layer(&self, inner: S) -> Self::Service;

    /// Wrap `inner`. Pure with respect to `inner`: the result is the value
    /// `spec_layer` describes, and no call happens here.
    fn layer(&self, inner: S) -> (r: Self::Service)
        ensures
            r == self.spec_layer(inner),
    ;
}

} // verus!

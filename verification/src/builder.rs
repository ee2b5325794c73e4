//! The composition engine: an accumulator of layers and the pair type it
//! chains them with.

use vstd::prelude::*;

use crate::service::Layer;
use crate::service::Service;

verus! {

/// Composes two layers into one. Applying a `Stack` to a base service first
/// applies `inner`, then `outer` to the intermediate result, so the layer held
/// as `outer` produces the outermost wrapper. A `Stack` never executes a call
/// itself; it only fixes how wrapping nests.
pub struct Stack<Inner, Outer> {
    /// Applied to the base service first; its wrapper sits closer to the base.
    pub inner: Inner,
    /// Applied to `inner`'s result; its wrapper sits further out.
    pub outer: Outer,
}

impl<Inner, Outer> Stack<Inner, Outer> {
    /// Pair two layers; `inner` will be applied before `outer`.
    pub fn new(inner: Inner, outer: Outer) -> (r: Self)
        ensures
            r == (Stack { inner, outer }),
    {
        Stack { inner, outer }
    }
}

impl<S, Inner, Outer> Layer<S> for Stack<Inner, Outer> where
    Inner: Layer<S>,
    Outer: Layer<Inner::Service>,
 {
    type Service = Outer::Service;

    open spec fn spec_layer(&self, inner: S) -> Self::Service {
        self.outer.spec_layer(self.inner.spec_layer(inner))
    }

    fn layer(&self, inner: S) -> (r: Self::Service) {
        self.outer.layer(self.inner.layer(inner))
    }
}

/// The neutral element of layer composition: wrapping with the empty layer
/// returns the inner service unchanged. A builder that never accumulated a
/// layer finalizes through this case to the bare base service.
impl<S: Service> Layer<S> for () {
    type Service = S;

    open spec fn spec_layer(&self, inner: S) -> S {
        inner
    }

    fn layer(&self, inner: S) -> (r: S) {
        inner
    }
}

/// An ordered accumulator of layers, finalized against a base service.
///
/// Layers are applied to the base service in the order they were added: the
/// first layer added becomes the innermost wrapper, the last one added becomes
/// the outermost and is the first to see each call.
pub struct ServiceBuilder<L> {
    /// Everything accumulated so far, chained into a single layer.
    pub layer: L,
}

impl ServiceBuilder<()> {
    /// The builder holding no layers yet.
    pub open spec fn spec_new() -> ServiceBuilder<()> {
        ServiceBuilder { layer: () }
    }

    /// Start with an empty accumulator.
    pub fn new() -> (r: Self)
        ensures
            r == Self::spec_new(),
    {
        ServiceBuilder { layer: () }
    }
}

impl<L> ServiceBuilder<L> {
    /// The builder that results from adding `new_layer` after everything
    /// accumulated so far.
    pub open spec fn spec_layered<N>(self, new_layer: N) -> ServiceBuilder<Stack<L, N>> {
        ServiceBuilder { layer: Stack { inner: self.layer, outer: new_layer } }
    }

    /// Add one more layer. It will wrap everything added before it, and so
    /// will observe each call before them.
    pub fn layer<N>(self, new_layer: N) -> (r: ServiceBuilder<Stack<L, N>>)
        ensures
            r == self.spec_layered(new_layer),
    {
        ServiceBuilder { layer: Stack::new(self.layer, new_layer) }
    }

    /// The service that finalizing this builder with `service` produces.
    pub open spec fn spec_build<S>(self, service: S) -> L::Service where L: Layer<S> {
        self.layer.spec_layer(service)
    }

    /// Finalize: nest every accumulated layer around `service`, innermost
    /// first. This is the single point where the deferred wrapping happens; it
    /// cannot fail, and no service is called.
    pub fn build<S>(self, service: S) -> (r: L::Service) where L: Layer<S>
        ensures
            r == self.spec_build(service),
    {
        self.layer.layer(service)
    }
}

} // verus!

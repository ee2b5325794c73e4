//! The laws of the composition engine, stated once and proved for every
//! instantiation they quantify over.

use vstd::prelude::*;

use crate::basic::EchoService;
use crate::basic::TagService;
use crate::basic::tagged;
use crate::builder::ServiceBuilder;
use crate::builder::Stack;
use crate::fallible::Outcome;
use crate::fallible::TryChainLayer;
use crate::middleware::ChainLayer;
use crate::middleware::LoggingMiddleware;
use crate::middleware::MarkLayer;
use crate::service::Layer;
use crate::service::Service;

verus! {

/// Identity: finalizing a builder that accumulated no layers returns the base
/// service itself, unchanged as a value — so it behaves identically to it.
pub proof fn identity_law<S: Service>(base: S)
    ensures
        ServiceBuilder::<()>::spec_new().spec_build(base) == base,
{
}

/// Nesting order: with two layers accumulated, the one added first is applied
/// to the base service first and ends up innermost; the one added second wraps
/// that result and sees each call first.
pub proof fn nesting_law<S: Service, L1, L2>(first: L1, second: L2, base: S) where
    L1: Layer<S>,
    L2: Layer<L1::Service>,

    ensures
        ServiceBuilder::<()>::spec_new().spec_layered(first).spec_layered(second).spec_build(base)
            == second.spec_layer(first.spec_layer(base)),
{
}

/// Call order, observed: marking layers stamp the data on the way in and on
/// the way out, so one answer of the composed service replays the whole call
/// path left to right — the layer added second acts before the one added
/// first on the way in, and after it on the way out.
pub proof fn order_law(first: MarkLayer, second: MarkLayer, input: Seq<char>)
    ensures
        ServiceBuilder::<()>::spec_new().spec_layered(first).spec_layered(second).spec_build(
            EchoService,
        ).spec_output(input) == input + seq!['<'] + second.name@ + seq!['<'] + first.name@
            + seq!['>'] + first.name@ + seq!['>'] + second.name@,
{
}

/// Associativity: grouping neighbouring layers into an explicit [`Stack`]
/// before handing them to the builder produces the very service that adding
/// them one by one produces, as long as their linear order is kept.
pub proof fn associativity_law<S: Service, L1, L2, L3>(
    first: L1,
    second: L2,
    third: L3,
    base: S,
) where
    L1: Layer<S>,
    L2: Layer<L1::Service>,
    L3: Layer<L2::Service>,

    ensures
        ServiceBuilder::<()>::spec_new().spec_layered(first).spec_layered(second).spec_layered(
            third,
        ).spec_build(base) == ServiceBuilder::<()>::spec_new().spec_layered(first).spec_layered(
            (Stack { inner: second, outer: third }),
        ).spec_build(base),
{
}

/// Fail-fast: when the base service fails on an input, one chaining layer —
/// and a whole stack of them — surfaces that same failure to the caller, and
/// the tagging work that depends on a success value contributes nothing.
pub proof fn fail_fast_law<S>(first: TryChainLayer, second: TryChainLayer, base: S, input: Seq<char>) where
    S: Service<Input = String, Output = Outcome>,

    requires
        base.spec_output(input) is Err,
    ensures
        ServiceBuilder::<()>::spec_new().spec_layered(first).spec_build(base).spec_output(input)
            == base.spec_output(input),
        ServiceBuilder::<()>::spec_new().spec_layered(first).spec_layered(second).spec_build(base)
            .spec_output(input) == base.spec_output(input),
{
}

/// Instance isolation: one layer value wrapping two independent base services
/// yields two services whose answers are functions of the shared, immutable
/// layer configuration and of each instance's own base alone — nothing one
/// instance does can reach the other.
pub proof fn instance_isolation_law<S1, S2>(
    shared: ChainLayer,
    first_base: S1,
    second_base: S2,
    input: Seq<char>,
) where
    S1: Service<Input = String, Output = String>,
    S2: Service<Input = String, Output = String>,

    ensures
        shared.spec_layer(first_base).spec_output(input) == tagged(
            shared.tag@,
            first_base.spec_output(input),
        ),
        shared.spec_layer(second_base).spec_output(input) == tagged(
            shared.tag@,
            second_base.spec_output(input),
        ),
{
}

/// End to end: a base service answering `base_tag:input` behind a chaining
/// layer answering `chain_tag:intermediate` yields `chain_tag:base_tag:input`.
pub proof fn chain_scenario_law(base_tag: String, chain_tag: String, input: Seq<char>)
    ensures
        ServiceBuilder::<()>::spec_new().spec_layered(ChainLayer { tag: chain_tag }).spec_build(
            TagService { tag: base_tag },
        ).spec_output(input) == tagged(chain_tag@, tagged(base_tag@, input)),
{
}

/// Logging is transparent: wrapping any service in the logging layer never
/// changes an answer.
pub proof fn logging_transparent_law<S: Service>(base: S, input: <S::Input as View>::V)
    ensures
        (LoggingMiddleware).spec_layer(base).spec_output(input) == base.spec_output(input),
{
}

/// Logging is transparent, end to end: adding the logging layer on top of the
/// chaining scenario leaves its answer untouched.
pub proof fn logging_scenario_law(base_tag: String, chain_tag: String, input: Seq<char>)
    ensures
        ServiceBuilder::<()>::spec_new().spec_layered(ChainLayer { tag: chain_tag }).spec_layered(
            LoggingMiddleware,
        ).spec_build(TagService { tag: base_tag }).spec_output(input) == tagged(
            chain_tag@,
            tagged(base_tag@, input),
        ),
{
}

} // verus!

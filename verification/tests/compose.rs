use layered::basic::EchoService;
use layered::basic::TagService;
use layered::builder::ServiceBuilder;
use layered::builder::Stack;
use layered::middleware::ChainLayer;
use layered::middleware::LoggingMiddleware;
use layered::middleware::MarkLayer;
use layered::service::Layer;
use layered::service::Service;

#[test]
fn empty_builder_returns_base_behaviour() {
    let mut composed = ServiceBuilder::new().build(EchoService);
    assert_eq!(composed.call(String::from("hello")), "hello");
    assert_eq!(composed.call(String::from("")), "");

    let mut tagged = ServiceBuilder::new().build(TagService { tag: String::from("A") });
    assert_eq!(tagged.call(String::from("x")), "A:x");
}

#[test]
fn tag_service_formats_exactly() {
    let mut base = TagService { tag: String::from("A") };
    assert_eq!(base.call(String::from("Hello world!")), "A:Hello world!");
    assert_eq!(base.call(String::from("")), "A:");

    let mut bare = TagService { tag: String::from("") };
    assert_eq!(bare.call(String::from("x")), ":x");
}

#[test]
fn later_layer_sees_the_call_first() {
    let first = MarkLayer { name: String::from("L1") };
    let second = MarkLayer { name: String::from("L2") };
    let mut composed = ServiceBuilder::new().layer(first).layer(second).build(EchoService);
    // Reading left to right: L2 before, L1 before, the echoed input, L1 after,
    // L2 after.
    assert_eq!(composed.call(String::from("x")), "x<L2<L1>L1>L2");
}

#[test]
fn chain_scenario_end_to_end() {
    let base = TagService { tag: String::from("A") };
    let chain = ChainLayer { tag: String::from("B") };
    let mut composed = ServiceBuilder::new().layer(chain).build(base);
    assert_eq!(composed.call(String::from("x")), "B:A:x");
}

#[test]
fn logging_layer_is_transparent() {
    let base = TagService { tag: String::from("A") };
    let chain = ChainLayer { tag: String::from("B") };
    let mut composed = ServiceBuilder::new().layer(chain).layer(LoggingMiddleware).build(base);
    assert_eq!(composed.observed, 0);
    assert_eq!(composed.call(String::from("x")), "B:A:x");
    assert_eq!(composed.observed, 1);
    assert_eq!(composed.call(String::from("y")), "B:A:y");
    assert_eq!(composed.observed, 2);
}

#[test]
fn grouping_layers_preserves_behaviour() {
    let one_by_one = ServiceBuilder::new()
        .layer(MarkLayer { name: String::from("L1") })
        .layer(MarkLayer { name: String::from("L2") })
        .layer(MarkLayer { name: String::from("L3") })
        .build(EchoService);
    let grouped = ServiceBuilder::new()
        .layer(MarkLayer { name: String::from("L1") })
        .layer(Stack::new(
            MarkLayer { name: String::from("L2") },
            MarkLayer { name: String::from("L3") },
        ))
        .build(EchoService);
    let mut one_by_one = one_by_one;
    let mut grouped = grouped;
    let a = one_by_one.call(String::from("x"));
    let b = grouped.call(String::from("x"));
    assert_eq!(a, b);
    assert_eq!(a, "x<L3<L2<L1>L1>L2>L3");
}

#[test]
fn instances_from_one_layer_stay_independent() {
    let shared = ChainLayer { tag: String::from("B") };
    let mut first = shared.layer(TagService { tag: String::from("A1") });
    let mut second = shared.layer(TagService { tag: String::from("A2") });

    assert_eq!(first.call(String::from("x")), "B:A1:x");
    assert_eq!(first.call(String::from("y")), "B:A1:y");
    // The sibling built from the same layer value answers as if the first one
    // had never been called.
    assert_eq!(second.call(String::from("x")), "B:A2:x");
}

#[test]
fn logging_counters_stay_independent() {
    let mut first = LoggingMiddleware.layer(EchoService);
    let mut second = LoggingMiddleware.layer(EchoService);

    first.call(String::from("a"));
    first.call(String::from("b"));
    first.call(String::from("c"));
    assert_eq!(first.observed, 3);
    assert_eq!(second.observed, 0);
    second.call(String::from("d"));
    assert_eq!(first.observed, 3);
    assert_eq!(second.observed, 1);
}

#[test]
fn logging_over_a_base_service_runs() {
    // The wiring of the smallest pipeline: one logging layer over one base
    // service, called once.
    let base = TagService { tag: String::from("A") };
    let mut thing = ServiceBuilder::new().layer(LoggingMiddleware).build(base);
    let answer = thing.call(String::from("Hello world!"));
    assert_eq!(answer, "A:Hello world!");
    assert_eq!(thing.observed, 1);
}

#[test]
fn chaining_over_a_base_service_runs() {
    // The wiring of the chained pipeline: a chaining layer forwarding the
    // base service's answer into a second step.
    let base = TagService { tag: String::from("first") };
    let chain = ChainLayer { tag: String::from("second") };
    let mut service = ServiceBuilder::new().layer(chain).build(base);
    assert_eq!(service.call(String::from("Hello world!")), "second:first:Hello world!");
}

#[test]
fn stack_applies_inner_then_outer() {
    let stack = Stack::new(
        MarkLayer { name: String::from("in") },
        MarkLayer { name: String::from("out") },
    );
    let mut composed = stack.layer(EchoService);
    assert_eq!(composed.call(String::from("x")), "x<out<in>in>out");
}

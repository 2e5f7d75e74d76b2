//! End-to-end tests of the evaluation engine: building worlds from the
//! shipped packages, evaluating patterns, and inspecting verdicts,
//! outputs, rationale trees and errors.

use policy_engine::bindings::Bindings;
use policy_engine::eval::evaluate;
use policy_engine::pattern::{LiteralValue, Pattern};
use policy_engine::rationale::{EvalError, Output, Severity};
use policy_engine::value::{RuntimeValue, ValueKind};
use policy_engine::world::{Entry, PatternDef, World};

fn full_world() -> World {
    let mut world = World::new();
    world.add_package(policy_engine::base64::package());
    world.add_package(policy_engine::concat::package());
    world.add_package(policy_engine::lang::package());
    world.add_package(policy_engine::uri::package());
    world
}

fn named(world: &mut World, name: &str, body: Pattern) {
    world.register(
        name.to_string(),
        Entry::Pattern(PatternDef {
            params: Vec::new(),
            body,
        }),
    );
}

#[test]
fn test_base64_invalid() {
    let mut world = full_world();
    named(&mut world, "test", Pattern::Ref("base64::base64".to_string()));
    let result = world
        .evaluate("test", RuntimeValue::text("Clearly not base64"))
        .unwrap();
    assert!(!result.satisfied());
}

#[test]
fn test_base64_valid() {
    let mut world = full_world();
    named(&mut world, "test", Pattern::Ref("base64::base64".to_string()));
    let result = world
        .evaluate("test", RuntimeValue::text("SGVsbG8gV29ybGQh"))
        .unwrap();
    assert!(result.satisfied());
    assert_eq!(
        result.output(),
        &RuntimeValue::Octets(b"Hello World!".to_vec())
    );
}

#[test]
fn test_base64_encode_valid() {
    let mut world = full_world();
    named(
        &mut world,
        "test",
        Pattern::Ref("base64::base64-encode".to_string()),
    );
    let result = world
        .evaluate("test", RuntimeValue::Octets(b"Hello World!".to_vec()))
        .unwrap();
    assert!(result.satisfied());
    assert_eq!(result.output(), &RuntimeValue::text("SGVsbG8gV29ybGQh"));
}

#[test]
fn can_append() {
    let mut world = full_world();
    named(
        &mut world,
        "test::transformed",
        Pattern::Call(
            "string::append".to_string(),
            vec![Pattern::Literal(LiteralValue::Text(".json".to_string()))],
        ),
    );
    let result = world
        .evaluate("test::transformed", RuntimeValue::text("data"))
        .unwrap();
    assert!(result.satisfied());
    assert!(matches!(result.output(), RuntimeValue::Text(_)));
    assert_eq!(result.output(), &RuntimeValue::text("data.json"));
}

#[test]
fn can_prepend() {
    let mut world = full_world();
    named(
        &mut world,
        "test::transformed",
        Pattern::Call(
            "string::prepend".to_string(),
            vec![Pattern::Literal(LiteralValue::Text("my:".to_string()))],
        ),
    );
    let result = world
        .evaluate("test::transformed", RuntimeValue::text("data"))
        .unwrap();
    assert!(result.satisfied());
    assert!(matches!(result.output(), RuntimeValue::Text(_)));
    assert_eq!(result.output(), &RuntimeValue::text("my:data"));
}

#[test]
fn conjunction_keeps_all_children_and_fails_short_text() {
    // And(string-kind, length-at-least<3>) against "ab": not satisfied,
    // two child rationales, first satisfied, second not.
    let world = full_world();
    let pattern = Pattern::And(vec![
        Pattern::KindIs(ValueKind::Text),
        Pattern::LengthAtLeast(3),
    ]);
    let value = RuntimeValue::text("ab");
    let rat = evaluate(&world, &pattern, &value, &Bindings::fresh(), 64).unwrap();
    assert!(!rat.satisfied());
    assert_eq!(rat.children.len(), 2);
    assert!(rat.children[0].satisfied());
    assert!(!rat.children[1].satisfied());
}

#[test]
fn disjunction_accepts_text_unchanged() {
    // Or(is-integer, is-string) against "x": satisfied, output is the
    // input unchanged, severity is quiet.
    let world = full_world();
    let pattern = Pattern::Or(vec![
        Pattern::KindIs(ValueKind::Integer),
        Pattern::KindIs(ValueKind::Text),
    ]);
    let value = RuntimeValue::text("x");
    let rat = evaluate(&world, &pattern, &value, &Bindings::fresh(), 64).unwrap();
    assert!(rat.satisfied());
    assert_eq!(rat.output, Output::Unchanged);
    assert_eq!(rat.severity, Severity::Quiet);
    assert_eq!(rat.children.len(), 2);
}

#[test]
fn decode_transforms_and_failure_names_the_input() {
    // A function-backed decode against well-formed text transforms it to
    // the decoded bytes; against malformed text it is not satisfied with
    // an error-severity finding naming the input, and no error is raised.
    let world = full_world();
    let good = world
        .evaluate("base64::base64", RuntimeValue::text("SGVsbG8gV29ybGQh"))
        .unwrap();
    assert!(good.satisfied());
    assert_eq!(
        good.rationale().output,
        Output::Transform(RuntimeValue::Octets(b"Hello World!".to_vec()))
    );

    let bad = world
        .evaluate("base64::base64", RuntimeValue::text("!!not base64!!"))
        .unwrap();
    assert!(!bad.satisfied());
    assert_eq!(bad.severity(), Severity::Error);
    assert_eq!(
        bad.rationale().reason,
        Some("not base64: !!not base64!!".to_string())
    );
}

#[test]
fn url_safe_decoding_uses_its_own_alphabet() {
    let world = full_world();
    let result = world
        .evaluate("base64::base64-url", RuntimeValue::text("_-8"))
        .unwrap();
    assert!(result.satisfied());
    assert_eq!(result.output(), &RuntimeValue::Octets(vec![0xFF, 0xEF]));
}

#[test]
fn unknown_path_is_a_lookup_error() {
    let world = full_world();
    let err = world
        .evaluate("nowhere::missing", RuntimeValue::Null)
        .unwrap_err();
    assert_eq!(err, EvalError::Lookup("nowhere::missing".to_string()));
}

#[test]
fn wrong_arity_is_an_arity_error() {
    let world = full_world();
    let pattern = Pattern::Call("string::append".to_string(), Vec::new());
    let err = evaluate(
        &world,
        &pattern,
        &RuntimeValue::text("data"),
        &Bindings::fresh(),
        64,
    )
    .unwrap_err();
    assert_eq!(err, EvalError::Arity("string::append".to_string(), 1, 0));
}

#[test]
fn unbound_parameter_is_a_binding_error() {
    let world = full_world();
    let pattern = Pattern::Param("missing".to_string());
    let err = evaluate(
        &world,
        &pattern,
        &RuntimeValue::Null,
        &Bindings::fresh(),
        64,
    )
    .unwrap_err();
    assert_eq!(err, EvalError::Unbound("missing".to_string()));
}

#[test]
fn self_referential_pattern_hits_the_recursion_limit() {
    let mut world = full_world();
    named(&mut world, "test::knot", Pattern::Ref("test::knot".to_string()));
    let err = world
        .evaluate("test::knot", RuntimeValue::Null)
        .unwrap_err();
    assert_eq!(err, EvalError::RecursionLimit);
}

#[test]
fn rebuilt_world_replays_to_an_identical_rationale() {
    let build = || {
        let mut world = full_world();
        named(
            &mut world,
            "test::policy",
            Pattern::And(vec![
                Pattern::KindIs(ValueKind::Text),
                Pattern::Ref("base64::base64".to_string()),
            ]),
        );
        world
    };
    let first = build()
        .evaluate("test::policy", RuntimeValue::text("SGVsbG8gV29ybGQh"))
        .unwrap();
    let second = build()
        .evaluate("test::policy", RuntimeValue::text("SGVsbG8gV29ybGQh"))
        .unwrap();
    assert_eq!(first.rationale(), second.rationale());
}

#[test]
fn refinement_runs_predicate_against_the_transform() {
    let world = full_world();
    let pattern = Pattern::Refine(
        Box::new(Pattern::Ref("base64::base64".to_string())),
        Box::new(Pattern::LengthAtLeast(5)),
    );
    let value = RuntimeValue::text("SGVsbG8gV29ybGQh");
    let rat = evaluate(&world, &pattern, &value, &Bindings::fresh(), 64).unwrap();
    assert!(rat.satisfied());
    assert_eq!(rat.children.len(), 2);
    // the predicate saw the decoded bytes, not the original text
    assert_eq!(
        rat.children[1].input,
        RuntimeValue::Octets(b"Hello World!".to_vec())
    );
    // refinement keeps the base's transform as its own output
    assert_eq!(
        rat.output,
        Output::Transform(RuntimeValue::Octets(b"Hello World!".to_vec()))
    );
}

#[test]
fn refinement_skips_predicate_when_base_fails() {
    let world = full_world();
    let pattern = Pattern::Refine(
        Box::new(Pattern::Ref("base64::base64".to_string())),
        Box::new(Pattern::LengthAtLeast(5)),
    );
    let value = RuntimeValue::text("*** not base64 ***");
    let rat = evaluate(&world, &pattern, &value, &Bindings::fresh(), 64).unwrap();
    assert!(!rat.satisfied());
    assert_eq!(rat.children.len(), 1);
}

#[test]
fn lang_combinators_combine_their_arguments() {
    let world = full_world();
    let pattern = Pattern::Call(
        "lang::Or".to_string(),
        vec![
            Pattern::KindIs(ValueKind::Integer),
            Pattern::KindIs(ValueKind::Text),
        ],
    );
    let rat = evaluate(
        &world,
        &pattern,
        &RuntimeValue::text("x"),
        &Bindings::fresh(),
        64,
    )
    .unwrap();
    assert!(rat.satisfied());

    let all = Pattern::Call(
        "lang::And".to_string(),
        vec![
            Pattern::KindIs(ValueKind::Text),
            Pattern::LengthAtLeast(1),
        ],
    );
    let rat = evaluate(
        &world,
        &all,
        &RuntimeValue::text("x"),
        &Bindings::fresh(),
        64,
    )
    .unwrap();
    assert!(rat.satisfied());
}

#[test]
fn parameterized_pattern_binds_and_evaluates_lazily() {
    let mut world = full_world();
    world.register(
        "test::matches".to_string(),
        Entry::Pattern(PatternDef {
            params: vec!["shape".to_string()],
            body: Pattern::Param("shape".to_string()),
        }),
    );
    let pattern = Pattern::Call(
        "test::matches".to_string(),
        vec![Pattern::KindIs(ValueKind::Text)],
    );
    let rat = evaluate(
        &world,
        &pattern,
        &RuntimeValue::text("hello"),
        &Bindings::fresh(),
        64,
    )
    .unwrap();
    assert!(rat.satisfied());
    let rat = evaluate(
        &world,
        &pattern,
        &RuntimeValue::Integer(7),
        &Bindings::fresh(),
        64,
    )
    .unwrap();
    assert!(!rat.satisfied());
}

#[test]
fn literal_and_range_primitives_match_exactly() {
    let world = full_world();
    let lit = Pattern::Literal(LiteralValue::Integer(42));
    let rat = evaluate(
        &world,
        &lit,
        &RuntimeValue::Integer(42),
        &Bindings::fresh(),
        64,
    )
    .unwrap();
    assert!(rat.satisfied());
    let rat = evaluate(
        &world,
        &lit,
        &RuntimeValue::Integer(41),
        &Bindings::fresh(),
        64,
    )
    .unwrap();
    assert!(!rat.satisfied());

    let range = Pattern::IntegerInRange(1, 10);
    let rat = evaluate(
        &world,
        &range,
        &RuntimeValue::Integer(10),
        &Bindings::fresh(),
        64,
    )
    .unwrap();
    assert!(rat.satisfied());
    let rat = evaluate(
        &world,
        &range,
        &RuntimeValue::Integer(11),
        &Bindings::fresh(),
        64,
    )
    .unwrap();
    assert!(!rat.satisfied());
    let rat = evaluate(
        &world,
        &range,
        &RuntimeValue::text("10"),
        &Bindings::fresh(),
        64,
    )
    .unwrap();
    assert!(!rat.satisfied());
}

#[test]
fn uri_checks_validate_the_scheme() {
    let world = full_world();
    let ok = world
        .evaluate("uri::Url", RuntimeValue::text("https://example.com/x"))
        .unwrap();
    assert!(ok.satisfied());
    let bad = world
        .evaluate("uri::Url", RuntimeValue::text("no scheme here"))
        .unwrap();
    assert!(!bad.satisfied());
    // an IRI may carry text beyond ASCII, a URL may not
    let iri = world
        .evaluate("uri::Iri", RuntimeValue::text("ex:caf\u{e9}"))
        .unwrap();
    assert!(iri.satisfied());
    let url = world
        .evaluate("uri::Url", RuntimeValue::text("ex:caf\u{e9}"))
        .unwrap();
    assert!(!url.satisfied());
    // the scheme must start with a letter and precede the first colon
    let bad_start = world
        .evaluate("uri::Url", RuntimeValue::text("9http://x"))
        .unwrap();
    assert!(!bad_start.satisfied());
    let no_colon = world
        .evaluate("uri::Url", RuntimeValue::text("https"))
        .unwrap();
    assert!(!no_colon.satisfied());
}

#[test]
fn empty_combinators_have_their_vacuous_verdicts() {
    let world = full_world();
    let all = world.evaluate("lang::And", RuntimeValue::Null).unwrap();
    assert!(all.satisfied());
    let any = world.evaluate("lang::Or", RuntimeValue::Null).unwrap();
    assert!(!any.satisfied());
}

#[test]
fn non_text_input_to_decode_is_refused() {
    let world = full_world();
    let result = world
        .evaluate("base64::base64", RuntimeValue::Integer(5))
        .unwrap();
    assert!(!result.satisfied());
    assert_eq!(
        result.rationale().reason,
        Some("Expected a string".to_string())
    );
}

#[test]
fn version_names_the_crate_version() {
    assert_eq!(policy_engine::version(), "0.1.0");
}

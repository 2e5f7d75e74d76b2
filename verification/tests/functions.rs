//! Unit tests of the native capabilities and their metadata, called the
//! way the engine calls them.

use policy_engine::base64::{Alphabet, Base64, Base64Encode};
use policy_engine::bindings::{Bindings, BoundValue};
use policy_engine::concat::Concat;
use policy_engine::eval::evaluate;
use policy_engine::function::FunctionInput;
use policy_engine::pattern::{LiteralValue, Pattern};
use policy_engine::rationale::{Output, Severity};
use policy_engine::value::{Decimal, RuntimeValue, ValueKind};
use policy_engine::world::World;

fn full_world() -> World {
    let mut world = World::new();
    world.add_package(policy_engine::base64::package());
    world.add_package(policy_engine::concat::package());
    world.add_package(policy_engine::lang::package());
    world.add_package(policy_engine::uri::package());
    world
}

#[test]
fn decoder_declares_text_input() {
    let decoder = Base64::new(Alphabet::Standard);
    assert_eq!(decoder.input(), FunctionInput::Text);
    assert_eq!(decoder.ident(), "base64::base64");
    assert_eq!(
        Base64::new(Alphabet::UrlNoPad).ident(),
        "base64::base64-url"
    );
}

#[test]
fn metadata_and_examples_describe_the_capabilities() {
    let decoder = Base64::new(Alphabet::Standard);
    assert!(decoder.metadata().documentation.is_some());
    assert!(Base64Encode.metadata().documentation.is_some());
    // each alphabet carries its own documentation
    assert_ne!(
        decoder.metadata(),
        Base64::new(Alphabet::UrlNoPad).metadata()
    );
    let pkg = policy_engine::base64::package();
    assert_eq!(
        pkg.documentation(),
        Some(&"Functionality for processing base64 encoded data".to_string())
    );
    let examples = decoder.examples();
    assert_eq!(examples.len(), 2);
    assert_eq!(examples[0].name, "default");
    assert_eq!(
        examples[0].value,
        RuntimeValue::text("SGVsbG8gUm9kbmV5IQ==")
    );
    assert_eq!(examples[1].name, "failure");
    assert_eq!(examples[1].value, RuntimeValue::text("foo bar"));
}

#[test]
fn concat_declares_its_parameter() {
    let params = Concat::Append.parameters();
    assert_eq!(params, vec!["value".to_string()]);
    assert!(Concat::Prepend.documentation().is_some());
}

#[test]
fn concat_passes_non_text_input_through() {
    let mut world = full_world();
    world.register(
        "test::suffix".to_string(),
        policy_engine::world::Entry::Pattern(policy_engine::world::PatternDef {
            params: Vec::new(),
            body: Pattern::Call(
                "string::append".to_string(),
                vec![Pattern::Literal(LiteralValue::Text(".json".to_string()))],
            ),
        }),
    );
    let result = world
        .evaluate("test::suffix", RuntimeValue::Integer(3))
        .unwrap();
    assert!(result.satisfied());
    assert_eq!(result.output(), &RuntimeValue::Integer(3));
}

#[test]
fn encode_refuses_non_octet_input_with_a_reason() {
    let world = full_world();
    let result = world
        .evaluate("base64::base64-encode", RuntimeValue::text("text"))
        .unwrap();
    assert!(!result.satisfied());
    assert_eq!(result.severity(), Severity::Error);
    assert_eq!(
        result.rationale().reason,
        Some("Expected a byte sequence".to_string())
    );
}

#[test]
fn encoding_an_empty_sequence_yields_empty_text() {
    let world = full_world();
    let result = world
        .evaluate("base64::base64-encode", RuntimeValue::Octets(Vec::new()))
        .unwrap();
    assert!(result.satisfied());
    assert_eq!(result.output(), &RuntimeValue::text(""));
}

#[test]
fn bound_literal_parameter_compares_against_the_input() {
    let mut world = full_world();
    world.register(
        "test::exactly".to_string(),
        policy_engine::world::Entry::Pattern(policy_engine::world::PatternDef {
            params: vec!["expected".to_string()],
            body: Pattern::Param("expected".to_string()),
        }),
    );
    let call = Pattern::Call(
        "test::exactly".to_string(),
        vec![Pattern::Literal(LiteralValue::Integer(7))],
    );
    let hit = evaluate(
        &world,
        &call,
        &RuntimeValue::Integer(7),
        &Bindings::fresh(),
        64,
    )
    .unwrap();
    assert!(hit.satisfied());
    let miss = evaluate(
        &world,
        &call,
        &RuntimeValue::Integer(8),
        &Bindings::fresh(),
        64,
    )
    .unwrap();
    assert!(!miss.satisfied());
}

#[test]
fn length_bound_applies_to_text_octets_and_lists() {
    let world = full_world();
    let bound = Pattern::LengthAtLeast(2);
    let cases = [
        (RuntimeValue::text("ab"), true),
        (RuntimeValue::text("a"), false),
        (RuntimeValue::Octets(vec![1, 2, 3]), true),
        (RuntimeValue::Octets(vec![1]), false),
        (
            RuntimeValue::List(vec![RuntimeValue::Null, RuntimeValue::Null]),
            true,
        ),
        (RuntimeValue::List(Vec::new()), false),
        (RuntimeValue::Integer(99), false),
    ];
    for (value, expected) in cases {
        let rat = evaluate(&world, &bound, &value, &Bindings::fresh(), 64).unwrap();
        assert_eq!(rat.satisfied(), expected);
    }
}

#[test]
fn kinds_cover_the_whole_value_model() {
    let cases = [
        (RuntimeValue::Null, ValueKind::Null),
        (RuntimeValue::Boolean(true), ValueKind::Boolean),
        (RuntimeValue::Integer(1), ValueKind::Integer),
        (
            RuntimeValue::Decimal(Decimal {
                unscaled: 125,
                scale: 2,
            }),
            ValueKind::Decimal,
        ),
        (RuntimeValue::text("x"), ValueKind::Text),
        (RuntimeValue::Octets(vec![0]), ValueKind::Octets),
        (RuntimeValue::List(Vec::new()), ValueKind::List),
        (RuntimeValue::Object(Vec::new()), ValueKind::Object),
    ];
    for (value, kind) in cases {
        assert_eq!(value.kind(), kind);
    }
}

#[test]
fn first_binding_of_a_name_wins() {
    let mut bindings = Bindings::fresh();
    bindings.push(
        "value".to_string(),
        BoundValue::Val(LiteralValue::Integer(1)),
    );
    bindings.push(
        "value".to_string(),
        BoundValue::Val(LiteralValue::Integer(2)),
    );
    match bindings.get("value") {
        Some(BoundValue::Val(LiteralValue::Integer(i))) => assert_eq!(*i, 1),
        other => panic!("unexpected binding: {:?}", other),
    }
    assert!(bindings.get("missing").is_none());
}

#[test]
fn disjunction_severity_is_the_mildest_when_satisfied() {
    let world = full_world();
    let pattern = Pattern::Or(vec![
        Pattern::KindIs(ValueKind::Integer),
        Pattern::KindIs(ValueKind::Text),
    ]);
    let rat = evaluate(
        &world,
        &pattern,
        &RuntimeValue::text("x"),
        &Bindings::fresh(),
        64,
    )
    .unwrap();
    // one child fails with Error, one passes with Quiet: the node takes
    // the mildest, and stays satisfied
    assert_eq!(rat.severity, Severity::Quiet);
    let both_fail = evaluate(
        &world,
        &pattern,
        &RuntimeValue::Null,
        &Bindings::fresh(),
        64,
    )
    .unwrap();
    assert_eq!(both_fail.severity, Severity::Error);
}

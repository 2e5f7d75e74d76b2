//! The evaluation engine: drives a pattern against a value using a world
//! and bindings, producing a rationale tree with a verdict.
//!
//! Every arm of the evaluator is specified by [`spec_eval`], a total
//! function of the world, pattern, value, bindings and recursion budget;
//! determinism of evaluation is therefore a theorem, not an aspiration.
//! The budget bounds recursion through nominal references, so evaluation
//! terminates even on cyclic pattern graphs, reporting a recursion-limit
//! error instead of looping.

use vstd::prelude::*;

use crate::bindings::{spec_bindings_get, Bindings, BoundValue, SpecBindings, SpecBound};
use crate::function::{FunctionEvaluationResult, FunctionValue, SpecFunctionResult};
use crate::lang::CombKind;
use crate::pattern::{lemma_model_patterns, model_patterns, Pattern, SpecPattern};
use crate::rationale::{
    lemma_model_rationales, model_rationales, EvalError, Output, Rationale, Severity, SpecError,
    SpecOutput, SpecRationale,
};
use crate::value::{RuntimeValue, SpecValue, ValueKind};
use crate::world::{lemma_model_names, model_names, spec_world_get, Entry, SpecEntry, SpecWorld, World};

verus! {

/// The recursion budget a fresh evaluation starts with: how many nominal
/// or parameter indirections may be followed before the engine reports a
/// recursion-limit error.
pub const DEFAULT_BUDGET: u32 = 64;

/// The coarse kind of a modelled value.
pub open spec fn spec_kind_of(v: SpecValue) -> ValueKind {
    match v {
        SpecValue::Null => ValueKind::Null,
        SpecValue::Boolean(_) => ValueKind::Boolean,
        SpecValue::Integer(_) => ValueKind::Integer,
        SpecValue::Decimal(_) => ValueKind::Decimal,
        SpecValue::Text(_) => ValueKind::Text,
        SpecValue::Octets(_) => ValueKind::Octets,
        SpecValue::List(_) => ValueKind::List,
        SpecValue::Object(_) => ValueKind::Object,
    }
}

/// Whether a modelled value has a length of at least `n`: text by
/// characters, byte sequences by bytes, lists by elements; other kinds
/// have no length and never satisfy the bound.
pub open spec fn spec_length_at_least(v: SpecValue, n: nat) -> bool {
    match v {
        SpecValue::Text(s) => s.len() >= n,
        SpecValue::Octets(b) => b.len() >= n,
        SpecValue::List(l) => l.len() >= n,
        _ => false,
    }
}

/// A childless rationale node that passes the value through.
pub open spec fn spec_leaf(
    ident: Seq<char>,
    v: SpecValue,
    severity: Severity,
    reason: Option<Seq<char>>,
) -> SpecRationale {
    SpecRationale {
        ident,
        input: v,
        output: SpecOutput::Unchanged,
        severity,
        reason,
        children: Seq::empty(),
    }
}

/// A rationale node wrapping one child under a referenced name, carrying
/// the child's outcome.
pub open spec fn spec_wrap(ident: Seq<char>, v: SpecValue, c: SpecRationale) -> SpecRationale {
    SpecRationale {
        ident,
        input: v,
        output: c.output,
        severity: c.severity,
        reason: None,
        children: seq![c],
    }
}

/// A rationale node recording one capability call.
pub open spec fn spec_function_node(
    ident: Seq<char>,
    v: SpecValue,
    fr: SpecFunctionResult,
) -> SpecRationale {
    SpecRationale {
        ident,
        input: v,
        output: fr.output,
        severity: fr.severity,
        reason: fr.reason,
        children: Seq::empty(),
    }
}

/// The worst severity among child outcomes; `Quiet` when there are none.
pub open spec fn spec_worst_of(rs: Seq<SpecRationale>) -> Severity
    decreases rs,
{
    if rs.len() == 0 {
        Severity::Quiet
    } else {
        spec_worst_of(rs.drop_last()).spec_worst(rs.last().severity)
    }
}

/// The mildest severity among child outcomes; `Error` when there are none.
pub open spec fn spec_mildest_of(rs: Seq<SpecRationale>) -> Severity
    decreases rs,
{
    if rs.len() == 0 {
        Severity::Error
    } else {
        spec_mildest_of(rs.drop_last()).spec_mildest(rs.last().severity)
    }
}

/// Whether at least one child outcome is satisfied.
pub open spec fn spec_any_satisfied(rs: Seq<SpecRationale>) -> bool {
    exists|i: int| 0 <= i < rs.len() && rs[i].severity.spec_satisfied()
}

/// The severity of a disjunction: the mildest child if any child is
/// satisfied, else `Error`.
pub open spec fn spec_or_severity(rs: Seq<SpecRationale>) -> Severity {
    if spec_any_satisfied(rs) {
        spec_mildest_of(rs)
    } else {
        Severity::Error
    }
}

/// The output of a conjunction: the transform of the last transforming
/// child, or pass-through when no child transformed.
pub open spec fn spec_and_output(rs: Seq<SpecRationale>) -> SpecOutput
    decreases rs,
{
    if rs.len() == 0 {
        SpecOutput::Unchanged
    } else {
        match rs.last().output {
            SpecOutput::Transform(_) => rs.last().output,
            SpecOutput::Unchanged => spec_and_output(rs.drop_last()),
        }
    }
}

/// The output of a disjunction: the output of the first satisfied child,
/// or pass-through when no child is satisfied.
pub open spec fn spec_or_output(rs: Seq<SpecRationale>) -> SpecOutput
    decreases rs,
{
    if rs.len() == 0 {
        SpecOutput::Unchanged
    } else if spec_any_satisfied(rs.drop_last()) {
        spec_or_output(rs.drop_last())
    } else if rs.last().severity.spec_satisfied() {
        rs.last().output
    } else {
        SpecOutput::Unchanged
    }
}

/// The rationale of a conjunction node.
pub open spec fn spec_and_node(
    ident: Seq<char>,
    v: SpecValue,
    rs: Seq<SpecRationale>,
) -> SpecRationale {
    SpecRationale {
        ident,
        input: v,
        output: spec_and_output(rs),
        severity: spec_worst_of(rs),
        reason: None,
        children: rs,
    }
}

/// The rationale of a disjunction node.
pub open spec fn spec_or_node(
    ident: Seq<char>,
    v: SpecValue,
    rs: Seq<SpecRationale>,
) -> SpecRationale {
    SpecRationale {
        ident,
        input: v,
        output: spec_or_output(rs),
        severity: spec_or_severity(rs),
        reason: None,
        children: rs,
    }
}

/// The rationale of a refinement whose base was not satisfied: the
/// predicate is skipped, and the node carries the base's outcome alone.
pub open spec fn spec_refine_skip(
    ident: Seq<char>,
    v: SpecValue,
    br: SpecRationale,
) -> SpecRationale {
    SpecRationale {
        ident,
        input: v,
        output: br.output,
        severity: br.severity,
        reason: None,
        children: seq![br],
    }
}

/// The rationale of a refinement whose both stages ran: the output is the
/// base's output — refinement filters, it does not retransform — and the
/// severity is the worse of the two stages.
pub open spec fn spec_refine_both(
    ident: Seq<char>,
    v: SpecValue,
    br: SpecRationale,
    pr: SpecRationale,
) -> SpecRationale {
    SpecRationale {
        ident,
        input: v,
        output: br.output,
        severity: br.severity.spec_worst(pr.severity),
        reason: None,
        children: seq![br, pr],
    }
}

/// The value a refinement's predicate runs against: the base's transform
/// when there is one, the original input otherwise.
pub open spec fn spec_refined_value(v: SpecValue, out: SpecOutput) -> SpecValue {
    match out {
        SpecOutput::Transform(nv) => nv,
        SpecOutput::Unchanged => v,
    }
}

/// How an argument pattern is bound: a literal argument is resolved to its
/// value, any other argument stays a pattern for lazy evaluation.
pub open spec fn spec_bound_of(p: SpecPattern) -> SpecBound {
    match p {
        SpecPattern::Literal(l) => SpecBound::Val(l),
        _ => SpecBound::Pat(p),
    }
}

/// The fresh bindings of one instantiation: parameter names zipped with
/// bound arguments, in declaration order.
pub open spec fn spec_bind_args(params: Seq<Seq<char>>, args: Seq<SpecPattern>) -> SpecBindings
    decreases params,
{
    if params.len() == 0 || args.len() == 0 {
        Seq::empty()
    } else {
        spec_bind_args(params.drop_last(), args.drop_last()).push(
            (params.last(), spec_bound_of(args.last())),
        )
    }
}

/// The parameter names a capability declares.
pub open spec fn spec_params_of(f: FunctionValue) -> Seq<Seq<char>> {
    match f {
        FunctionValue::Concat(_) => seq!["value"@],
        _ => Seq::empty(),
    }
}

/// What evaluating a pattern against a value yields: a rationale tree, or
/// a fatal evaluation error. This is the engine's complete specification;
/// it is a function of its arguments, so evaluation is deterministic.
pub open spec fn spec_eval(
    w: SpecWorld,
    p: SpecPattern,
    v: SpecValue,
    b: SpecBindings,
    fuel: nat,
) -> Result<SpecRationale, SpecError>
    decreases fuel, p, 1int,
{
    match p {
        SpecPattern::KindIs(k) => Ok(
            spec_leaf(
                "kind"@,
                v,
                if spec_kind_of(v) == k {
                    Severity::Quiet
                } else {
                    Severity::Error
                },
                None,
            ),
        ),
        SpecPattern::Literal(l) => Ok(
            spec_leaf(
                "literal"@,
                v,
                if v == l {
                    Severity::Quiet
                } else {
                    Severity::Error
                },
                None,
            ),
        ),
        SpecPattern::IntegerInRange(lo, hi) => Ok(
            spec_leaf(
                "integer-in-range"@,
                v,
                match v {
                    SpecValue::Integer(i) => if lo <= i && i <= hi {
                        Severity::Quiet
                    } else {
                        Severity::Error
                    },
                    _ => Severity::Error,
                },
                None,
            ),
        ),
        SpecPattern::LengthAtLeast(n) => Ok(
            spec_leaf(
                "length-at-least"@,
                v,
                if spec_length_at_least(v, n) {
                    Severity::Quiet
                } else {
                    Severity::Error
                },
                None,
            ),
        ),
        SpecPattern::Param(name) => match spec_bindings_get(b, name) {
            None => Err(SpecError::Unbound(name)),
            Some(SpecBound::Val(val)) => Ok(
                spec_leaf(
                    name,
                    v,
                    if v == val {
                        Severity::Quiet
                    } else {
                        Severity::Error
                    },
                    None,
                ),
            ),
            Some(SpecBound::Pat(p2)) => if fuel == 0 {
                Err(SpecError::RecursionLimit)
            } else {
                match spec_eval(w, p2, v, b, (fuel - 1) as nat) {
                    Err(e) => Err(e),
                    Ok(c) => Ok(spec_wrap(name, v, c)),
                }
            },
        },
        SpecPattern::Ref(path) => match spec_world_get(w, path) {
            None => Err(SpecError::Lookup(path)),
            Some(SpecEntry::Function(f)) => match f.spec_call(v, Seq::empty()) {
                Err(e) => Err(e),
                Ok(fr) => Ok(spec_function_node(path, v, fr)),
            },
            Some(SpecEntry::Combinator(c)) => match c {
                CombKind::And => Ok(spec_and_node(path, v, Seq::empty())),
                CombKind::Or => Ok(spec_or_node(path, v, Seq::empty())),
                CombKind::Refine => Err(SpecError::Arity(path, 2, 0)),
            },
            Some(SpecEntry::Pattern { params, body }) => if params.len() != 0 {
                Err(SpecError::Arity(path, params.len() as int, 0))
            } else if fuel == 0 {
                Err(SpecError::RecursionLimit)
            } else {
                match spec_eval(w, body, v, Seq::empty(), (fuel - 1) as nat) {
                    Err(e) => Err(e),
                    Ok(c) => Ok(spec_wrap(path, v, c)),
                }
            },
        },
        SpecPattern::Call(path, args) => match spec_world_get(w, path) {
            None => Err(SpecError::Lookup(path)),
            Some(SpecEntry::Combinator(c)) => match c {
                CombKind::And => match spec_eval_list(w, args, v, b, fuel) {
                    Err(e) => Err(e),
                    Ok(rs) => Ok(spec_and_node(path, v, rs)),
                },
                CombKind::Or => match spec_eval_list(w, args, v, b, fuel) {
                    Err(e) => Err(e),
                    Ok(rs) => Ok(spec_or_node(path, v, rs)),
                },
                CombKind::Refine => if args.len() != 2 {
                    Err(SpecError::Arity(path, 2, args.len() as int))
                } else {
                    match spec_eval(w, args[0], v, b, fuel) {
                        Err(e) => Err(e),
                        Ok(br) => if !br.severity.spec_satisfied() {
                            Ok(spec_refine_skip(path, v, br))
                        } else {
                            match spec_eval(w, args[1], spec_refined_value(v, br.output), b, fuel) {
                                Err(e) => Err(e),
                                Ok(pr) => Ok(spec_refine_both(path, v, br, pr)),
                            }
                        },
                    }
                },
            },
            Some(SpecEntry::Function(f)) => if spec_params_of(f).len() != args.len() {
                Err(SpecError::Arity(path, spec_params_of(f).len() as int, args.len() as int))
            } else {
                match f.spec_call(v, spec_bind_args(spec_params_of(f), args)) {
                    Err(e) => Err(e),
                    Ok(fr) => Ok(spec_function_node(path, v, fr)),
                }
            },
            Some(SpecEntry::Pattern { params, body }) => if params.len() != args.len() {
                Err(SpecError::Arity(path, params.len() as int, args.len() as int))
            } else if fuel == 0 {
                Err(SpecError::RecursionLimit)
            } else {
                match spec_eval(w, body, v, spec_bind_args(params, args), (fuel - 1) as nat) {
                    Err(e) => Err(e),
                    Ok(c) => Ok(spec_wrap(path, v, c)),
                }
            },
        },
        SpecPattern::And(children) => match spec_eval_list(w, children, v, b, fuel) {
            Err(e) => Err(e),
            Ok(rs) => Ok(spec_and_node("and"@, v, rs)),
        },
        SpecPattern::Or(children) => match spec_eval_list(w, children, v, b, fuel) {
            Err(e) => Err(e),
            Ok(rs) => Ok(spec_or_node("or"@, v, rs)),
        },
        SpecPattern::Refine(base, refinement) => match spec_eval(w, *base, v, b, fuel) {
            Err(e) => Err(e),
            Ok(br) => if !br.severity.spec_satisfied() {
                Ok(spec_refine_skip("refine"@, v, br))
            } else {
                match spec_eval(w, *refinement, spec_refined_value(v, br.output), b, fuel) {
                    Err(e) => Err(e),
                    Ok(pr) => Ok(spec_refine_both("refine"@, v, br, pr)),
                }
            },
        },
        SpecPattern::Delegate(f) => match f.spec_call(v, b) {
            Err(e) => Err(e),
            Ok(fr) => Ok(spec_function_node(f.spec_ident(), v, fr)),
        },
    }
}

/// What evaluating a list of child patterns against one value yields: all
/// their rationales in declared order, or the first fatal error in
/// left-to-right order. Every child is evaluated; there is no
/// short-circuiting on non-satisfaction.
pub open spec fn spec_eval_list(
    w: SpecWorld,
    ps: Seq<SpecPattern>,
    v: SpecValue,
    b: SpecBindings,
    fuel: nat,
) -> Result<Seq<SpecRationale>, SpecError>
    decreases fuel, ps, 0int,
{
    if ps.len() == 0 {
        Ok(Seq::empty())
    } else {
        match spec_eval_list(w, ps.drop_last(), v, b, fuel) {
            Err(e) => Err(e),
            Ok(rs) => match spec_eval(w, ps.last(), v, b, fuel) {
                Err(e) => Err(e),
                Ok(r) => Ok(rs.push(r)),
            },
        }
    }
}

/// The model of an optional reason text.
pub open spec fn spec_opt_text(o: Option<String>) -> Option<Seq<char>> {
    match o {
        Some(s) => Some(s@),
        None => None,
    }
}

/// When no child outcome is satisfied, a disjunction passes the value
/// through.
proof fn lemma_or_output_unsat(rs: Seq<SpecRationale>)
    requires
        !spec_any_satisfied(rs),
    ensures
        spec_or_output(rs) == SpecOutput::Unchanged,
    decreases rs,
{
    if rs.len() > 0 {
        assert(forall|i: int|
            0 <= i < rs.drop_last().len() ==> rs.drop_last()[i] == rs[i]);
        lemma_or_output_unsat(rs.drop_last());
        assert(!rs.last().severity.spec_satisfied());
    }
}

/// A fatal error in a prefix of a child list decides the whole list.
proof fn lemma_eval_list_err_persists(
    w: SpecWorld,
    ps: Seq<SpecPattern>,
    v: SpecValue,
    b: SpecBindings,
    fuel: nat,
    i: int,
)
    requires
        0 <= i <= ps.len(),
        spec_eval_list(w, ps.take(i), v, b, fuel) is Err,
    ensures
        spec_eval_list(w, ps, v, b, fuel) == spec_eval_list(w, ps.take(i), v, b, fuel),
    decreases ps.len() - i,
{
    if i == ps.len() {
        assert(ps.take(i) =~= ps);
    } else {
        assert(ps.take(i + 1).drop_last() =~= ps.take(i));
        lemma_eval_list_err_persists(w, ps, v, b, fuel, i + 1);
    }
}

/// A childless rationale node that passes the value through.
fn leaf(ident: String, input: &RuntimeValue, severity: Severity, reason: Option<String>) -> (r:
    Rationale)
    ensures
        r.model() == spec_leaf(ident@, input.model(), severity, spec_opt_text(reason)),
{
    let r = Rationale {
        ident,
        input: input.duplicate(),
        output: Output::Unchanged,
        severity,
        reason,
        children: Vec::new(),
    };
    proof {
        assert(model_rationales(r.children@) =~= Seq::<SpecRationale>::empty());
    }
    r
}

/// A rationale node wrapping one child under a referenced name.
fn wrap_node(ident: String, input: &RuntimeValue, child: Rationale) -> (r: Rationale)
    ensures
        r.model() == spec_wrap(ident@, input.model(), child.model()),
{
    let out = child.output.duplicate();
    let severity = child.severity;
    let mut children: Vec<Rationale> = Vec::new();
    children.push(child);
    let r = Rationale {
        ident,
        input: input.duplicate(),
        output: out,
        severity,
        reason: None,
        children,
    };
    proof {
        lemma_model_rationales(r.children@);
        assert(model_rationales(r.children@) =~= seq![r.children@[0].model()]);
    }
    r
}

/// A rationale node recording one capability call.
fn function_node(ident: String, input: &RuntimeValue, fr: FunctionEvaluationResult) -> (r:
    Rationale)
    ensures
        r.model() == spec_function_node(ident@, input.model(), fr.model()),
{
    let r = Rationale {
        ident,
        input: input.duplicate(),
        output: fr.output,
        severity: fr.severity,
        reason: fr.reason,
        children: Vec::new(),
    };
    proof {
        assert(model_rationales(r.children@) =~= Seq::<SpecRationale>::empty());
    }
    r
}

/// The rationale of a refinement whose base was not satisfied.
fn refine_skip_node(ident: String, input: &RuntimeValue, br: Rationale) -> (r: Rationale)
    ensures
        r.model() == spec_refine_skip(ident@, input.model(), br.model()),
{
    let out = br.output.duplicate();
    let severity = br.severity;
    let mut children: Vec<Rationale> = Vec::new();
    children.push(br);
    let r = Rationale {
        ident,
        input: input.duplicate(),
        output: out,
        severity,
        reason: None,
        children,
    };
    proof {
        lemma_model_rationales(r.children@);
        assert(model_rationales(r.children@) =~= seq![r.children@[0].model()]);
    }
    r
}

/// The rationale of a refinement whose both stages ran.
fn refine_both_node(ident: String, input: &RuntimeValue, br: Rationale, pr: Rationale) -> (r:
    Rationale)
    ensures
        r.model() == spec_refine_both(ident@, input.model(), br.model(), pr.model()),
{
    let out = br.output.duplicate();
    let severity = br.severity.worst(pr.severity);
    let mut children: Vec<Rationale> = Vec::new();
    children.push(br);
    children.push(pr);
    let r = Rationale {
        ident,
        input: input.duplicate(),
        output: out,
        severity,
        reason: None,
        children,
    };
    proof {
        lemma_model_rationales(r.children@);
        assert(model_rationales(r.children@) =~= seq![
            r.children@[0].model(),
            r.children@[1].model(),
        ]);
    }
    r
}

/// The rationale of a conjunction node over evaluated children.
fn and_node(ident: String, input: &RuntimeValue, rs: Vec<Rationale>) -> (r: Rationale)
    ensures
        r.model() == spec_and_node(ident@, input.model(), model_rationales(rs@)),
{
    let ghost ms = model_rationales(rs@);
    proof {
        lemma_model_rationales(rs@);
        assert(ms.take(0) =~= Seq::<SpecRationale>::empty());
    }
    let mut severity = Severity::Quiet;
    let mut out = Output::Unchanged;
    let mut i: usize = 0;
    while i < rs.len()
        invariant
            i <= rs.len(),
            ms == model_rationales(rs@),
            ms.len() == rs@.len(),
            forall|j: int| 0 <= j < rs@.len() ==> #[trigger] ms[j] == rs@[j].model(),
            severity == spec_worst_of(ms.take(i as int)),
            out.model() == spec_and_output(ms.take(i as int)),
        decreases rs.len() - i,
    {
        proof {
            assert(ms.take(i as int + 1).drop_last() =~= ms.take(i as int));
            assert(ms.take(i as int + 1).last() == ms[i as int]);
        }
        match &rs[i].output {
            Output::Transform(_) => {
                out = rs[i].output.duplicate();
            },
            Output::Unchanged => {},
        }
        severity = severity.worst(rs[i].severity);
        i = i + 1;
    }
    proof {
        assert(ms.take(rs@.len() as int) =~= ms);
    }
    Rationale {
        ident,
        input: input.duplicate(),
        output: out,
        severity,
        reason: None,
        children: rs,
    }
}

/// The rationale of a disjunction node over evaluated children.
fn or_node(ident: String, input: &RuntimeValue, rs: Vec<Rationale>) -> (r: Rationale)
    ensures
        r.model() == spec_or_node(ident@, input.model(), model_rationales(rs@)),
{
    let ghost ms = model_rationales(rs@);
    proof {
        lemma_model_rationales(rs@);
        assert(ms.take(0) =~= Seq::<SpecRationale>::empty());
    }
    let mut any = false;
    let mut mildest = Severity::Error;
    let mut out = Output::Unchanged;
    let mut i: usize = 0;
    while i < rs.len()
        invariant
            i <= rs.len(),
            ms == model_rationales(rs@),
            ms.len() == rs@.len(),
            forall|j: int| 0 <= j < rs@.len() ==> #[trigger] ms[j] == rs@[j].model(),
            any == spec_any_satisfied(ms.take(i as int)),
            mildest == spec_mildest_of(ms.take(i as int)),
            out.model() == spec_or_output(ms.take(i as int)),
        decreases rs.len() - i,
    {
        proof {
            assert(ms.take(i as int + 1).drop_last() =~= ms.take(i as int));
            assert(ms.take(i as int + 1).last() == ms[i as int]);
        }
        let sat_here = rs[i].severity.satisfied();
        if !any && sat_here {
            proof {
                lemma_or_output_unsat(ms.take(i as int));
            }
            out = rs[i].output.duplicate();
        }
        mildest = mildest.mildest(rs[i].severity);
        if sat_here {
            any = true;
            proof {
                assert(ms.take(i as int + 1)[i as int].severity.spec_satisfied());
            }
        } else {
            proof {
                let ghost taken = ms.take(i as int + 1);
                if spec_any_satisfied(taken) {
                    let ghost j0 = choose|j: int|
                        0 <= j < taken.len() && taken[j].severity.spec_satisfied();
                    if j0 < i {
                        assert(ms.take(i as int)[j0].severity.spec_satisfied());
                    }
                }
            }
        }
        i = i + 1;
    }
    proof {
        assert(ms.take(rs@.len() as int) =~= ms);
    }
    Rationale {
        ident,
        input: input.duplicate(),
        output: out,
        severity: if any {
            mildest
        } else {
            Severity::Error
        },
        reason: None,
        children: rs,
    }
}

/// The parameter names a capability declares.
fn params_of(f: &FunctionValue) -> (r: Vec<String>)
    ensures
        model_names(r@) == spec_params_of(*f),
{
    match f {
        FunctionValue::Concat(c) => {
            let r = c.parameters();
            proof {
                lemma_model_names(r@);
                assert(model_names(r@) =~= spec_params_of(*f));
            }
            r
        },
        _ => {
            let r: Vec<String> = Vec::new();
            proof {
                assert(model_names(r@) =~= spec_params_of(*f));
            }
            r
        },
    }
}

/// Fresh bindings for one instantiation: parameter names zipped with
/// bound arguments.
fn bind_args(params: &Vec<String>, args: &Vec<Pattern>) -> (r: Bindings)
    requires
        params@.len() == args@.len(),
    ensures
        r.model() == spec_bind_args(model_names(params@), model_patterns(args@)),
    decreases args@.len(),
{
    let ghost names = model_names(params@);
    let ghost pats = model_patterns(args@);
    proof {
        lemma_model_names(params@);
        lemma_model_patterns(args@);
    }
    let mut b = Bindings::fresh();
    let mut i: usize = 0;
    proof {
        assert(spec_bind_args(names.take(0), pats.take(0)) =~= Seq::<
            (Seq<char>, SpecBound),
        >::empty());
    }
    while i < params.len()
        invariant
            params@.len() == args@.len(),
            i <= params.len(),
            names == model_names(params@),
            pats == model_patterns(args@),
            names.len() == params@.len(),
            pats.len() == args@.len(),
            forall|j: int| 0 <= j < params@.len() ==> #[trigger] names[j] == params@[j]@,
            forall|j: int| 0 <= j < args@.len() ==> #[trigger] pats[j] == args@[j].model(),
            b.model() == spec_bind_args(names.take(i as int), pats.take(i as int)),
        decreases params.len() - i,
    {
        let bound = match &args[i] {
            Pattern::Literal(l) => BoundValue::Val(l.duplicate()),
            other => BoundValue::Pat(other.duplicate()),
        };
        proof {
            assert(bound.model() == spec_bound_of(pats[i as int]));
        }
        b.push(params[i].clone(), bound);
        proof {
            assert(names.take(i as int + 1).drop_last() =~= names.take(i as int));
            assert(pats.take(i as int + 1).drop_last() =~= pats.take(i as int));
            assert(b.model() =~= spec_bind_args(names.take(i as int + 1), pats.take(i as int + 1)));
        }
        i = i + 1;
    }
    proof {
        assert(names.take(params@.len() as int) =~= names);
        assert(pats.take(args@.len() as int) =~= pats);
    }
    b
}

/// Evaluates every child pattern against the same value, in declared
/// order, collecting all rationales; the first fatal error aborts.
fn eval_children(
    world: &World,
    whole: &Pattern,
    children: &Vec<Pattern>,
    value: &RuntimeValue,
    bindings: &Bindings,
    budget: u32,
) -> (r: Result<Vec<Rationale>, EvalError>)
    requires
        decreases_to!(*whole => *children),
    ensures
        ({
            let s = spec_eval_list(
                world.model(),
                model_patterns(children@),
                value.model(),
                bindings.model(),
                budget as nat,
            );
            match r {
                Ok(rats) => s == Ok::<Seq<SpecRationale>, SpecError>(model_rationales(rats@)),
                Err(e) => s == Err::<Seq<SpecRationale>, SpecError>(e.model()),
            }
        }),
    decreases budget, *whole, 1int,
{
    let ghost wm = world.model();
    let ghost pats = model_patterns(children@);
    let ghost vm = value.model();
    let ghost bm = bindings.model();
    let ghost fuel = budget as nat;
    proof {
        lemma_model_patterns(children@);
        assert(pats.take(0) =~= Seq::<SpecPattern>::empty());
    }
    let mut out: Vec<Rationale> = Vec::new();
    let mut i: usize = 0;
    proof {
        assert(model_rationales(out@) =~= Seq::<SpecRationale>::empty());
    }
    while i < children.len()
        invariant
            decreases_to!(*whole => *children),
            i <= children.len(),
            wm == world.model(),
            pats == model_patterns(children@),
            vm == value.model(),
            bm == bindings.model(),
            fuel == budget as nat,
            pats.len() == children@.len(),
            forall|j: int| 0 <= j < children@.len() ==> #[trigger] pats[j] == children@[j].model(),
            spec_eval_list(wm, pats.take(i as int), vm, bm, fuel) == Ok::<
                Seq<SpecRationale>,
                SpecError,
            >(model_rationales(out@)),
        decreases children.len() - i,
    {
        proof {
            broadcast use vstd::std_specs::vec::group_vec_axioms;

            assert(decreases_to!(*children => children[i as int]));
            assert(pats.take(i as int + 1).drop_last() =~= pats.take(i as int));
            assert(pats.take(i as int + 1).last() == pats[i as int]);
        }
        let ghost out_before = model_rationales(out@);
        match evaluate(world, &children[i], value, bindings, budget) {
            Err(e) => {
                proof {
                    lemma_eval_list_err_persists(wm, pats, vm, bm, fuel, i as int + 1);
                }
                return Err(e);
            },
            Ok(rat) => {
                let ghost rm = rat.model();
                let ghost prior = out@;
                out.push(rat);
                proof {
                    crate::rationale::lemma_model_rationales_push(
                        prior,
                        out@[prior.len() as int],
                    );
                    assert(model_rationales(out@) =~= out_before.push(rm));
                }
            },
        }
        i = i + 1;
    }
    proof {
        assert(pats.take(children@.len() as int) =~= pats);
    }
    Ok(out)
}

/// Evaluates a nominal reference: resolves the path through the world and
/// recurses into what it names, under a fresh bindings scope.
#[verifier::rlimit(60)]
fn eval_ref(
    world: &World,
    pattern: &Pattern,
    path: &String,
    value: &RuntimeValue,
    bindings: &Bindings,
    budget: u32,
) -> (r: Result<Rationale, EvalError>)
    requires
        *pattern == Pattern::Ref(*path),
    ensures
        ({
            let s = spec_eval(
                world.model(),
                pattern.model(),
                value.model(),
                bindings.model(),
                budget as nat,
            );
            match r {
                Ok(rat) => s == Ok::<SpecRationale, SpecError>(rat.model()),
                Err(e) => s == Err::<SpecRationale, SpecError>(e.model()),
            }
        }),
    decreases budget, *pattern, 2int,
{
    match world.resolve(path.as_str()) {
        None => Err(EvalError::Lookup(path.clone())),
        Some(Entry::Function(f)) => {
            let fv = *f;
            let fresh = Bindings::fresh();
            match fv.call(value, &fresh) {
                Err(e) => Err(e),
                Ok(fr) => Ok(function_node(path.clone(), value, fr)),
            }
        },
        Some(Entry::Combinator(c)) => match c {
            CombKind::And => {
                let r = and_node(path.clone(), value, Vec::new());
                proof {
                    assert(model_rationales(Seq::<Rationale>::empty()) =~= Seq::<
                        SpecRationale,
                    >::empty());
                }
                Ok(r)
            },
            CombKind::Or => {
                let r = or_node(path.clone(), value, Vec::new());
                proof {
                    assert(model_rationales(Seq::<Rationale>::empty()) =~= Seq::<
                        SpecRationale,
                    >::empty());
                }
                Ok(r)
            },
            CombKind::Refine => Err(EvalError::Arity(path.clone(), 2, 0)),
        },
        Some(Entry::Pattern(def)) => {
            proof {
                lemma_model_names(def.params@);
            }
            if def.params.len() != 0 {
                Err(EvalError::Arity(path.clone(), def.params.len(), 0))
            } else if budget == 0 {
                Err(EvalError::RecursionLimit)
            } else {
                let fresh = Bindings::fresh();
                match evaluate(world, &def.body, value, &fresh, budget - 1) {
                    Err(e) => Err(e),
                    Ok(c) => Ok(wrap_node(path.clone(), value, c)),
                }
            }
        },
    }
}

/// Evaluates an instantiation of a named entry with argument patterns:
/// combinators combine the arguments, functions and named patterns bind
/// them to their declared parameters.
#[verifier::rlimit(100)]
fn eval_call(
    world: &World,
    pattern: &Pattern,
    path: &String,
    args: &Vec<Pattern>,
    value: &RuntimeValue,
    bindings: &Bindings,
    budget: u32,
) -> (r: Result<Rationale, EvalError>)
    requires
        *pattern == Pattern::Call(*path, *args),
    ensures
        ({
            let s = spec_eval(
                world.model(),
                pattern.model(),
                value.model(),
                bindings.model(),
                budget as nat,
            );
            match r {
                Ok(rat) => s == Ok::<SpecRationale, SpecError>(rat.model()),
                Err(e) => s == Err::<SpecRationale, SpecError>(e.model()),
            }
        }),
    decreases budget, *pattern, 2int,
{
    proof {
        lemma_model_patterns(args@);
        assert(decreases_to!(*pattern => pattern->Call_1));
    }
    match world.resolve(path.as_str()) {
        None => Err(EvalError::Lookup(path.clone())),
        Some(Entry::Combinator(c)) => match c {
            CombKind::And => {
                match eval_children(world, pattern, args, value, bindings, budget) {
                    Err(e) => Err(e),
                    Ok(rats) => Ok(and_node(path.clone(), value, rats)),
                }
            },
            CombKind::Or => {
                match eval_children(world, pattern, args, value, bindings, budget) {
                    Err(e) => Err(e),
                    Ok(rats) => Ok(or_node(path.clone(), value, rats)),
                }
            },
            CombKind::Refine => {
                if args.len() != 2 {
                    Err(EvalError::Arity(path.clone(), 2, args.len()))
                } else {
                    proof {
                        broadcast use vstd::std_specs::vec::group_vec_axioms;

                        assert(decreases_to!(*args => args[0int]));
                        assert(decreases_to!(*args => args[1int]));
                    }
                    match evaluate(world, &args[0], value, bindings, budget) {
                        Err(e) => Err(e),
                        Ok(br) => {
                            if !br.severity.satisfied() {
                                Ok(refine_skip_node(path.clone(), value, br))
                            } else {
                                let refined = match &br.output {
                                    Output::Transform(nv) => nv,
                                    Output::Unchanged => value,
                                };
                                match evaluate(world, &args[1], refined, bindings, budget) {
                                    Err(e) => Err(e),
                                    Ok(pr) => Ok(refine_both_node(path.clone(), value, br, pr)),
                                }
                            }
                        },
                    }
                }
            },
        },
        Some(Entry::Function(f)) => {
            let fv = *f;
            let params = params_of(&fv);
            proof {
                lemma_model_names(params@);
            }
            if params.len() != args.len() {
                Err(EvalError::Arity(path.clone(), params.len(), args.len()))
            } else {
                let bound = bind_args(&params, args);
                match fv.call(value, &bound) {
                    Err(e) => Err(e),
                    Ok(fr) => Ok(function_node(path.clone(), value, fr)),
                }
            }
        },
        Some(Entry::Pattern(def)) => {
            proof {
                lemma_model_names(def.params@);
            }
            if def.params.len() != args.len() {
                Err(EvalError::Arity(path.clone(), def.params.len(), args.len()))
            } else if budget == 0 {
                Err(EvalError::RecursionLimit)
            } else {
                let bound = bind_args(&def.params, args);
                match evaluate(world, &def.body, value, &bound, budget - 1) {
                    Err(e) => Err(e),
                    Ok(c) => Ok(wrap_node(path.clone(), value, c)),
                }
            }
        },
    }
}

/// Evaluates one pattern against one value: walks the pattern, resolving
/// nominal references through the world and parameters through the
/// bindings, and returns the rationale of the verdict or a fatal error.
///
/// The result is exactly [`spec_eval`] of the models of the arguments.
#[verifier::rlimit(100)]
pub fn evaluate(
    world: &World,
    pattern: &Pattern,
    value: &RuntimeValue,
    bindings: &Bindings,
    budget: u32,
) -> (r: Result<Rationale, EvalError>)
    ensures
        ({
            let s = spec_eval(
                world.model(),
                pattern.model(),
                value.model(),
                bindings.model(),
                budget as nat,
            );
            match r {
                Ok(rat) => s == Ok::<SpecRationale, SpecError>(rat.model()),
                Err(e) => s == Err::<SpecRationale, SpecError>(e.model()),
            }
        }),
    decreases budget, *pattern, 3int,
{
    match pattern {
        Pattern::KindIs(k) => {
            let sev = if value.kind() == *k {
                Severity::Quiet
            } else {
                Severity::Error
            };
            proof {
                assert(spec_kind_of(value.model()) == value.spec_kind());
            }
            Ok(leaf(String::from_str("kind"), value, sev, None))
        },
        Pattern::Literal(l) => {
            let sev = if l.matches_value(value) {
                Severity::Quiet
            } else {
                Severity::Error
            };
            Ok(leaf(String::from_str("literal"), value, sev, None))
        },
        Pattern::IntegerInRange(lo, hi) => {
            let sev = match value {
                RuntimeValue::Integer(i) => if *lo <= *i && *i <= *hi {
                    Severity::Quiet
                } else {
                    Severity::Error
                },
                _ => Severity::Error,
            };
            Ok(leaf(String::from_str("integer-in-range"), value, sev, None))
        },
        Pattern::LengthAtLeast(n) => {
            let long_enough = match value {
                RuntimeValue::Text(s) => s.as_str().unicode_len() >= *n,
                RuntimeValue::Octets(b) => b.len() >= *n,
                RuntimeValue::List(items) => items.len() >= *n,
                _ => false,
            };
            let sev = if long_enough {
                Severity::Quiet
            } else {
                Severity::Error
            };
            proof {
                match value {
                    RuntimeValue::List(items) => crate::value::lemma_model_seq(items@),
                    _ => (),
                }
            }
            Ok(leaf(String::from_str("length-at-least"), value, sev, None))
        },
        Pattern::Param(name) => match bindings.get(name.as_str()) {
            None => Err(EvalError::Unbound(name.clone())),
            Some(BoundValue::Val(lit)) => {
                let sev = if lit.matches_value(value) {
                    Severity::Quiet
                } else {
                    Severity::Error
                };
                Ok(leaf(name.clone(), value, sev, None))
            },
            Some(BoundValue::Pat(p2)) => {
                if budget == 0 {
                    Err(EvalError::RecursionLimit)
                } else {
                    match evaluate(world, p2, value, bindings, budget - 1) {
                        Err(e) => Err(e),
                        Ok(c) => Ok(wrap_node(name.clone(), value, c)),
                    }
                }
            },
        },
        Pattern::Ref(path) => eval_ref(world, pattern, path, value, bindings, budget),
        Pattern::Call(path, args) => eval_call(world, pattern, path, args, value, bindings, budget),
        Pattern::And(children) => {
            proof {
                assert(decreases_to!(*pattern => *children));
            }
            match eval_children(world, pattern, children, value, bindings, budget) {
                Err(e) => Err(e),
                Ok(rats) => Ok(and_node(String::from_str("and"), value, rats)),
            }
        },
        Pattern::Or(children) => {
            proof {
                assert(decreases_to!(*pattern => *children));
            }
            match eval_children(world, pattern, children, value, bindings, budget) {
                Err(e) => Err(e),
                Ok(rats) => Ok(or_node(String::from_str("or"), value, rats)),
            }
        },
        Pattern::Refine(base, refinement) => {
            proof {
                assert(decreases_to!(*pattern => **base));
                assert(decreases_to!(*pattern => **refinement));
            }
            match evaluate(world, &**base, value, bindings, budget) {
                Err(e) => Err(e),
                Ok(br) => {
                    if !br.severity.satisfied() {
                        Ok(refine_skip_node(String::from_str("refine"), value, br))
                    } else {
                        let refined = match &br.output {
                            Output::Transform(nv) => nv,
                            Output::Unchanged => value,
                        };
                        match evaluate(world, &**refinement, refined, bindings, budget) {
                            Err(e) => Err(e),
                            Ok(pr) => Ok(refine_both_node(String::from_str("refine"), value, br, pr)),
                        }
                    }
                },
            }
        },
        Pattern::Delegate(f) => {
            let fv = *f;
            match fv.call(value, bindings) {
                Err(e) => Err(e),
                Ok(fr) => Ok(function_node(fv.ident(), value, fr)),
            }
        },
    }
}

/// The outcome of a top-level evaluation: the verdict, the final value,
/// and the full explanation tree.
#[derive(Debug, PartialEq, Eq)]
pub struct EvaluationResult {
    input: RuntimeValue,
    rationale: Rationale,
}

impl EvaluationResult {
    /// The model of the input value this evaluation ran against.
    pub closed spec fn spec_input(self) -> SpecValue {
        self.input.model()
    }

    /// The model of the explanation tree.
    pub closed spec fn spec_rationale(self) -> SpecRationale {
        self.rationale.model()
    }

    /// Whether the pattern accepted the value.
    pub fn satisfied(&self) -> (r: bool)
        ensures
            r == self.spec_rationale().severity.spec_satisfied(),
    {
        self.rationale.satisfied()
    }

    /// How the evaluation went, graded.
    pub fn severity(&self) -> (r: Severity)
        ensures
            r == self.spec_rationale().severity,
    {
        self.rationale.severity
    }

    /// The explanation tree, for rendering.
    pub fn rationale(&self) -> (r: &Rationale)
        ensures
            r.model() == self.spec_rationale(),
    {
        &self.rationale
    }

    /// The final value: the transformed value if the evaluation produced
    /// one, the original input otherwise.
    pub fn output(&self) -> (r: &RuntimeValue)
        ensures
            r.model() == spec_refined_value(self.spec_input(), self.spec_rationale().output),
    {
        match &self.rationale.output {
            Output::Transform(v) => v,
            Output::Unchanged => &self.input,
        }
    }
}

impl World {
    /// Evaluates the named pattern against a value, with a fresh bindings
    /// scope and the default recursion budget. The result is exactly the
    /// specified evaluation of a nominal reference to `path`.
    pub fn evaluate(&self, path: &str, value: RuntimeValue) -> (r: Result<
        EvaluationResult,
        EvalError,
    >)
        ensures
            ({
                let s = spec_eval(
                    self.model(),
                    SpecPattern::Ref(path@),
                    value.model(),
                    Seq::empty(),
                    DEFAULT_BUDGET as nat,
                );
                match r {
                    Ok(res) => s == Ok::<SpecRationale, SpecError>(res.spec_rationale())
                        && res.spec_input() == value.model(),
                    Err(e) => s == Err::<SpecRationale, SpecError>(e.model()),
                }
            }),
    {
        let pat = Pattern::Ref(path.to_owned());
        let fresh = Bindings::fresh();
        match evaluate(self, &pat, &value, &fresh, DEFAULT_BUDGET) {
            Err(e) => Err(e),
            Ok(rat) => Ok(EvaluationResult { input: value, rationale: rat }),
        }
    }
}

} // verus!

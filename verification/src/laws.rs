//! The algebraic laws of the evaluation engine, proved once and for all
//! over the engine's specification [`spec_eval`].
//!
//! Because every executable evaluation is proved equal to `spec_eval` of
//! its arguments' models, each law here holds of every run of the engine.

use vstd::prelude::*;

use crate::bindings::SpecBindings;
use crate::eval::{
    spec_eval, spec_eval_list, spec_refine_both, spec_refine_skip, spec_refined_value,
};
use crate::pattern::SpecPattern;
use crate::rationale::{SpecError, SpecRationale};
use crate::value::SpecValue;
use crate::world::{spec_world_get, SpecWorld};

verus! {

/// Evaluating a list of children yields exactly one rationale per child.
pub proof fn lemma_eval_list_len(
    w: SpecWorld,
    ps: Seq<SpecPattern>,
    v: SpecValue,
    b: SpecBindings,
    fuel: nat,
)
    ensures
        spec_eval_list(w, ps, v, b, fuel) matches Ok(rs) ==> rs.len() == ps.len(),
    decreases ps.len(),
{
    if ps.len() > 0 {
        lemma_eval_list_len(w, ps.drop_last(), v, b, fuel);
    }
}

/// Evaluating a two-child list evaluates both children left to right.
#[verifier::rlimit(100)]
proof fn lemma_eval_list_pair(
    w: SpecWorld,
    p: SpecPattern,
    q: SpecPattern,
    v: SpecValue,
    b: SpecBindings,
    fuel: nat,
)
    ensures
        ({
            let ep = spec_eval(w, p, v, b, fuel);
            let eq = spec_eval(w, q, v, b, fuel);
            spec_eval_list(w, seq![p, q], v, b, fuel) == match (ep, eq) {
                (Err(e), _) => Err::<Seq<SpecRationale>, SpecError>(e),
                (Ok(rp), Err(e)) => Err::<Seq<SpecRationale>, SpecError>(e),
                (Ok(rp), Ok(rq)) => Ok::<Seq<SpecRationale>, SpecError>(seq![rp, rq]),
            }
        }),
{
    let e_ps = Seq::<SpecPattern>::empty();
    let e0 = Seq::<SpecRationale>::empty();
    let ps1 = seq![p];
    let ps = seq![p, q];
    assert(spec_eval_list(w, e_ps, v, b, fuel) == Ok::<Seq<SpecRationale>, SpecError>(e0));
    assert(ps1.drop_last() =~= e_ps);
    assert(ps1.last() == p);
    assert(ps.drop_last() =~= ps1);
    assert(ps.last() == q);
    match spec_eval(w, p, v, b, fuel) {
        Err(e) => {
            assert(spec_eval_list(w, ps1, v, b, fuel) == Err::<Seq<SpecRationale>, SpecError>(e));
            assert(spec_eval_list(w, ps, v, b, fuel) == Err::<Seq<SpecRationale>, SpecError>(e));
        },
        Ok(rp) => {
            assert(spec_eval_list(w, ps1, v, b, fuel) == Ok::<Seq<SpecRationale>, SpecError>(
                e0.push(rp),
            ));
            match spec_eval(w, q, v, b, fuel) {
                Err(e) => {
                    assert(spec_eval_list(w, ps, v, b, fuel) == Err::<
                        Seq<SpecRationale>,
                        SpecError,
                    >(e));
                },
                Ok(rq) => {
                    assert(spec_eval_list(w, ps, v, b, fuel) == Ok::<
                        Seq<SpecRationale>,
                        SpecError,
                    >(e0.push(rp).push(rq)));
                    assert(e0.push(rp).push(rq) =~= seq![rp, rq]);
                },
            }
        },
    }
}

/// Self-conjunction is neutral: `And(P, P)` is satisfied exactly when `P`
/// is, and its output equals `P`'s output; a fatal error in `P` is the
/// error of the conjunction.
#[verifier::rlimit(100)]
pub proof fn lemma_and_self_conjunction(
    w: SpecWorld,
    p: SpecPattern,
    v: SpecValue,
    b: SpecBindings,
    fuel: nat,
)
    ensures
        ({
            let whole = spec_eval(w, SpecPattern::And(seq![p, p]), v, b, fuel);
            let one = spec_eval(w, p, v, b, fuel);
            match (whole, one) {
                (Ok(wr), Ok(r)) => (wr.severity.spec_satisfied() <==> r.severity.spec_satisfied())
                    && wr.output == r.output,
                (Err(we), Err(e)) => we == e,
                _ => false,
            }
        }),
{
    lemma_eval_list_pair(w, p, p, v, b, fuel);
    match spec_eval(w, p, v, b, fuel) {
        Err(_) => {},
        Ok(r) => {
            let rs = seq![r, r];
            let rs1 = seq![r];
            let e0 = Seq::<SpecRationale>::empty();
            assert(rs.drop_last() =~= rs1);
            assert(rs1.drop_last() =~= e0);
            assert(rs.last() == r);
            assert(rs1.last() == r);
            assert(crate::eval::spec_worst_of(e0) == crate::rationale::Severity::Quiet);
            assert(crate::eval::spec_worst_of(rs1) == crate::rationale::Severity::Quiet.spec_worst(
                r.severity,
            ));
            assert(crate::eval::spec_worst_of(rs) == crate::eval::spec_worst_of(rs1).spec_worst(
                r.severity,
            ));
            assert(crate::eval::spec_and_output(e0) == crate::rationale::SpecOutput::Unchanged);
            assert(crate::eval::spec_and_output(rs1) == r.output);
            assert(crate::eval::spec_and_output(rs) == r.output);
            assert(spec_eval(w, SpecPattern::And(seq![p, p]), v, b, fuel) == Ok::<
                SpecRationale,
                SpecError,
            >(crate::eval::spec_and_node("and"@, v, rs)));
        },
    }
}

/// Disjunction is the disjunction of its children: `Or(P, Q)` is
/// satisfied exactly when `P` or `Q` is, and both children's rationales
/// stand in the tree whatever the outcome; a fatal error in either child,
/// leftmost first, is the error of the disjunction.
#[verifier::rlimit(100)]
pub proof fn lemma_or_disjunction(
    w: SpecWorld,
    p: SpecPattern,
    q: SpecPattern,
    v: SpecValue,
    b: SpecBindings,
    fuel: nat,
)
    ensures
        ({
            let whole = spec_eval(w, SpecPattern::Or(seq![p, q]), v, b, fuel);
            let ep = spec_eval(w, p, v, b, fuel);
            let eq = spec_eval(w, q, v, b, fuel);
            match (ep, eq) {
                (Err(e), _) => whole == Err::<SpecRationale, SpecError>(e),
                (Ok(rp), Err(e)) => whole == Err::<SpecRationale, SpecError>(e),
                (Ok(rp), Ok(rq)) => whole matches Ok(wr) && (wr.severity.spec_satisfied()
                    <==> (rp.severity.spec_satisfied() || rq.severity.spec_satisfied()))
                    && wr.children == seq![rp, rq],
            }
        }),
{
    lemma_eval_list_pair(w, p, q, v, b, fuel);
    match spec_eval(w, p, v, b, fuel) {
        Err(_) => {},
        Ok(rp) => match spec_eval(w, q, v, b, fuel) {
            Err(_) => {},
            Ok(rq) => {
                let rs = seq![rp, rq];
                let rs1 = seq![rp];
                let e0 = Seq::<SpecRationale>::empty();
                assert(rs.drop_last() =~= rs1);
                assert(rs1.drop_last() =~= e0);
                assert(rs.last() == rq);
                assert(rs1.last() == rp);
                assert(crate::eval::spec_mildest_of(e0) == crate::rationale::Severity::Error);
                assert(crate::eval::spec_mildest_of(rs1)
                    == crate::rationale::Severity::Error.spec_mildest(rp.severity));
                assert(crate::eval::spec_mildest_of(rs) == crate::eval::spec_mildest_of(
                    rs1,
                ).spec_mildest(rq.severity));
                if rp.severity.spec_satisfied() {
                    assert(rs[0].severity.spec_satisfied());
                }
                if rq.severity.spec_satisfied() {
                    assert(rs[1].severity.spec_satisfied());
                }
                if crate::eval::spec_any_satisfied(rs) {
                    let i = choose|i: int| 0 <= i < rs.len() && rs[i].severity.spec_satisfied();
                    assert(i == 0 || i == 1);
                }
                assert(spec_eval(w, SpecPattern::Or(seq![p, q]), v, b, fuel) == Ok::<
                    SpecRationale,
                    SpecError,
                >(crate::eval::spec_or_node("or"@, v, rs)));
            },
        },
    }
}

/// A conjunction evaluates all of its children, without short-circuiting:
/// its rationale holds exactly one child entry per declared child.
pub proof fn lemma_and_evaluates_all_children(
    w: SpecWorld,
    children: Seq<SpecPattern>,
    v: SpecValue,
    b: SpecBindings,
    fuel: nat,
)
    ensures
        spec_eval(w, SpecPattern::And(children), v, b, fuel) matches Ok(wr) ==> wr.children.len()
            == children.len(),
{
    lemma_eval_list_len(w, children, v, b, fuel);
}

/// Refinement runs its base first. A fatal error in the base is the error
/// of the composite. When the base is not satisfied, the composite is not
/// satisfied and the predicate is skipped: the rationale holds the base's
/// entry alone. When the base is satisfied, the predicate runs against the
/// base's transform (or the original input when the base passed the value
/// through), and the composite is satisfied exactly when the predicate is.
pub proof fn lemma_refine(
    w: SpecWorld,
    base: SpecPattern,
    pred: SpecPattern,
    v: SpecValue,
    b: SpecBindings,
    fuel: nat,
)
    ensures
        ({
            let whole = spec_eval(
                w,
                SpecPattern::Refine(Box::new(base), Box::new(pred)),
                v,
                b,
                fuel,
            );
            match spec_eval(w, base, v, b, fuel) {
                Err(e) => whole == Err::<SpecRationale, SpecError>(e),
                Ok(br) => if !br.severity.spec_satisfied() {
                    whole == Ok::<SpecRationale, SpecError>(spec_refine_skip("refine"@, v, br))
                    && !spec_refine_skip("refine"@, v, br).severity.spec_satisfied()
                    && spec_refine_skip("refine"@, v, br).children == seq![br]
                } else {
                    match spec_eval(w, pred, spec_refined_value(v, br.output), b, fuel) {
                        Err(e) => whole == Err::<SpecRationale, SpecError>(e),
                        Ok(pr) => whole == Ok::<SpecRationale, SpecError>(
                            spec_refine_both("refine"@, v, br, pr),
                        ) && (spec_refine_both("refine"@, v, br, pr).severity.spec_satisfied()
                            <==> pr.severity.spec_satisfied()) && spec_refine_both(
                            "refine"@,
                            v,
                            br,
                            pr,
                        ).children == seq![br, pr],
                    }
                },
            }
        }),
{
}

/// Resolving an unknown nominal path is a lookup error naming the path,
/// never a silent non-satisfaction.
pub proof fn lemma_unknown_path_is_lookup_error(
    w: SpecWorld,
    path: Seq<char>,
    v: SpecValue,
    b: SpecBindings,
    fuel: nat,
)
    requires
        spec_world_get(w, path) is None,
    ensures
        spec_eval(w, SpecPattern::Ref(path), v, b, fuel) == Err::<SpecRationale, SpecError>(
            SpecError::Lookup(path),
        ),
{
}

/// Evaluation is deterministic: two worlds with the same registrations
/// drive the same pattern, value and bindings to the same outcome, so a
/// rebuilt world replays an evaluation to the identical rationale tree.
pub proof fn lemma_deterministic_across_rebuild(
    w1: SpecWorld,
    w2: SpecWorld,
    p: SpecPattern,
    v: SpecValue,
    b: SpecBindings,
    fuel: nat,
)
    requires
        w1 == w2,
    ensures
        spec_eval(w1, p, v, b, fuel) == spec_eval(w2, p, v, b, fuel),
{
}

} // verus!

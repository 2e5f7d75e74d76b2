//! The compiled representation of a policy expression.
//!
//! A [`Pattern`] is an immutable node: a primitive matcher, a nominal
//! reference resolved through the world, a parameterized instantiation, a
//! combinator over child patterns, or a delegation to a native function.
//! Nominal references may be forward or mutually recursive; termination on
//! cyclic graphs is the evaluation engine's responsibility.

use vstd::prelude::*;

use crate::function::FunctionValue;
use crate::value::{RuntimeValue, SpecValue, ValueKind};

verus! {

/// A literal scalar of the policy language.
#[derive(Debug, PartialEq, Eq)]
pub enum LiteralValue {
    Null,
    Boolean(bool),
    Integer(i64),
    Text(String),
}

impl LiteralValue {
    /// The model of this literal, as the value it denotes.
    pub open spec fn model(self) -> SpecValue {
        match self {
            LiteralValue::Null => SpecValue::Null,
            LiteralValue::Boolean(b) => SpecValue::Boolean(b),
            LiteralValue::Integer(i) => SpecValue::Integer(i),
            LiteralValue::Text(s) => SpecValue::Text(s@),
        }
    }

    /// The runtime value this literal denotes.
    pub fn to_value(&self) -> (r: RuntimeValue)
        ensures
            r.model() == self.model(),
    {
        match self {
            LiteralValue::Null => RuntimeValue::Null,
            LiteralValue::Boolean(b) => RuntimeValue::Boolean(*b),
            LiteralValue::Integer(i) => RuntimeValue::Integer(*i),
            LiteralValue::Text(s) => RuntimeValue::Text(s.clone()),
        }
    }

    /// A copy of this literal, equal to it in the model.
    pub fn duplicate(&self) -> (r: LiteralValue)
        ensures
            r.model() == self.model(),
    {
        match self {
            LiteralValue::Null => LiteralValue::Null,
            LiteralValue::Boolean(b) => LiteralValue::Boolean(*b),
            LiteralValue::Integer(i) => LiteralValue::Integer(*i),
            LiteralValue::Text(s) => LiteralValue::Text(s.clone()),
        }
    }

    /// Whether a runtime value is exactly the value this literal denotes.
    pub fn matches_value(&self, v: &RuntimeValue) -> (r: bool)
        ensures
            r == (v.model() == self.model()),
    {
        match (self, v) {
            (LiteralValue::Null, RuntimeValue::Null) => true,
            (LiteralValue::Boolean(a), RuntimeValue::Boolean(b)) => *a == *b,
            (LiteralValue::Integer(a), RuntimeValue::Integer(b)) => *a == *b,
            (LiteralValue::Text(a), RuntimeValue::Text(b)) => *a == *b,
            _ => false,
        }
    }
}

/// A compiled pattern node.
#[derive(Debug, PartialEq, Eq)]
pub enum Pattern {
    /// Matches a value whose coarse kind is the given one.
    KindIs(ValueKind),
    /// Matches exactly one literal scalar value.
    Literal(LiteralValue),
    /// Matches an integer value within the inclusive range.
    IntegerInRange(i64, i64),
    /// Matches text, a byte sequence or a list whose length is at least the
    /// given bound.
    LengthAtLeast(usize),
    /// A nominal reference: a dotted path resolved lazily through the world.
    Ref(String),
    /// An instantiation of a named entry with argument patterns.
    Call(String, Vec<Pattern>),
    /// A reference to a parameter bound by the enclosing instantiation.
    Param(String),
    /// Satisfied when every child is satisfied; all children are evaluated.
    And(Vec<Pattern>),
    /// Satisfied when at least one child is satisfied; all children are
    /// evaluated so failing branches stay inspectable.
    Or(Vec<Pattern>),
    /// Evaluates the base pattern, then the refining predicate against the
    /// base's transformed output (or the original input if none).
    Refine(Box<Pattern>, Box<Pattern>),
    /// Delegates to a native function.
    Delegate(FunctionValue),
}

/// The mathematical model of a [`Pattern`].
pub enum SpecPattern {
    KindIs(ValueKind),
    Literal(SpecValue),
    IntegerInRange(i64, i64),
    LengthAtLeast(nat),
    Ref(Seq<char>),
    Call(Seq<char>, Seq<SpecPattern>),
    Param(Seq<char>),
    And(Seq<SpecPattern>),
    Or(Seq<SpecPattern>),
    Refine(Box<SpecPattern>, Box<SpecPattern>),
    Delegate(FunctionValue),
}

/// The models of a sequence of patterns.
pub open spec fn model_patterns(s: Seq<Pattern>) -> Seq<SpecPattern>
    decreases s,
{
    if s.len() == 0 {
        Seq::empty()
    } else {
        seq![s[0].model()] + model_patterns(s.drop_first())
    }
}

/// The models of a sequence of patterns, element by element.
pub proof fn lemma_model_patterns(s: Seq<Pattern>)
    ensures
        model_patterns(s).len() == s.len(),
        forall|i: int| 0 <= i < s.len() ==> #[trigger] model_patterns(s)[i] == s[i].model(),
    decreases s.len(),
{
    if s.len() > 0 {
        lemma_model_patterns(s.drop_first());
    }
}

impl Pattern {
    /// The model of this pattern.
    pub open spec fn model(self) -> SpecPattern
        decreases self,
    {
        match self {
            Pattern::KindIs(k) => SpecPattern::KindIs(k),
            Pattern::Literal(l) => SpecPattern::Literal(l.model()),
            Pattern::IntegerInRange(lo, hi) => SpecPattern::IntegerInRange(lo, hi),
            Pattern::LengthAtLeast(n) => SpecPattern::LengthAtLeast(n as nat),
            Pattern::Ref(path) => SpecPattern::Ref(path@),
            Pattern::Call(path, args) => SpecPattern::Call(path@, model_patterns(args@)),
            Pattern::Param(name) => SpecPattern::Param(name@),
            Pattern::And(children) => SpecPattern::And(model_patterns(children@)),
            Pattern::Or(children) => SpecPattern::Or(model_patterns(children@)),
            Pattern::Refine(base, refinement) => SpecPattern::Refine(
                Box::new(base.model()),
                Box::new(refinement.model()),
            ),
            Pattern::Delegate(f) => SpecPattern::Delegate(f),
        }
    }

    /// A deep copy of this pattern, equal to it in the model.
    pub fn duplicate(&self) -> (r: Pattern)
        ensures
            r.model() == self.model(),
        decreases *self, 1int,
    {
        match self {
            Pattern::KindIs(k) => Pattern::KindIs(*k),
            Pattern::Literal(l) => Pattern::Literal(l.duplicate()),
            Pattern::IntegerInRange(lo, hi) => Pattern::IntegerInRange(*lo, *hi),
            Pattern::LengthAtLeast(n) => Pattern::LengthAtLeast(*n),
            Pattern::Ref(path) => Pattern::Ref(path.clone()),
            Pattern::Param(name) => Pattern::Param(name.clone()),
            Pattern::Call(path, args) => {
                proof {
                    assert(decreases_to!(*self => *args));
                }
                Pattern::Call(path.clone(), duplicate_patterns(self, args))
            },
            Pattern::And(children) => {
                proof {
                    assert(decreases_to!(*self => *children));
                }
                Pattern::And(duplicate_patterns(self, children))
            },
            Pattern::Or(children) => {
                proof {
                    assert(decreases_to!(*self => *children));
                }
                Pattern::Or(duplicate_patterns(self, children))
            },
            Pattern::Refine(base, refinement) => {
                proof {
                    assert(decreases_to!(*self => *base));
                    assert(decreases_to!(*self => *refinement));
                }
                Pattern::Refine(Box::new(base.duplicate()), Box::new(refinement.duplicate()))
            },
            Pattern::Delegate(f) => Pattern::Delegate(*f),
        }
    }
}

/// A deep copy of a pattern list, equal to it in the model; `whole` is the
/// enclosing pattern, carried for termination.
fn duplicate_patterns(whole: &Pattern, ps: &Vec<Pattern>) -> (r: Vec<Pattern>)
    requires
        decreases_to!(*whole => *ps),
    ensures
        model_patterns(r@) == model_patterns(ps@),
    decreases *whole, 0int,
{
    let mut out: Vec<Pattern> = Vec::new();
    let mut i: usize = 0;
    while i < ps.len()
        invariant
            decreases_to!(*whole => *ps),
            i <= ps.len(),
            out@.len() == i,
            forall|j: int| 0 <= j < i ==> #[trigger] out@[j].model() == ps@[j].model(),
        decreases ps.len() - i,
    {
        proof {
            broadcast use vstd::std_specs::vec::group_vec_axioms;

            assert(decreases_to!(*ps => ps[i as int]));
        }
        let c = ps[i].duplicate();
        out.push(c);
        i = i + 1;
    }
    proof {
        lemma_model_patterns(out@);
        lemma_model_patterns(ps@);
        assert(model_patterns(out@) =~= model_patterns(ps@));
    }
    out
}

} // verus!

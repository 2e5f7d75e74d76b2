//! The explanation model: severity grades, per-step outputs, and the
//! rationale tree that records how a verdict was reached.
//!
//! Every evaluation step, whether it succeeds or fails, contributes one
//! rationale node; nothing is summarized away, so a caller can always render
//! the full trace of a verdict.

use vstd::prelude::*;

use crate::value::{RuntimeValue, SpecValue};

verus! {

/// Graded badness of a finding, totally ordered from quietest to worst:
/// `Quiet < Advice < Warning < Error`.
///
/// A node is satisfied exactly when its severity stays below `Error`.
#[derive(Clone, Copy, Debug, PartialEq, Eq, Structural)]
pub enum Severity {
    /// No finding at all: the quiet, fully satisfied outcome.
    Quiet,
    /// An advisory note that does not endanger satisfaction.
    Advice,
    /// A warning; the node still counts as satisfied.
    Warning,
    /// A hard failure; the node is not satisfied.
    Error,
}

impl Severity {
    /// Position in the badness order, `Quiet` lowest.
    pub open spec fn spec_rank(self) -> int {
        match self {
            Severity::Quiet => 0,
            Severity::Advice => 1,
            Severity::Warning => 2,
            Severity::Error => 3,
        }
    }

    /// Position in the badness order, `Quiet` lowest.
    pub fn rank(self) -> (r: u8)
        ensures
            r as int == self.spec_rank(),
    {
        match self {
            Severity::Quiet => 0,
            Severity::Advice => 1,
            Severity::Warning => 2,
            Severity::Error => 3,
        }
    }

    /// Whether this severity counts as satisfied.
    pub open spec fn spec_satisfied(self) -> bool {
        self != Severity::Error
    }

    /// Whether this severity counts as satisfied.
    pub fn satisfied(self) -> (r: bool)
        ensures
            r == self.spec_satisfied(),
    {
        !(self == Severity::Error)
    }

    /// The worse of two severities.
    pub open spec fn spec_worst(self, other: Severity) -> Severity {
        if self.spec_rank() >= other.spec_rank() {
            self
        } else {
            other
        }
    }

    /// The worse of two severities.
    pub fn worst(self, other: Severity) -> (r: Severity)
        ensures
            r == self.spec_worst(other),
    {
        if self.rank() >= other.rank() {
            self
        } else {
            other
        }
    }

    /// The milder of two severities.
    pub open spec fn spec_mildest(self, other: Severity) -> Severity {
        if self.spec_rank() <= other.spec_rank() {
            self
        } else {
            other
        }
    }

    /// The milder of two severities.
    pub fn mildest(self, other: Severity) -> (r: Severity)
        ensures
            r == self.spec_mildest(other),
    {
        if self.rank() <= other.rank() {
            self
        } else {
            other
        }
    }
}

/// The result of one evaluation step: either the value passes through
/// unchanged, or the step produced a fresh transformed value (for example
/// decoded bytes) for enclosing combinators to consume.
#[derive(Debug, PartialEq, Eq)]
pub enum Output {
    /// No transformation: the input value passes through.
    Unchanged,
    /// The step produced this new value.
    Transform(RuntimeValue),
}

/// The mathematical model of an [`Output`].
pub enum SpecOutput {
    Unchanged,
    Transform(SpecValue),
}

impl Output {
    /// The model of this output.
    pub open spec fn model(self) -> SpecOutput {
        match self {
            Output::Unchanged => SpecOutput::Unchanged,
            Output::Transform(v) => SpecOutput::Transform(v.model()),
        }
    }

    /// A deep copy of this output, equal to it in the model.
    pub fn duplicate(&self) -> (r: Output)
        ensures
            r.model() == self.model(),
    {
        match self {
            Output::Unchanged => Output::Unchanged,
            Output::Transform(v) => Output::Transform(v.duplicate()),
        }
    }
}

/// A fatal evaluation failure, distinct from ordinary non-satisfaction.
///
/// These abort the enclosing evaluation and propagate to the caller; they
/// are never downgraded to "not satisfied", since conflating an engine
/// failure with a policy failure would corrupt the audit trail.
#[derive(Debug, PartialEq, Eq)]
pub enum EvalError {
    /// A nominal reference named a path the world does not hold.
    Lookup(String),
    /// A parameterized pattern was instantiated with the wrong number of
    /// arguments: the offending path, the declared count, the given count.
    Arity(String, usize, usize),
    /// A pattern body read a parameter that its instantiation never bound.
    Unbound(String),
    /// Evaluation exhausted its recursion budget without settling, as can
    /// happen on a cyclic pattern graph.
    RecursionLimit,
    /// A native capability hit an internal invariant violation; carries the
    /// identity of the originating function.
    FunctionInternal(String),
}

/// The mathematical model of an [`EvalError`].
pub enum SpecError {
    Lookup(Seq<char>),
    Arity(Seq<char>, int, int),
    Unbound(Seq<char>),
    RecursionLimit,
    FunctionInternal(Seq<char>),
}

impl EvalError {
    /// The model of this error.
    pub open spec fn model(self) -> SpecError {
        match self {
            EvalError::Lookup(p) => SpecError::Lookup(p@),
            EvalError::Arity(p, e, a) => SpecError::Arity(p@, e as int, a as int),
            EvalError::Unbound(n) => SpecError::Unbound(n@),
            EvalError::RecursionLimit => SpecError::RecursionLimit,
            EvalError::FunctionInternal(n) => SpecError::FunctionInternal(n@),
        }
    }
}

/// One node of the explanation tree.
///
/// The tree mirrors the evaluation call graph: every pattern node that was
/// evaluated contributes exactly one rationale node, in the declared order
/// of the pattern's children.
#[derive(Debug, PartialEq, Eq)]
pub struct Rationale {
    /// A short identity of the pattern node this step evaluated.
    pub ident: String,
    /// The value this step ran against.
    pub input: RuntimeValue,
    /// What this step produced.
    pub output: Output,
    /// How this step went.
    pub severity: Severity,
    /// A human-readable note, present on findings that merit one.
    pub reason: Option<String>,
    /// The rationale of each child evaluation, in declared order.
    pub children: Vec<Rationale>,
}

/// The mathematical model of a [`Rationale`] node.
pub struct SpecRationale {
    pub ident: Seq<char>,
    pub input: SpecValue,
    pub output: SpecOutput,
    pub severity: Severity,
    pub reason: Option<Seq<char>>,
    pub children: Seq<SpecRationale>,
}

/// The models of a sequence of rationale nodes.
pub open spec fn model_rationales(s: Seq<Rationale>) -> Seq<SpecRationale>
    decreases s,
{
    if s.len() == 0 {
        Seq::empty()
    } else {
        seq![s[0].model()] + model_rationales(s.drop_first())
    }
}

/// The models of a sequence of rationale nodes, element by element.
pub proof fn lemma_model_rationales(s: Seq<Rationale>)
    ensures
        model_rationales(s).len() == s.len(),
        forall|i: int| 0 <= i < s.len() ==> #[trigger] model_rationales(s)[i] == s[i].model(),
    decreases s.len(),
{
    if s.len() > 0 {
        lemma_model_rationales(s.drop_first());
    }
}

/// Appending one rationale node appends one modelled node.
pub proof fn lemma_model_rationales_push(s: Seq<Rationale>, r: Rationale)
    ensures
        model_rationales(s.push(r)) == model_rationales(s) + seq![r.model()],
    decreases s.len(),
{
    if s.len() == 0 {
        reveal_with_fuel(model_rationales, 3);
        assert(s.push(r).drop_first() =~= Seq::empty());
        assert(model_rationales(s.push(r)) =~= model_rationales(s) + seq![r.model()]);
    } else {
        lemma_model_rationales_push(s.drop_first(), r);
        assert(s.push(r).drop_first() =~= s.drop_first().push(r));
        assert(model_rationales(s.push(r)) =~= model_rationales(s) + seq![r.model()]);
    }
}

impl Rationale {
    /// The model of this rationale node.
    pub open spec fn model(self) -> SpecRationale
        decreases self,
    {
        SpecRationale {
            ident: self.ident@,
            input: self.input.model(),
            output: self.output.model(),
            severity: self.severity,
            reason: match self.reason {
                Some(s) => Some(s@),
                None => None,
            },
            children: model_rationales(self.children@),
        }
    }

    /// Whether this node reports satisfaction.
    pub open spec fn spec_satisfied(self) -> bool {
        self.severity.spec_satisfied()
    }

    /// Whether this node reports satisfaction.
    pub fn satisfied(&self) -> (r: bool)
        ensures
            r == self.spec_satisfied(),
    {
        self.severity.satisfied()
    }
}

} // verus!

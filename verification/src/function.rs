//! The calling contract shared by native capabilities.
//!
//! A pattern node may delegate its evaluation to a native function: a piece
//! of non-pattern-language logic such as a codec or a string transform. The
//! engine keeps its own dispatch exhaustive by closing the capability set
//! into [`FunctionValue`]; every capability receives the already-resolved
//! bindings of its own parameters and must never mutate its input.

use vstd::prelude::*;

use crate::base64::{Base64, Base64Encode};
use crate::bindings::{Bindings, SpecBindings};
use crate::concat::Concat;
use crate::rationale::{EvalError, Output, Severity, SpecError, SpecOutput};
use crate::uri::UriCheck;
use crate::value::{RuntimeValue, SpecValue};

verus! {

/// The coarse input shape a capability declares, so that structurally
/// incompatible inputs can be recognized before invocation.
#[derive(Clone, Copy, Debug, PartialEq, Eq, Structural)]
pub enum FunctionInput {
    /// The capability accepts any value.
    Anything,
    /// The capability expects text.
    Text,
    /// The capability expects a byte sequence.
    Octets,
}

/// Descriptive metadata of a capability, for tooling.
#[derive(Debug, PartialEq, Eq)]
pub struct PatternMeta {
    pub documentation: Option<String>,
}

/// A worked example of a capability, for tooling.
#[derive(Debug, PartialEq, Eq)]
pub struct Example {
    pub name: String,
    pub summary: Option<String>,
    pub description: Option<String>,
    pub value: RuntimeValue,
}

/// What one capability call produced: an output, how the step went, and an
/// optional human-readable note.
#[derive(Debug, PartialEq, Eq)]
pub struct FunctionEvaluationResult {
    pub output: Output,
    pub severity: Severity,
    pub reason: Option<String>,
}

/// The mathematical model of a [`FunctionEvaluationResult`].
pub struct SpecFunctionResult {
    pub output: SpecOutput,
    pub severity: Severity,
    pub reason: Option<Seq<char>>,
}

impl FunctionEvaluationResult {
    /// The model of this result.
    pub open spec fn model(self) -> SpecFunctionResult {
        SpecFunctionResult {
            output: self.output.model(),
            severity: self.severity,
            reason: match self.reason {
                Some(s) => Some(s@),
                None => None,
            },
        }
    }
}

/// The closed set of native capabilities this engine ships with.
#[derive(Clone, Copy, Debug, PartialEq, Eq, Structural)]
pub enum FunctionValue {
    /// Base64 validation and decoding.
    Decode(Base64),
    /// Base64 encoding.
    Encode(Base64Encode),
    /// String concatenation.
    Concat(Concat),
    /// Resource-identifier validation.
    Uri(UriCheck),
}

impl FunctionValue {
    /// The dotted path under which this capability is registered, used as
    /// its identity in rationales and errors.
    pub open spec fn spec_ident(self) -> Seq<char> {
        match self {
            FunctionValue::Decode(b) => b.spec_ident(),
            FunctionValue::Encode(_) => "base64::base64-encode"@,
            FunctionValue::Concat(Concat::Append) => "string::append"@,
            FunctionValue::Concat(Concat::Prepend) => "string::prepend"@,
            FunctionValue::Uri(UriCheck::Url) => "uri::Url"@,
            FunctionValue::Uri(UriCheck::Iri) => "uri::Iri"@,
        }
    }

    /// The dotted path under which this capability is registered.
    pub fn ident(&self) -> (r: String)
        ensures
            r@ == self.spec_ident(),
    {
        match self {
            FunctionValue::Decode(b) => b.ident(),
            FunctionValue::Encode(_) => String::from_str("base64::base64-encode"),
            FunctionValue::Concat(Concat::Append) => String::from_str("string::append"),
            FunctionValue::Concat(Concat::Prepend) => String::from_str("string::prepend"),
            FunctionValue::Uri(UriCheck::Url) => String::from_str("uri::Url"),
            FunctionValue::Uri(UriCheck::Iri) => String::from_str("uri::Iri"),
        }
    }

    /// The input shape this capability declares.
    pub fn input(&self) -> FunctionInput {
        match self {
            FunctionValue::Decode(b) => b.input(),
            FunctionValue::Encode(_) => FunctionInput::Octets,
            FunctionValue::Concat(_) => FunctionInput::Text,
            FunctionValue::Uri(_) => FunctionInput::Text,
        }
    }

    /// What this capability produces on a given input under given bindings.
    pub open spec fn spec_call(self, v: SpecValue, b: SpecBindings) -> Result<
        SpecFunctionResult,
        SpecError,
    > {
        match self {
            FunctionValue::Decode(d) => Ok(d.spec_call(v)),
            FunctionValue::Encode(e) => e.spec_call(v),
            FunctionValue::Concat(c) => Ok(c.spec_call(v, b)),
            FunctionValue::Uri(u) => Ok(u.spec_call(v)),
        }
    }

    /// Runs this capability. Expected validation failures are reported as
    /// elevated severity, never as an error; only internal invariant
    /// violations surface as [`EvalError`].
    pub fn call(&self, input: &RuntimeValue, bindings: &Bindings) -> (r: Result<
        FunctionEvaluationResult,
        EvalError,
    >)
        ensures
            match r {
                Ok(fr) => self.spec_call(input.model(), bindings.model()) == Ok::<
                    SpecFunctionResult,
                    SpecError,
                >(fr.model()),
                Err(e) => self.spec_call(input.model(), bindings.model()) == Err::<
                    SpecFunctionResult,
                    SpecError,
                >(e.model()),
            },
    {
        match self {
            FunctionValue::Decode(d) => Ok(d.call(input)),
            FunctionValue::Encode(e) => e.call(input),
            FunctionValue::Concat(c) => Ok(c.call(input, bindings)),
            FunctionValue::Uri(u) => Ok(u.call(input)),
        }
    }
}

} // verus!

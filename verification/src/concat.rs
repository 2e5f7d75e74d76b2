//! String concatenation capabilities: appending or prepending a bound
//! text parameter to a text input.

use vstd::prelude::*;

use crate::bindings::{spec_bindings_get, Bindings, SpecBindings, SpecBound};
use crate::function::{FunctionEvaluationResult, FunctionValue, SpecFunctionResult};
use crate::rationale::{Output, Severity, SpecOutput};
use crate::value::{RuntimeValue, SpecValue};
use crate::world::{Package, PackagePath};

verus! {

/// Which side of the input the bound parameter goes on.
#[derive(Clone, Copy, Debug, PartialEq, Eq, Structural)]
pub enum Concat {
    /// The parameter is appended after the input.
    Append,
    /// The parameter is prepended before the input.
    Prepend,
}

impl Concat {
    /// The single parameter this capability declares: the text to attach.
    pub fn parameters(&self) -> (r: Vec<String>)
        ensures
            r@.len() == 1,
            r@[0]@ == "value"@,
    {
        let mut out: Vec<String> = Vec::new();
        out.push(String::from_str("value"));
        out
    }

    /// A short description of this capability, for tooling.
    pub fn documentation(&self) -> (r: Option<String>)
        ensures
            r is Some,
    {
        Some(
            match self {
                Concat::Append => String::from_str("Appends the bound text after the input"),
                Concat::Prepend => String::from_str("Prepends the bound text before the input"),
            },
        )
    }

    /// What this capability produces: the concatenation when the input is
    /// text and the `value` parameter is bound to text, and the unchanged
    /// input otherwise. A missing or non-text binding is tolerated as a
    /// quiet pass-through, since callers probe bindings optionally.
    pub open spec fn spec_call(self, v: SpecValue, b: SpecBindings) -> SpecFunctionResult {
        match spec_bindings_get(b, "value"@) {
            Some(SpecBound::Val(SpecValue::Text(param))) => match v {
                SpecValue::Text(s) => SpecFunctionResult {
                    output: SpecOutput::Transform(
                        SpecValue::Text(
                            match self {
                                Concat::Append => s + param,
                                Concat::Prepend => param + s,
                            },
                        ),
                    ),
                    severity: Severity::Quiet,
                    reason: None,
                },
                _ => SpecFunctionResult {
                    output: SpecOutput::Unchanged,
                    severity: Severity::Quiet,
                    reason: None,
                },
            },
            _ => SpecFunctionResult {
                output: SpecOutput::Unchanged,
                severity: Severity::Quiet,
                reason: None,
            },
        }
    }

    /// Runs the concatenation.
    pub fn call(&self, input: &RuntimeValue, bindings: &Bindings) -> (r: FunctionEvaluationResult)
        ensures
            r.model() == self.spec_call(input.model(), bindings.model()),
    {
        let pass = FunctionEvaluationResult {
            output: Output::Unchanged,
            severity: Severity::Quiet,
            reason: None,
        };
        match bindings.get("value") {
            Some(crate::bindings::BoundValue::Val(crate::pattern::LiteralValue::Text(param))) => {
                match input.try_get_text() {
                    Some(s) => {
                        let joined = match self {
                            Concat::Append => s.clone().concat(param.as_str()),
                            Concat::Prepend => param.clone().concat(s.as_str()),
                        };
                        FunctionEvaluationResult {
                            output: Output::Transform(RuntimeValue::Text(joined)),
                            severity: Severity::Quiet,
                            reason: None,
                        }
                    },
                    None => pass,
                }
            },
            _ => pass,
        }
    }
}

/// The string package: the concatenation capabilities, under the `string`
/// namespace.
pub fn package() -> (r: Package)
    ensures
        r.model() == seq![
            ("string::append"@, crate::world::SpecEntry::Function(
                FunctionValue::Concat(Concat::Append),
            )),
            ("string::prepend"@, crate::world::SpecEntry::Function(
                FunctionValue::Concat(Concat::Prepend),
            )),
        ],
{
    let mut pkg = Package::new(PackagePath::from_part("string"));
    pkg.register_function("append", FunctionValue::Concat(Concat::Append));
    pkg.register_function("prepend", FunctionValue::Concat(Concat::Prepend));
    proof {
        reveal_strlit("string");
        reveal_strlit("::");
        reveal_strlit("append");
        reveal_strlit("prepend");
        reveal_strlit("string::append");
        reveal_strlit("string::prepend");
        assert("string"@ + "::"@ + "append"@ =~= "string::append"@);
        assert("string"@ + "::"@ + "prepend"@ =~= "string::prepend"@);
        assert(pkg.model() =~= seq![
            ("string::append"@, crate::world::SpecEntry::Function(
                FunctionValue::Concat(Concat::Append),
            )),
            ("string::prepend"@, crate::world::SpecEntry::Function(
                FunctionValue::Concat(Concat::Prepend),
            )),
        ]);
    }
    pkg
}

} // verus!

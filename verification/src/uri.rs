//! Resource-identifier capabilities: coarse syntactic validation of URIs
//! and IRIs.
//!
//! Both checks validate the scheme production — a leading letter followed
//! by letters, digits, `+`, `-` or `.`, terminated by the first colon. The
//! URI check additionally demands that the whole text is ASCII; an IRI may
//! carry characters beyond ASCII.

use vstd::prelude::*;

use crate::function::{FunctionEvaluationResult, FunctionValue, SpecFunctionResult};
use crate::rationale::{Output, Severity, SpecOutput};
use crate::value::{RuntimeValue, SpecValue};
use crate::world::{Package, PackagePath};

verus! {

/// Whether a character may appear in a scheme: the first must be a letter,
/// the rest letters, digits, `+`, `-` or `.`. A colon is never one.
pub open spec fn spec_is_scheme_char(c: char, first: bool) -> bool {
    if first {
        ('a' <= c && c <= 'z') || ('A' <= c && c <= 'Z')
    } else {
        ('a' <= c && c <= 'z') || ('A' <= c && c <= 'Z') || ('0' <= c && c <= '9') || c == '+'
            || c == '-' || c == '.'
    }
}

/// Whether position `i` of the text terminates a well-formed scheme: it
/// holds a colon and everything before it is a nonempty scheme.
pub open spec fn spec_scheme_ends_at(s: Seq<char>, i: int) -> bool {
    &&& 0 < i < s.len()
    &&& s[i] == ':'
    &&& forall|j: int| 0 <= j < i ==> spec_is_scheme_char(s[j], j == 0)
}

/// Whether the text begins with a well-formed scheme followed by a colon.
pub open spec fn spec_has_scheme(s: Seq<char>) -> bool {
    exists|i: int| spec_scheme_ends_at(s, i)
}

/// Whether a character may appear in a scheme.
fn is_scheme_char(c: char, first: bool) -> (r: bool)
    ensures
        r == spec_is_scheme_char(c, first),
{
    if first {
        ('a' <= c && c <= 'z') || ('A' <= c && c <= 'Z')
    } else {
        ('a' <= c && c <= 'z') || ('A' <= c && c <= 'Z') || ('0' <= c && c <= '9') || c == '+'
            || c == '-' || c == '.'
    }
}

/// Whether the text begins with a well-formed scheme followed by a colon.
fn has_scheme(s: &str) -> (r: bool)
    ensures
        r == spec_has_scheme(s@),
{
    let n = s.unicode_len();
    let mut i: usize = 0;
    let mut clean = true;
    while i < n
        invariant
            n == s@.len(),
            i <= n,
            forall|j: int| 0 <= j < i ==> s@[j] != ':',
            clean == (forall|j: int| 0 <= j < i ==> spec_is_scheme_char(s@[j], j == 0)),
        decreases n - i,
    {
        let c = s.get_char(i);
        if c == ':' {
            if i > 0 && clean {
                proof {
                    assert(spec_scheme_ends_at(s@, i as int));
                }
                return true;
            } else {
                proof {
                    assert forall|k: int| !spec_scheme_ends_at(s@, k) by {
                        if 0 < k < s@.len() && s@[k] == ':' {
                            if k < i {
                                assert(s@[k] != ':');
                            } else if k == i {
                                assert(i == 0 || !clean);
                                if i > 0 {
                                    let ghost j0 = choose|j: int|
                                        0 <= j < i && !spec_is_scheme_char(s@[j], j == 0);
                                    assert(!spec_is_scheme_char(s@[j0], j0 == 0));
                                }
                            } else {
                                assert(s@[i as int] == ':');
                                assert(!spec_is_scheme_char(s@[i as int], i == 0));
                            }
                        }
                    }
                }
                return false;
            }
        }
        if !is_scheme_char(c, i == 0) {
            clean = false;
        }
        i = i + 1;
    }
    proof {
        assert forall|k: int| !spec_scheme_ends_at(s@, k) by {
            if 0 < k < s@.len() {
                assert(s@[k] != ':');
            }
        }
    }
    false
}

/// Which flavour of resource identifier to validate.
#[derive(Clone, Copy, Debug, PartialEq, Eq, Structural)]
pub enum UriCheck {
    /// A URI: ASCII text with a well-formed scheme.
    Url,
    /// An IRI: text with a well-formed scheme, ASCII or not.
    Iri,
}

impl UriCheck {
    /// Whether a text is acceptable to this check.
    pub open spec fn spec_accepts(self, s: Seq<char>) -> bool {
        match self {
            UriCheck::Url => spec_has_scheme(s) && vstd::utf8::is_ascii_chars(s),
            UriCheck::Iri => spec_has_scheme(s),
        }
    }

    /// What this capability produces: a quiet pass on acceptable text, an
    /// error-severity finding on other text, and an error-severity finding
    /// on any non-text input. The value is never transformed.
    pub open spec fn spec_call(self, v: SpecValue) -> SpecFunctionResult {
        match v {
            SpecValue::Text(s) => if self.spec_accepts(s) {
                SpecFunctionResult {
                    output: SpecOutput::Unchanged,
                    severity: Severity::Quiet,
                    reason: None,
                }
            } else {
                SpecFunctionResult {
                    output: SpecOutput::Unchanged,
                    severity: Severity::Error,
                    reason: Some("not a valid resource identifier"@),
                }
            },
            _ => SpecFunctionResult {
                output: SpecOutput::Unchanged,
                severity: Severity::Error,
                reason: Some("Expected a string"@),
            },
        }
    }

    /// Runs the check.
    pub fn call(&self, input: &RuntimeValue) -> (r: FunctionEvaluationResult)
        ensures
            r.model() == self.spec_call(input.model()),
    {
        match input.try_get_text() {
            Some(s) => {
                let acceptable = match self {
                    UriCheck::Url => s.as_str().is_ascii() && has_scheme(s.as_str()),
                    UriCheck::Iri => has_scheme(s.as_str()),
                };
                if acceptable {
                    FunctionEvaluationResult {
                        output: Output::Unchanged,
                        severity: Severity::Quiet,
                        reason: None,
                    }
                } else {
                    FunctionEvaluationResult {
                        output: Output::Unchanged,
                        severity: Severity::Error,
                        reason: Some(String::from_str("not a valid resource identifier")),
                    }
                }
            },
            None => FunctionEvaluationResult {
                output: Output::Unchanged,
                severity: Severity::Error,
                reason: Some(String::from_str("Expected a string")),
            },
        }
    }
}

/// The uri package: the capabilities this module registers, under the
/// `uri` namespace.
pub fn package() -> (r: Package)
    ensures
        r.model() == seq![
            ("uri::Url"@, crate::world::SpecEntry::Function(FunctionValue::Uri(UriCheck::Url))),
            ("uri::Iri"@, crate::world::SpecEntry::Function(FunctionValue::Uri(UriCheck::Iri))),
        ],
{
    let mut pkg = Package::new(PackagePath::from_part("uri"));
    pkg.register_function("Url", FunctionValue::Uri(UriCheck::Url));
    pkg.register_function("Iri", FunctionValue::Uri(UriCheck::Iri));
    proof {
        reveal_strlit("uri");
        reveal_strlit("::");
        reveal_strlit("Url");
        reveal_strlit("Iri");
        reveal_strlit("uri::Url");
        reveal_strlit("uri::Iri");
        assert("uri"@ + "::"@ + "Url"@ =~= "uri::Url"@);
        assert("uri"@ + "::"@ + "Iri"@ =~= "uri::Iri"@);
        assert(pkg.model() =~= seq![
            ("uri::Url"@, crate::world::SpecEntry::Function(FunctionValue::Uri(UriCheck::Url))),
            ("uri::Iri"@, crate::world::SpecEntry::Function(FunctionValue::Uri(UriCheck::Iri))),
        ]);
    }
    pkg
}

} // verus!

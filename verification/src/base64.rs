//! Base64 capabilities: validating/decoding base64 text into bytes, and
//! encoding bytes into base64 text.
//!
//! The decoding and encoding themselves are done by the `base64` crate;
//! their results are named by uninterpreted functions, and everything the
//! engine decides about them is verified against those names.

use vstd::prelude::*;

use base64::Engine;

use crate::function::{FunctionEvaluationResult, FunctionInput, FunctionValue, PatternMeta, Example};
use crate::rationale::{EvalError, Output, Severity, SpecError, SpecOutput};
use crate::value::{RuntimeValue, SpecValue};
use crate::world::{Package, PackagePath};
use crate::function::SpecFunctionResult;

verus! {

/// Byte sequences longer than this are refused by the encoder rather than
/// risking an allocation-size overflow inside the encoding engine.
pub const ENCODE_LIMIT: usize = 0x3FFF_FFFF;

/// What the standard-alphabet, padded base64 decoding of a text yields:
/// the decoded bytes, or nothing when the text is not valid base64.
pub uninterp spec fn standard_decoded(s: Seq<char>) -> Option<Seq<u8>>;

/// What the URL-safe, unpadded base64 decoding of a text yields: the
/// decoded bytes, or nothing when the text is not valid base64.
pub uninterp spec fn url_no_pad_decoded(s: Seq<char>) -> Option<Seq<u8>>;

/// What the standard-alphabet, padded base64 encoding of bytes yields.
pub uninterp spec fn standard_encoded(b: Seq<u8>) -> Seq<char>;

/// Relies on the `base64` crate: `STANDARD.decode` decodes padded base64
/// text over the standard alphabet, a function of the text alone; invalid
/// text is reported as an error value.
#[verifier::external_body]
fn decode_standard(s: &str) -> (r: Option<Vec<u8>>)
    ensures
        match r {
            Some(v) => standard_decoded(s@) == Some(v@),
            None => standard_decoded(s@) is None,
        },
{
    match base64::engine::general_purpose::STANDARD.decode(s) {
        Ok(v) => Some(v),
        Err(_) => None,
    }
}

/// Relies on the `base64` crate: `URL_SAFE_NO_PAD.decode` decodes unpadded
/// base64 text over the URL-safe alphabet, a function of the text alone;
/// invalid text is reported as an error value.
#[verifier::external_body]
fn decode_url_no_pad(s: &str) -> (r: Option<Vec<u8>>)
    ensures
        match r {
            Some(v) => url_no_pad_decoded(s@) == Some(v@),
            None => url_no_pad_decoded(s@) is None,
        },
{
    match base64::engine::general_purpose::URL_SAFE_NO_PAD.decode(s) {
        Ok(v) => Some(v),
        Err(_) => None,
    }
}

/// Relies on the `base64` crate: `STANDARD.encode` encodes bytes as padded
/// base64 text over the standard alphabet, a function of the bytes alone.
/// The length bound keeps the engine's output-size computation from
/// overflowing, which would make it panic.
#[verifier::external_body]
fn encode_standard(b: &Vec<u8>) -> (r: String)
    requires
        b@.len() <= ENCODE_LIMIT,
    ensures
        r@ == standard_encoded(b@),
{
    base64::engine::general_purpose::STANDARD.encode(b)
}

/// Which base64 alphabet a decoder uses.
#[derive(Clone, Copy, Debug, PartialEq, Eq, Structural)]
pub enum Alphabet {
    /// The standard alphabet, with padding.
    Standard,
    /// The URL-safe alphabet, without padding.
    UrlNoPad,
}

impl Alphabet {
    /// What decoding a text under this alphabet yields.
    pub open spec fn spec_decoded(self, s: Seq<char>) -> Option<Seq<u8>> {
        match self {
            Alphabet::Standard => standard_decoded(s),
            Alphabet::UrlNoPad => url_no_pad_decoded(s),
        }
    }

    /// Decodes a text under this alphabet.
    pub fn decode(&self, s: &str) -> (r: Option<Vec<u8>>)
        ensures
            match r {
                Some(v) => self.spec_decoded(s@) == Some(v@),
                None => self.spec_decoded(s@) is None,
            },
    {
        match self {
            Alphabet::Standard => decode_standard(s),
            Alphabet::UrlNoPad => decode_url_no_pad(s),
        }
    }
}

/// The base64 validation-and-decoding capability: checks that its text
/// input is valid base64 under its alphabet and transforms it into the
/// decoded bytes.
#[derive(Clone, Copy, Debug, PartialEq, Eq, Structural)]
pub struct Base64 {
    pub alphabet: Alphabet,
}

impl Base64 {
    /// A decoder over the given alphabet.
    pub fn new(alphabet: Alphabet) -> (r: Base64)
        ensures
            r.alphabet == alphabet,
    {
        Base64 { alphabet }
    }

    /// The dotted path under which this capability is registered.
    pub open spec fn spec_ident(self) -> Seq<char> {
        match self.alphabet {
            Alphabet::Standard => "base64::base64"@,
            Alphabet::UrlNoPad => "base64::base64-url"@,
        }
    }

    /// The dotted path under which this capability is registered.
    pub fn ident(&self) -> (r: String)
        ensures
            r@ == self.spec_ident(),
    {
        match self.alphabet {
            Alphabet::Standard => String::from_str("base64::base64"),
            Alphabet::UrlNoPad => String::from_str("base64::base64-url"),
        }
    }

    /// This capability expects text.
    pub fn input(&self) -> (r: FunctionInput)
        ensures
            r == FunctionInput::Text,
    {
        FunctionInput::Text
    }

    /// What this capability's documentation says, per alphabet.
    pub open spec fn spec_documentation(self) -> Seq<char> {
        match self.alphabet {
            Alphabet::Standard => "Validates base64 encoded data and decodes it into the raw bytes"@,
            Alphabet::UrlNoPad => (
            "Validates URL-safe base64 encoded data and decodes it into the raw bytes"@),
        }
    }

    /// Descriptive metadata for tooling: the documentation of this
    /// capability's alphabet.
    pub fn metadata(&self) -> (r: PatternMeta)
        ensures
            r.documentation matches Some(d) && d@ == self.spec_documentation(),
    {
        PatternMeta {
            documentation: Some(
                match self.alphabet {
                    Alphabet::Standard => String::from_str(
                        "Validates base64 encoded data and decodes it into the raw bytes",
                    ),
                    Alphabet::UrlNoPad => String::from_str(
                        "Validates URL-safe base64 encoded data and decodes it into the raw bytes",
                    ),
                },
            ),
        }
    }

    /// Worked examples for tooling: exactly two, in order — "default", a
    /// text that decodes, and "failure", a text that is not base64 — each
    /// with a summary and a description.
    pub fn examples(&self) -> (r: Vec<Example>)
        ensures
            r@.len() == 2,
            r@[0].name@ == "default"@,
            r@[0].summary matches Some(s) && s@ == "Simple base64 encoded value"@,
            r@[0].description matches Some(d) && d@
                == "Validates the base64 string and transforms it into the BLOB."@,
            r@[0].value.model() == SpecValue::Text("SGVsbG8gUm9kbmV5IQ=="@),
            r@[1].name@ == "failure"@,
            r@[1].summary matches Some(s) && s@ == "Non-base64 encoded value"@,
            r@[1].description matches Some(d) && d@
                == "Fails to validate, as it is not a base64 encoded value"@,
            r@[1].value.model() == SpecValue::Text("foo bar"@),
    {
        let mut out: Vec<Example> = Vec::new();
        out.push(
            Example {
                name: String::from_str("default"),
                summary: Some(String::from_str("Simple base64 encoded value")),
                description: Some(
                    String::from_str("Validates the base64 string and transforms it into the BLOB."),
                ),
                value: RuntimeValue::text("SGVsbG8gUm9kbmV5IQ=="),
            },
        );
        out.push(
            Example {
                name: String::from_str("failure"),
                summary: Some(String::from_str("Non-base64 encoded value")),
                description: Some(
                    String::from_str("Fails to validate, as it is not a base64 encoded value"),
                ),
                value: RuntimeValue::text("foo bar"),
            },
        );
        out
    }

    /// What this capability produces: the decoded bytes on valid base64
    /// text, an error-severity finding naming the offending text on invalid
    /// base64, and an error-severity finding on any non-text input.
    pub open spec fn spec_call(self, v: SpecValue) -> SpecFunctionResult {
        match v {
            SpecValue::Text(s) => match self.alphabet.spec_decoded(s) {
                Some(b) => SpecFunctionResult {
                    output: SpecOutput::Transform(SpecValue::Octets(b)),
                    severity: Severity::Quiet,
                    reason: None,
                },
                None => SpecFunctionResult {
                    output: SpecOutput::Unchanged,
                    severity: Severity::Error,
                    reason: Some("not base64: "@ + s),
                },
            },
            _ => SpecFunctionResult {
                output: SpecOutput::Unchanged,
                severity: Severity::Error,
                reason: Some("Expected a string"@),
            },
        }
    }

    /// Runs the decoder; never raises an evaluation error, since a failed
    /// decode is expected non-satisfaction, not an engine failure.
    pub fn call(&self, input: &RuntimeValue) -> (r: FunctionEvaluationResult)
        ensures
            r.model() == self.spec_call(input.model()),
    {
        match input.try_get_text() {
            Some(s) => match self.alphabet.decode(s.as_str()) {
                Some(bytes) => FunctionEvaluationResult {
                    output: Output::Transform(RuntimeValue::Octets(bytes)),
                    severity: Severity::Quiet,
                    reason: None,
                },
                None => FunctionEvaluationResult {
                    output: Output::Unchanged,
                    severity: Severity::Error,
                    reason: Some(String::from_str("not base64: ").concat(s.as_str())),
                },
            },
            None => FunctionEvaluationResult {
                output: Output::Unchanged,
                severity: Severity::Error,
                reason: Some(String::from_str("Expected a string")),
            },
        }
    }
}

/// The base64 encoding capability: transforms its byte-sequence input into
/// base64 text over the standard alphabet.
#[derive(Clone, Copy, Debug, PartialEq, Eq, Structural)]
pub struct Base64Encode;

impl Base64Encode {
    /// Descriptive metadata for tooling.
    pub fn metadata(&self) -> (r: PatternMeta)
        ensures
            r.documentation matches Some(d) && d@
                == "Encodes raw bytes as base64 over the standard alphabet"@,
    {
        PatternMeta {
            documentation: Some(
                String::from_str("Encodes raw bytes as base64 over the standard alphabet"),
            ),
        }
    }

    /// What this capability produces: the base64 text on byte-sequence
    /// input of encodable size, an internal error on an input so large the
    /// encoder could not size its output, and an error-severity finding
    /// with a reason on any other input.
    pub open spec fn spec_call(self, v: SpecValue) -> Result<SpecFunctionResult, SpecError> {
        match v {
            SpecValue::Octets(b) => if b.len() <= ENCODE_LIMIT {
                Ok(
                    SpecFunctionResult {
                        output: SpecOutput::Transform(SpecValue::Text(standard_encoded(b))),
                        severity: Severity::Quiet,
                        reason: None,
                    },
                )
            } else {
                Err(SpecError::FunctionInternal("base64::base64-encode"@))
            },
            _ => Ok(
                SpecFunctionResult {
                    output: SpecOutput::Unchanged,
                    severity: Severity::Error,
                    reason: Some("Expected a byte sequence"@),
                },
            ),
        }
    }

    /// Runs the encoder.
    pub fn call(&self, input: &RuntimeValue) -> (r: Result<FunctionEvaluationResult, EvalError>)
        ensures
            match r {
                Ok(fr) => self.spec_call(input.model()) == Ok::<SpecFunctionResult, SpecError>(
                    fr.model(),
                ),
                Err(e) => self.spec_call(input.model()) == Err::<SpecFunctionResult, SpecError>(
                    e.model(),
                ),
            },
    {
        match input.try_get_octets() {
            Some(b) => {
                if b.len() <= ENCODE_LIMIT {
                    Ok(
                        FunctionEvaluationResult {
                            output: Output::Transform(RuntimeValue::Text(encode_standard(b))),
                            severity: Severity::Quiet,
                            reason: None,
                        },
                    )
                } else {
                    Err(EvalError::FunctionInternal(String::from_str("base64::base64-encode")))
                }
            },
            None => Ok(
                FunctionEvaluationResult {
                    output: Output::Unchanged,
                    severity: Severity::Error,
                    reason: Some(String::from_str("Expected a byte sequence")),
                },
            ),
        }
    }
}

/// The base64 package: the capabilities this module registers, under the
/// `base64` namespace, with the package's documentation.
pub fn package() -> (r: Package)
    ensures
        r.spec_documentation() == Some("Functionality for processing base64 encoded data"@),
        r.model() == seq![
            ("base64::base64"@, crate::world::SpecEntry::Function(
                FunctionValue::Decode(Base64 { alphabet: Alphabet::Standard }),
            )),
            ("base64::base64-url"@, crate::world::SpecEntry::Function(
                FunctionValue::Decode(Base64 { alphabet: Alphabet::UrlNoPad }),
            )),
            ("base64::base64-encode"@, crate::world::SpecEntry::Function(
                FunctionValue::Encode(Base64Encode),
            )),
        ],
{
    let mut pkg = Package::new(PackagePath::from_part("base64")).with_documentation(
        String::from_str("Functionality for processing base64 encoded data"),
    );
    pkg.register_function("base64", FunctionValue::Decode(Base64::new(Alphabet::Standard)));
    pkg.register_function("base64-url", FunctionValue::Decode(Base64::new(Alphabet::UrlNoPad)));
    pkg.register_function("base64-encode", FunctionValue::Encode(Base64Encode));
    proof {
        reveal_strlit("base64");
        reveal_strlit("::");
        reveal_strlit("base64-url");
        reveal_strlit("base64-encode");
        reveal_strlit("base64::base64");
        reveal_strlit("base64::base64-url");
        reveal_strlit("base64::base64-encode");
        assert("base64"@ + "::"@ + "base64"@ =~= "base64::base64"@);
        assert("base64"@ + "::"@ + "base64-url"@ =~= "base64::base64-url"@);
        assert("base64"@ + "::"@ + "base64-encode"@ =~= "base64::base64-encode"@);
        assert(pkg.model() =~= seq![
            ("base64::base64"@, crate::world::SpecEntry::Function(
                FunctionValue::Decode(Base64 { alphabet: Alphabet::Standard }),
            )),
            ("base64::base64-url"@, crate::world::SpecEntry::Function(
                FunctionValue::Decode(Base64 { alphabet: Alphabet::UrlNoPad }),
            )),
            ("base64::base64-encode"@, crate::world::SpecEntry::Function(
                FunctionValue::Encode(Base64Encode),
            )),
        ]);
    }
    pkg
}

} // verus!

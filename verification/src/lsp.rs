//! The protocol face of the diagnostic model: turns a diagnostic record into
//! a language-server protocol diagnostic for the transport layer, and the
//! error type of that layer.

use vstd::prelude::*;

use crate::error::Error;
use crate::text::push_str;

verus! {

/// The protocol diagnostic type of the language-server types crate; opaque
/// to the verifier and carried through to the transport layer unread.
#[verifier::external_type_specification]
#[verifier::external_body]
pub struct ExDiagnostic(lsp_types::Diagnostic);

/// The message of a protocol diagnostic: the diagnostic's message and note,
/// joined by a colon.
pub open spec fn spec_protocol_message(e: Error) -> Seq<char> {
    e.msg@ + ": "@ + e.note@
}

/// Builds the protocol message text of a diagnostic.
pub fn protocol_message(e: &Error) -> (r: String)
    ensures
        r@ == spec_protocol_message(*e),
{
    let mut r = String::new();
    push_str(&mut r, e.msg.as_str());
    push_str(&mut r, ": ");
    push_str(&mut r, e.note.as_str());
    r
}

/// Relies on lsp_types::Diagnostic being a plain record: the call fills its
/// range with the given zero-based line and columns, its severity with ERROR,
/// its code with the given rule name, its source with the tool name and its
/// message with the given text; everything else stays empty.
#[verifier::external_body]
fn make_protocol_diagnostic(
    line: u32,
    start: u32,
    end: u32,
    code: String,
    message: String,
) -> lsp_types::Diagnostic {
    lsp_types::Diagnostic {
        range: lsp_types::Range::new(
            lsp_types::Position { line, character: start },
            lsp_types::Position { line, character: end },
        ),
        severity: Some(lsp_types::DiagnosticSeverity::ERROR),
        code: Some(lsp_types::NumberOrString::String(code)),
        code_description: None,
        source: Some("sqleibniz".to_string()),
        message,
        related_information: None,
        tags: None,
        data: None,
    }
}

/// Turns a diagnostic into its protocol form: a zero-based single-line range
/// from the start to the end column, severity error, the stable rule name as
/// the code, the message and note as the message text and the tool name as
/// the source.
pub fn to_protocol_diagnostic(e: &Error) -> lsp_types::Diagnostic {
    let message = protocol_message(e);
    let code = e.rule.name().to_owned();
    make_protocol_diagnostic(
        #[verifier::truncate] (e.line as u32),
        #[verifier::truncate] (e.start as u32),
        #[verifier::truncate] (e.end as u32),
        code,
        message,
    )
}

/// An error of the language-server transport layer, wrapping its cause text.
#[derive(Debug)]
pub struct LspError {
    pub cause: String,
}

impl LspError {
    /// The text of the error, prefixed with the layer's name.
    pub fn message(&self) -> (r: String)
        ensures
            r@ == "LspError: "@ + self.cause@,
    {
        let mut r = String::new();
        push_str(&mut r, "LspError: ");
        push_str(&mut r, self.cause.as_str());
        r
    }
}

impl From<String> for LspError {
    fn from(value: String) -> (r: LspError) {
        LspError { cause: value }
    }
}

impl vstd::std_specs::convert::FromSpecImpl<String> for LspError {
    open spec fn obeys_from_spec() -> bool {
        true
    }

    open spec fn from_spec(t: String) -> LspError {
        LspError { cause: t }
    }
}

} // verus!

//! What is reported when the declarations cannot be dispatched over.
use vstd::prelude::*;
use vstd::string::*;
use crate::syntax::SpanId;

verus! {

#[derive(Clone, Copy, PartialEq, Eq, Structural, Debug)]
pub enum DiagnosticKind {
    MissingTrait,
    MissingEnum,
    /// An option attribute written without a parenthesized list.
    NotAttributeList,
    /// A token in the option list that is not an identifier.
    ExpectedIdentifier,
    UnknownOption,
    /// The argument of the remote attribute is not a path.
    RemoteNotPath,
    CombinedGenerics,
    AssociatedType,
    AssociatedConst,
    NotNewtype,
    /// A variant that is not a newtype, met while building conversions.
    NotNewtypeForConversion,
    WrappedSelf,
    GenericClash,
    ReservedName,
}

/// One fatal problem, with where it was found. `name` is the offending
/// identifier where the message names one, and empty otherwise.
#[derive(Debug)]
pub struct Diagnostic {
    pub kind: DiagnosticKind,
    pub span: SpanId,
    pub name: String,
}

pub ghost struct DiagnosticV {
    pub kind: DiagnosticKind,
    pub span: SpanId,
    pub name: Seq<char>,
}

impl View for Diagnostic {
    type V = DiagnosticV;

    open spec fn view(&self) -> DiagnosticV {
        DiagnosticV { kind: self.kind, span: self.span, name: self.name@ }
    }
}

pub open spec fn diag(kind: DiagnosticKind, span: SpanId) -> DiagnosticV {
    DiagnosticV { kind, span, name: Seq::empty() }
}

pub open spec fn message_of(kind: DiagnosticKind, name: Seq<char>) -> Seq<char> {
    match kind {
        DiagnosticKind::MissingTrait => "Missing trait definition"@,
        DiagnosticKind::MissingEnum => "Missing enum definition"@,
        DiagnosticKind::NotAttributeList => "expected attribute arguments in parentheses"@,
        DiagnosticKind::ExpectedIdentifier => "expected identifier"@,
        DiagnosticKind::UnknownOption => "Unknown configuration option"@,
        DiagnosticKind::RemoteNotPath => "expected a path to a trait"@,
        DiagnosticKind::CombinedGenerics => "Cannot combine enum and trait generics"@,
        DiagnosticKind::AssociatedType => "Associated types not supported"@,
        DiagnosticKind::AssociatedConst => "Associated constants not supported"@,
        DiagnosticKind::NotNewtype => "All variants must be newtype with one field"@,
        DiagnosticKind::NotNewtypeForConversion =>
            "All variants must be newtype with one field for From/TryInto impls"@,
        DiagnosticKind::WrappedSelf =>
            "Arbitrary self types like `Arc<Self>` or `Box<Self>` are not supported. Use `self`, `&self`, or `&mut self` instead."@,
        DiagnosticKind::GenericClash => "Generic parameter `"@ + name
            + "` conflicts with trait generic parameter. Use a different name."@,
        DiagnosticKind::ReservedName =>
            "Parameter name `__disponent_inner` is reserved. Use a different name."@,
    }
}

impl Diagnostic {
    pub fn new(kind: DiagnosticKind, span: SpanId) -> (r: Diagnostic)
        ensures
            r@ == diag(kind, span),
    {
        Diagnostic { kind, span, name: String::new() }
    }

    /// The human-readable text of the diagnostic.
    pub fn message(&self) -> (r: String)
        ensures
            r@ == message_of(self.kind, self.name@),
    {
        match self.kind {
            DiagnosticKind::MissingTrait => String::from_str("Missing trait definition"),
            DiagnosticKind::MissingEnum => String::from_str("Missing enum definition"),
            DiagnosticKind::NotAttributeList => String::from_str(
                "expected attribute arguments in parentheses",
            ),
            DiagnosticKind::ExpectedIdentifier => String::from_str("expected identifier"),
            DiagnosticKind::UnknownOption => String::from_str("Unknown configuration option"),
            DiagnosticKind::RemoteNotPath => String::from_str("expected a path to a trait"),
            DiagnosticKind::CombinedGenerics => String::from_str(
                "Cannot combine enum and trait generics",
            ),
            DiagnosticKind::AssociatedType => String::from_str("Associated types not supported"),
            DiagnosticKind::AssociatedConst => String::from_str(
                "Associated constants not supported",
            ),
            DiagnosticKind::NotNewtype => String::from_str(
                "All variants must be newtype with one field",
            ),
            DiagnosticKind::NotNewtypeForConversion => String::from_str(
                "All variants must be newtype with one field for From/TryInto impls",
            ),
            DiagnosticKind::WrappedSelf => String::from_str(
                "Arbitrary self types like `Arc<Self>` or `Box<Self>` are not supported. Use `self`, `&self`, or `&mut self` instead.",
            ),
            DiagnosticKind::GenericClash => {
                let head = String::from_str("Generic parameter `");
                head.concat(self.name.as_str()).concat(
                    "` conflicts with trait generic parameter. Use a different name.",
                )
            },
            DiagnosticKind::ReservedName => String::from_str(
                "Parameter name `__disponent_inner` is reserved. Use a different name.",
            ),
        }
    }
}

} // verus!

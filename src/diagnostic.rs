//! Errors and warnings reported while generating bindings.
use vstd::prelude::*;
use crate::ast::Span;

verus! {

#[derive(Clone, Copy, Debug, PartialEq, Eq, Structural)]
pub enum Severity {
    /// Nothing of the annotated item is processed.
    Error,
    /// One method is skipped; its siblings are still processed.
    Warning,
}

/// Why a binding could not be generated.
#[derive(Clone, Copy, Debug, PartialEq, Eq, Structural)]
pub enum Reason {
    NotImpl,
    TraitImpl,
    ReceiverLifetime,
    ReceiverByValue,
    ReceiverExplicit,
    PathBounds,
    PathLifetimes,
    PathTypeParams,
    UnknownType,
    /// The path has no marshalling rule; the diagnostic's subject cites it.
    UnsupportedType,
    /// Two descriptors share a symbol; the diagnostic's subject cites it.
    SymbolCollision,
}

pub open spec fn severity_of(r: Reason) -> Severity {
    match r {
        Reason::NotImpl | Reason::TraitImpl | Reason::SymbolCollision => Severity::Error,
        _ => Severity::Warning,
    }
}

/// The fixed text of each reason.
pub open spec fn reason_text(r: Reason) -> Seq<char> {
    match r {
        Reason::NotImpl => "#[autobind] can only be applied to impl blocks"@,
        Reason::TraitImpl => "#[autobind] cannot be applied to impls of traits"@,
        Reason::ReceiverLifetime =>
            "autobind: cannot generate bindings for method with a lifetime on `self`"@,
        Reason::ReceiverByValue =>
            "autobind: cannot generate bindings for method with by-value `self`"@,
        Reason::ReceiverExplicit =>
            "autobind: cannot generate bindings for method with explicit `self`"@,
        Reason::PathBounds => "autobind: currently can't handle bounds on a path"@,
        Reason::PathLifetimes => "autobind: currently can't handle lifetimes in a path"@,
        Reason::PathTypeParams => "autobind: currently can't handle type parameters in a path"@,
        Reason::UnknownType => "autobind: unknown type for binding"@,
        Reason::UnsupportedType => "autobind: unsupported type for binding: "@,
        Reason::SymbolCollision => "autobind: generated symbol is not unique: "@,
    }
}

pub fn reason_message(r: Reason) -> (s: String)
    ensures
        s@ == reason_text(r),
{
    let text = match r {
        Reason::NotImpl => "#[autobind] can only be applied to impl blocks",
        Reason::TraitImpl => "#[autobind] cannot be applied to impls of traits",
        Reason::ReceiverLifetime =>
            "autobind: cannot generate bindings for method with a lifetime on `self`",
        Reason::ReceiverByValue =>
            "autobind: cannot generate bindings for method with by-value `self`",
        Reason::ReceiverExplicit =>
            "autobind: cannot generate bindings for method with explicit `self`",
        Reason::PathBounds => "autobind: currently can't handle bounds on a path",
        Reason::PathLifetimes => "autobind: currently can't handle lifetimes in a path",
        Reason::PathTypeParams => "autobind: currently can't handle type parameters in a path",
        Reason::UnknownType => "autobind: unknown type for binding",
        Reason::UnsupportedType => "autobind: unsupported type for binding: ",
        Reason::SymbolCollision => "autobind: generated symbol is not unique: ",
    };
    String::from_str(text)
}

/// A diagnostic with its location. `subject` is the type path that an
/// `UnsupportedType` diagnostic cites, or the symbol that a `SymbolCollision`
/// one cites, and empty for every other reason.
#[derive(Clone, Debug)]
pub struct Diagnostic {
    pub severity: Severity,
    pub span: Span,
    pub reason: Reason,
    pub subject: String,
}

pub struct DiagnosticView {
    pub severity: Severity,
    pub span: Span,
    pub reason: Reason,
    pub subject: Seq<char>,
}

impl View for Diagnostic {
    type V = DiagnosticView;

    open spec fn view(&self) -> DiagnosticView {
        DiagnosticView {
            severity: self.severity,
            span: self.span,
            reason: self.reason,
            subject: self.subject@,
        }
    }
}

/// The diagnostic for `reason` at `span`, with the severity that the reason carries.
pub open spec fn diag(reason: Reason, span: Span, subject: Seq<char>) -> DiagnosticView {
    DiagnosticView { severity: severity_of(reason), span, reason, subject }
}

impl Diagnostic {
    pub fn new(reason: Reason, span: Span, subject: String) -> (d: Diagnostic)
        ensures
            d@ == diag(reason, span, subject@),
    {
        let severity = match reason {
            Reason::NotImpl | Reason::TraitImpl | Reason::SymbolCollision => Severity::Error,
            _ => Severity::Warning,
        };
        Diagnostic { severity, span, reason, subject }
    }

    /// The text shown to the user: the reason's text, followed by the subject.
    pub fn message(&self) -> (s: String)
        ensures
            s@ == reason_text(self.reason) + self.subject@,
    {
        let text = reason_message(self.reason);
        text.concat(self.subject.as_str())
    }
}

} // verus!

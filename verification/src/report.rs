//! The diagnostic reporter: what the author of a refused declaration is told.

use crate::model::InvalidTarget;
use vstd::prelude::*;
use vstd::string::StringExecFns;

verus! {

/// The message for a declaration that is no sum type.
pub const INVALID_TARGET_MESSAGE: &'static str = "directive applicable only to sum types";

/// One message, anchored at one place in the source.
#[derive(Debug)]
pub struct Diagnostic {
    pub location: proc_macro2::Span,
    pub message: String,
}

/// Mathematical value of a [`Diagnostic`].
pub struct DiagnosticView {
    pub location: proc_macro2::Span,
    pub message: Seq<char>,
}

impl View for Diagnostic {
    type V = DiagnosticView;

    open spec fn view(&self) -> DiagnosticView {
        DiagnosticView { location: self.location, message: self.message@ }
    }
}

/// The diagnostic for a refused declaration: the one message, at the name of
/// the type.
pub open spec fn reported(error: InvalidTarget) -> DiagnosticView {
    DiagnosticView { location: error.location, message: INVALID_TARGET_MESSAGE@ }
}

/// Reports a refused declaration.
pub fn report(error: InvalidTarget) -> (diagnostic: Diagnostic)
    ensures
        diagnostic@ == reported(error),
{
    Diagnostic { location: error.location, message: String::from_str(INVALID_TARGET_MESSAGE) }
}

} // verus!

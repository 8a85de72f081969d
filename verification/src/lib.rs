//! Engine behind a `variant_name` accessor for sum types.
//!
//! Given the declaration of a sum type, the engine writes an implementation
//! block whose single function maps every value of the type to the literal
//! name of its active branch, by one exhaustive dispatch that can be evaluated
//! in a constant expression.
//!
//! A pass runs from the declaration extractor ([`extract`]) over the branch
//! pattern synthesizer ([`pattern`]) to the dispatch emitter ([`emit`]); a
//! declaration that is no sum type goes to the diagnostic reporter
//! ([`report`]) instead, and then nothing is emitted. The declaration is
//! parsed, and its generic signature split for reattachment, by the host
//! ([`host`]). What the emitted dispatch computes on a value is stated in
//! [`dispatch`].

pub mod dispatch;
pub mod emit;
pub mod extract;
pub mod host;
pub mod model;
pub mod pattern;
pub mod report;

use crate::dispatch::Dispatch;
use crate::emit::{implementation_text, output_text};
use crate::extract::describe;
use crate::host::described;
use crate::model::{BodyView, Declaration, DeclarationView, InvalidTarget, Mode};
use crate::pattern::arms_for;
use crate::report::{reported, Diagnostic, DiagnosticView, INVALID_TARGET_MESSAGE};
use vstd::prelude::*;

verus! {

/// What one invocation answers: the emitted text for a sum type, the one
/// diagnostic for anything else. Never both, never a part of either.
pub open spec fn expansion(declaration: DeclarationView, mode: Mode, source: Seq<char>) -> Result<
    Seq<char>,
    DiagnosticView,
> {
    match declaration.body {
        BodyView::Sum(branches) => Ok(
            output_text(
                mode,
                source,
                implementation_text(declaration.name, declaration.generics, arms_for(branches)),
            ),
        ),
        _ => Err(reported(InvalidTarget { location: declaration.location })),
    }
}

/// An invocation is all or nothing. A sum type is answered by text and no
/// diagnostic. Anything else, an annotated record or union above all, is
/// answered by no text and exactly one diagnostic: the one message, at the
/// name of the type.
pub proof fn answer_is_text_or_one_diagnostic(
    declaration: DeclarationView,
    mode: Mode,
    source: Seq<char>,
)
    ensures
        declaration.body is Sum <==> expansion(declaration, mode, source) is Ok,
        !(declaration.body is Sum) ==> expansion(declaration, mode, source) == Err::<
            Seq<char>,
            DiagnosticView,
        >(DiagnosticView { location: declaration.location, message: INVALID_TARGET_MESSAGE@ }),
{
}

/// Mathematical value of an invocation's answer.
pub open spec fn answer_view(answer: Result<String, Diagnostic>) -> Result<
    Seq<char>,
    DiagnosticView,
> {
    match answer {
        Ok(text) => Ok(text@),
        Err(diagnostic) => Err(diagnostic@),
    }
}

/// Runs one generation pass on a declaration. `source` is the text
/// of the declaration, which an attachment repeats before the implementation
/// block.
///
/// The extractor trusts an attachment to stand on a sum type. This function
/// does not pass that trust on to its callers: it tests the declaration in
/// attachment mode too, and answers one that is no sum type with the same
/// diagnostic as an annotation would get.
pub fn generate(declaration: Declaration, mode: Mode, source: &str) -> (answer: Result<
    String,
    Diagnostic,
>)
    ensures
        answer_view(answer) == expansion(declaration@, mode, source@),
{
    if matches!(mode, Mode::Attachment) && !declaration.declares_sum() {
        return Err(report::report(InvalidTarget { location: declaration.location }));
    }
    match extract::extract(declaration, mode) {
        Ok(sum) => {
            let dispatch = Dispatch::of(&sum);
            Ok(emit::emit(mode, source, sum.name.as_str(), &sum.generics, &dispatch.arms))
        },
        Err(error) => Err(report::report(error)),
    }
}

/// Runs one generation pass on a parsed declaration.
pub fn expand(input: &syn::DeriveInput, mode: Mode, source: &str) -> (answer: Result<
    String,
    Diagnostic,
>)
    ensures
        answer_view(answer) == expansion(described(*input), mode, source@),
{
    generate(describe(input), mode, source)
}

/// Why a declaration text gets no implementation block.
#[derive(Debug)]
pub enum Rejection {
    /// The host's parser does not take the text for a declaration. Its own
    /// error is handed on as it came.
    Unparsed(syn::Error),
    /// The text declares a type that is no sum type.
    InvalidTarget(Diagnostic),
}

/// `outcome` is what one generation pass answers on `declaration`.
pub open spec fn answers(
    outcome: Result<String, Rejection>,
    declaration: DeclarationView,
    mode: Mode,
    source: Seq<char>,
) -> bool {
    match outcome {
        Ok(text) => expansion(declaration, mode, source) == Ok::<Seq<char>, DiagnosticView>(
            text@,
        ),
        Err(Rejection::InvalidTarget(diagnostic)) => expansion(declaration, mode, source) == Err::<
            Seq<char>,
            DiagnosticView,
        >(diagnostic@),
        Err(Rejection::Unparsed(_)) => false,
    }
}

/// Runs one generation pass on the source text of a declaration.
///
/// The text goes to the host's parser first. Whether the parser takes it,
/// and for which declaration, is the parser's to decide: where it does, the
/// outcome is what a generation pass answers on the declaration it found,
/// with the text itself as the source to repeat.
pub fn expand_text(text: &str, mode: Mode) -> (outcome: Result<String, Rejection>)
    ensures
        outcome matches Err(Rejection::Unparsed(_)) || exists|input: syn::DeriveInput|
            answers(outcome, #[trigger] described(input), mode, text@),
{
    match host::parse(text) {
        Ok(input) => {
            let outcome = match expand(&input, mode, text) {
                Ok(emitted) => Ok(emitted),
                Err(diagnostic) => Err(Rejection::InvalidTarget(diagnostic)),
            };
            assert(answers(outcome, described(input), mode, text@));
            outcome
        },
        Err(error) => Err(Rejection::Unparsed(error)),
    }
}

/// The annotation-style directive on the source text of a declaration: the
/// implementation block with the `variant_name` accessor for a sum type, a
/// rejection for anything else.
pub fn enum_variant_name_const_derive(item: &str) -> (outcome: Result<String, Rejection>)
    ensures
        outcome matches Err(Rejection::Unparsed(_)) || exists|input: syn::DeriveInput|
            answers(outcome, #[trigger] described(input), Mode::Annotation, item@),
{
    expand_text(item, Mode::Annotation)
}

} // verus!

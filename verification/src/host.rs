//! The host's declaration parser, as far as the engine relies on it.
//!
//! None of the functions in this file is proved: each states what the engine
//! takes on trust from `syn`, `quote` and `proc_macro2`, and makes the one
//! call that it speaks of. A parsed declaration stays opaque to the engine.
//! What the engine reads of it has a name here, and nothing is said of what a
//! name is on any given declaration: that is the host's to decide.

use crate::model::{BodyView, BranchView, DeclarationView, GenericSignature, ShapeView};
use vstd::prelude::*;

verus! {

/// `syn::DeriveInput`: a parsed type declaration. Opaque here.
#[verifier::external_type_specification]
#[verifier::external_body]
pub struct ExDeriveInput(syn::DeriveInput);

/// `syn::DataEnum`: the body of a parsed sum-type declaration. Opaque here.
#[verifier::external_type_specification]
#[verifier::external_body]
pub struct ExDataEnum(syn::DataEnum);

/// `syn::Error`: what the parser reports of text it rejects. Opaque here.
#[verifier::external_type_specification]
#[verifier::external_body]
pub struct ExSyntaxError(syn::Error);

/// `proc_macro2::Span`: a region of source text. Opaque here.
#[verifier::external_type_specification]
#[verifier::external_body]
pub struct ExSpan(proc_macro2::Span);

/// What a parsed declaration holds for the engine: the identifier it
/// declares, where that identifier stands, the three renderings that
/// `split_for_impl` gives of its generics, and what it declares, with the
/// branches of a sum type.
pub uninterp spec fn described(input: syn::DeriveInput) -> DeclarationView;

/// The branches that a parsed sum-type body holds, in declaration order.
pub uninterp spec fn variants(data: syn::DataEnum) -> Seq<BranchView>;

/// `Ident::to_string` on the `ident` field of a `DeriveInput`: the name of
/// the declared type.
#[verifier::external_body]
pub(crate) fn name_of(input: &syn::DeriveInput) -> (name: String)
    ensures
        name@ == described(*input).name,
{
    input.ident.to_string()
}

/// `Ident::span` on the `ident` field of a `DeriveInput`: where the name of
/// the declared type stands.
#[verifier::external_body]
pub(crate) fn location_of(input: &syn::DeriveInput) -> (location: proc_macro2::Span)
    ensures
        location == described(*input).location,
{
    input.ident.span()
}

/// The generic signature preserver: `Generics::split_for_impl` on the
/// `generics` field of a `DeriveInput`, each of its three parts printed by
/// `ToTokens::to_token_stream` and `to_string`. Which parameters each
/// rendering holds, and in what order, is the host's doing and not claimed
/// here.
#[verifier::external_body]
pub(crate) fn preserve(input: &syn::DeriveInput) -> (generics: GenericSignature)
    ensures
        generics@ == described(*input).generics,
{
    let (declaration, usage, constraint) = input.generics.split_for_impl();
    GenericSignature {
        declaration_side: quote::ToTokens::to_token_stream(&declaration).to_string(),
        usage_side: quote::ToTokens::to_token_stream(&usage).to_string(),
        constraint: quote::ToTokens::to_token_stream(&constraint).to_string(),
    }
}

/// What a parsed declaration declares; a sum type comes with its parsed body.
pub(crate) enum TreeBody<'a> {
    Sum(&'a syn::DataEnum),
    Record,
    Union,
}

/// Tells the three variants of `syn::Data` apart, on the `data` field of a
/// `DeriveInput`: `Enum` is a sum type, `Struct` a record, `Union` a union.
/// The branches of the sum type are those that [`variants`] names.
#[verifier::external_body]
pub(crate) fn body_of(input: &syn::DeriveInput) -> (body: TreeBody<'_>)
    ensures
        body matches TreeBody::Sum(data) ==> described(*input).body == BodyView::Sum(
            variants(*data),
        ),
        body is Record ==> described(*input).body == BodyView::Record,
        body is Union ==> described(*input).body == BodyView::Union,
{
    match &input.data {
        syn::Data::Enum(data) => TreeBody::Sum(data),
        syn::Data::Struct(_) => TreeBody::Record,
        syn::Data::Union(_) => TreeBody::Union,
    }
}

/// Which of the three payload forms a branch has.
#[derive(Clone, Copy, Debug, PartialEq, Eq, Structural)]
pub(crate) enum Form {
    Empty,
    Positional,
    Named,
}

/// The form of a shape.
pub(crate) open spec fn form(shape: ShapeView) -> Form {
    match shape {
        ShapeView::Empty => Form::Empty,
        ShapeView::Positional(_) => Form::Positional,
        ShapeView::Named(_) => Form::Named,
    }
}

/// The number of fields of a shape.
pub(crate) open spec fn arity(shape: ShapeView) -> nat {
    match shape {
        ShapeView::Empty => 0,
        ShapeView::Positional(count) => count,
        ShapeView::Named(fields) => fields.len(),
    }
}

/// `Punctuated::len` on the `variants` field of a `DataEnum`: the number of
/// branches.
#[verifier::external_body]
pub(crate) fn variant_count(data: &syn::DataEnum) -> (count: usize)
    ensures
        count == variants(*data).len(),
{
    data.variants.len()
}

/// `Ident::to_string` on the `ident` field of the variant at `index`: the
/// name of that branch. Indexing a `Punctuated` out of range panics.
#[verifier::external_body]
pub(crate) fn variant_name(data: &syn::DataEnum, index: usize) -> (name: String)
    requires
        index < variants(*data).len(),
    ensures
        name@ == variants(*data)[index as int].name,
{
    data.variants[index].ident.to_string()
}

/// Tells the three variants of `syn::Fields` apart, on the `fields` field of
/// the variant at `index`: `Unit` has no payload, `Unnamed` a positional one,
/// `Named` a named one.
#[verifier::external_body]
pub(crate) fn variant_form(data: &syn::DataEnum, index: usize) -> (found: Form)
    requires
        index < variants(*data).len(),
    ensures
        found == form(variants(*data)[index as int].shape),
{
    match &data.variants[index].fields {
        syn::Fields::Unit => Form::Empty,
        syn::Fields::Unnamed(_) => Form::Positional,
        syn::Fields::Named(_) => Form::Named,
    }
}

/// `Fields::len` on the `fields` field of the variant at `index`: the number
/// of fields of that branch, none for a branch without payload.
#[verifier::external_body]
pub(crate) fn variant_arity(data: &syn::DataEnum, index: usize) -> (count: usize)
    requires
        index < variants(*data).len(),
    ensures
        count == arity(variants(*data)[index as int].shape),
{
    data.variants[index].fields.len()
}

/// The `ident` field of the field at `field` of the variant at `index`,
/// printed by `ToTokens::to_token_stream` and `to_string`: the identifier of
/// that field of a named payload. `Fields::iter` yields the fields in order,
/// one for each that `Fields::len` counts, so within that count there is a
/// field to unwrap.
#[verifier::external_body]
pub(crate) fn variant_field(data: &syn::DataEnum, index: usize, field: usize) -> (name: String)
    requires
        index < variants(*data).len(),
        variants(*data)[index as int].shape is Named,
        field < arity(variants(*data)[index as int].shape),
    ensures
        name@ == variants(*data)[index as int].shape->Named_0[field as int],
{
    let found = data.variants[index].fields.iter().nth(field).unwrap();
    quote::ToTokens::to_token_stream(&found.ident).to_string()
}

/// `syn::parse_str` at `DeriveInput`: the host's declaration parser. What it
/// accepts and what tree it builds is the host's business; nothing is claimed
/// of either.
#[verifier::external_body]
pub(crate) fn parse(text: &str) -> (parsed: Result<syn::DeriveInput, syn::Error>)
{
    syn::parse_str::<syn::DeriveInput>(text)
}

} // verus!

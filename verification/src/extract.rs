//! The declaration extractor: from a parsed declaration to a sum type.

use crate::host::{
    arity, body_of, described, location_of, name_of, preserve, variant_arity, variant_count,
    variant_field, variant_form, variant_name, variants, Form, TreeBody,
};
use crate::model::{branch_views, Body, Branch, Declaration, InvalidTarget, Mode, Shape, SumType};
use vstd::prelude::*;

verus! {

/// Reads the identifiers of the named payload of the branch at `index`.
fn read_fields(data: &syn::DataEnum, index: usize, count: usize) -> (fields: Vec<String>)
    requires
        index < variants(*data).len(),
        variants(*data)[index as int].shape is Named,
        count == arity(variants(*data)[index as int].shape),
    ensures
        fields.deep_view() == variants(*data)[index as int].shape->Named_0,
{
    let mut fields: Vec<String> = Vec::new();
    let mut at: usize = 0;
    while at < count
        invariant
            index < variants(*data).len(),
            variants(*data)[index as int].shape is Named,
            count == arity(variants(*data)[index as int].shape),
            at <= count,
            fields.len() == at,
            forall|k: int|
                0 <= k < at ==> fields[k]@ == variants(*data)[index as int].shape->Named_0[k],
        decreases count - at,
    {
        fields.push(variant_field(data, index, at));
        at += 1;
    }
    assert(fields.deep_view() =~= variants(*data)[index as int].shape->Named_0);
    fields
}

/// Reads the branch at `index` of a parsed sum-type body.
fn read_branch(data: &syn::DataEnum, index: usize) -> (branch: Branch)
    requires
        index < variants(*data).len(),
    ensures
        branch@ == variants(*data)[index as int],
{
    let name = variant_name(data, index);
    let count = variant_arity(data, index);
    let shape = match variant_form(data, index) {
        Form::Empty => Shape::Empty,
        Form::Positional => Shape::Positional(count),
        Form::Named => Shape::Named(read_fields(data, index, count)),
    };
    Branch { name, shape }
}

/// Reads the branches of a parsed sum-type body, in declaration order.
fn read_branches(data: &syn::DataEnum) -> (branches: Vec<Branch>)
    ensures
        branch_views(branches@) == variants(*data),
{
    let count = variant_count(data);
    let mut branches: Vec<Branch> = Vec::new();
    let mut at: usize = 0;
    while at < count
        invariant
            count == variants(*data).len(),
            at <= count,
            branches.len() == at,
            forall|k: int| 0 <= k < at ==> branches[k]@ == variants(*data)[k],
        decreases count - at,
    {
        branches.push(read_branch(data, at));
        at += 1;
    }
    assert(branch_views(branches@) =~= variants(*data));
    branches
}

/// Reads a parsed declaration into the engine's own terms.
pub fn describe(input: &syn::DeriveInput) -> (declaration: Declaration)
    ensures
        declaration@ == described(*input),
{
    let body = match body_of(input) {
        TreeBody::Sum(data) => Body::Sum(read_branches(data)),
        TreeBody::Record => Body::Record,
        TreeBody::Union => Body::Union,
    };
    Declaration {
        name: name_of(input),
        location: location_of(input),
        generics: preserve(input),
        body,
    }
}

/// Extracts the sum type that a declaration declares.
///
/// An attachment is applied to a sum type by its calling convention, so in
/// that mode extraction cannot fail and the caller owes the guarantee. An
/// annotation may stand on any declaration: one that is no sum type is
/// refused, with the location of its name.
pub fn extract(declaration: Declaration, mode: Mode) -> (outcome: Result<SumType, InvalidTarget>)
    requires
        mode is Attachment ==> declaration@.body is Sum,
    ensures
        outcome is Ok <==> declaration@.body is Sum,
        outcome matches Ok(sum) ==> sum@ == declaration@.sum_type(),
        outcome matches Err(error) ==> error.location == declaration@.location,
{
    let Declaration { name, location, generics, body } = declaration;
    match body {
        Body::Sum(branches) => Ok(SumType { name, generics, branches }),
        Body::Record | Body::Union => Err(InvalidTarget { location }),
    }
}

} // verus!

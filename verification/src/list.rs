//! Comma-punctuated lists, as `syn` holds them, and what the rewrite needs of
//! them. Nothing here is proved: each contract states what the named method
//! of `syn::punctuated::Punctuated` does to the values of the list, leaving
//! the punctuation out.

use vstd::prelude::*;
use syn::punctuated::Punctuated;
use syn::token::Comma;
use crate::syntax::{GenericParam, Parameter};

verus! {

/// `syn::punctuated::Punctuated`: values of `T` with a `P` between each two
/// of them. What a list holds is only known through the functions below.
#[verifier::external_type_specification]
#[verifier::external_body]
#[verifier::reject_recursive_types(T)]
#[verifier::reject_recursive_types(P)]
pub struct ExPunctuated<T, P>(Punctuated<T, P>);

/// `syn::token::Comma`: the comma between two values of a list.
#[verifier::external_type_specification]
#[verifier::external_body]
pub struct ExComma(Comma);

/// The parameters that a list holds, in their order, without the commas.
pub uninterp spec fn parameters_of(list: Punctuated<Parameter, Comma>) -> Seq<Parameter>;

/// The generic parameters that a list holds, in their order, without the
/// commas.
pub uninterp spec fn generic_params_of(list: Punctuated<GenericParam, Comma>) -> Seq<GenericParam>;

/// `Punctuated::new`: a list that holds nothing.
#[verifier::external_body]
pub(crate) fn new_parameters() -> (list: Punctuated<Parameter, Comma>)
    ensures
        parameters_of(list) == Seq::<Parameter>::empty(),
{
    Punctuated::new()
}

/// `Punctuated::push`: the value becomes the last of the list, behind a
/// comma where the list held a value before; the values before it stay.
#[verifier::external_body]
pub(crate) fn push_parameter(list: &mut Punctuated<Parameter, Comma>, value: Parameter)
    ensures
        parameters_of(*final(list)) == parameters_of(*old(list)).push(value),
{
    list.push(value);
}

/// `Punctuated::len`: the number of values, not counting the commas.
#[verifier::external_body]
pub(crate) fn parameters_len(list: &Punctuated<Parameter, Comma>) -> (len: usize)
    ensures
        len == parameters_of(*list).len(),
{
    list.len()
}

/// `Punctuated::index`: the value at a position below the length.
#[verifier::external_body]
pub(crate) fn parameter_at(list: &Punctuated<Parameter, Comma>, index: usize) -> (param: &Parameter)
    requires
        index < parameters_of(*list).len(),
    ensures
        *param == parameters_of(*list)[index as int],
{
    &list[index]
}

/// `Punctuated::push`, for a list of generic parameters.
#[verifier::external_body]
pub(crate) fn push_generic_param(list: &mut Punctuated<GenericParam, Comma>, value: GenericParam)
    ensures
        generic_params_of(*final(list)) == generic_params_of(*old(list)).push(value),
{
    list.push(value);
}

} // verus!

//! The rewrite of a whole function definition.

use vstd::prelude::*;
use vstd::string::StringExecFns;
use crate::list::{generic_params_of, parameters_of, push_generic_param};
use crate::body::{generate_body_insert_statements, prologue};
use crate::generics::{
    all_simple, get_arg_generic_types, make_arguments_generic, make_generic_parameter,
    make_path_segments, make_paths, make_trait_bounds, rewritten, synthesized_generics, typed,
};
use crate::syntax::{lemma_views_add, views, Error, Item, ItemFn, ItemFnView};

verus! {

/// The attribute that keeps the compiler from objecting to the upper-case
/// names of the generic parameters that the rewrite makes.
pub open spec fn allow_attribute() -> Seq<char> {
    "allow(non_camel_case_types)"@
}

/// The function that the rewrite makes of `f`: the attribute in front of the
/// old ones, the new generic parameters behind the old ones, every typed
/// parameter with its new type, and the conversions before the old body.
pub open spec fn transformed(f: ItemFnView) -> ItemFnView {
    ItemFnView {
        attrs: seq![allow_attribute()] + f.attrs,
        ident: f.ident,
        generics: f.generics + synthesized_generics(f.inputs),
        inputs: rewritten(f.inputs),
        stmts: prologue(f.inputs) + f.stmts,
    }
}

/// Rewrites a function so that each typed parameter takes any value that
/// converts into its declared type.
///
/// An item that is no function is refused, and so is a function with a typed
/// parameter that a compound pattern binds. Otherwise the result is
/// `transformed` of the function.
pub fn args_into(item: Item) -> (res: Result<ItemFn, Error>)
    ensures
        match item {
            Item::Other(_) => res == Err::<ItemFn, Error>(Error::WrongItemKind),
            Item::Fn(f) => if all_simple(f@.inputs) {
                res is Ok && res->Ok_0@ == transformed(f@)
            } else {
                res == Err::<ItemFn, Error>(Error::UnsupportedParameterPattern)
            },
        },
{
    let fn_item = match item {
        Item::Fn(f) => f,
        Item::Other(_) => {
            return Err(Error::WrongItemKind);
        },
    };
    let ItemFn { attrs, ident, generics, inputs, stmts } = fn_item;
    let mut attrs = attrs;
    let mut types = generics;
    let mut inputs = inputs;
    let mut stmts = stmts;
    let ghost old_inputs = views(parameters_of(inputs));
    let ghost old_types = generic_params_of(types);

    let type_arg = get_arg_generic_types(&inputs);
    let path_segments = make_path_segments(&type_arg);
    let paths = make_paths(&path_segments);
    let bounds = make_trait_bounds(&paths);

    let mut block = match generate_body_insert_statements(&inputs) {
        Ok(block) => block,
        Err(e) => {
            return Err(e);
        },
    };
    let new_generic_types = match make_arguments_generic(&mut inputs) {
        Ok(idents) => idents,
        Err(e) => {
            return Err(e);
        },
    };
    let generic_parameters = make_generic_parameter(&bounds, &new_generic_types);
    proof {
        assert(views(type_arg@).len() == typed(old_inputs).len());
        assert(views(new_generic_types@).len() == typed(old_inputs).len());
        assert forall|i: int| 0 <= i < generic_parameters@.len() implies views(
            generic_parameters@,
        )[i] == synthesized_generics(old_inputs)[i] by {
            assert(views(type_arg@)[i] == type_arg@[i]@);
            assert(views(new_generic_types@)[i] == new_generic_types@[i]@);
            assert(bounds@[i]@ == paths@[i]@);
            assert(paths@[i]@ == seq![path_segments@[i]@]);
        }
        assert(views(generic_parameters@) =~= synthesized_generics(old_inputs));
        lemma_views_add(block@, stmts@);
    }
    let mut i: usize = 0;
    while i < generic_parameters.len()
        invariant
            i <= generic_parameters.len(),
            generic_params_of(types).len() == old_types.len() + i,
            forall|j: int|
                0 <= j < old_types.len() ==> (#[trigger] generic_params_of(types)[j])
                    == old_types[j],
            forall|k: int|
                old_types.len() <= k < old_types.len() + i ==> (#[trigger] generic_params_of(
                    types,
                )[k])@ == generic_parameters@[k - old_types.len()]@,
        decreases generic_parameters.len() - i,
    {
        push_generic_param(&mut types, generic_parameters[i].clone());
        i += 1;
    }
    assert(views(generic_params_of(types)) =~= views(old_types) + views(generic_parameters@));
    block.append(&mut stmts);

    let mut new_attrs: Vec<String> = Vec::new();
    new_attrs.push(String::from_str("allow(non_camel_case_types)"));
    proof {
        lemma_views_add(new_attrs@, attrs@);
        assert(views(new_attrs@) =~= seq![allow_attribute()]);
    }
    new_attrs.append(&mut attrs);

    Ok(ItemFn { attrs: new_attrs, ident, generics: types, inputs, stmts: block })
}

} // verus!

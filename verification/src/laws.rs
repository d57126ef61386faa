//! What holds of every rewrite, proved over the views.

use vstd::prelude::*;
use crate::body::{conversion, prologue};
use crate::generics::{
    all_simple, binding_name, generic_name, generic_names, is_supported, lemma_all_simple_typed,
    lemma_typed_member, lemma_typed_single, lemma_typed_split, rewritten, rewritten_parameter,
    synthesized_generic, synthesized_generics, typed,
};
use crate::rewrite::transformed;
use crate::syntax::{GenericParamView, ItemFnView, ParameterView, PatTypeView, TypeView};

verus! {

/// The typed parameters of the rewritten list are the typed parameters of the
/// list, each rewritten.
pub proof fn lemma_typed_rewritten(params: Seq<ParameterView>)
    ensures
        typed(rewritten(params)).len() == typed(params).len(),
        forall|j: int|
            0 <= j < typed(params).len() ==> ParameterView::Typed(
                #[trigger] typed(rewritten(params))[j],
            ) == rewritten_parameter(ParameterView::Typed(typed(params)[j])),
    decreases params.len(),
{
    if params.len() > 0 {
        lemma_typed_rewritten(params.drop_last());
        assert(rewritten(params).drop_last() =~= rewritten(params.drop_last()));
        assert(rewritten(params).last() == rewritten_parameter(params.last()));
    }
}

/// A function with M generic parameters and N typed parameters, each bound by
/// a simple name, has M + N generic parameters after the rewrite, the first M
/// of them the old ones. Its parameter list keeps its length and has N typed
/// parameters again, each with the identifier made for its name as its type.
pub proof fn law_parameter_counts(f: ItemFnView)
    requires
        all_simple(f.inputs),
    ensures
        transformed(f).generics.len() == f.generics.len() + typed(f.inputs).len(),
        transformed(f).generics.take(f.generics.len() as int) == f.generics,
        transformed(f).inputs.len() == f.inputs.len(),
        typed(transformed(f).inputs).len() == typed(f.inputs).len(),
        forall|j: int|
            0 <= j < typed(f.inputs).len() ==> (#[trigger] typed(transformed(f).inputs)[j]).ty
                == TypeView::Path(generic_names(f.inputs)[j]),
{
    lemma_typed_rewritten(f.inputs);
    lemma_all_simple_typed(f.inputs);
    assert(transformed(f).generics.take(f.generics.len() as int) =~= f.generics);
    assert forall|j: int| 0 <= j < typed(f.inputs).len() implies (#[trigger] typed(
        transformed(f).inputs,
    )[j]).ty == TypeView::Path(generic_names(f.inputs)[j]) by {
        assert(typed(f.inputs)[j].pat is Ident);
    }
}

/// The generic parameter made for the typed parameter at position `j` among
/// the typed parameters stands at position M + `j` of the new list, M the
/// number of generic parameters before. It is called by the identifier made
/// for that parameter's name, and its one bound is `Into` of exactly the type
/// that the parameter was declared with.
pub proof fn law_bounds_follow_parameters(f: ItemFnView, j: int)
    requires
        0 <= j < typed(f.inputs).len(),
    ensures
        transformed(f).generics[f.generics.len() + j] == synthesized_generic(typed(f.inputs)[j]),
        synthesized_generic(typed(f.inputs)[j]) matches GenericParamView::Type(param)
            && param.ident == generic_name(binding_name(typed(f.inputs)[j].pat))
            && param.bound.len() == 1
            && param.bound[0].ident == "Into"@
            && param.bound[0].arguments == seq![typed(f.inputs)[j].ty],
{
}

/// The new body begins with one conversion for each typed parameter, in the
/// parameters' order, each binding the parameter's name to its value
/// converted into the declared type; behind them stands the old body,
/// unchanged and in its order.
pub proof fn law_prologue_then_body(f: ItemFnView)
    ensures
        transformed(f).stmts.len() == typed(f.inputs).len() + f.stmts.len(),
        forall|j: int|
            0 <= j < typed(f.inputs).len() ==> #[trigger] transformed(f).stmts[j] == conversion(
                typed(f.inputs)[j],
            ),
        transformed(f).stmts.skip(typed(f.inputs).len() as int) == f.stmts,
{
    assert(transformed(f).stmts.skip(typed(f.inputs).len() as int) =~= f.stmts);
}

/// Extracting the typed parameters from the rewritten list gives the same
/// bindings, and so the same names in the same order, as extracting them
/// from the list before the rewrite.
pub proof fn law_extraction_keeps_names(params: Seq<ParameterView>)
    ensures
        typed(rewritten(params)).map_values(|t: PatTypeView| t.pat) == typed(params).map_values(
            |t: PatTypeView| t.pat,
        ),
        typed(rewritten(params)).map_values(|t: PatTypeView| binding_name(t.pat)) == typed(
            params,
        ).map_values(|t: PatTypeView| binding_name(t.pat)),
{
    lemma_typed_rewritten(params);
    assert forall|j: int| 0 <= j < typed(params).len() implies typed(rewritten(params))[j].pat
        == typed(params)[j].pat by {
        assert(ParameterView::Typed(typed(rewritten(params))[j]) == rewritten_parameter(
            ParameterView::Typed(typed(params)[j]),
        ));
    }
    assert(typed(rewritten(params)).map_values(|t: PatTypeView| t.pat) =~= typed(
        params,
    ).map_values(|t: PatTypeView| t.pat));
    assert(typed(rewritten(params)).map_values(|t: PatTypeView| binding_name(t.pat)) =~= typed(
        params,
    ).map_values(|t: PatTypeView| binding_name(t.pat)));
}

/// A function without typed parameters keeps its generic parameters, its
/// parameters and its body as they are.
pub proof fn law_nothing_to_rewrite(f: ItemFnView)
    requires
        typed(f.inputs).len() == 0,
    ensures
        transformed(f).generics == f.generics,
        transformed(f).inputs == f.inputs,
        transformed(f).stmts == f.stmts,
        all_simple(f.inputs),
{
    assert(transformed(f).generics =~= f.generics);
    assert(transformed(f).stmts =~= f.stmts);
    assert forall|i: int| 0 <= i < f.inputs.len() implies f.inputs[i] is Receiver by {
        if f.inputs[i] is Typed {
            let j = lemma_typed_member(f.inputs, i);
        }
    }
    assert(transformed(f).inputs =~= f.inputs);
    assert forall|i: int| 0 <= i < f.inputs.len() implies is_supported(#[trigger] f.inputs[i]) by {
        assert(f.inputs[i] is Receiver);
    }
}

/// A receiver stands after the rewrite where it stood and as it was, and
/// nothing is made for it: the new generic parameters and the conversions are
/// those of the parameter list without the receiver.
pub proof fn law_receiver_untouched(f: ItemFnView, i: int)
    requires
        0 <= i < f.inputs.len(),
        f.inputs[i] is Receiver,
    ensures
        transformed(f).inputs[i] == f.inputs[i],
        typed(f.inputs.remove(i)) == typed(f.inputs),
        synthesized_generics(f.inputs.remove(i)) == synthesized_generics(f.inputs),
        prologue(f.inputs.remove(i)) == prologue(f.inputs),
{
    lemma_typed_split(f.inputs, i);
    lemma_typed_single(f.inputs[i]);
    assert(typed(f.inputs.take(i)) + Seq::<PatTypeView>::empty() =~= typed(f.inputs.take(i)));
}

/// A function with a typed parameter that a compound pattern binds is not
/// one that the rewrite accepts: `args_into` refuses it and gives no function
/// back.
pub proof fn law_compound_pattern_refused(params: Seq<ParameterView>, i: int)
    requires
        0 <= i < params.len(),
        params[i] matches ParameterView::Typed(t) && t.pat is Compound,
    ensures
        !all_simple(params),
{
    assert(!is_supported(params[i]));
}

/// A name occurs in a signature where a parameter is declared with the name
/// as its type, or a generic parameter is the name or is called by it.
pub open spec fn occurs_in_signature(f: ItemFnView, name: Seq<char>) -> bool {
    ||| exists|i: int|
        0 <= i < f.inputs.len() && (#[trigger] f.inputs[i] matches ParameterView::Typed(t) && (t.ty
            == TypeView::Path(name) || t.ty == TypeView::Verbatim(name)))
    ||| exists|i: int|
        0 <= i < f.generics.len() && (#[trigger] f.generics[i] == GenericParamView::Existing(name)
            || (f.generics[i] matches GenericParamView::Type(p) && p.ident == name))
}

/// The parameter is typed, and its type is one of the identifiers made for
/// the typed parameters of `f`, one that does not occur in the signature of
/// `f`.
pub open spec fn has_fresh_type(f: ItemFnView, param: ParameterView) -> bool {
    param matches ParameterView::Typed(t) && exists|j: int|
        0 <= j < generic_names(f.inputs).len() && t.ty == TypeView::Path(
            #[trigger] generic_names(f.inputs)[j],
        ) && !occurs_in_signature(f, generic_names(f.inputs)[j])
}

/// Where none of the identifiers made for the typed parameters occurs in the
/// signature, the parameters that have such an identifier as their type after
/// the rewrite are exactly the typed ones.
pub proof fn law_fresh_types(f: ItemFnView)
    requires
        all_simple(f.inputs),
        forall|j: int|
            0 <= j < generic_names(f.inputs).len() ==> !occurs_in_signature(
                f,
                #[trigger] generic_names(f.inputs)[j],
            ),
    ensures
        forall|i: int|
            0 <= i < f.inputs.len() ==> (has_fresh_type(f, #[trigger] transformed(f).inputs[i])
                <==> f.inputs[i] is Typed),
{
    assert forall|i: int| 0 <= i < f.inputs.len() implies (has_fresh_type(
        f,
        #[trigger] transformed(f).inputs[i],
    ) <==> f.inputs[i] is Typed) by {
        assert(is_supported(f.inputs[i]));
        if f.inputs[i] is Typed {
            let j = lemma_typed_member(f.inputs, i);
            assert(transformed(f).inputs[i]->Typed_0.ty == TypeView::Path(
                generic_names(f.inputs)[j],
            ));
        }
    }
}

} // verus!

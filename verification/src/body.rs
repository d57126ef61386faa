//! The body side of the rewrite: the bindings that convert each argument back
//! into the declared type of its parameter.

use vstd::prelude::*;
use syn::punctuated::Punctuated;
use syn::token::Comma;
use crate::list::parameters_of;
use crate::generics::{all_simple, binding_name, lemma_all_simple_typed, typed, typed_parameters};
use crate::syntax::{views, Error, Parameter, ParameterView, PatTypeView, Pattern, Stmt, StmtView};

verus! {

/// The binding that shadows a parameter with its value converted into the
/// declared type.
pub open spec fn conversion(t: PatTypeView) -> StmtView {
    StmtView::Conversion { name: binding_name(t.pat), target: t.ty }
}

/// One conversion per typed parameter, in the parameters' order.
pub open spec fn prologue(params: Seq<ParameterView>) -> Seq<StmtView> {
    typed(params).map_values(|t: PatTypeView| conversion(t))
}

/// The statements to put before a function's body: for each typed parameter
/// one binding of its name to its value converted into its declared type, in
/// the parameters' order. Refused where a typed parameter is bound by a
/// compound pattern.
pub fn generate_body_insert_statements(inputs: &Punctuated<Parameter, Comma>) -> (res: Result<Vec<Stmt>, Error>)
    ensures
        match res {
            Ok(stmts) => all_simple(views(parameters_of(*inputs))) && views(stmts@) == prologue(views(parameters_of(*inputs))),
            Err(e) => e == Error::UnsupportedParameterPattern && !all_simple(views(parameters_of(*inputs))),
        },
{
    let typed_args = typed_parameters(inputs);
    let mut stmts: Vec<Stmt> = Vec::new();
    let mut i: usize = 0;
    while i < typed_args.len()
        invariant
            i <= typed_args.len(),
            stmts@.len() == i,
            views(typed_args@) == typed(views(parameters_of(*inputs))),
            forall|j: int| 0 <= j < i ==> (#[trigger] typed_args@[j])@.pat is Ident,
            forall|j: int| 0 <= j < i ==> (#[trigger] stmts@[j])@ == conversion(typed_args@[j]@),
        decreases typed_args.len() - i,
    {
        match &typed_args[i].pat {
            Pattern::Ident(name) => {
                stmts.push(
                    Stmt::Conversion { name: name.clone(), target: typed_args[i].ty.clone() },
                );
            },
            Pattern::Compound => {
                proof {
                    lemma_all_simple_typed(views(parameters_of(*inputs)));
                    assert(views(typed_args@)[i as int] == typed_args@[i as int]@);
                    assert(typed(views(parameters_of(*inputs)))[i as int].pat is Compound);
                }
                return Err(Error::UnsupportedParameterPattern);
            },
        }
        i += 1;
    }
    proof {
        lemma_all_simple_typed(views(parameters_of(*inputs)));
    }
    assert forall|j: int| 0 <= j < typed(views(parameters_of(*inputs))).len() implies (#[trigger] typed(
        views(parameters_of(*inputs)),
    )[j]).pat is Ident by {
        assert(views(typed_args@)[j] == typed_args@[j]@);
    }
    assert(views(stmts@) =~= prologue(views(parameters_of(*inputs)))) by {
        assert forall|j: int| 0 <= j < stmts@.len() implies views(stmts@)[j] == prologue(
            views(parameters_of(*inputs)),
        )[j] by {
            assert(views(typed_args@)[j] == typed_args@[j]@);
        }
    }
    Ok(stmts)
}

} // verus!

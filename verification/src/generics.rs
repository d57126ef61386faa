//! The signature side of the rewrite: which parameters are rewritten, the
//! generic parameter made for each, its `Into` bound, and the new parameter
//! list.

use vstd::prelude::*;
use vstd::string::StringExecFns;
use syn::punctuated::Punctuated;
use syn::token::Comma;
use crate::list::{new_parameters, parameter_at, parameters_len, parameters_of, push_parameter};
use crate::syntax::{
    views, Error, GenericArgument, GenericParam, GenericParamView, Parameter, ParameterView,
    PatType, PatTypeView, Path, PathSegment, PathSegmentView, Pattern, PatternView, TraitBound,
    Type, TypeParam, TypeParamView, TypeView, lemma_views_push,
};

verus! {

/// The typed parameters among `params`, in their order; receivers are left out.
pub open spec fn typed(params: Seq<ParameterView>) -> Seq<PatTypeView>
    decreases params.len(),
{
    if params.len() == 0 {
        Seq::empty()
    } else {
        let front = typed(params.drop_last());
        match params.last() {
            ParameterView::Typed(t) => front.push(t),
            ParameterView::Receiver(_) => front,
        }
    }
}

/// A parameter that the rewrite accepts: a receiver, or a typed parameter
/// bound by a single simple name.
pub open spec fn is_supported(param: ParameterView) -> bool {
    match param {
        ParameterView::Typed(t) => t.pat is Ident,
        ParameterView::Receiver(_) => true,
    }
}

/// Every typed parameter is bound by a single simple name.
pub open spec fn all_simple(params: Seq<ParameterView>) -> bool {
    forall|i: int| 0 <= i < params.len() ==> is_supported(#[trigger] params[i])
}

/// The name that a pattern binds; the empty name for a compound pattern.
pub open spec fn binding_name(pat: PatternView) -> Seq<char> {
    match pat {
        PatternView::Ident(name) => name,
        PatternView::Compound => Seq::empty(),
    }
}

/// The uppercase form of a text by Unicode's rules, as `str::to_uppercase`
/// computes it.
pub uninterp spec fn uppercase_of(text: Seq<char>) -> Seq<char>;

/// The type identifier made for the parameter called `name`: the name behind
/// two underscores, in upper case.
pub open spec fn generic_name(name: Seq<char>) -> Seq<char> {
    uppercase_of("__"@ + name)
}

/// The type identifiers made for the typed parameters, in their order.
pub open spec fn generic_names(params: Seq<ParameterView>) -> Seq<Seq<char>> {
    typed(params).map_values(|t: PatTypeView| generic_name(binding_name(t.pat)))
}

/// The declared types of the typed parameters, in their order.
pub open spec fn declared_types(params: Seq<ParameterView>) -> Seq<TypeView> {
    typed(params).map_values(|t: PatTypeView| t.ty)
}

/// The path segment `Into<target>`.
pub open spec fn into_segment(target: TypeView) -> PathSegmentView {
    PathSegmentView { ident: "Into"@, arguments: seq![target] }
}

/// The bound "convertible into `target`": the path of the one segment
/// `Into<target>`.
pub open spec fn into_bound(target: TypeView) -> Seq<PathSegmentView> {
    seq![into_segment(target)]
}

/// The generic parameter made for one typed parameter.
pub open spec fn synthesized_generic(t: PatTypeView) -> GenericParamView {
    GenericParamView::Type(
        TypeParamView { ident: generic_name(binding_name(t.pat)), bound: into_bound(t.ty) },
    )
}

/// The generic parameters made for the typed parameters, in their order.
pub open spec fn synthesized_generics(params: Seq<ParameterView>) -> Seq<GenericParamView> {
    typed(params).map_values(|t: PatTypeView| synthesized_generic(t))
}

/// A parameter after the rewrite: a typed parameter bound by a simple name
/// has the identifier made for that name as its type; any other parameter is
/// as it was.
pub open spec fn rewritten_parameter(param: ParameterView) -> ParameterView {
    match param {
        ParameterView::Typed(t) => match t.pat {
            PatternView::Ident(name) => ParameterView::Typed(
                PatTypeView { pat: t.pat, ty: TypeView::Path(generic_name(name)) },
            ),
            PatternView::Compound => param,
        },
        ParameterView::Receiver(_) => param,
    }
}

/// The parameter list after the rewrite, position by position.
pub open spec fn rewritten(params: Seq<ParameterView>) -> Seq<ParameterView> {
    params.map_values(|p: ParameterView| rewritten_parameter(p))
}

/// The typed parameters of a prefix grow by at most the parameter that the
/// prefix gains.
pub proof fn lemma_typed_take(params: Seq<ParameterView>, i: int)
    requires
        0 <= i < params.len(),
    ensures
        typed(params.take(i + 1)) == match params[i] {
            ParameterView::Typed(t) => typed(params.take(i)).push(t),
            ParameterView::Receiver(_) => typed(params.take(i)),
        },
{
    assert(params.take(i + 1).drop_last() =~= params.take(i));
}

/// The typed parameters of two lists joined are those of the first followed
/// by those of the second.
pub proof fn lemma_typed_add(a: Seq<ParameterView>, b: Seq<ParameterView>)
    ensures
        typed(a + b) == typed(a) + typed(b),
    decreases b.len(),
{
    if b.len() == 0 {
        assert(a + b =~= a);
        assert(typed(a) + typed(b) =~= typed(a));
    } else {
        lemma_typed_add(a, b.drop_last());
        assert((a + b).drop_last() =~= a + b.drop_last());
        assert((a + b).last() == b.last());
        assert(typed(a + b) =~= typed(a) + typed(b));
    }
}

/// The typed parameters of a list of one parameter.
pub proof fn lemma_typed_single(p: ParameterView)
    ensures
        typed(seq![p]) == match p {
            ParameterView::Typed(t) => seq![t],
            ParameterView::Receiver(_) => Seq::<PatTypeView>::empty(),
        },
{
    assert(seq![p].drop_last() =~= Seq::<ParameterView>::empty());
    assert(typed(seq![p].drop_last()) =~= Seq::<PatTypeView>::empty());
    assert(seq![p].last() == p);
    match p {
        ParameterView::Typed(t) => {
            assert(typed(seq![p]) =~= seq![t]);
        },
        ParameterView::Receiver(_) => {},
    }
}

/// A list of parameters falls into what stands before position `i`, the
/// parameter there, and what follows; so do its typed parameters.
pub proof fn lemma_typed_split(params: Seq<ParameterView>, i: int)
    requires
        0 <= i < params.len(),
    ensures
        typed(params) == typed(params.take(i)) + typed(seq![params[i]]) + typed(
            params.skip(i + 1),
        ),
        typed(params.remove(i)) == typed(params.take(i)) + typed(params.skip(i + 1)),
{
    assert(params =~= params.take(i) + seq![params[i]] + params.skip(i + 1));
    assert(params.remove(i) =~= params.take(i) + params.skip(i + 1));
    lemma_typed_add(params.take(i), seq![params[i]]);
    lemma_typed_add(params.take(i) + seq![params[i]], params.skip(i + 1));
    lemma_typed_add(params.take(i), params.skip(i + 1));
}

/// Every typed parameter of a list stands among its typed parameters.
pub proof fn lemma_typed_member(params: Seq<ParameterView>, i: int) -> (j: int)
    requires
        0 <= i < params.len(),
        params[i] is Typed,
    ensures
        0 <= j < typed(params).len(),
        ParameterView::Typed(typed(params)[j]) == params[i],
{
    lemma_typed_split(params, i);
    lemma_typed_single(params[i]);
    typed(params.take(i)).len() as int
}

/// The parameters are all supported exactly if every typed parameter among
/// them is bound by a simple name.
pub proof fn lemma_all_simple_typed(params: Seq<ParameterView>)
    ensures
        all_simple(params) <==> forall|j: int|
            0 <= j < typed(params).len() ==> (#[trigger] typed(params)[j]).pat is Ident,
    decreases params.len(),
{
    if params.len() > 0 {
        let front = params.drop_last();
        lemma_all_simple_typed(front);
        assert(forall|i: int| 0 <= i < front.len() ==> front[i] == params[i]);
        if all_simple(params) {
            assert(all_simple(front));
            assert(is_supported(params[params.len() - 1]));
        }
        if forall|j: int| 0 <= j < typed(params).len() ==> (#[trigger] typed(params)[j]).pat is Ident {
            assert forall|j: int| 0 <= j < typed(front).len() implies (#[trigger] typed(
                front,
            )[j]).pat is Ident by {
                assert(typed(params)[j] == typed(front)[j]);
            }
            assert(all_simple(front));
            match params.last() {
                ParameterView::Typed(t) => {
                    assert(typed(params)[typed(front).len() as int] == t);
                },
                ParameterView::Receiver(_) => {},
            }
            assert forall|i: int| 0 <= i < params.len() implies is_supported(
                #[trigger] params[i],
            ) by {
                if i < front.len() {
                    assert(is_supported(front[i]));
                }
            }
        }
    }
}

/// Extracts the typed parameters of a parameter list, in their order.
pub fn typed_parameters(args: &Punctuated<Parameter, Comma>) -> (out: Vec<PatType>)
    ensures
        views(out@) == typed(views(parameters_of(*args))),
{
    let mut out: Vec<PatType> = Vec::new();
    let len = parameters_len(args);
    let mut i: usize = 0;
    while i < len
        invariant
            i <= len,
            len == parameters_of(*args).len(),
            views(out@) == typed(views(parameters_of(*args)).take(i as int)),
        decreases len - i,
    {
        proof {
            lemma_typed_take(views(parameters_of(*args)), i as int);
        }
        match parameter_at(args, i) {
            Parameter::Typed(t) => {
                proof {
                    lemma_views_push(out@, *t);
                }
                out.push(t.clone());
            },
            Parameter::Receiver(_) => {},
        }
        i += 1;
    }
    assert(views(parameters_of(*args)).take(i as int) =~= views(parameters_of(*args)));
    out
}

/// The declared type of each typed parameter, as the argument of a path
/// segment.
pub fn get_arg_generic_types(args: &Punctuated<Parameter, Comma>) -> (out: Vec<GenericArgument>)
    ensures
        views(out@) == declared_types(views(parameters_of(*args))),
{
    let typed_args = typed_parameters(args);
    let mut out: Vec<GenericArgument> = Vec::new();
    let mut i: usize = 0;
    while i < typed_args.len()
        invariant
            i <= typed_args.len(),
            out@.len() == i,
            forall|j: int| 0 <= j < i ==> (#[trigger] out@[j])@ == typed_args@[j]@.ty,
        decreases typed_args.len() - i,
    {
        out.push(GenericArgument::Type(typed_args[i].ty.clone()));
        i += 1;
    }
    assert(views(out@) =~= declared_types(views(parameters_of(*args))));
    out
}

/// Wraps each type into the path segment `Into<type>`.
pub fn make_path_segments(generic_args: &Vec<GenericArgument>) -> (out: Vec<PathSegment>)
    ensures
        out@.len() == generic_args@.len(),
        forall|i: int|
            0 <= i < out@.len() ==> (#[trigger] out@[i])@ == into_segment(generic_args@[i]@),
{
    let mut out: Vec<PathSegment> = Vec::new();
    let mut i: usize = 0;
    while i < generic_args.len()
        invariant
            i <= generic_args.len(),
            out@.len() == i,
            forall|j: int|
                0 <= j < i ==> (#[trigger] out@[j])@ == into_segment(generic_args@[j]@),
        decreases generic_args.len() - i,
    {
        let mut arguments: Vec<GenericArgument> = Vec::new();
        arguments.push(generic_args[i].clone());
        let segment = PathSegment { ident: String::from_str("Into"), arguments };
        assert(segment@.arguments =~= seq![generic_args@[i as int]@]);
        out.push(segment);
        i += 1;
    }
    out
}

/// Makes of each segment the path that consists of that segment alone.
pub fn make_paths(segments: &Vec<PathSegment>) -> (out: Vec<Path>)
    ensures
        out@.len() == segments@.len(),
        forall|i: int| 0 <= i < out@.len() ==> (#[trigger] out@[i])@ == seq![segments@[i]@],
{
    let mut out: Vec<Path> = Vec::new();
    let mut i: usize = 0;
    while i < segments.len()
        invariant
            i <= segments.len(),
            out@.len() == i,
            forall|j: int| 0 <= j < i ==> (#[trigger] out@[j])@ == seq![segments@[j]@],
        decreases segments.len() - i,
    {
        let mut path_segments: Vec<PathSegment> = Vec::new();
        path_segments.push(segments[i].clone());
        let path = Path { segments: path_segments };
        assert(path@ =~= seq![segments@[i as int]@]);
        out.push(path);
        i += 1;
    }
    out
}

/// Makes of each path the bound that names the trait at that path.
pub fn make_trait_bounds(paths: &Vec<Path>) -> (out: Vec<TraitBound>)
    ensures
        out@.len() == paths@.len(),
        forall|i: int| 0 <= i < out@.len() ==> (#[trigger] out@[i])@ == paths@[i]@,
{
    let mut out: Vec<TraitBound> = Vec::new();
    let mut i: usize = 0;
    while i < paths.len()
        invariant
            i <= paths.len(),
            out@.len() == i,
            forall|j: int| 0 <= j < i ==> (#[trigger] out@[j])@ == paths@[j]@,
        decreases paths.len() - i,
    {
        out.push(TraitBound { path: paths[i].clone() });
        i += 1;
    }
    out
}

/// The number of pairs that two lists of the given lengths give.
pub open spec fn paired_len(a: int, b: int) -> int {
    if a <= b {
        a
    } else {
        b
    }
}

/// Pairs each identifier with the bound at the same position and makes a type
/// parameter of the pair. What one list has beyond the length of the other is
/// left out.
pub fn make_generic_parameter(trait_bounds: &Vec<TraitBound>, types: &Vec<String>) -> (out: Vec<
    GenericParam,
>)
    ensures
        out@.len() == paired_len(types@.len() as int, trait_bounds@.len() as int),
        forall|i: int|
            0 <= i < out@.len() ==> (#[trigger] out@[i])@ == GenericParamView::Type(
                TypeParamView { ident: types@[i]@, bound: trait_bounds@[i]@ },
            ),
{
    let mut out: Vec<GenericParam> = Vec::new();
    let mut i: usize = 0;
    while i < types.len() && i < trait_bounds.len()
        invariant
            i <= types.len(),
            i <= trait_bounds.len(),
            out@.len() == i,
            forall|j: int|
                0 <= j < i ==> (#[trigger] out@[j])@ == GenericParamView::Type(
                    TypeParamView { ident: types@[j]@, bound: trait_bounds@[j]@ },
                ),
        decreases types.len() - i,
    {
        out.push(
            GenericParam::Type(
                TypeParam { ident: types[i].clone(), bound: trait_bounds[i].clone() },
            ),
        );
        i += 1;
    }
    out
}

/// Calls `str::to_uppercase`. The result depends on the text alone; the
/// contract gives it its name and says nothing else of it.
#[verifier::external_body]
fn to_uppercase(text: &str) -> (res: String)
    ensures
        res@ == uppercase_of(text@),
{
    text.to_uppercase()
}

/// Calls `String::insert_str` at byte position 0, where every string has a
/// character boundary: the inserted text then stands before the old one.
#[verifier::external_body]
pub(crate) fn insert_str(text: &mut String, idx: usize, string: &str)
    requires
        idx == 0,
    ensures
        final(text)@ == string@ + old(text)@,
{
    text.insert_str(idx, string);
}

/// The type identifier for the parameter called `name`.
pub fn generic_ident(name: &String) -> (res: String)
    ensures
        res@ == generic_name(name@),
{
    let mut text = name.clone();
    insert_str(&mut text, 0, "__");
    to_uppercase(text.as_str())
}

/// The type that consists of the identifier alone.
pub fn new_type(ident: String) -> (res: Type)
    ensures
        res@ == TypeView::Path(ident@),
{
    Type::Path(ident)
}

/// The type identifiers for the typed parameters, in their order, where every
/// typed parameter is bound by a simple name; the refusal where one is not.
pub fn generic_idents(args: &Punctuated<Parameter, Comma>) -> (res: Result<Vec<String>, Error>)
    ensures
        match res {
            Ok(idents) => all_simple(views(parameters_of(*args))) && views(idents@) == generic_names(
                views(parameters_of(*args)),
            ),
            Err(e) => e == Error::UnsupportedParameterPattern && !all_simple(views(parameters_of(*args))),
        },
{
    let typed_args = typed_parameters(args);
    let mut idents: Vec<String> = Vec::new();
    let mut i: usize = 0;
    while i < typed_args.len()
        invariant
            i <= typed_args.len(),
            idents@.len() == i,
            views(typed_args@) == typed(views(parameters_of(*args))),
            forall|j: int| 0 <= j < i ==> (#[trigger] typed_args@[j])@.pat is Ident,
            forall|j: int|
                0 <= j < i ==> (#[trigger] idents@[j])@ == generic_name(
                    binding_name(typed_args@[j]@.pat),
                ),
        decreases typed_args.len() - i,
    {
        match &typed_args[i].pat {
            Pattern::Ident(name) => {
                idents.push(generic_ident(name));
            },
            Pattern::Compound => {
                proof {
                    lemma_all_simple_typed(views(parameters_of(*args)));
                    assert(views(typed_args@)[i as int] == typed_args@[i as int]@);
                    assert(typed(views(parameters_of(*args)))[i as int].pat is Compound);
                }
                return Err(Error::UnsupportedParameterPattern);
            },
        }
        i += 1;
    }
    proof {
        lemma_all_simple_typed(views(parameters_of(*args)));
    }
    assert forall|j: int| 0 <= j < typed(views(parameters_of(*args))).len() implies (#[trigger] typed(
        views(parameters_of(*args)),
    )[j]).pat is Ident by {
        assert(views(typed_args@)[j] == typed_args@[j]@);
    }
    assert(views(idents@) =~= generic_names(views(parameters_of(*args)))) by {
        assert forall|j: int| 0 <= j < idents@.len() implies views(idents@)[j] == generic_names(
            views(parameters_of(*args)),
        )[j] by {
            assert(views(typed_args@)[j] == typed_args@[j]@);
        }
    }
    Ok(idents)
}

/// Gives every typed parameter the identifier made for its name as its type,
/// and returns those identifiers in the parameters' order. Receivers stay as
/// they are. Where a typed parameter is bound by a compound pattern the list
/// is left untouched and the rewrite is refused.
pub fn make_arguments_generic(arguments: &mut Punctuated<Parameter, Comma>) -> (res: Result<Vec<String>, Error>)
    ensures
        match res {
            Ok(idents) => {
                &&& all_simple(views(parameters_of(*old(arguments))))
                &&& views(idents@) == generic_names(views(parameters_of(*old(arguments))))
                &&& views(parameters_of(*final(arguments))) == rewritten(views(parameters_of(*old(arguments))))
            },
            Err(e) => {
                &&& e == Error::UnsupportedParameterPattern
                &&& !all_simple(views(parameters_of(*old(arguments))))
                &&& *final(arguments) == *old(arguments)
            },
        },
{
    let idents = match generic_idents(arguments) {
        Ok(idents) => idents,
        Err(e) => {
            return Err(e);
        },
    };
    let mut out = new_parameters();
    let len = parameters_len(arguments);
    let mut i: usize = 0;
    let mut k: usize = 0;
    while i < len
        invariant
            i <= len,
            len == parameters_of(*arguments).len(),
            *arguments == *old(arguments),
            all_simple(views(parameters_of(*arguments))),
            views(idents@) == generic_names(views(parameters_of(*arguments))),
            k <= i,
            k == typed(views(parameters_of(*arguments)).take(i as int)).len(),
            parameters_of(out).len() == i,
            forall|j: int|
                0 <= j < i ==> (#[trigger] parameters_of(out)[j])@ == rewritten_parameter(
                    parameters_of(*arguments)[j]@,
                ),
        decreases len - i,
    {
        let ghost params = views(parameters_of(*arguments));
        let old_param = parameter_at(arguments, i);
        proof {
            lemma_typed_take(params, i as int);
            lemma_typed_split(params, i as int);
            lemma_typed_single(params[i as int]);
            assert(is_supported(params[i as int]));
        }
        let param = match old_param {
            Parameter::Typed(t) => {
                assert(typed(params)[k as int] == t@);
                assert(idents@.len() == views(idents@).len() == typed(params).len());
                assert(views(idents@)[k as int] == idents@[k as int]@);
                let ty = new_type(idents[k].clone());
                k += 1;
                Parameter::Typed(PatType { pat: t.pat.clone(), ty })
            },
            Parameter::Receiver(_) => old_param.clone(),
        };
        push_parameter(&mut out, param);
        i += 1;
    }
    assert(views(parameters_of(out)) =~= rewritten(views(parameters_of(*arguments))));
    *arguments = out;
    Ok(idents)
}

} // verus!

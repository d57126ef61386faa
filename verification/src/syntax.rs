//! The syntax tree of one source item, as far as the rewrite reads it, and the
//! mathematical view of each node.

use vstd::prelude::*;
use syn::punctuated::Punctuated;
use syn::token::Comma;
use crate::list::{generic_params_of, parameters_of};

verus! {

/// A type expression in a signature.
#[derive(Debug, PartialEq, Eq)]
pub enum Type {
    /// Any type expression, kept as the text the signature had.
    Verbatim(String),
    /// A path of one segment without arguments: a bare type name.
    Path(String),
}

pub enum TypeView {
    Verbatim(Seq<char>),
    Path(Seq<char>),
}

impl View for Type {
    type V = TypeView;

    open spec fn view(&self) -> TypeView {
        match self {
            Type::Verbatim(text) => TypeView::Verbatim(text@),
            Type::Path(ident) => TypeView::Path(ident@),
        }
    }
}

impl Clone for Type {
    fn clone(&self) -> (res: Self)
        ensures
            res == *self,
    {
        match self {
            Type::Verbatim(text) => Type::Verbatim(text.clone()),
            Type::Path(ident) => Type::Path(ident.clone()),
        }
    }
}

/// The binding form of a typed parameter.
#[derive(Debug, PartialEq, Eq)]
pub enum Pattern {
    /// A single simple name.
    Ident(String),
    /// Any destructuring or otherwise compound pattern.
    Compound,
}

pub enum PatternView {
    Ident(Seq<char>),
    Compound,
}

impl View for Pattern {
    type V = PatternView;

    open spec fn view(&self) -> PatternView {
        match self {
            Pattern::Ident(name) => PatternView::Ident(name@),
            Pattern::Compound => PatternView::Compound,
        }
    }
}

impl Clone for Pattern {
    fn clone(&self) -> (res: Self)
        ensures
            res == *self,
    {
        match self {
            Pattern::Ident(name) => Pattern::Ident(name.clone()),
            Pattern::Compound => Pattern::Compound,
        }
    }
}

/// A parameter with a binding and a declared type.
#[derive(Debug, PartialEq, Eq)]
pub struct PatType {
    pub pat: Pattern,
    pub ty: Type,
}

pub struct PatTypeView {
    pub pat: PatternView,
    pub ty: TypeView,
}

impl View for PatType {
    type V = PatTypeView;

    open spec fn view(&self) -> PatTypeView {
        PatTypeView { pat: self.pat@, ty: self.ty@ }
    }
}

impl Clone for PatType {
    fn clone(&self) -> (res: Self)
        ensures
            res == *self,
    {
        PatType { pat: self.pat.clone(), ty: self.ty.clone() }
    }
}

/// One formal parameter of a function.
#[derive(Debug, PartialEq, Eq)]
pub enum Parameter {
    /// The `self` argument of a method, kept as written.
    Receiver(String),
    /// An explicit parameter.
    Typed(PatType),
}

pub enum ParameterView {
    Receiver(Seq<char>),
    Typed(PatTypeView),
}

impl View for Parameter {
    type V = ParameterView;

    open spec fn view(&self) -> ParameterView {
        match self {
            Parameter::Receiver(text) => ParameterView::Receiver(text@),
            Parameter::Typed(typed) => ParameterView::Typed(typed@),
        }
    }
}

impl Clone for Parameter {
    fn clone(&self) -> (res: Self)
        ensures
            res == *self,
    {
        match self {
            Parameter::Receiver(text) => Parameter::Receiver(text.clone()),
            Parameter::Typed(typed) => Parameter::Typed(typed.clone()),
        }
    }
}

/// One argument between the angle brackets of a path segment.
#[derive(Debug, PartialEq, Eq)]
pub enum GenericArgument {
    Type(Type),
}

impl View for GenericArgument {
    type V = TypeView;

    open spec fn view(&self) -> TypeView {
        match self {
            GenericArgument::Type(ty) => ty@,
        }
    }
}

impl Clone for GenericArgument {
    fn clone(&self) -> (res: Self)
        ensures
            res == *self,
    {
        match self {
            GenericArgument::Type(ty) => GenericArgument::Type(ty.clone()),
        }
    }
}

/// A name with the generic arguments written behind it, if any.
#[derive(Debug, PartialEq, Eq)]
pub struct PathSegment {
    pub ident: String,
    pub arguments: Vec<GenericArgument>,
}

pub struct PathSegmentView {
    pub ident: Seq<char>,
    pub arguments: Seq<TypeView>,
}

impl View for PathSegment {
    type V = PathSegmentView;

    open spec fn view(&self) -> PathSegmentView {
        PathSegmentView { ident: self.ident@, arguments: views(self.arguments@) }
    }
}

impl Clone for PathSegment {
    fn clone(&self) -> (res: Self)
        ensures
            res@ == self@,
    {
        let mut arguments: Vec<GenericArgument> = Vec::new();
        let mut i: usize = 0;
        while i < self.arguments.len()
            invariant
                i <= self.arguments.len(),
                arguments@ == self.arguments@.take(i as int),
            decreases self.arguments.len() - i,
        {
            arguments.push(self.arguments[i].clone());
            assert(arguments@ =~= self.arguments@.take(i + 1));
            i += 1;
        }
        assert(arguments@ =~= self.arguments@);
        PathSegment { ident: self.ident.clone(), arguments }
    }
}

/// A path: its segments from left to right.
#[derive(Debug, PartialEq, Eq)]
pub struct Path {
    pub segments: Vec<PathSegment>,
}

impl View for Path {
    type V = Seq<PathSegmentView>;

    open spec fn view(&self) -> Seq<PathSegmentView> {
        views(self.segments@)
    }
}

impl Clone for Path {
    fn clone(&self) -> (res: Self)
        ensures
            res@ == self@,
    {
        let mut segments: Vec<PathSegment> = Vec::new();
        let mut i: usize = 0;
        while i < self.segments.len()
            invariant
                i <= self.segments.len(),
                segments@.len() == i,
                forall|j: int| 0 <= j < i ==> (#[trigger] segments@[j])@ == self.segments@[j]@,
            decreases self.segments.len() - i,
        {
            segments.push(self.segments[i].clone());
            i += 1;
        }
        assert(views(segments@) =~= views(self.segments@));
        Path { segments }
    }
}

/// A bound that names one trait by its path.
#[derive(Debug, PartialEq, Eq)]
pub struct TraitBound {
    pub path: Path,
}

impl View for TraitBound {
    type V = Seq<PathSegmentView>;

    open spec fn view(&self) -> Seq<PathSegmentView> {
        self.path@
    }
}

impl Clone for TraitBound {
    fn clone(&self) -> (res: Self)
        ensures
            res@ == self@,
    {
        TraitBound { path: self.path.clone() }
    }
}

/// A type parameter with its one bound.
#[derive(Debug, PartialEq, Eq)]
pub struct TypeParam {
    pub ident: String,
    pub bound: TraitBound,
}

pub struct TypeParamView {
    pub ident: Seq<char>,
    pub bound: Seq<PathSegmentView>,
}

impl View for TypeParam {
    type V = TypeParamView;

    open spec fn view(&self) -> TypeParamView {
        TypeParamView { ident: self.ident@, bound: self.bound@ }
    }
}

impl Clone for TypeParam {
    fn clone(&self) -> (res: Self)
        ensures
            res@ == self@,
    {
        TypeParam { ident: self.ident.clone(), bound: self.bound.clone() }
    }
}

/// One entry of a function's generic parameter list.
#[derive(Debug, PartialEq, Eq)]
pub enum GenericParam {
    /// A parameter the signature already had, kept as written.
    Existing(String),
    /// A type parameter made by the rewrite.
    Type(TypeParam),
}

pub enum GenericParamView {
    Existing(Seq<char>),
    Type(TypeParamView),
}

impl View for GenericParam {
    type V = GenericParamView;

    open spec fn view(&self) -> GenericParamView {
        match self {
            GenericParam::Existing(text) => GenericParamView::Existing(text@),
            GenericParam::Type(param) => GenericParamView::Type(param@),
        }
    }
}

impl Clone for GenericParam {
    fn clone(&self) -> (res: Self)
        ensures
            res@ == self@,
    {
        match self {
            GenericParam::Existing(text) => GenericParam::Existing(text.clone()),
            GenericParam::Type(param) => GenericParam::Type(param.clone()),
        }
    }
}

/// One statement of a function body.
#[derive(Debug, PartialEq, Eq)]
pub enum Stmt {
    /// A statement of the body as it was written.
    Verbatim(String),
    /// `let name = name.into();` where the result has the type `target`.
    Conversion { name: String, target: Type },
}

pub enum StmtView {
    Verbatim(Seq<char>),
    Conversion { name: Seq<char>, target: TypeView },
}

impl View for Stmt {
    type V = StmtView;

    open spec fn view(&self) -> StmtView {
        match self {
            Stmt::Verbatim(text) => StmtView::Verbatim(text@),
            Stmt::Conversion { name, target } => StmtView::Conversion {
                name: name@,
                target: target@,
            },
        }
    }
}

impl Clone for Stmt {
    fn clone(&self) -> (res: Self)
        ensures
            res == *self,
    {
        match self {
            Stmt::Verbatim(text) => Stmt::Verbatim(text.clone()),
            Stmt::Conversion { name, target } => Stmt::Conversion {
                name: name.clone(),
                target: target.clone(),
            },
        }
    }
}

/// A function definition: attributes, name, generic parameters, formal
/// parameters and body statements, each list in source order.
#[derive(Debug, PartialEq, Eq)]
pub struct ItemFn {
    pub attrs: Vec<String>,
    pub ident: String,
    pub generics: Punctuated<GenericParam, Comma>,
    pub inputs: Punctuated<Parameter, Comma>,
    pub stmts: Vec<Stmt>,
}

pub struct ItemFnView {
    pub attrs: Seq<Seq<char>>,
    pub ident: Seq<char>,
    pub generics: Seq<GenericParamView>,
    pub inputs: Seq<ParameterView>,
    pub stmts: Seq<StmtView>,
}

impl View for ItemFn {
    type V = ItemFnView;

    open spec fn view(&self) -> ItemFnView {
        ItemFnView {
            attrs: views(self.attrs@),
            ident: self.ident@,
            generics: views(generic_params_of(self.generics)),
            inputs: views(parameters_of(self.inputs)),
            stmts: views(self.stmts@),
        }
    }
}

/// A source item: a function, or anything else.
#[derive(Debug, PartialEq, Eq)]
pub enum Item {
    Fn(ItemFn),
    /// An item of another kind, kept as written.
    Other(String),
}

/// Why a rewrite was refused.
#[derive(Debug, PartialEq, Eq, Clone, Copy)]
pub enum Error {
    /// The item is not a function.
    WrongItemKind,
    /// A typed parameter is bound by something other than a single simple name.
    UnsupportedParameterPattern,
}

/// The views of the elements of `s`, in the same order.
pub open spec fn views<T: View>(s: Seq<T>) -> Seq<T::V> {
    Seq::new(s.len(), |i: int| s[i]@)
}

/// Appending an element appends its view.
pub proof fn lemma_views_push<T: View>(s: Seq<T>, x: T)
    ensures
        views(s.push(x)) == views(s).push(x@),
{
    assert(views(s.push(x)) =~= views(s).push(x@));
}

/// The views of a concatenation are the concatenation of the views.
pub proof fn lemma_views_add<T: View>(a: Seq<T>, b: Seq<T>)
    ensures
        views(a + b) == views(a) + views(b),
{
    assert(views(a + b) =~= views(a) + views(b));
}

} // verus!

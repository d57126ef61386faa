use args_into::body::generate_body_insert_statements;
use args_into::generics::{
    generic_ident, generic_idents, get_arg_generic_types, make_arguments_generic,
    make_generic_parameter, make_path_segments, make_paths, make_trait_bounds, new_type,
    typed_parameters,
};
use args_into::rewrite::args_into;
use args_into::samples::{generic_function, use_string, Foo};
use syn::punctuated::Punctuated;
use syn::token::Comma;
use args_into::syntax::{
    Error, GenericArgument, GenericParam, Item, ItemFn, Parameter, PatType, Path, PathSegment,
    Pattern, Stmt, TraitBound, Type, TypeParam,
};

fn s(text: &str) -> String {
    text.to_string()
}

fn list<T>(items: Vec<T>) -> Punctuated<T, Comma> {
    items.into_iter().collect()
}

fn typed(name: &str, ty: &str) -> Parameter {
    Parameter::Typed(PatType { pat: Pattern::Ident(s(name)), ty: Type::Verbatim(s(ty)) })
}

fn compound(ty: &str) -> Parameter {
    Parameter::Typed(PatType { pat: Pattern::Compound, ty: Type::Verbatim(s(ty)) })
}

fn rewritten(name: &str, generic: &str) -> Parameter {
    Parameter::Typed(PatType { pat: Pattern::Ident(s(name)), ty: Type::Path(s(generic)) })
}

fn into_path(ty: &str) -> Path {
    Path {
        segments: vec![PathSegment {
            ident: s("Into"),
            arguments: vec![GenericArgument::Type(Type::Verbatim(s(ty)))],
        }],
    }
}

fn into_param(generic: &str, ty: &str) -> GenericParam {
    GenericParam::Type(TypeParam { ident: s(generic), bound: TraitBound { path: into_path(ty) } })
}

fn conversion(name: &str, ty: &str) -> Stmt {
    Stmt::Conversion { name: s(name), target: Type::Verbatim(s(ty)) }
}

fn print_details() -> ItemFn {
    ItemFn {
        attrs: vec![],
        ident: s("print_details"),
        generics: list(vec![]),
        inputs: list(vec![
            typed("first_name", "String"),
            typed("last_name", "String"),
            typed("age", "usize"),
        ]),
        stmts: vec![Stmt::Verbatim(s("println!(\"{} {} {}\", first_name, last_name, age);"))],
    }
}

fn foo_method() -> ItemFn {
    ItemFn {
        attrs: vec![s("inline")],
        ident: s("foo_method"),
        generics: list(vec![GenericParam::Existing(s("'a"))]),
        inputs: list(vec![Parameter::Receiver(s("self")), typed("input", "&'a mut String")]),
        stmts: vec![
            Stmt::Verbatim(s("input.insert_str(0, \"some string operation\");")),
            Stmt::Verbatim(s("input.len()")),
        ],
    }
}

#[test]
fn generic_ident_prefixes_and_uppercases() {
    assert_eq!(generic_ident(&s("age")), "__AGE");
    assert_eq!(generic_ident(&s("first_name")), "__FIRST_NAME");
    assert_eq!(generic_ident(&s("X9")), "__X9");
    assert_eq!(generic_ident(&s("")), "__");
}

#[test]
fn generic_ident_follows_unicode_uppercase() {
    assert_eq!(generic_ident(&s("stra\u{df}e")), "__STRASSE");
}

#[test]
fn new_type_is_the_bare_identifier() {
    assert_eq!(new_type(s("__AGE")), Type::Path(s("__AGE")));
}

#[test]
fn typed_parameters_leave_out_receivers() {
    let inputs = list(vec![Parameter::Receiver(s("&self")), typed("a", "u8"), typed("b", "&str")]);
    assert_eq!(
        typed_parameters(&inputs),
        vec![
            PatType { pat: Pattern::Ident(s("a")), ty: Type::Verbatim(s("u8")) },
            PatType { pat: Pattern::Ident(s("b")), ty: Type::Verbatim(s("&str")) },
        ]
    );
    assert_eq!(typed_parameters(&list(vec![])), vec![]);
    assert_eq!(typed_parameters(&list(vec![Parameter::Receiver(s("self"))])), vec![]);
}

#[test]
fn declared_types_come_in_parameter_order() {
    let inputs =
        list(vec![typed("a", "u8"), Parameter::Receiver(s("self")), typed("b", "Vec<u8>")]);
    assert_eq!(
        get_arg_generic_types(&inputs),
        vec![
            GenericArgument::Type(Type::Verbatim(s("u8"))),
            GenericArgument::Type(Type::Verbatim(s("Vec<u8>"))),
        ]
    );
}

#[test]
fn bounds_are_built_in_three_steps() {
    let args = vec![GenericArgument::Type(Type::Verbatim(s("String")))];
    let segments = make_path_segments(&args);
    assert_eq!(
        segments,
        vec![PathSegment {
            ident: s("Into"),
            arguments: vec![GenericArgument::Type(Type::Verbatim(s("String")))],
        }]
    );
    let paths = make_paths(&segments);
    assert_eq!(paths, vec![into_path("String")]);
    let bounds = make_trait_bounds(&paths);
    assert_eq!(bounds, vec![TraitBound { path: into_path("String") }]);
    assert_eq!(make_path_segments(&vec![]), vec![]);
    assert_eq!(make_paths(&vec![]), vec![]);
    assert_eq!(make_trait_bounds(&vec![]), vec![]);
}

#[test]
fn generic_parameters_pair_by_position() {
    let bounds = vec![TraitBound { path: into_path("String") }, TraitBound { path: into_path("u8") }];
    let idents = vec![s("__A"), s("__B")];
    assert_eq!(
        make_generic_parameter(&bounds, &idents),
        vec![into_param("__A", "String"), into_param("__B", "u8")]
    );
}

#[test]
fn generic_parameters_stop_at_the_shorter_list() {
    let bounds = vec![TraitBound { path: into_path("String") }];
    let idents = vec![s("__A"), s("__B")];
    assert_eq!(make_generic_parameter(&bounds, &idents), vec![into_param("__A", "String")]);
    assert_eq!(make_generic_parameter(&bounds, &vec![]), vec![]);
    assert_eq!(make_generic_parameter(&vec![], &idents), vec![]);
}

#[test]
fn generic_idents_in_parameter_order() {
    let inputs = list(vec![Parameter::Receiver(s("self")), typed("b", "u8"), typed("a", "u8")]);
    assert_eq!(generic_idents(&inputs), Ok(vec![s("__B"), s("__A")]));
    assert_eq!(generic_idents(&list(vec![])), Ok(vec![]));
}

#[test]
fn generic_idents_refuse_a_compound_pattern() {
    let inputs = list(vec![typed("a", "u8"), compound("(u8, u8)")]);
    assert_eq!(generic_idents(&inputs), Err(Error::UnsupportedParameterPattern));
}

#[test]
fn make_arguments_generic_rewrites_typed_parameters() {
    let mut inputs = list(vec![Parameter::Receiver(s("&mut self")), typed("count", "usize")]);
    let idents = make_arguments_generic(&mut inputs);
    assert_eq!(idents, Ok(vec![s("__COUNT")]));
    assert_eq!(
        inputs,
        list(vec![Parameter::Receiver(s("&mut self")), rewritten("count", "__COUNT")])
    );
}

#[test]
fn make_arguments_generic_leaves_a_refused_list_untouched() {
    let mut inputs = list(vec![typed("a", "u8"), compound("(u8, u8)"), typed("b", "u8")]);
    let before = inputs.clone();
    assert_eq!(make_arguments_generic(&mut inputs), Err(Error::UnsupportedParameterPattern));
    assert_eq!(inputs, before);
}

#[test]
fn prologue_has_one_conversion_per_typed_parameter() {
    let inputs =
        list(vec![Parameter::Receiver(s("self")), typed("a", "u8"), typed("b", "String")]);
    assert_eq!(
        generate_body_insert_statements(&inputs),
        Ok(vec![conversion("a", "u8"), conversion("b", "String")])
    );
    assert_eq!(generate_body_insert_statements(&list(vec![])), Ok(vec![]));
}

#[test]
fn prologue_refuses_a_compound_pattern() {
    let inputs = list(vec![compound("Point")]);
    assert_eq!(generate_body_insert_statements(&inputs), Err(Error::UnsupportedParameterPattern));
}

#[test]
fn rewrites_print_details() {
    let before = print_details();
    let body = before.stmts.clone();
    let out = args_into(Item::Fn(before)).unwrap();
    assert_eq!(out.ident, "print_details");
    assert_eq!(out.attrs, vec![s("allow(non_camel_case_types)")]);
    assert_eq!(
        out.generics,
        list(vec![
            into_param("__FIRST_NAME", "String"),
            into_param("__LAST_NAME", "String"),
            into_param("__AGE", "usize"),
        ])
    );
    assert_eq!(
        out.inputs,
        list(vec![
            rewritten("first_name", "__FIRST_NAME"),
            rewritten("last_name", "__LAST_NAME"),
            rewritten("age", "__AGE"),
        ])
    );
    assert_eq!(out.stmts.len(), 4);
    let prologue = &out.stmts[..3];
    assert!(prologue.contains(&conversion("first_name", "String")));
    assert!(prologue.contains(&conversion("last_name", "String")));
    assert!(prologue.contains(&conversion("age", "usize")));
    assert_eq!(&out.stmts[3..], &body[..]);
}

#[test]
fn rewrites_foo_method() {
    let before = foo_method();
    let body = before.stmts.clone();
    let out = args_into(Item::Fn(before)).unwrap();
    assert_eq!(out.attrs, vec![s("allow(non_camel_case_types)"), s("inline")]);
    assert_eq!(
        out.generics,
        list(vec![GenericParam::Existing(s("'a")), into_param("__INPUT", "&'a mut String")])
    );
    assert_eq!(
        out.inputs,
        list(vec![Parameter::Receiver(s("self")), rewritten("input", "__INPUT")])
    );
    assert_eq!(out.stmts[0], conversion("input", "&'a mut String"));
    assert_eq!(&out.stmts[1..], &body[..]);
}

#[test]
fn counts_generics_and_rewritten_types() {
    let before = ItemFn {
        attrs: vec![],
        ident: s("f"),
        generics: list(vec![
            GenericParam::Existing(s("T: Clone")),
            GenericParam::Existing(s("'a")),
        ]),
        inputs: list(vec![
            Parameter::Receiver(s("&self")),
            typed("x", "T"),
            typed("y", "&'a str"),
        ]),
        stmts: vec![],
    };
    let out = args_into(Item::Fn(before)).unwrap();
    assert_eq!(out.generics.len(), 2 + 2);
    assert_eq!(out.inputs.len(), 3);
    let fresh = out
        .inputs
        .iter()
        .filter(|p| matches!(p, Parameter::Typed(PatType { ty: Type::Path(_), .. })))
        .count();
    assert_eq!(fresh, 2);
    assert_eq!(out.generics[2], into_param("__X", "T"));
    assert_eq!(out.generics[3], into_param("__Y", "&'a str"));
}

#[test]
fn extraction_gives_the_same_names_after_the_rewrite() {
    let mut inputs =
        list(vec![typed("b", "u8"), Parameter::Receiver(s("self")), typed("a", "u16")]);
    let names_before: Vec<Pattern> = typed_parameters(&inputs).into_iter().map(|t| t.pat).collect();
    make_arguments_generic(&mut inputs).unwrap();
    let names_after: Vec<Pattern> = typed_parameters(&inputs).into_iter().map(|t| t.pat).collect();
    assert_eq!(names_before, vec![Pattern::Ident(s("b")), Pattern::Ident(s("a"))]);
    assert_eq!(names_after, names_before);
}

#[test]
fn nothing_to_rewrite_without_typed_parameters() {
    let only_receiver = ItemFn {
        attrs: vec![],
        ident: s("get"),
        generics: list(vec![GenericParam::Existing(s("T"))]),
        inputs: list(vec![Parameter::Receiver(s("&self"))]),
        stmts: vec![Stmt::Verbatim(s("self.0"))],
    };
    let out = args_into(Item::Fn(only_receiver)).unwrap();
    assert_eq!(out.generics, list(vec![GenericParam::Existing(s("T"))]));
    assert_eq!(out.inputs, list(vec![Parameter::Receiver(s("&self"))]));
    assert_eq!(out.stmts, vec![Stmt::Verbatim(s("self.0"))]);

    let no_parameters = ItemFn {
        attrs: vec![],
        ident: s("run"),
        generics: list(vec![]),
        inputs: list(vec![]),
        stmts: vec![],
    };
    let out = args_into(Item::Fn(no_parameters)).unwrap();
    assert_eq!(out.generics, list(vec![]));
    assert_eq!(out.inputs, list(vec![]));
    assert_eq!(out.stmts, vec![]);
    assert_eq!(out.attrs, vec![s("allow(non_camel_case_types)")]);
}

#[test]
fn receiver_stays_as_it_is() {
    let with_receiver = foo_method();
    let mut without_receiver = foo_method();
    without_receiver.inputs = list(vec![typed("input", "&'a mut String")]);
    let a = args_into(Item::Fn(with_receiver)).unwrap();
    let b = args_into(Item::Fn(without_receiver)).unwrap();
    assert_eq!(a.inputs[0], Parameter::Receiver(s("self")));
    assert_eq!(a.generics, b.generics);
    assert_eq!(a.stmts, b.stmts);
}

#[test]
fn compound_pattern_fails_the_whole_rewrite() {
    let mut before = print_details();
    before.inputs.insert(1, compound("(u8, u8)"));
    assert_eq!(args_into(Item::Fn(before)), Err(Error::UnsupportedParameterPattern));
}

#[test]
fn an_item_that_is_no_function_is_refused() {
    assert_eq!(args_into(Item::Other(s("struct Foo;"))), Err(Error::WrongItemKind));
}

#[test]
fn names_that_differ_by_case_get_the_same_identifier() {
    assert_eq!(generic_ident(&s("value")), generic_ident(&s("Value")));
}

#[test]
fn foo_method_puts_the_text_in_front() {
    let mut input = s("abc");
    let len = Foo.foo_method(&mut input);
    assert_eq!(input, "some string operationabc");
    assert_eq!(len, 24);
}

#[test]
fn foo_method_counts_bytes() {
    let mut input = s("\u{e9}");
    let len = Foo.foo_method(&mut input);
    assert_eq!(input, "some string operation\u{e9}");
    assert_eq!(len, 23);
}

#[test]
fn generic_function_takes_a_string() {
    generic_function(s("text"));
    use_string(s("text"));
}

use yew_property_info::{
    describe, read, write_impl, Annotation, Argument, Declaration, DeriveError, Diagnostic,
    FieldDecl, Message, MetaItem, Shape, TypeExpr, TypeKind,
};

const SIMPLE_PROPS: &str = r#"
#[derive(Debug, Clone, Properties, PropertyInfo)]
pub struct SimpleProps {
    pub required: bool,
    #[prop_or_default]
    pub field: String,
    #[prop_or(2)]
    #[prop_description("The Second Field")]
    pub field2: usize,
    #[prop_or("null")]
    pub reference: &'static str,
    #[prop_or("dynamic".to_string())]
    pub dynamic: String,

    #[prop_or_default]
    pub field3: Option<&'static str>
}
"#;

#[test]
fn read_copies_fields_and_attributes() {
    let input = read(
        "struct Pair<T> { \
         #[prop_or(2)] #[doc = \"first\"] pub first: u32, \
         #[prop_or(a.b(1))] #[other::path] second: Vec<T> }",
    )
    .unwrap();
    let expected = Declaration {
        ident: "Pair".to_string(),
        data: Shape::Named(vec![
            FieldDecl {
                name: "first".to_string(),
                ty: TypeExpr { kind: TypeKind::Path, tokens: "u32".to_string() },
                attrs: vec![
                    Annotation {
                        ident: Some("prop_or".to_string()),
                        meta: Some(MetaItem::List(vec![Argument {
                            str_value: None,
                            tokens: "2".to_string(),
                        }])),
                        group: Some("2".to_string()),
                    },
                    Annotation {
                        ident: Some("doc".to_string()),
                        meta: Some(MetaItem::NameValue),
                        group: None,
                    },
                ],
            },
            FieldDecl {
                name: "second".to_string(),
                ty: TypeExpr { kind: TypeKind::Path, tokens: "Vec < T >".to_string() },
                attrs: vec![
                    Annotation {
                        ident: Some("prop_or".to_string()),
                        meta: None,
                        group: Some("a . b (1)".to_string()),
                    },
                    Annotation {
                        ident: None,
                        meta: Some(MetaItem::Path),
                        group: None,
                    },
                ],
            },
        ]),
    };
    assert_eq!(input, expected);
}

#[test]
fn read_tells_string_literals_from_other_arguments() {
    let input = read(
        "struct S { #[prop_description(\"a \\\"b\\\"\\n\", 7, name, key = 1, list(x))] f: u8 }",
    )
    .unwrap();
    let Shape::Named(fields) = input.data else { panic!("named fields expected") };
    assert_eq!(
        fields[0].attrs[0].meta,
        Some(MetaItem::List(vec![
            Argument {
                str_value: Some("a \"b\"\n".to_string()),
                tokens: "\"a \\\"b\\\"\\n\"".to_string(),
            },
            Argument { str_value: None, tokens: "7".to_string() },
            Argument { str_value: None, tokens: "name".to_string() },
            Argument { str_value: None, tokens: "key = 1".to_string() },
            Argument { str_value: None, tokens: "list (x)".to_string() },
        ]))
    );
}

#[test]
fn read_tells_the_forms_of_types() {
    let input = read(
        "struct Forms<'a, T> { \
         a: [u8; 4], b: fn(usize) -> bool, c: impl Clone, d: _, e: m!(x), f: !, g: (u8), \
         h: std::slice::Iter<'a, T>, i: *const u8, j: &'a mut T, k: [T], l: dyn Fn(u8) -> u8, \
         m: (A, B), n: Option<&'static str>, o: &'static str }",
    )
    .unwrap();
    let Shape::Named(fields) = input.data else { panic!("named fields expected") };
    let found: Vec<(TypeKind, &str)> =
        fields.iter().map(|f| (f.ty.kind, f.ty.tokens.as_str())).collect();
    assert_eq!(
        found,
        vec![
            (TypeKind::Array, "[u8 ; 4]"),
            (TypeKind::BareFn, "fn (usize) -> bool"),
            (TypeKind::ImplTrait, "impl Clone"),
            (TypeKind::Infer, "_"),
            (TypeKind::Macro, "m ! (x)"),
            (TypeKind::Never, "!"),
            (TypeKind::Paren, "(u8)"),
            (TypeKind::Path, "std :: slice :: Iter < 'a , T >"),
            (TypeKind::Ptr, "* const u8"),
            (TypeKind::Reference, "& 'a mut T"),
            (TypeKind::Slice, "[T]"),
            (TypeKind::TraitObject, "dyn Fn (u8) -> u8"),
            (TypeKind::Tuple, "(A , B)"),
            (TypeKind::Path, "Option < & 'static str >"),
            (TypeKind::Reference, "& 'static str"),
        ]
    );
}

#[test]
fn read_tells_the_shapes_of_declarations() {
    assert_eq!(read("struct A { }").unwrap().data, Shape::Named(vec![]));
    assert_eq!(read("struct B(u8, u16);").unwrap().data, Shape::Unnamed);
    assert_eq!(read("struct C;").unwrap().data, Shape::Unit);
    assert_eq!(read("enum D { X, Y { a: u8 } }").unwrap().data, Shape::Enum);
    assert_eq!(read("union E { a: u8, b: i8 }").unwrap().data, Shape::Union);
    assert_eq!(read("pub(crate) struct r#type { }").unwrap().ident, "r#type");
}

#[test]
fn read_refuses_what_is_no_declaration() {
    for text in ["", "fn main() {}", "struct", "struct S { a: }", "struct S { a: u8 } struct T;", "\""] {
        match read(text) {
            Err(DeriveError::Syntax(words)) => assert!(!words.is_empty()),
            other => panic!("{:?} for {:?}", other, text),
        }
    }
}

#[test]
fn described_from_source() {
    let input = read(SIMPLE_PROPS).unwrap();
    let mut diagnostics: Vec<Diagnostic> = Vec::new();
    let props = describe(&input, "simple", &mut diagnostics).unwrap();
    assert!(diagnostics.is_empty());
    assert_eq!(props.ty, "SimpleProps");
    assert_eq!(props.module, "simple");
    assert_eq!(props.fields.len(), 6);
    let found: Vec<(&str, &str, bool, Option<&str>, Option<&str>)> = props
        .fields
        .iter()
        .map(|f| {
            (f.name.as_str(), f.ty.as_str(), f.required, f.default.as_deref(), f.description.as_deref())
        })
        .collect();
    assert_eq!(
        found,
        vec![
            ("required", "bool", true, None, None),
            ("field", "String", false, Some("Default::default"), None),
            ("field2", "usize", false, Some("2"), Some("The Second Field")),
            ("reference", "& 'static str", false, Some("\"null\""), None),
            ("dynamic", "String", false, Some("\"dynamic\" . to_string ()"), None),
            ("field3", "Option < & 'static str >", false, Some("Default::default"), None),
        ]
    );
}

#[test]
fn derive_writes_the_impl_of_what_was_read() {
    let mut diagnostics = Vec::new();
    let code = yew_property_info::derive(SIMPLE_PROPS, &mut diagnostics).unwrap();
    assert!(diagnostics.is_empty());

    let input = read(SIMPLE_PROPS).unwrap();
    let info = describe(&input, "simple", &mut diagnostics).unwrap();
    assert_eq!(code, write_impl("SimpleProps", &info.fields));

    assert!(code.starts_with("impl ::yew_property_info::HasPropertyInfo for SimpleProps { "));
    assert!(code.contains(
        "::yew_property_info::PropertyRef { \
         ty: \"usize\", \
         name: stringify!(field2), \
         required: false, \
         default: ::core::option::Option::Some(\"2\"), \
         description: ::core::option::Option::Some(\"The Second Field\") }, "
    ));
    assert!(code.contains(
        "default: ::core::option::Option::Some(\"\\\"null\\\"\")"
    ));
    assert!(code.contains(
        "default: ::core::option::Option::Some(\"\\\"dynamic\\\" . to_string ()\")"
    ));
    assert!(code.parse::<proc_macro2::TokenStream>().is_ok());
}

#[test]
fn derive_escapes_texts_as_string_literals() {
    let mut diagnostics = Vec::new();
    let code = yew_property_info::derive(
        "struct S { #[prop_description(\"tab\\t quote\\\" backslash\\\\ nul\\0 \\u{e9}\")] f: u8 }",
        &mut diagnostics,
    )
    .unwrap();
    assert!(diagnostics.is_empty());
    assert!(code.contains(
        "description: ::core::option::Option::Some(\
         \"tab\\t quote\\\" backslash\\\\ nul\\0 \u{e9}\")"
    ));
    let tokens = code.parse::<proc_macro2::TokenStream>().unwrap();
    assert!(tokens.to_string().contains("\"tab\\t quote\\\" backslash\\\\ nul\\0 \u{e9}\""));
}

#[test]
fn derive_reports_and_goes_on() {
    let mut diagnostics =
        vec![Diagnostic { field: 7, attribute: 7, message: Message::ExpectedStringLiteral }];
    let code = yew_property_info::derive(
        "struct S { \
         #[prop_or(1, 2)] a: u8, \
         b: u8, \
         #[some::path] #[prop_description(3)] #[prop_or_default] c: u8, \
         #[prop_or = 4] #[prop_description] d: u8, \
         #[prop_or{5}] e: u8 }",
        &mut diagnostics,
    )
    .unwrap();
    assert_eq!(
        diagnostics,
        vec![
            Diagnostic { field: 7, attribute: 7, message: Message::ExpectedStringLiteral },
            Diagnostic { field: 0, attribute: 0, message: Message::ExpectedOneArgument },
            Diagnostic { field: 2, attribute: 0, message: Message::ExpectedIdent },
            Diagnostic { field: 2, attribute: 1, message: Message::ExpectedStringLiteral },
            Diagnostic { field: 3, attribute: 0, message: Message::ExpectedOneArgument },
            Diagnostic { field: 3, attribute: 1, message: Message::ExpectedOneArgument },
            Diagnostic { field: 4, attribute: 0, message: Message::ExpectedOneArgument },
        ]
    );
    assert!(code.contains("name: stringify!(a), required: true, "));
    assert!(code.contains("name: stringify!(c), required: false, "));
    assert!(code.contains("name: stringify!(e), required: true, "));
}

#[test]
fn derive_refuses_other_declarations() {
    let mut diagnostics = Vec::new();
    assert_eq!(yew_property_info::derive("enum E { A }", &mut diagnostics), Err(DeriveError::NotStruct));
    assert_eq!(yew_property_info::derive("union U { a: u8 }", &mut diagnostics), Err(DeriveError::NotStruct));
    assert_eq!(yew_property_info::derive("struct T(u8);", &mut diagnostics), Err(DeriveError::NotNamed));
    assert_eq!(yew_property_info::derive("struct U;", &mut diagnostics), Err(DeriveError::NotNamed));
    assert!(matches!(yew_property_info::derive("struct {", &mut diagnostics), Err(DeriveError::Syntax(_))));
    assert!(diagnostics.is_empty());
}

#[test]
fn written_literals_read_back() {
    let text = "tab\t \"quoted\" back\\slash nul\0 nul\u{0}7 line\n\r '\u{e9}\u{1f600}\u{301}\u{7f}";
    let field = yew_property_info::PropertyBuf {
        name: "f".to_string(),
        ty: "u8".to_string(),
        required: true,
        default: None,
        description: Some(text.to_string()),
    };
    let code = write_impl("S", &vec![field]);
    let opening = "description: ::core::option::Option::Some(";
    let start = code.find(opening).unwrap() + opening.len();
    let end = code.rfind(") }, ").unwrap();
    let literal = &code[start..end];
    assert!(literal.starts_with('"') && literal.ends_with('"'));
    assert_ne!(&literal[1..literal.len() - 1], text);

    let source = format!("struct S {{ #[prop_description({})] f: u8 }}", literal);
    let mut diagnostics = Vec::new();
    let info = describe(&read(&source).unwrap(), "m", &mut diagnostics).unwrap();
    assert_eq!(info.fields[0].description.as_deref(), Some(text));
    assert!(diagnostics.is_empty());
}

#[test]
fn read_finds_the_one_parenthesized_group() {
    let input = read(
        "struct S { \
         #[prop_or(\")\".len())] a: u8, \
         #[prop_or(a)(b)] b: u8, \
         #[prop_or[1]] c: u8, \
         #[prop_or{1}] d: u8, \
         #[prop_or = 1 + 1] e: u8, \
         #[prop_or()] f: u8, \
         #[prop_or] g: u8, \
         #[prop_or((1))] h: u8 }",
    )
    .unwrap();
    let Shape::Named(fields) = input.data else { panic!("named fields expected") };
    let groups: Vec<Option<&str>> =
        fields.iter().map(|f| f.attrs[0].group.as_deref()).collect();
    assert_eq!(
        groups,
        vec![Some("\")\" . len ()"), None, None, None, None, Some(""), None, Some("(1)")]
    );
    let mut diagnostics = Vec::new();
    let info = describe(
        &Declaration { ident: input.ident, data: Shape::Named(fields) },
        "m",
        &mut diagnostics,
    )
    .unwrap();
    let defaults: Vec<Option<&str>> = info.fields.iter().map(|f| f.default.as_deref()).collect();
    assert_eq!(
        defaults,
        vec![Some("\")\" . len ()"), None, None, None, None, None, None, Some("(1)")]
    );
    let reported: Vec<(usize, Message)> = diagnostics.iter().map(|d| (d.field, d.message)).collect();
    assert_eq!(
        reported,
        vec![
            (1, Message::ExpectedOneArgument),
            (2, Message::ExpectedOneArgument),
            (3, Message::ExpectedOneArgument),
            (4, Message::ExpectedOneArgument),
            (5, Message::ExpectedOneArgument),
            (6, Message::ExpectedOneArgument),
        ]
    );
}

#[test]
fn expression_as_description_is_no_string_literal() {
    let mut diagnostics = Vec::new();
    let input =
        read("struct S { #[prop_or(2)] #[prop_description(\"a\".to_string())] pub x: u8 }")
            .unwrap();
    let info = describe(&input, "m", &mut diagnostics).unwrap();
    assert_eq!(info.fields[0].required, false);
    assert_eq!(info.fields[0].default.as_deref(), Some("2"));
    assert_eq!(info.fields[0].description, None);
    assert_eq!(
        diagnostics,
        vec![Diagnostic { field: 0, attribute: 1, message: Message::ExpectedStringLiteral }]
    );
}

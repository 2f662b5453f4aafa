//! Reading a declaration from its source text.
//!
//! The text is parsed by `syn`; what the description needs of the syntax tree
//! is copied into the plain model of [`crate::syntax`]. The functions marked
//! `external_body` are the calls into `syn`, `quote` and `proc_macro2`: their
//! bodies are not verified. What each of them returns has a name, a function
//! of the value it is called on; no contract says what that is for a given
//! text. The copying is verified against those names, and what is done with
//! the model afterwards is verified for every value of it.
//!
//! The token crates are built without the compiler's token streams: a text
//! is lexed and printed by `proc_macro2` itself, in a procedural macro as
//! anywhere else.

use vstd::prelude::*;
use proc_macro2::{Delimiter, TokenTree};
use quote::ToTokens;
use syn::Type;
use crate::descriptor::text_opt;
use crate::diagnostic::{DeriveError, DeriveErrorView};
use crate::syntax::{
    Annotation, AnnotationView, Argument, ArgumentView, Declaration, DeclarationView, FieldDecl,
    FieldDeclView, MetaItem, MetaItemView, Shape, ShapeView, TypeExpr, TypeExprView, TypeKind,
};

verus! {

/// `syn::DeriveInput`: a parsed declaration. Nothing is known of its inside.
#[verifier::external_type_specification]
#[verifier::external_body]
pub struct ExDeriveInput(syn::DeriveInput);

/// `syn::Error`: why the parser refused a text.
#[verifier::external_type_specification]
#[verifier::external_body]
pub struct ExError(syn::Error);

/// `syn::Field`: a parsed field.
#[verifier::external_type_specification]
#[verifier::external_body]
pub struct ExField(syn::Field);

/// `syn::Attribute`: a parsed attribute.
#[verifier::external_type_specification]
#[verifier::external_body]
pub struct ExAttribute(syn::Attribute);

/// `syn::Meta`: the structured content of an attribute.
#[verifier::external_type_specification]
#[verifier::external_body]
pub struct ExMeta(syn::Meta);

/// `syn::NestedMeta`: one argument of an attribute list.
#[verifier::external_type_specification]
#[verifier::external_body]
pub struct ExNestedMeta(syn::NestedMeta);

/// What a parsed declaration holds, with the fields as the parser gave them.
pub enum Body {
    Named(Vec<syn::Field>),
    Unnamed,
    Unit,
    Enum,
    Union,
}

/// The content of a parsed attribute, with the arguments as the parser gave
/// them.
pub enum Content {
    Path,
    List(Vec<syn::NestedMeta>),
    NameValue,
}

/// One of the token trees that follow an attribute's path. A parenthesized
/// group comes with the tokens inside it, printed.
pub enum Tree {
    Parenthesized(String),
    Braced,
    Bracketed,
    Undelimited,
    Ident,
    Punct,
    Literal,
}

/// What `syn::parse_str` makes of a text as a `syn::DeriveInput`.
pub uninterp spec fn parsed(text: Seq<char>) -> Result<syn::DeriveInput, syn::Error>;

/// The `Display` text of a `syn::Error`.
pub uninterp spec fn error_text(error: syn::Error) -> Seq<char>;

/// The text of the identifier of a `syn::DeriveInput`.
pub uninterp spec fn input_name(input: syn::DeriveInput) -> Seq<char>;

/// The variant of `syn::Data`, and of `syn::Fields`, of a `syn::DeriveInput`,
/// with the named fields in their order.
pub uninterp spec fn input_content(input: syn::DeriveInput) -> Body;

/// The text of the identifier of a `syn::Field`, where it has one.
pub uninterp spec fn field_name(field: syn::Field) -> Option<Seq<char>>;

/// The variant of `syn::Type` of the type of a `syn::Field`.
pub uninterp spec fn field_type_form(field: syn::Field) -> TypeKind;

/// The tokens of the type of a `syn::Field`, printed.
pub uninterp spec fn field_type_text(field: syn::Field) -> Seq<char>;

/// The attributes of a `syn::Field`, in their order.
pub uninterp spec fn field_attributes(field: syn::Field) -> Seq<syn::Attribute>;

/// The path of a `syn::Attribute` as text, where `syn::Path::get_ident` finds
/// a single identifier.
pub uninterp spec fn attribute_name(attr: syn::Attribute) -> Option<Seq<char>>;

/// What `syn::Attribute::parse_meta` makes of a `syn::Attribute`.
pub uninterp spec fn attribute_meta(attr: syn::Attribute) -> Result<syn::Meta, syn::Error>;

/// The token trees that follow the path of a `syn::Attribute`, in their
/// order.
pub uninterp spec fn attribute_trees(attr: syn::Attribute) -> Seq<Tree>;

/// The variant of a `syn::Meta`, with the arguments of a list in their order.
pub uninterp spec fn meta_items(meta: syn::Meta) -> Content;

/// What `syn::LitStr::value` gives where a `syn::NestedMeta` is a string
/// literal.
pub uninterp spec fn argument_value(nested: syn::NestedMeta) -> Option<Seq<char>>;

/// The tokens of a `syn::NestedMeta`, printed.
pub uninterp spec fn argument_text(nested: syn::NestedMeta) -> Seq<char>;

/// `syn::parse_str` for a `syn::DeriveInput`: the text as a struct, enum or
/// union declaration, or the parser's error. The result is taken to depend
/// on the text alone; what it is for a given text is not stated. The parser
/// descends as deep as the text nests, on the stack.
#[verifier::external_body]
fn parse_input(text: &str) -> (r: Result<syn::DeriveInput, syn::Error>)
    ensures
        r == parsed(text@),
{
    syn::parse_str::<syn::DeriveInput>(text)
}

/// The `Display` text of a `syn::Error`.
#[verifier::external_body]
fn error_words(error: &syn::Error) -> (r: String)
    ensures
        r@ == error_text(*error),
{
    error.to_string()
}

/// The text of the identifier `ident` of a `syn::DeriveInput`.
#[verifier::external_body]
fn input_ident(input: &syn::DeriveInput) -> (r: String)
    ensures
        r@ == input_name(*input),
{
    input.ident.to_string()
}

/// Tells the variants of `syn::Data` and of `syn::Fields` apart, and hands
/// out the named fields in their order.
#[verifier::external_body]
fn input_body(input: &syn::DeriveInput) -> (r: Body)
    ensures
        r == input_content(*input),
{
    match &input.data {
        syn::Data::Struct(s) => match &s.fields {
            syn::Fields::Named(fields) => Body::Named(fields.named.iter().cloned().collect()),
            syn::Fields::Unnamed(_) => Body::Unnamed,
            syn::Fields::Unit => Body::Unit,
        },
        syn::Data::Enum(_) => Body::Enum,
        syn::Data::Union(_) => Body::Union,
    }
}

/// The text of the identifier `ident` of a `syn::Field`, where it has one.
#[verifier::external_body]
fn field_ident(field: &syn::Field) -> (r: Option<String>)
    ensures
        text_opt(r) == field_name(*field),
{
    match &field.ident {
        Some(ident) => Some(ident.to_string()),
        None => None,
    }
}

/// Tells the variants of `syn::Type` apart for the field `ty` of a
/// `syn::Field`.
#[verifier::external_body]
fn field_type_kind(field: &syn::Field) -> (r: TypeKind)
    ensures
        r == field_type_form(*field),
{
    match &field.ty {
        Type::Array(_) => TypeKind::Array, Type::BareFn(_) => TypeKind::BareFn,
        Type::Group(_) => TypeKind::Group, Type::ImplTrait(_) => TypeKind::ImplTrait,
        Type::Infer(_) => TypeKind::Infer, Type::Macro(_) => TypeKind::Macro,
        Type::Never(_) => TypeKind::Never, Type::Paren(_) => TypeKind::Paren,
        Type::Path(_) => TypeKind::Path, Type::Ptr(_) => TypeKind::Ptr,
        Type::Reference(_) => TypeKind::Reference, Type::Slice(_) => TypeKind::Slice,
        Type::TraitObject(_) => TypeKind::TraitObject, Type::Tuple(_) => TypeKind::Tuple,
        Type::Verbatim(_) => TypeKind::Verbatim, _ => TypeKind::Other,
    }
}

/// The tokens of the field `ty` of a `syn::Field`, printed:
/// `quote::ToTokens::to_token_stream` and the stream's `Display` text.
#[verifier::external_body]
fn field_type_tokens(field: &syn::Field) -> (r: String)
    ensures
        r@ == field_type_text(*field),
{
    field.ty.to_token_stream().to_string()
}

/// The field `attrs` of a `syn::Field`.
#[verifier::external_body]
fn field_attrs(field: &syn::Field) -> (r: &Vec<syn::Attribute>)
    ensures
        r@ == field_attributes(*field),
{
    &field.attrs
}

/// `syn::Path::get_ident` on the path of a `syn::Attribute`, as text: `None`
/// where the path is not a single identifier.
#[verifier::external_body]
fn attr_ident(attr: &syn::Attribute) -> (r: Option<String>)
    ensures
        text_opt(r) == attribute_name(*attr),
{
    match attr.path.get_ident() {
        Some(ident) => Some(ident.to_string()),
        None => None,
    }
}

/// `syn::Attribute::parse_meta`: the attribute's content as a `syn::Meta`,
/// or the parser's error.
#[verifier::external_body]
fn attr_meta(attr: &syn::Attribute) -> (r: Result<syn::Meta, syn::Error>)
    ensures
        r == attribute_meta(*attr),
{
    attr.parse_meta()
}

/// The token trees of the field `tokens` of a `syn::Attribute`: tells the
/// variants of `proc_macro2::TokenTree` and of `proc_macro2::Delimiter`
/// apart, and prints the stream inside a parenthesized group.
#[verifier::external_body]
fn attr_trees(attr: &syn::Attribute) -> (r: Vec<Tree>)
    ensures
        r@ == attribute_trees(*attr),
{
    attr.tokens.clone().into_iter().map(|tree| match tree {
        TokenTree::Group(group) => match group.delimiter() {
            Delimiter::Parenthesis => Tree::Parenthesized(group.stream().to_string()),
            Delimiter::Brace => Tree::Braced,
            Delimiter::Bracket => Tree::Bracketed,
            Delimiter::None => Tree::Undelimited,
        },
        TokenTree::Ident(_) => Tree::Ident,
        TokenTree::Punct(_) => Tree::Punct,
        TokenTree::Literal(_) => Tree::Literal,
    }).collect()
}

/// Tells the variants of `syn::Meta` apart, and hands out the arguments of a
/// list in their order.
#[verifier::external_body]
fn meta_content(meta: &syn::Meta) -> (r: Content)
    ensures
        r == meta_items(*meta),
{
    match meta {
        syn::Meta::Path(_) => Content::Path,
        syn::Meta::List(list) => Content::List(list.nested.iter().cloned().collect()),
        syn::Meta::NameValue(_) => Content::NameValue,
    }
}

/// `syn::LitStr::value` where a `syn::NestedMeta` is a string literal.
#[verifier::external_body]
fn nested_str_value(nested: &syn::NestedMeta) -> (r: Option<String>)
    ensures
        text_opt(r) == argument_value(*nested),
{
    match nested {
        syn::NestedMeta::Lit(syn::Lit::Str(s)) => Some(s.value()),
        _ => None,
    }
}

/// The tokens of a `syn::NestedMeta`, printed:
/// `quote::ToTokens::to_token_stream` and the stream's `Display` text.
#[verifier::external_body]
fn nested_tokens(nested: &syn::NestedMeta) -> (r: String)
    ensures
        r@ == argument_text(*nested),
{
    nested.to_token_stream().to_string()
}

/// The model of one argument of an attribute list.
pub open spec fn argument_model(nested: syn::NestedMeta) -> ArgumentView {
    ArgumentView { str_value: argument_value(nested), tokens: argument_text(nested) }
}

/// The model of an attribute's structured content: its variant, and one
/// argument for each argument of a list, in their order.
pub open spec fn meta_model(meta: syn::Meta) -> MetaItemView {
    match meta_items(meta) {
        Content::Path => MetaItemView::Path,
        Content::List(items) => MetaItemView::List(
            items@.map_values(|n: syn::NestedMeta| argument_model(n)),
        ),
        Content::NameValue => MetaItemView::NameValue,
    }
}

/// The tokens inside the parentheses, where the trees are one parenthesized
/// group and nothing else.
pub open spec fn group_of(trees: Seq<Tree>) -> Option<Seq<char>> {
    if trees.len() == 1 {
        match trees[0] {
            Tree::Parenthesized(inner) => Some(inner@),
            _ => None,
        }
    } else {
        None
    }
}

/// The model of an attribute: its name, its content where the parser finds
/// structure in it, and its one parenthesized group.
pub open spec fn annotation_model(attr: syn::Attribute) -> AnnotationView {
    AnnotationView {
        ident: attribute_name(attr),
        meta: match attribute_meta(attr) {
            Ok(meta) => Some(meta_model(meta)),
            Err(_) => None,
        },
        group: group_of(attribute_trees(attr)),
    }
}

/// The model of a field: its name, its type and its attributes in their
/// order. A field without an identifier, which a struct with named fields
/// does not have, gets the empty name.
pub open spec fn field_model(field: syn::Field) -> FieldDeclView {
    FieldDeclView {
        name: match field_name(field) {
            Some(name) => name,
            None => Seq::empty(),
        },
        ty: TypeExprView { kind: field_type_form(field), tokens: field_type_text(field) },
        attrs: field_attributes(field).map_values(|a: syn::Attribute| annotation_model(a)),
    }
}

/// The model of a parsed declaration: its name, and its named fields in
/// their order where it is a struct that has them.
pub open spec fn declaration_model(input: syn::DeriveInput) -> DeclarationView {
    DeclarationView {
        ident: input_name(input),
        data: match input_content(input) {
            Body::Named(fields) => ShapeView::Named(
                fields@.map_values(|f: syn::Field| field_model(f)),
            ),
            Body::Unnamed => ShapeView::Unnamed,
            Body::Unit => ShapeView::Unit,
            Body::Enum => ShapeView::Enum,
            Body::Union => ShapeView::Union,
        },
    }
}

/// Whether the parser takes `text` for the declaration of a struct, an enum
/// or a union.
pub open spec fn is_declaration(text: Seq<char>) -> bool {
    parsed(text) is Ok
}

/// The declaration that the parser finds in a text that it takes.
pub open spec fn declared(text: Seq<char>) -> DeclarationView {
    declaration_model(parsed(text)->Ok_0)
}

/// The parser's words on a text that it does not take.
pub open spec fn refusal(text: Seq<char>) -> Seq<char> {
    error_text(parsed(text)->Err_0)
}

/// What reading a text gives: the declaration found in it, or the parser's
/// words.
pub open spec fn reading(text: Seq<char>) -> Result<DeclarationView, DeriveErrorView> {
    if is_declaration(text) {
        Ok(declared(text))
    } else {
        Err(DeriveErrorView::Syntax(refusal(text)))
    }
}

/// The view of a declaration or of the error given in its place.
pub open spec fn read_result(r: Result<Declaration, DeriveError>) -> Result<
    DeclarationView,
    DeriveErrorView,
> {
    match r {
        Ok(input) => Ok(input@),
        Err(e) => Err(e@),
    }
}

/// Copies an attribute's content into the model.
fn read_meta(meta: &syn::Meta) -> (r: MetaItem)
    ensures
        r@ == meta_model(*meta),
{
    match meta_content(meta) {
        Content::Path => MetaItem::Path,
        Content::NameValue => MetaItem::NameValue,
        Content::List(items) => {
            let ghost all = items@.map_values(|n: syn::NestedMeta| argument_model(n));
            let mut nested: Vec<Argument> = Vec::new();
            let mut i: usize = 0;
            while i < items.len()
                invariant
                    i <= items.len(),
                    all == items@.map_values(|n: syn::NestedMeta| argument_model(n)),
                    nested@.map_values(|a: Argument| a@) == all.take(i as int),
                decreases items.len() - i,
            {
                let ghost before = nested@.map_values(|a: Argument| a@);
                let argument = Argument {
                    str_value: nested_str_value(&items[i]),
                    tokens: nested_tokens(&items[i]),
                };
                nested.push(argument);
                assert(nested@.map_values(|a: Argument| a@) =~= before.push(argument@));
                assert(all.take(i + 1) =~= all.take(i as int).push(argument_model(items@[i as int])));
                i += 1;
            }
            assert(all.take(i as int) =~= all);
            MetaItem::List(nested)
        },
    }
}

/// Picks the one parenthesized group out of an attribute's token trees.
fn read_group(trees: Vec<Tree>) -> (r: Option<String>)
    ensures
        text_opt(r) == group_of(trees@),
{
    let mut trees = trees;
    if trees.len() == 1 {
        match trees.pop() {
            Some(Tree::Parenthesized(inner)) => Some(inner),
            _ => None,
        }
    } else {
        None
    }
}

/// Copies an attribute into the model.
fn read_attribute(attr: &syn::Attribute) -> (r: Annotation)
    ensures
        r@ == annotation_model(*attr),
{
    let meta = match attr_meta(attr) {
        Ok(meta) => Some(read_meta(&meta)),
        Err(_) => None,
    };
    Annotation { ident: attr_ident(attr), meta, group: read_group(attr_trees(attr)) }
}

/// Copies a field into the model. A field without an identifier, which a
/// struct with named fields does not have, gets the empty name.
fn read_field(field: &syn::Field) -> (r: FieldDecl)
    ensures
        r@ == field_model(*field),
{
    let name = match field_ident(field) {
        Some(name) => name,
        None => String::new(),
    };
    let ty = TypeExpr { kind: field_type_kind(field), tokens: field_type_tokens(field) };
    let parsed = field_attrs(field);
    let ghost all = parsed@.map_values(|a: syn::Attribute| annotation_model(a));
    let mut attrs: Vec<Annotation> = Vec::new();
    let mut i: usize = 0;
    while i < parsed.len()
        invariant
            i <= parsed.len(),
            all == parsed@.map_values(|a: syn::Attribute| annotation_model(a)),
            attrs@.map_values(|a: Annotation| a@) == all.take(i as int),
        decreases parsed.len() - i,
    {
        let ghost before = attrs@.map_values(|a: Annotation| a@);
        let attr = read_attribute(&parsed[i]);
        attrs.push(attr);
        assert(attrs@.map_values(|a: Annotation| a@) =~= before.push(attr@));
        assert(all.take(i + 1) =~= all.take(i as int).push(annotation_model(parsed@[i as int])));
        i += 1;
    }
    assert(all.take(i as int) =~= all);
    FieldDecl { name, ty, attrs }
}

/// Reads a declaration from its source text: the model of what the parser
/// finds in it. A text that the parser does not take is refused with the
/// parser's words.
pub fn read(text: &str) -> (r: Result<Declaration, DeriveError>)
    ensures
        read_result(r) == reading(text@),
{
    match parse_input(text) {
        Err(error) => Err(DeriveError::Syntax(error_words(&error))),
        Ok(input) => {
            let data = match input_body(&input) {
                Body::Named(parsed) => {
                    let ghost all = parsed@.map_values(|f: syn::Field| field_model(f));
                    let mut fields: Vec<FieldDecl> = Vec::new();
                    let mut i: usize = 0;
                    while i < parsed.len()
                        invariant
                            i <= parsed.len(),
                            all == parsed@.map_values(|f: syn::Field| field_model(f)),
                            fields@.map_values(|f: FieldDecl| f@) == all.take(i as int),
                        decreases parsed.len() - i,
                    {
                        let ghost before = fields@.map_values(|f: FieldDecl| f@);
                        let field = read_field(&parsed[i]);
                        fields.push(field);
                        assert(fields@.map_values(|f: FieldDecl| f@) =~= before.push(field@));
                        assert(all.take(i + 1) =~= all.take(i as int).push(
                            field_model(parsed@[i as int]),
                        ));
                        i += 1;
                    }
                    assert(all.take(i as int) =~= all);
                    Shape::Named(fields)
                },
                Body::Unnamed => Shape::Unnamed,
                Body::Unit => Shape::Unit,
                Body::Enum => Shape::Enum,
                Body::Union => Shape::Union,
            };
            Ok(Declaration { ident: input_ident(&input), data })
        },
    }
}

} // verus!

//! The declaration that is described: a plain model of what is read from a
//! struct's syntax tree.
//!
//! Token texts (`tokens`) are the printed form of a piece of syntax, exactly as
//! the token printer in use gives it; nothing here interprets them further.

use vstd::prelude::*;
use crate::descriptor::text_opt;

verus! {

/// The syntactic form of a type expression.
#[derive(Debug, PartialEq, Eq, Clone, Copy)]
pub enum TypeKind {
    /// A fixed size array: `[T; n]`.
    Array,
    /// A function pointer: `fn(usize) -> bool`.
    BareFn,
    /// A type inside invisible delimiters.
    Group,
    /// `impl Bound1 + Bound2`.
    ImplTrait,
    /// The placeholder `_`.
    Infer,
    /// A macro invocation in type position.
    Macro,
    /// The never type `!`.
    Never,
    /// A parenthesized type.
    Paren,
    /// A path such as `std::slice::Iter`, with or without generic arguments.
    Path,
    /// A raw pointer: `*const T` or `*mut T`.
    Ptr,
    /// A reference: `&'a T` or `&'a mut T`.
    Reference,
    /// A slice: `[T]`.
    Slice,
    /// `dyn Bound1 + Bound2`.
    TraitObject,
    /// A tuple: `(A, B, C)`.
    Tuple,
    /// Tokens in type position that were not interpreted.
    Verbatim,
    /// Any form that is not listed above.
    Other,
}

/// A field's type: its form and its tokens.
#[derive(Debug, PartialEq, Eq, Clone)]
pub struct TypeExpr {
    pub kind: TypeKind,
    pub tokens: String,
}

/// The view of [`TypeExpr`]: its texts as sequences of characters.
pub ghost struct TypeExprView {
    pub kind: TypeKind,
    pub tokens: Seq<char>,
}

impl View for TypeExpr {
    type V = TypeExprView;

    open spec fn view(&self) -> TypeExprView {
        TypeExprView { kind: self.kind, tokens: self.tokens@ }
    }
}

/// One argument of an attribute list such as `name(arg, arg)`.
#[derive(Debug, PartialEq, Eq, Clone)]
pub struct Argument {
    /// The value of the argument where it is a string literal.
    pub str_value: Option<String>,
    /// The argument's tokens.
    pub tokens: String,
}

/// The view of [`Argument`]: its texts as sequences of characters.
pub ghost struct ArgumentView {
    pub str_value: Option<Seq<char>>,
    pub tokens: Seq<char>,
}

impl View for Argument {
    type V = ArgumentView;

    open spec fn view(&self) -> ArgumentView {
        ArgumentView { str_value: text_opt(self.str_value), tokens: self.tokens@ }
    }
}

/// The structured content of an attribute.
#[derive(Debug, PartialEq, Eq, Clone)]
pub enum MetaItem {
    /// A bare path: `#[name]`.
    Path,
    /// A list of literals and nested items: `#[name(arg, arg)]`.
    List(Vec<Argument>),
    /// A path and a literal: `#[name = "value"]`.
    NameValue,
}

/// The view of [`MetaItem`]: its texts as sequences of characters.
pub ghost enum MetaItemView {
    Path,
    List(Seq<ArgumentView>),
    NameValue,
}

impl View for MetaItem {
    type V = MetaItemView;

    open spec fn view(&self) -> MetaItemView {
        match self {
            MetaItem::Path => MetaItemView::Path,
            MetaItem::List(nested) => MetaItemView::List(nested@.map_values(|n: Argument| n@)),
            MetaItem::NameValue => MetaItemView::NameValue,
        }
    }
}

/// The view of an optional [`MetaItem`].
pub open spec fn meta_opt(o: Option<MetaItem>) -> Option<MetaItemView> {
    match o {
        Some(m) => Some(m@),
        None => None,
    }
}

/// One attribute of a field: `#[path tokens]`.
#[derive(Debug, PartialEq, Eq, Clone)]
pub struct Annotation {
    /// The path where it is a single identifier.
    pub ident: Option<String>,
    /// The content where it has the structure of a [`MetaItem`].
    pub meta: Option<MetaItem>,
    /// The tokens between the parentheses, where what follows the path is
    /// one parenthesized group and nothing else.
    pub group: Option<String>,
}

/// The view of [`Annotation`]: its texts as sequences of characters.
pub ghost struct AnnotationView {
    pub ident: Option<Seq<char>>,
    pub meta: Option<MetaItemView>,
    pub group: Option<Seq<char>>,
}

impl View for Annotation {
    type V = AnnotationView;

    open spec fn view(&self) -> AnnotationView {
        AnnotationView {
            ident: text_opt(self.ident),
            meta: meta_opt(self.meta),
            group: text_opt(self.group),
        }
    }
}

/// One named field with its attributes in the order written.
#[derive(Debug, PartialEq, Eq, Clone)]
pub struct FieldDecl {
    pub name: String,
    pub ty: TypeExpr,
    pub attrs: Vec<Annotation>,
}

/// The view of [`FieldDecl`]: its texts as sequences of characters.
pub ghost struct FieldDeclView {
    pub name: Seq<char>,
    pub ty: TypeExprView,
    pub attrs: Seq<AnnotationView>,
}

impl View for FieldDecl {
    type V = FieldDeclView;

    open spec fn view(&self) -> FieldDeclView {
        FieldDeclView {
            name: self.name@,
            ty: self.ty@,
            attrs: self.attrs@.map_values(|a: Annotation| a@),
        }
    }
}

/// What a declaration holds.
#[derive(Debug, PartialEq, Eq, Clone)]
pub enum Shape {
    /// A struct with named fields, in declaration order.
    Named(Vec<FieldDecl>),
    /// A tuple struct.
    Unnamed,
    /// A unit struct.
    Unit,
    /// An enum.
    Enum,
    /// A union.
    Union,
}

/// The view of [`Shape`]: its texts as sequences of characters.
pub ghost enum ShapeView {
    Named(Seq<FieldDeclView>),
    Unnamed,
    Unit,
    Enum,
    Union,
}

impl View for Shape {
    type V = ShapeView;

    open spec fn view(&self) -> ShapeView {
        match self {
            Shape::Named(fields) => ShapeView::Named(fields@.map_values(|f: FieldDecl| f@)),
            Shape::Unnamed => ShapeView::Unnamed,
            Shape::Unit => ShapeView::Unit,
            Shape::Enum => ShapeView::Enum,
            Shape::Union => ShapeView::Union,
        }
    }
}

/// A declaration to describe: its identifier and what it holds.
#[derive(Debug, PartialEq, Eq, Clone)]
pub struct Declaration {
    pub ident: String,
    pub data: Shape,
}

/// The view of [`Declaration`]: its texts as sequences of characters.
pub ghost struct DeclarationView {
    pub ident: Seq<char>,
    pub data: ShapeView,
}

impl View for Declaration {
    type V = DeclarationView;

    open spec fn view(&self) -> DeclarationView {
        DeclarationView { ident: self.ident@, data: self.data@ }
    }
}

} // verus!

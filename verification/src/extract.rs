//! What one field's type and attributes say of it.
//!
//! A field starts out required, with no default and no description. Its
//! attributes are read in the order written, and a later one overrides what
//! an earlier one set:
//!
//! - `prop_or_default` gives the default `Default::default`;
//! - `prop_or(expr)` gives the default `expr`, as its tokens print;
//! - `prop_description("text")` gives the description `text`;
//! - an attribute with another name is passed over.

use vstd::prelude::*;
use vstd::string::StringExecFns;
use crate::descriptor::text_opt;
use crate::diagnostic::{Diagnostic, Message};
use crate::syntax::{
    Annotation, AnnotationView, FieldDecl, MetaItem, MetaItemView, TypeExpr, TypeExprView,
    TypeKind,
};
use crate::text::same_text;

verus! {

/// The marker of a field whose default is the default value of its type.
pub const PROP_OR_DEFAULT: &'static str = "prop_or_default";

/// The marker of a field with an explicit default.
pub const PROP_OR: &'static str = "prop_or";

/// The marker of a field's documentation text.
pub const PROP_DESCRIPTION: &'static str = "prop_description";

/// The default expression that `prop_or_default` stands for.
pub const DEFAULT_EXPR: &'static str = "Default::default";

/// The rendering of a type whose form is not known.
pub const UNKNOWN_TYPE: &'static str = "Unknown";

/// The view of a text or the message given in its place.
pub open spec fn text_result(r: Result<String, Message>) -> Result<Seq<char>, Message> {
    match r {
        Ok(s) => Ok(s@),
        Err(m) => Err(m),
    }
}

/// The rendering of a type: its tokens, or `Unknown` for a form that is not
/// known.
pub open spec fn type_text(ty: TypeExprView) -> Seq<char> {
    if ty.kind == TypeKind::Other {
        UNKNOWN_TYPE@
    } else {
        ty.tokens
    }
}

/// Renders a field's type.
pub fn get_field_type(ty: &TypeExpr) -> (r: String)
    ensures
        r@ == type_text(ty@),
{
    match ty.kind {
        TypeKind::Path
        | TypeKind::Array
        | TypeKind::BareFn
        | TypeKind::Group
        | TypeKind::ImplTrait
        | TypeKind::Infer
        | TypeKind::Macro
        | TypeKind::Never
        | TypeKind::Paren
        | TypeKind::Ptr
        | TypeKind::Reference
        | TypeKind::Slice
        | TypeKind::TraitObject
        | TypeKind::Tuple
        | TypeKind::Verbatim => ty.tokens.clone(),
        TypeKind::Other => String::from_str(UNKNOWN_TYPE),
    }
}

/// The description that the content of `prop_description` gives: the value of
/// its one argument, a string literal. What is no list has no one argument.
pub open spec fn description_of(meta: MetaItemView) -> Result<Seq<char>, Message> {
    match meta {
        MetaItemView::List(nested) => if nested.len() != 1 {
            Err(Message::ExpectedOneArgument)
        } else {
            match nested[0].str_value {
                Some(value) => Ok(value),
                None => Err(Message::ExpectedStringLiteral),
            }
        },
        _ => Err(Message::ExpectedOneArgument),
    }
}

/// Reads the description from the content of `prop_description`.
pub fn get_prop_description(meta: &MetaItem) -> (r: Result<String, Message>)
    ensures
        text_result(r) == description_of(meta@),
{
    match meta {
        MetaItem::List(nested) => {
            if nested.len() != 1 {
                Err(Message::ExpectedOneArgument)
            } else {
                match &nested[0].str_value {
                    Some(value) => Ok(value.clone()),
                    None => Err(Message::ExpectedStringLiteral),
                }
            }
        },
        _ => Err(Message::ExpectedOneArgument),
    }
}

/// The default that the content of `prop_or` gives: the tokens of its one
/// argument. What is no list has no one argument.
pub open spec fn default_of(meta: MetaItemView) -> Result<Seq<char>, Message> {
    match meta {
        MetaItemView::List(nested) => if nested.len() != 1 {
            Err(Message::ExpectedOneArgument)
        } else {
            Ok(nested[0].tokens)
        },
        _ => Err(Message::ExpectedOneArgument),
    }
}

/// Reads the default expression from the content of `prop_or`.
pub fn get_prop(meta: &MetaItem) -> (r: Result<String, Message>)
    ensures
        text_result(r) == default_of(meta@),
{
    match meta {
        MetaItem::List(nested) => {
            if nested.len() != 1 {
                Err(Message::ExpectedOneArgument)
            } else {
                Ok(nested[0].tokens.clone())
            }
        },
        _ => Err(Message::ExpectedOneArgument),
    }
}

/// What the attributes of a field give.
#[derive(Debug, PartialEq, Eq, Clone)]
pub struct FieldInfo {
    pub required: bool,
    pub default: Option<String>,
    pub description: Option<String>,
}

/// The view of [`FieldInfo`]: its texts as sequences of characters.
pub ghost struct FieldInfoView {
    pub required: bool,
    pub default: Option<Seq<char>>,
    pub description: Option<Seq<char>>,
}

impl FieldInfoView {
    /// A field is required exactly when it has no default.
    pub open spec fn well_formed(self) -> bool {
        self.required <==> self.default is None
    }
}

impl View for FieldInfo {
    type V = FieldInfoView;

    open spec fn view(&self) -> FieldInfoView {
        FieldInfoView {
            required: self.required,
            default: text_opt(self.default),
            description: text_opt(self.description),
        }
    }
}

/// What is known of a field before any attribute is read.
pub open spec fn initial_info() -> FieldInfoView {
    FieldInfoView { required: true, default: None, description: None }
}

/// The description that a `prop_description` attribute gives. Where the
/// content has no structure, as with an argument that is an expression, one
/// parenthesized group holds something that is no string literal, and
/// anything else is no list of one argument.
pub open spec fn attribute_description(attr: AnnotationView) -> Result<Seq<char>, Message> {
    match attr.meta {
        Some(meta) => description_of(meta),
        None => match attr.group {
            Some(_) => Err(Message::ExpectedStringLiteral),
            None => Err(Message::ExpectedOneArgument),
        },
    }
}

/// The default that a `prop_or` attribute gives. Where the content has no
/// structure, as with an argument that is an expression and no literal, the
/// default is what stands in the one parenthesized group, token for token;
/// anything else is no list of one argument.
pub open spec fn attribute_default(attr: AnnotationView) -> Result<Seq<char>, Message> {
    match attr.meta {
        Some(meta) => default_of(meta),
        None => match attr.group {
            Some(expr) => Ok(expr),
            None => Err(Message::ExpectedOneArgument),
        },
    }
}

/// What is known of a field after one more attribute. A malformed `prop_or`
/// or `prop_description` leaves the field without the value it was to give.
pub open spec fn apply(info: FieldInfoView, attr: AnnotationView) -> FieldInfoView {
    match attr.ident {
        None => info,
        Some(name) => if name == PROP_OR_DEFAULT@ {
            FieldInfoView { required: false, default: Some(DEFAULT_EXPR@), ..info }
        } else if name == PROP_DESCRIPTION@ {
            match attribute_description(attr) {
                Ok(text) => FieldInfoView { description: Some(text), ..info },
                Err(_) => FieldInfoView { description: None, ..info },
            }
        } else if name == PROP_OR@ {
            match attribute_default(attr) {
                Ok(expr) => FieldInfoView { required: false, default: Some(expr), ..info },
                Err(_) => FieldInfoView { required: true, default: None, ..info },
            }
        } else {
            info
        },
    }
}

/// What there is to report of one attribute.
pub open spec fn complaint(attr: AnnotationView) -> Option<Message> {
    match attr.ident {
        None => Some(Message::ExpectedIdent),
        Some(name) => if name == PROP_OR_DEFAULT@ {
            None
        } else if name == PROP_DESCRIPTION@ {
            match attribute_description(attr) {
                Ok(_) => None,
                Err(message) => Some(message),
            }
        } else if name == PROP_OR@ {
            match attribute_default(attr) {
                Ok(_) => None,
                Err(message) => Some(message),
            }
        } else {
            None
        },
    }
}

/// What is known of a field after its attributes, read in the order written.
pub open spec fn scan(attrs: Seq<AnnotationView>) -> FieldInfoView
    decreases attrs.len(),
{
    if attrs.len() == 0 {
        initial_info()
    } else {
        apply(scan(attrs.drop_last()), attrs.last())
    }
}

/// What is reported of the attributes of the field at position `field`, in
/// the order of the attributes.
pub open spec fn complaints(field: usize, attrs: Seq<AnnotationView>) -> Seq<Diagnostic>
    decreases attrs.len(),
{
    if attrs.len() == 0 {
        Seq::empty()
    } else {
        let before = complaints(field, attrs.drop_last());
        match complaint(attrs.last()) {
            Some(message) => before.push(
                Diagnostic { field, attribute: (attrs.len() - 1) as usize, message },
            ),
            None => before,
        }
    }
}

/// Whatever the attributes are, the field that they give is required exactly
/// when it has no default.
pub proof fn lemma_scan_well_formed(attrs: Seq<AnnotationView>)
    ensures
        scan(attrs).well_formed(),
    decreases attrs.len(),
{
    if attrs.len() > 0 {
        lemma_scan_well_formed(attrs.drop_last());
    }
}

/// Reads the default that a `prop_or` attribute gives.
fn read_default(attr: &Annotation) -> (r: Result<String, Message>)
    ensures
        text_result(r) == attribute_default(attr@),
{
    match &attr.meta {
        Some(meta) => get_prop(meta),
        None => match &attr.group {
            Some(expr) => Ok(expr.clone()),
            None => Err(Message::ExpectedOneArgument),
        },
    }
}

/// Reads the description that a `prop_description` attribute gives.
fn read_description(attr: &Annotation) -> (r: Result<String, Message>)
    ensures
        text_result(r) == attribute_description(attr@),
{
    match &attr.meta {
        Some(meta) => get_prop_description(meta),
        None => match &attr.group {
            Some(_) => Err(Message::ExpectedStringLiteral),
            None => Err(Message::ExpectedOneArgument),
        },
    }
}

/// Reads the attributes of the field at position `index` in the order
/// written, and appends to `diagnostics` what there is to report of them.
pub fn get_field_info(
    item: &FieldDecl,
    index: usize,
    diagnostics: &mut Vec<Diagnostic>,
) -> (info: FieldInfo)
    ensures
        info@ == scan(item@.attrs),
        info@.well_formed(),
        final(diagnostics)@ == old(diagnostics)@ + complaints(index, item@.attrs),
{
    let mut info = FieldInfo { required: true, default: None, description: None };
    let mut i: usize = 0;
    assert(item@.attrs.take(0) =~= Seq::empty());
    while i < item.attrs.len()
        invariant
            i <= item.attrs.len(),
            info@ == scan(item@.attrs.take(i as int)),
            info@.well_formed(),
            diagnostics@ == old(diagnostics)@ + complaints(index, item@.attrs.take(i as int)),
        decreases item.attrs.len() - i,
    {
        let attr = &item.attrs[i];
        proof {
            let seen = item@.attrs.take(i + 1);
            assert(seen.drop_last() =~= item@.attrs.take(i as int));
            assert(seen.last() == attr@);
        }
        match &attr.ident {
            None => {
                diagnostics.push(
                    Diagnostic { field: index, attribute: i, message: Message::ExpectedIdent },
                );
            },
            Some(name) => {
                if same_text(name, PROP_OR_DEFAULT) {
                    info.required = false;
                    info.default = Some(String::from_str(DEFAULT_EXPR));
                } else if same_text(name, PROP_DESCRIPTION) {
                    match read_description(attr) {
                        Ok(text) => {
                            info.description = Some(text);
                        },
                        Err(message) => {
                            info.description = None;
                            diagnostics.push(Diagnostic { field: index, attribute: i, message });
                        },
                    }
                } else if same_text(name, PROP_OR) {
                    match read_default(attr) {
                        Ok(expr) => {
                            info.required = false;
                            info.default = Some(expr);
                        },
                        Err(message) => {
                            info.required = true;
                            info.default = None;
                            diagnostics.push(Diagnostic { field: index, attribute: i, message });
                        },
                    }
                }
            },
        }
        i += 1;
    }
    assert(item@.attrs.take(i as int) =~= item@.attrs);
    info
}

} // verus!

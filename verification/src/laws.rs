//! What holds of every declaration.
//!
//! Attributes are read in the order written and a later one overrides an
//! earlier one, so each statement about one attribute is made of the last
//! attribute of its kind.

use vstd::prelude::*;
use crate::diagnostic::{DeriveErrorView, Message};
use crate::extract::{
    attribute_default, attribute_description, lemma_scan_well_formed, type_text, DEFAULT_EXPR,
    PROP_DESCRIPTION, PROP_OR, PROP_OR_DEFAULT,
};
use crate::generate::{descriptor, expansion, field_descriptor, impl_code, named_fields};
use crate::syntax::{
    AnnotationView, ArgumentView, DeclarationView, FieldDeclView, MetaItemView, TypeExprView,
    TypeKind,
};

verus! {

/// Whether an attribute is one of the two that say how a field gets its
/// default.
pub open spec fn names_default(attr: AnnotationView) -> bool {
    attr.ident == Some(PROP_OR_DEFAULT@) || attr.ident == Some(PROP_OR@)
}

/// Whether an attribute is the one that gives a field its description.
pub open spec fn names_description(attr: AnnotationView) -> bool {
    attr.ident == Some(PROP_DESCRIPTION@)
}

/// Whether the attribute at position `k` is the last that says how the field
/// gets its default.
pub open spec fn last_default(attrs: Seq<AnnotationView>, k: int) -> bool {
    &&& 0 <= k < attrs.len()
    &&& names_default(attrs[k])
    &&& forall|j: int| k < j < attrs.len() ==> !names_default(#[trigger] attrs[j])
}

/// Whether the attribute at position `k` is the last that gives the field a
/// description.
pub open spec fn last_description(attrs: Seq<AnnotationView>, k: int) -> bool {
    &&& 0 <= k < attrs.len()
    &&& names_description(attrs[k])
    &&& forall|j: int| k < j < attrs.len() ==> !names_description(#[trigger] attrs[j])
}

/// The three names are distinct.
pub proof fn lemma_names_differ()
    ensures
        PROP_OR_DEFAULT@ != PROP_OR@,
        PROP_OR_DEFAULT@ != PROP_DESCRIPTION@,
        PROP_OR@ != PROP_DESCRIPTION@,
{
    reveal_strlit("prop_or_default");
    reveal_strlit("prop_or");
    reveal_strlit("prop_description");
    assert(PROP_OR_DEFAULT@.len() == 15);
    assert(PROP_OR@.len() == 7);
    assert(PROP_DESCRIPTION@.len() == 16);
}

/// A struct with named fields is described, by one entry per field in
/// declaration order: entry `i` is the descriptor of field `i` and bears its
/// name. Any other declaration is refused.
pub proof fn law_one_entry_per_field(input: DeclarationView, module: Seq<char>)
    ensures
        descriptor(input, module) is Ok <==> named_fields(input) is Ok,
        named_fields(input) matches Ok(fields) ==> {
            let info = descriptor(input, module)->Ok_0;
            &&& info.ty == input.ident
            &&& info.module == module
            &&& info.fields.len() == fields.len()
            &&& forall|i: int|
                0 <= i < fields.len() ==> #[trigger] info.fields[i] == field_descriptor(fields[i])
                    && info.fields[i].name == fields[i].name
        },
{
}

/// A field is required exactly when it has no default, whatever its
/// attributes are.
pub proof fn law_required_iff_no_default(field: FieldDeclView)
    ensures
        field_descriptor(field).well_formed(),
{
    lemma_scan_well_formed(field.attrs);
}

/// A field none of whose attributes is `prop_or_default` or `prop_or` is
/// required and has no default.
pub proof fn law_no_default_annotation(field: FieldDeclView)
    requires
        forall|i: int| 0 <= i < field.attrs.len() ==> !names_default(#[trigger] field.attrs[i]),
    ensures
        field_descriptor(field).required,
        field_descriptor(field).default is None,
    decreases field.attrs.len(),
{
    let attrs = field.attrs;
    if attrs.len() > 0 {
        let before = attrs.drop_last();
        assert forall|i: int| 0 <= i < before.len() implies !names_default(
            #[trigger] before[i],
        ) by {
            assert(before[i] == attrs[i]);
        }
        law_no_default_annotation(FieldDeclView { attrs: before, ..field });
        assert(!names_default(attrs[attrs.len() - 1]));
    }
}

/// Where the last of a field's defaulting attributes is `prop_or_default`,
/// the field is not required and its default is `Default::default`. The
/// field's type plays no part.
pub proof fn law_default_marker(field: FieldDeclView, k: int)
    requires
        last_default(field.attrs, k),
        field.attrs[k].ident == Some(PROP_OR_DEFAULT@),
    ensures
        !field_descriptor(field).required,
        field_descriptor(field).default == Some(DEFAULT_EXPR@),
    decreases field.attrs.len(),
{
    let attrs = field.attrs;
    let before = attrs.drop_last();
    if k < attrs.len() - 1 {
        assert(!names_default(attrs[attrs.len() - 1]));
        assert forall|j: int| k < j < before.len() implies !names_default(
            #[trigger] before[j],
        ) by {
            assert(before[j] == attrs[j]);
        }
        assert(before[k] == attrs[k]);
        law_default_marker(FieldDeclView { attrs: before, ..field }, k);
    }
}

/// A `prop_or` with one argument gives the tokens of that argument; one whose
/// content has no structure gives what stands in its one parenthesized group.
pub proof fn law_default_is_the_argument(attr: AnnotationView, arg: ArgumentView)
    ensures
        attr.meta == Some(MetaItemView::List(seq![arg])) ==> attribute_default(attr) == Ok::<
            Seq<char>,
            Message,
        >(arg.tokens),
        attr.meta is None && attr.group is Some ==> attribute_default(attr) == Ok::<
            Seq<char>,
            Message,
        >(attr.group->Some_0),
{
}

/// Where the last of a field's defaulting attributes is a `prop_or` that
/// gives the expression `expr`, the field is not required and its default is
/// `expr`, character for character.
pub proof fn law_explicit_default(field: FieldDeclView, k: int, expr: Seq<char>)
    requires
        last_default(field.attrs, k),
        field.attrs[k].ident == Some(PROP_OR@),
        attribute_default(field.attrs[k]) == Ok::<Seq<char>, Message>(expr),
    ensures
        !field_descriptor(field).required,
        field_descriptor(field).default == Some(expr),
    decreases field.attrs.len(),
{
    lemma_names_differ();
    let attrs = field.attrs;
    let before = attrs.drop_last();
    if k < attrs.len() - 1 {
        assert(!names_default(attrs[attrs.len() - 1]));
        assert forall|j: int| k < j < before.len() implies !names_default(
            #[trigger] before[j],
        ) by {
            assert(before[j] == attrs[j]);
        }
        assert(before[k] == attrs[k]);
        law_explicit_default(FieldDeclView { attrs: before, ..field }, k, expr);
    }
}

/// A `prop_description` whose one argument is a string literal gives the
/// value of that literal.
pub proof fn law_description_is_the_literal(
    attr: AnnotationView,
    arg: ArgumentView,
    text: Seq<char>,
)
    requires
        attr.meta == Some(MetaItemView::List(seq![arg])),
        arg.str_value == Some(text),
    ensures
        attribute_description(attr) == Ok::<Seq<char>, Message>(text),
{
}

/// Where the last `prop_description` of a field gives the text `text`, the
/// field's description is `text`, character for character.
pub proof fn law_description(field: FieldDeclView, k: int, text: Seq<char>)
    requires
        last_description(field.attrs, k),
        attribute_description(field.attrs[k]) == Ok::<Seq<char>, Message>(text),
    ensures
        field_descriptor(field).description == Some(text),
    decreases field.attrs.len(),
{
    lemma_names_differ();
    let attrs = field.attrs;
    let before = attrs.drop_last();
    if k < attrs.len() - 1 {
        assert(!names_description(attrs[attrs.len() - 1]));
        assert forall|j: int| k < j < before.len() implies !names_description(
            #[trigger] before[j],
        ) by {
            assert(before[j] == attrs[j]);
        }
        assert(before[k] == attrs[k]);
        law_description(FieldDeclView { attrs: before, ..field }, k, text);
    }
}

/// A field without a `prop_description` has no description.
pub proof fn law_no_description(field: FieldDeclView)
    requires
        forall|i: int|
            0 <= i < field.attrs.len() ==> !names_description(#[trigger] field.attrs[i]),
    ensures
        field_descriptor(field).description is None,
    decreases field.attrs.len(),
{
    let attrs = field.attrs;
    if attrs.len() > 0 {
        let before = attrs.drop_last();
        assert forall|i: int| 0 <= i < before.len() implies !names_description(
            #[trigger] before[i],
        ) by {
            assert(before[i] == attrs[i]);
        }
        law_no_description(FieldDeclView { attrs: before, ..field });
        assert(!names_description(attrs[attrs.len() - 1]));
    }
}

/// A type of a known form renders as its tokens, so two such types render
/// alike exactly when they are written alike.
pub proof fn law_type_rendering(a: TypeExprView, b: TypeExprView)
    requires
        a.kind != TypeKind::Other,
        b.kind != TypeKind::Other,
    ensures
        type_text(a) == a.tokens,
        type_text(a) == type_text(b) <==> a.tokens == b.tokens,
{
}

/// The source written for a declaration is the one written from its
/// descriptor, and a declaration has source written exactly when it can be
/// described.
pub proof fn law_source_follows_descriptor(input: DeclarationView, module: Seq<char>)
    ensures
        match descriptor(input, module) {
            Ok(info) => expansion(input) == Ok::<Seq<char>, DeriveErrorView>(
                impl_code(info.ty, info.fields),
            ),
            Err(e) => expansion(input) == Err::<Seq<char>, DeriveErrorView>(e),
        },
{
}

} // verus!

//! From a declaration to its descriptor, and to the source of the impl that
//! returns the descriptor.

use vstd::prelude::*;
use vstd::string::StringExecFns;
use crate::descriptor::{
    text_opt, PropertiesBuf, PropertiesInfoView, PropertyBuf, PropertyRefView,
};
use crate::diagnostic::{DeriveError, DeriveErrorView, Diagnostic};
use crate::extract::{
    complaints, get_field_info, get_field_type, lemma_scan_well_formed, scan, type_text,
};
use crate::syntax::{
    Declaration, DeclarationView, FieldDecl, FieldDeclView, Shape, ShapeView,
};
use crate::tokens::{print_string_literal, string_literal};

verus! {

/// The descriptor of one field: its name, its type as rendered, and what its
/// attributes give.
pub open spec fn field_descriptor(field: FieldDeclView) -> PropertyRefView {
    let info = scan(field.attrs);
    PropertyRefView {
        name: field.name,
        ty: type_text(field.ty),
        required: info.required,
        default: info.default,
        description: info.description,
    }
}

/// The descriptors of the fields, in declaration order.
pub open spec fn field_descriptors(fields: Seq<FieldDeclView>) -> Seq<PropertyRefView> {
    fields.map_values(|f: FieldDeclView| field_descriptor(f))
}

/// What is reported of the fields, field by field in declaration order.
pub open spec fn field_complaints(fields: Seq<FieldDeclView>) -> Seq<Diagnostic>
    decreases fields.len(),
{
    if fields.len() == 0 {
        Seq::empty()
    } else {
        field_complaints(fields.drop_last()) + complaints(
            (fields.len() - 1) as usize,
            fields.last().attrs,
        )
    }
}

/// The named fields of a declaration, or why it has none to describe.
pub open spec fn named_fields(input: DeclarationView) -> Result<Seq<FieldDeclView>, DeriveErrorView> {
    match input.data {
        ShapeView::Named(fields) => Ok(fields),
        ShapeView::Unnamed | ShapeView::Unit => Err(DeriveErrorView::NotNamed),
        ShapeView::Enum | ShapeView::Union => Err(DeriveErrorView::NotStruct),
    }
}

/// The descriptor of a declaration that stands in the module `module`.
pub open spec fn descriptor(input: DeclarationView, module: Seq<char>) -> Result<
    PropertiesInfoView,
    DeriveErrorView,
> {
    match named_fields(input) {
        Ok(fields) => Ok(
            PropertiesInfoView { ty: input.ident, module, fields: field_descriptors(fields) },
        ),
        Err(e) => Err(e),
    }
}

/// What is reported of a declaration: nothing where it cannot be described.
pub open spec fn reported(input: DeclarationView) -> Seq<Diagnostic> {
    match named_fields(input) {
        Ok(fields) => field_complaints(fields),
        Err(_) => Seq::empty(),
    }
}

/// Describes the field at position `index`, and appends to `diagnostics` what
/// there is to report of its attributes.
pub fn describe_field(
    item: &FieldDecl,
    index: usize,
    diagnostics: &mut Vec<Diagnostic>,
) -> (r: PropertyBuf)
    ensures
        r@ == field_descriptor(item@),
        r@.well_formed(),
        final(diagnostics)@ == old(diagnostics)@ + complaints(index, item@.attrs),
{
    let ty = get_field_type(&item.ty);
    let info = get_field_info(item, index, diagnostics);
    PropertyBuf {
        name: item.name.clone(),
        ty,
        required: info.required,
        default: info.default,
        description: info.description,
    }
}

/// Describes the fields in declaration order.
pub fn describe_fields(
    fields: &Vec<FieldDecl>,
    diagnostics: &mut Vec<Diagnostic>,
) -> (r: Vec<PropertyBuf>)
    ensures
        r@.map_values(|p: PropertyBuf| p@) == field_descriptors(
            fields@.map_values(|f: FieldDecl| f@),
        ),
        final(diagnostics)@ == old(diagnostics)@ + field_complaints(
            fields@.map_values(|f: FieldDecl| f@),
        ),
{
    let ghost all = fields@.map_values(|f: FieldDecl| f@);
    let mut out: Vec<PropertyBuf> = Vec::new();
    let mut i: usize = 0;
    assert(all.take(0) =~= Seq::empty());
    while i < fields.len()
        invariant
            i <= fields.len(),
            all == fields@.map_values(|f: FieldDecl| f@),
            out@.map_values(|p: PropertyBuf| p@) == field_descriptors(all.take(i as int)),
            diagnostics@ == old(diagnostics)@ + field_complaints(all.take(i as int)),
        decreases fields.len() - i,
    {
        let ghost before = out@.map_values(|p: PropertyBuf| p@);
        let described = describe_field(&fields[i], i, diagnostics);
        out.push(described);
        proof {
            let seen = all.take(i + 1);
            assert(seen.drop_last() =~= all.take(i as int));
            assert(seen.last() == fields[i as int]@);
            assert(out@.map_values(|p: PropertyBuf| p@) =~= before.push(described@));
            assert(field_descriptors(seen) =~= field_descriptors(all.take(i as int)).push(
                field_descriptor(seen.last()),
            ));
        }
        i += 1;
    }
    assert(all.take(i as int) =~= all);
    out
}

/// Describes a declaration that stands in the module `module`, and appends to
/// `diagnostics` what there is to report of its attributes. Only a struct
/// with named fields can be described.
pub fn describe(
    input: &Declaration,
    module: &str,
    diagnostics: &mut Vec<Diagnostic>,
) -> (r: Result<PropertiesBuf, DeriveError>)
    ensures
        match r {
            Ok(info) => descriptor(input@, module@) == Ok::<PropertiesInfoView, DeriveErrorView>(
                info@,
            ) && info@.well_formed(),
            Err(e) => descriptor(input@, module@) == Err::<PropertiesInfoView, DeriveErrorView>(
                e@,
            ),
        },
        final(diagnostics)@ == old(diagnostics)@ + reported(input@),
{
    match &input.data {
        Shape::Named(fields) => {
            let described = describe_fields(fields, diagnostics);
            let info = PropertiesBuf {
                ty: input.ident.clone(),
                module: String::from_str(module),
                fields: described,
            };
            proof {
                let all = fields@.map_values(|f: FieldDecl| f@);
                assert forall|i: int| 0 <= i < info@.fields.len() implies (
                #[trigger] info@.fields[i]).well_formed() by {
                    assert(info@.fields[i] == field_descriptor(all[i]));
                    lemma_scan_well_formed(all[i].attrs);
                }
            }
            Ok(info)
        },
        Shape::Unnamed => Err(DeriveError::NotNamed),
        Shape::Unit => Err(DeriveError::NotNamed),
        Shape::Enum => Err(DeriveError::NotStruct),
        Shape::Union => Err(DeriveError::NotStruct),
    }
}

/// The expression for the identifier `ident` as a text.
pub open spec fn name_code(ident: Seq<char>) -> Seq<char> {
    "stringify!("@ + ident + ")"@
}

/// The expression for an optional text.
pub open spec fn optional_code(text: Option<Seq<char>>) -> Seq<char> {
    match text {
        Some(t) => "::core::option::Option::Some("@ + string_literal(t) + ")"@,
        None => "::core::option::Option::None"@,
    }
}

/// The literal `true` or `false`.
pub open spec fn bool_code(b: bool) -> Seq<char> {
    if b {
        "true"@
    } else {
        "false"@
    }
}

/// The expression for one field's descriptor, with the comma that follows it
/// in the list of fields.
pub open spec fn field_code(field: PropertyRefView) -> Seq<char> {
    "::yew_property_info::PropertyRef { ty: "@ + string_literal(field.ty) + ", name: "@
        + name_code(field.name) + ", required: "@ + bool_code(field.required) + ", default: "@
        + optional_code(field.default) + ", description: "@ + optional_code(field.description)
        + " }, "@
}

/// The expressions for the fields' descriptors, in order.
pub open spec fn fields_code(fields: Seq<PropertyRefView>) -> Seq<char>
    decreases fields.len(),
{
    if fields.len() == 0 {
        Seq::empty()
    } else {
        fields_code(fields.drop_last()) + field_code(fields.last())
    }
}

/// The source of the two impls for the struct `ident` with the fields
/// `fields`: the impl of `HasPropertyInfo`, whose `property_info` hands out
/// the descriptor as static data, with the module path of the place where
/// the source stands, and an inherent `property_info` that forwards to it.
pub open spec fn impl_code(ident: Seq<char>, fields: Seq<PropertyRefView>) -> Seq<char> {
    "impl ::yew_property_info::HasPropertyInfo for "@ + ident
        + " { fn property_info() -> ::yew_property_info::PropertiesInfo { ::yew_property_info::PropertiesInfo { ty: "@
        + name_code(ident) + ", module: ::core::module_path!(), fields: &["@ + fields_code(fields)
        + "] } } } impl "@ + ident
        + " { pub fn property_info() -> ::yew_property_info::PropertiesInfo { <"@ + ident
        + " as ::yew_property_info::HasPropertyInfo>::property_info() } }"@
}

/// The source that is written for a declaration.
pub open spec fn expansion(input: DeclarationView) -> Result<Seq<char>, DeriveErrorView> {
    match named_fields(input) {
        Ok(fields) => Ok(impl_code(input.ident, field_descriptors(fields))),
        Err(e) => Err(e),
    }
}

fn write_name(ident: &str) -> (r: String)
    ensures
        r@ == name_code(ident@),
{
    let mut code = String::from_str("stringify!(");
    code.append(ident);
    code.append(")");
    code
}

fn write_optional(text: &Option<String>) -> (r: String)
    ensures
        r@ == optional_code(text_opt(*text)),
{
    match text {
        Some(t) => {
            let mut code = String::from_str("::core::option::Option::Some(");
            let literal = print_string_literal(t.as_str());
            code.append(literal.as_str());
            code.append(")");
            code
        },
        None => String::from_str("::core::option::Option::None"),
    }
}

fn write_bool(b: bool) -> (r: &'static str)
    ensures
        r@ == bool_code(b),
{
    if b {
        "true"
    } else {
        "false"
    }
}

/// Writes the expression for one field's descriptor.
fn write_field(field: &PropertyBuf) -> (r: String)
    ensures
        r@ == field_code(field@),
{
    let ty = print_string_literal(field.ty.as_str());
    let name = write_name(field.name.as_str());
    let default = write_optional(&field.default);
    let description = write_optional(&field.description);
    let mut code = String::from_str("::yew_property_info::PropertyRef { ty: ");
    code.append(ty.as_str());
    code.append(", name: ");
    code.append(name.as_str());
    code.append(", required: ");
    code.append(write_bool(field.required));
    code.append(", default: ");
    code.append(default.as_str());
    code.append(", description: ");
    code.append(description.as_str());
    code.append(" }, ");
    code
}

/// Writes the source of the two impls for the struct `ident` with the fields
/// `fields`.
pub fn write_impl(ident: &str, fields: &Vec<PropertyBuf>) -> (r: String)
    ensures
        r@ == impl_code(ident@, fields@.map_values(|p: PropertyBuf| p@)),
{
    let ghost all = fields@.map_values(|p: PropertyBuf| p@);
    let mut list = String::new();
    let mut i: usize = 0;
    assert(all.take(0) =~= Seq::empty());
    while i < fields.len()
        invariant
            i <= fields.len(),
            all == fields@.map_values(|p: PropertyBuf| p@),
            list@ == fields_code(all.take(i as int)),
        decreases fields.len() - i,
    {
        let one = write_field(&fields[i]);
        proof {
            let seen = all.take(i + 1);
            assert(seen.drop_last() =~= all.take(i as int));
            assert(seen.last() == fields[i as int]@);
        }
        list.append(one.as_str());
        i += 1;
    }
    assert(all.take(i as int) =~= all);
    let name = write_name(ident);
    let mut code = String::from_str("impl ::yew_property_info::HasPropertyInfo for ");
    code.append(ident);
    code.append(
        " { fn property_info() -> ::yew_property_info::PropertiesInfo { ::yew_property_info::PropertiesInfo { ty: ",
    );
    code.append(name.as_str());
    code.append(", module: ::core::module_path!(), fields: &[");
    code.append(list.as_str());
    code.append("] } } } impl ");
    code.append(ident);
    code.append(" { pub fn property_info() -> ::yew_property_info::PropertiesInfo { <");
    code.append(ident);
    code.append(" as ::yew_property_info::HasPropertyInfo>::property_info() } }");
    code
}

/// The view of a source text or of the error given in its place.
pub open spec fn code_result(r: Result<String, DeriveError>) -> Result<Seq<char>, DeriveErrorView> {
    match r {
        Ok(code) => Ok(code@),
        Err(e) => Err(e@),
    }
}

/// Writes the source of the impls for a declaration, and appends to
/// `diagnostics` what there is to report of its attributes. Only a struct
/// with named fields has impls written for it.
pub fn expand(
    input: &Declaration,
    diagnostics: &mut Vec<Diagnostic>,
) -> (r: Result<String, DeriveError>)
    ensures
        code_result(r) == expansion(input@),
        final(diagnostics)@ == old(diagnostics)@ + reported(input@),
{
    match &input.data {
        Shape::Named(fields) => {
            let described = describe_fields(fields, diagnostics);
            Ok(write_impl(input.ident.as_str(), &described))
        },
        Shape::Unnamed => Err(DeriveError::NotNamed),
        Shape::Unit => Err(DeriveError::NotNamed),
        Shape::Enum => Err(DeriveError::NotStruct),
        Shape::Union => Err(DeriveError::NotStruct),
    }
}

} // verus!

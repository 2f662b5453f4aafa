//! Field metadata for component property structs.
//!
//! A struct whose fields carry the defaulting annotations `prop_or_default`
//! and `prop_or(..)`, and optionally `prop_description("..")`, is described by
//! a [`PropertiesInfo`]: one [`PropertyRef`] per field, in declaration order.
//! This crate computes that descriptor from the declaration, as a
//! [`PropertiesBuf`], and writes the source of the `HasPropertyInfo` impl
//! that hands it out as static data.
//!
//! - [`descriptor`] holds the descriptor and the trait that hands it out;
//! - [`syntax`] is the declaration as this crate sees it;
//! - [`extract`] reads one field's type and attributes;
//! - [`generate`] describes a whole declaration and writes the impl;
//! - [`diagnostic`] holds what is reported and what is refused;
//! - [`reader`] parses a declaration from source text;
//! - [`tokens`] and [`text`] are what the others need of texts;
//! - [`laws`] states what holds of every declaration.

use vstd::prelude::*;

pub mod descriptor;
pub mod diagnostic;
pub mod extract;
pub mod generate;
pub mod laws;
pub mod reader;
pub mod syntax;
pub mod text;
pub mod tokens;

pub use descriptor::{
    HasPropertyInfo, PropertiesBuf, PropertiesInfo, PropertyBuf, PropertyRef,
};
pub use diagnostic::{DeriveError, Diagnostic, Message};
pub use extract::{get_field_info, get_field_type, get_prop, get_prop_description, FieldInfo};
pub use generate::{describe, expand, write_impl};
pub use reader::read;
pub use syntax::{
    Annotation, Argument, Declaration, FieldDecl, MetaItem, Shape, TypeExpr, TypeKind,
};

use diagnostic::DeriveErrorView;
use generate::{code_result, expansion, reported};
use reader::{declared, is_declaration, refusal};

verus! {

/// Writes, for the declaration that `text` holds, the source of the impls
/// that describe it, and appends to `diagnostics` what there is to report of
/// the attributes.
///
/// A text that the parser takes gives what [`expand`] gives for the
/// declaration found in it. A text that the parser does not take is refused
/// with the parser's words, and nothing is reported.
pub fn derive(text: &str, diagnostics: &mut Vec<Diagnostic>) -> (r: Result<String, DeriveError>)
    ensures
        is_declaration(text@) ==> {
            &&& code_result(r) == expansion(declared(text@))
            &&& final(diagnostics)@ == old(diagnostics)@ + reported(declared(text@))
        },
        !is_declaration(text@) ==> {
            &&& code_result(r) == Err::<Seq<char>, DeriveErrorView>(
                DeriveErrorView::Syntax(refusal(text@)),
            )
            &&& final(diagnostics)@ == old(diagnostics)@
        },
{
    match reader::read(text) {
        Ok(input) => expand(&input, diagnostics),
        Err(error) => Err(error),
    }
}

} // verus!

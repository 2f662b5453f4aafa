//! What is reported while a declaration is described.

use vstd::prelude::*;
use vstd::string::StringExecFns;

verus! {

/// What is wrong with an attribute.
#[derive(Debug, PartialEq, Eq, Clone, Copy, Structural)]
pub enum Message {
    /// The attribute's path is not a single identifier.
    ExpectedIdent,
    /// The attribute is not a list of exactly one argument.
    ExpectedOneArgument,
    /// The argument is not a string literal.
    ExpectedStringLiteral,
}

impl Message {
    /// The wording of the message.
    pub open spec fn spec_text(self) -> Seq<char> {
        match self {
            Message::ExpectedIdent => "Expected An Ident"@,
            Message::ExpectedOneArgument => "Expected exactly one argument"@,
            Message::ExpectedStringLiteral => "Expected A String literal"@,
        }
    }

    /// The wording of the message.
    pub fn text(&self) -> (r: &'static str)
        ensures
            r@ == self.spec_text(),
    {
        match self {
            Message::ExpectedIdent => "Expected An Ident",
            Message::ExpectedOneArgument => "Expected exactly one argument",
            Message::ExpectedStringLiteral => "Expected A String literal",
        }
    }
}

/// A message about one attribute of one field. Reporting one never stops the
/// work: the field is described with what could be read.
#[derive(Debug, PartialEq, Eq, Clone, Copy, Structural)]
pub struct Diagnostic {
    /// The position of the field in the declaration.
    pub field: usize,
    /// The position of the attribute among the field's attributes.
    pub attribute: usize,
    pub message: Message,
}

/// Why a declaration cannot be described.
#[derive(Debug, PartialEq, Eq, Clone)]
pub enum DeriveError {
    /// The declaration is an enum or a union.
    NotStruct,
    /// The declaration is a struct without named fields.
    NotNamed,
    /// The text is no declaration; the parser's words are kept.
    Syntax(String),
}

/// The view of [`DeriveError`]: its texts as sequences of characters.
pub ghost enum DeriveErrorView {
    NotStruct,
    NotNamed,
    Syntax(Seq<char>),
}

impl View for DeriveError {
    type V = DeriveErrorView;

    open spec fn view(&self) -> DeriveErrorView {
        match self {
            DeriveError::NotStruct => DeriveErrorView::NotStruct,
            DeriveError::NotNamed => DeriveErrorView::NotNamed,
            DeriveError::Syntax(words) => DeriveErrorView::Syntax(words@),
        }
    }
}

impl DeriveErrorView {
    /// The wording of the error.
    pub open spec fn text(self) -> Seq<char> {
        match self {
            DeriveErrorView::NotStruct => "works only on structs"@,
            DeriveErrorView::NotNamed => "works only on structs with named fields"@,
            DeriveErrorView::Syntax(words) => words,
        }
    }
}

impl DeriveError {
    /// The wording of the error.
    pub fn text(&self) -> (r: String)
        ensures
            r@ == self@.text(),
    {
        match self {
            DeriveError::NotStruct => String::from_str("works only on structs"),
            DeriveError::NotNamed => String::from_str("works only on structs with named fields"),
            DeriveError::Syntax(words) => words.clone(),
        }
    }
}

} // verus!

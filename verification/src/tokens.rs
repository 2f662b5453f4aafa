//! Token texts that only the token library can give.

use vstd::prelude::*;

verus! {

/// The tokens of the string literal whose value is `value`, as
/// `proc_macro2` prints them: the value between double quotes, with escapes
/// where the literal needs them.
pub uninterp spec fn string_literal(value: Seq<char>) -> Seq<char>;

/// `proc_macro2::Literal::string`, printed with its `Display` text. The
/// result is taken to depend on `value` alone; nothing else is claimed of it.
#[verifier::external_body]
pub(crate) fn print_string_literal(value: &str) -> (r: String)
    ensures
        r@ == string_literal(value@),
{
    proc_macro2::Literal::string(value).to_string()
}

} // verus!

//! Small operations on texts.

use vstd::prelude::*;
use vstd::string::StringExecFns;

verus! {

/// Whether a text holds exactly the characters of `word`.
pub fn same_text(text: &String, word: &str) -> (r: bool)
    ensures
        r == (text@ == word@),
{
    let other = String::from_str(word);
    *text == other
}

} // verus!

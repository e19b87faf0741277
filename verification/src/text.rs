//! Small operations on identifier texts.
use vstd::prelude::*;
use vstd::string::StrSliceExecFns;
use vstd::string::StringExecFns;

verus! {

/// The text of an identifier as a fragment of a formatted identifier: a raw
/// identifier loses its `r#` prefix.
pub open spec fn unraw(text: Seq<char>) -> Seq<char> {
    if text.len() >= 2 && text[0] == 'r' && text[1] == '#' {
        text.skip(2)
    } else {
        text
    }
}

/// Whether `text` reads `lit`.
pub fn text_is(text: &String, lit: &str) -> (r: bool)
    ensures
        r == (text@ == lit@),
{
    let other = lit.to_owned();
    *text == other
}

/// `a` followed by `b`.
pub fn join(a: &str, b: &str) -> (r: String)
    ensures
        r@ == a@ + b@,
{
    let mut r = a.to_owned();
    r.append(b);
    r
}

/// The identifier fragment of `text` (see [`unraw`]).
pub fn unraw_text(text: &str) -> (r: String)
    ensures
        r@ == unraw(text@),
{
    let n = text.unicode_len();
    if n >= 2 && text.get_char(0) == 'r' && text.get_char(1) == '#' {
        text.substring_char(2, n).to_owned()
    } else {
        text.to_owned()
    }
}

} // verus!

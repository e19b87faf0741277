//! Identifier case conversion, done by the `convert_case` crate, and the texts
//! on which it does not panic.
//!
//! `to_case` cuts the text at `-`, `_` and spaces into pieces, and each piece
//! into words at the boundaries between its characters. It finds those
//! boundaries by counting characters, but splits the piece at the counts taken
//! as byte offsets (and at the byte length less one for a boundary between the
//! last two characters). A split that falls inside a character of several
//! bytes panics; [`splits_cleanly`] is the text on which none does.
use convert_case::{Case, Casing};
use vstd::prelude::*;
use vstd::string::StrSliceExecFns;

verus! {

/// The cases that the generated C++ and Rust names use.
#[derive(Clone, Copy, Debug, PartialEq, Eq, Structural)]
pub enum IdentCase {
    /// `myName`
    Camel,
    /// `MyName`
    Pascal,
    /// `my_name`
    Snake,
}

/// The text that `convert_case` makes of `text` in the given case.
pub uninterp spec fn cased(text: Seq<char>, case: IdentCase) -> Seq<char>;

/// A word of a snake_case name: one or more ASCII lowercase letters.
pub open spec fn lower_word(w: Seq<char>) -> bool {
    w.len() > 0 && forall|i: int| 0 <= i < w.len() ==> 'a' <= #[trigger] w[i] <= 'z'
}

/// The words of a snake_case name: one or more lowercase words.
pub open spec fn snake_words(ws: Seq<Seq<char>>) -> bool {
    ws.len() > 0 && forall|i: int| 0 <= i < ws.len() ==> lower_word(#[trigger] ws[i])
}

/// The words joined by single underscores: `w1_w2_..._wn`.
pub open spec fn underscore_joined(ws: Seq<Seq<char>>) -> Seq<char>
    decreases ws.len(),
{
    if ws.len() == 0 {
        seq![]
    } else if ws.len() == 1 {
        ws[0]
    } else {
        underscore_joined(ws.drop_last()) + seq!['_'] + ws.last()
    }
}

/// The upper case of an ASCII lowercase letter.
pub open spec fn upper_ascii(c: char) -> char {
    ((c as int) - 32) as char
}

/// A word with its first letter in upper case.
pub open spec fn capitalized(w: Seq<char>) -> Seq<char> {
    seq![upper_ascii(w[0])] + w.skip(1)
}

/// The camel case of the words: the first as it is, each later one capitalized,
/// with nothing between them (`say_hello_world` gives `sayHelloWorld`).
pub open spec fn camel_words(ws: Seq<Seq<char>>) -> Seq<char>
    decreases ws.len(),
{
    if ws.len() <= 1 {
        if ws.len() == 1 {
            ws[0]
        } else {
            seq![]
        }
    } else {
        camel_words(ws.drop_last()) + capitalized(ws.last())
    }
}

/// The Pascal case of the words: each capitalized, with nothing between them
/// (`my_long_value` gives `MyLongValue`).
pub open spec fn pascal_words(ws: Seq<Seq<char>>) -> Seq<char>
    decreases ws.len(),
{
    if ws.len() == 0 {
        seq![]
    } else {
        pascal_words(ws.drop_last()) + capitalized(ws.last())
    }
}

/// The words in the given case; in snake case they stay joined by underscores.
pub open spec fn words_in_case(ws: Seq<Seq<char>>, case: IdentCase) -> Seq<char> {
    match case {
        IdentCase::Camel => camel_words(ws),
        IdentCase::Pascal => pascal_words(ws),
        IdentCase::Snake => underscore_joined(ws),
    }
}

/// What `convert_case` makes of a snake_case name of lowercase words in `case`
/// is those words in the case.
pub open spec fn words_cased(name: Seq<char>, case: IdentCase) -> bool {
    forall|ws: Seq<Seq<char>>|
        snake_words(ws) && #[trigger] underscore_joined(ws) == name ==> cased(name, case)
            == words_in_case(ws, case)
}

/// Whether `char::is_lowercase` holds of `c`.
pub uninterp spec fn lowercase(c: char) -> bool;

/// Whether `char::is_uppercase` holds of `c`.
pub uninterp spec fn uppercase(c: char) -> bool;

/// Calls `char::is_lowercase` (the Unicode property `Lowercase`); the contract
/// only names the result.
#[verifier::external_body]
fn char_is_lowercase(c: char) -> (r: bool)
    ensures
        r == lowercase(c),
{
    c.is_lowercase()
}

/// Calls `char::is_uppercase` (the Unicode property `Uppercase`); the contract
/// only names the result.
#[verifier::external_body]
fn char_is_uppercase(c: char) -> (r: bool)
    ensures
        r == uppercase(c),
{
    c.is_uppercase()
}

/// `char::is_ascii_digit`: `0` to `9`.
pub open spec fn ascii_digit(c: char) -> bool {
    '0' <= c <= '9'
}

/// `char::is_ascii_punctuation`: the printable ASCII characters that are not
/// letters, digits or space.
pub open spec fn ascii_punctuation(c: char) -> bool {
    ||| '!' <= c <= '/'
    ||| ':' <= c <= '@'
    ||| '[' <= c <= '`'
    ||| '{' <= c <= '~'
}

/// A word boundary between `f` and `s`: lower to upper case, digit to
/// non-digit, or non-digit to digit (punctuation on either side excluded).
pub open spec fn two_char_boundary(f: char, s: char) -> bool {
    ||| lowercase(f) && uppercase(s)
    ||| ascii_digit(f) && !(ascii_digit(s) || ascii_punctuation(s))
    ||| !(ascii_digit(f) || ascii_punctuation(f)) && ascii_digit(s)
}

/// A word boundary between `f` and `s` when `t` follows: the end of an acronym
/// (`IOStream`), or a boundary between `f` and `s`.
pub open spec fn three_char_boundary(f: char, s: char, t: char) -> bool {
    ||| uppercase(f) && uppercase(s) && lowercase(t)
    ||| two_char_boundary(f, s)
}

/// The number of bytes of `c` in UTF-8.
pub open spec fn utf8_len(c: char) -> nat {
    if (c as u32) < 0x80 {
        1
    } else if (c as u32) < 0x800 {
        2
    } else if (c as u32) < 0x10000 {
        3
    } else {
        4
    }
}

/// The number of bytes of the first `p` characters of `w` in UTF-8.
pub open spec fn prefix_bytes(w: Seq<char>, p: int) -> nat
    decreases p,
{
    if p <= 0 {
        0
    } else {
        prefix_bytes(w, p - 1) + utf8_len(w[p - 1])
    }
}

/// The byte offset `x` in `w` falls between two characters (or at an end).
pub open spec fn is_char_boundary(w: Seq<char>, x: int) -> bool {
    exists|p: int| 0 <= p <= w.len() && #[trigger] prefix_bytes(w, p) == x
}

/// Every split of the piece `w` falls between characters: for a boundary
/// before the character at `i + 1` the split is at byte `i + 1`, and for a
/// boundary between the last two characters at the byte length less one.
pub open spec fn piece_splits_cleanly(w: Seq<char>) -> bool {
    &&& forall|i: int|
        #![trigger w[i], w[i + 1], w[i + 2]]
        0 <= i && i + 2 < w.len() && three_char_boundary(w[i], w[i + 1], w[i + 2])
            ==> is_char_boundary(w, i + 1)
    &&& w.len() >= 2 && two_char_boundary(w[w.len() - 2], w[w.len() - 1]) ==> utf8_len(w.last())
        == 1
}

/// The characters at which `to_case` cuts a text into pieces.
pub open spec fn is_separator(c: char) -> bool {
    c == '-' || c == '_' || c == ' '
}

/// `text[a..b]` is a piece: it holds no separator, and a separator or an end
/// of the text stands on either side.
pub open spec fn is_piece(text: Seq<char>, a: int, b: int) -> bool {
    &&& 0 <= a <= b <= text.len()
    &&& a == 0 || is_separator(text[a - 1])
    &&& b == text.len() || is_separator(text[b])
    &&& forall|k: int| a <= k < b ==> !is_separator(#[trigger] text[k])
}

/// Text on which `to_case` does not panic: every piece splits cleanly.
pub open spec fn splits_cleanly(text: Seq<char>) -> bool {
    forall|a: int, b: int| #[trigger] is_piece(text, a, b) ==> piece_splits_cleanly(text.subrange(a, b))
}

/// Calls `Casing::to_case` of `convert_case` on `text`. The contract names the
/// result, which depends on the text and the case alone (`to_case` splits the
/// text into words and joins them again in the case), and states it for a
/// snake_case name of lowercase ASCII words: `to_case` splits such a name at
/// its underscores and nowhere else, and then, as its documentation says, camel
/// case keeps the first word and capitalizes each later one, Pascal case
/// capitalizes every word, both join the words with nothing between them, and
/// snake case joins them, lowercase, with underscores.
/// It admits the text on which the call does not panic (see the module).
#[verifier::external_body]
pub(crate) fn to_case(text: &str, case: IdentCase) -> (r: String)
    requires
        splits_cleanly(text@),
    ensures
        r@ == cased(text@, case),
        forall|ws: Seq<Seq<char>>|
            snake_words(ws) && #[trigger] underscore_joined(ws) == text@ ==> r@ == words_in_case(
                ws,
                case,
            ),
{
    let target = match case {
        IdentCase::Camel => Case::Camel,
        IdentCase::Pascal => Case::Pascal,
        IdentCase::Snake => Case::Snake,
    };
    text.to_case(target)
}

proof fn lemma_prefix_bytes_grow(w: Seq<char>, p: int, q: int)
    requires
        0 <= p < q,
    ensures
        prefix_bytes(w, p) + (q - p) <= prefix_bytes(w, q),
    decreases q - p,
{
    if p < q - 1 {
        lemma_prefix_bytes_grow(w, p, q - 1);
    }
}

/// The characters of `text`.
fn chars_of(text: &str) -> (r: Vec<char>)
    ensures
        r@ == text@,
{
    let n = text.unicode_len();
    let mut r: Vec<char> = Vec::new();
    for i in 0..n
        invariant
            n == text@.len(),
            r@ == text@.take(i as int),
    {
        r.push(text.get_char(i));
        proof {
            assert(r@ =~= text@.take(i + 1));
        }
    }
    proof {
        assert(text@.take(n as int) =~= text@);
    }
    r
}

fn is_ascii_digit(c: char) -> (r: bool)
    ensures
        r == ascii_digit(c),
{
    '0' <= c && c <= '9'
}

fn is_ascii_punctuation(c: char) -> (r: bool)
    ensures
        r == ascii_punctuation(c),
{
    ('!' <= c && c <= '/') || (':' <= c && c <= '@') || ('[' <= c && c <= '`') || ('{' <= c
        && c <= '~')
}

fn is_two_char_boundary(f: char, s: char) -> (r: bool)
    ensures
        r == two_char_boundary(f, s),
{
    (char_is_lowercase(f) && char_is_uppercase(s)) || (is_ascii_digit(f) && !(is_ascii_digit(s)
        || is_ascii_punctuation(s))) || (!(is_ascii_digit(f) || is_ascii_punctuation(f))
        && is_ascii_digit(s))
}

fn is_three_char_boundary(f: char, s: char, t: char) -> (r: bool)
    ensures
        r == three_char_boundary(f, s, t),
{
    (char_is_uppercase(f) && char_is_uppercase(s) && char_is_lowercase(t))
        || is_two_char_boundary(f, s)
}

fn char_utf8_len(c: char) -> (r: u128)
    ensures
        r == utf8_len(c),
{
    let v = c as u32;
    if v < 0x80 {
        1
    } else if v < 0x800 {
        2
    } else if v < 0x10000 {
        3
    } else {
        4
    }
}

/// Whether byte `x` falls between characters of the piece `chars[a..b]`.
fn boundary_at(chars: &Vec<char>, a: usize, b: usize, x: usize) -> (r: bool)
    requires
        a <= b <= chars@.len(),
    ensures
        r == is_char_boundary(chars@.subrange(a as int, b as int), x as int),
{
    let ghost w = chars@.subrange(a as int, b as int);
    let mut off: u128 = 0;
    let mut p: usize = 0;
    while p < b - a && off < x as u128
        invariant
            a <= b <= chars@.len(),
            w == chars@.subrange(a as int, b as int),
            p <= b - a,
            off == prefix_bytes(w, p as int),
            off <= x + 3,
            forall|q: int| 0 <= q < p ==> prefix_bytes(w, q) < x,
        decreases b - a - p,
    {
        off = off + char_utf8_len(chars[a + p]);
        p = p + 1;
    }
    if off == x as u128 {
        true
    } else {
        proof {
            assert forall|q: int| 0 <= q <= w.len() implies prefix_bytes(w, q) != x by {
                if q < p {
                } else if q > p {
                    lemma_prefix_bytes_grow(w, p as int, q);
                    if off < x {
                        // the loop stopped at the end of the piece
                        assert(p == w.len());
                    }
                }
            }
        }
        false
    }
}

/// Whether the piece `chars[a..b]` splits cleanly.
fn piece_splits(chars: &Vec<char>, a: usize, b: usize) -> (r: bool)
    requires
        a <= b <= chars@.len(),
    ensures
        r == piece_splits_cleanly(chars@.subrange(a as int, b as int)),
{
    let ghost w = chars@.subrange(a as int, b as int);
    let n = b - a;
    let mut i: usize = 0;
    while n >= 2 && i < n - 2
        invariant
            a <= b <= chars@.len(),
            n == b - a,
            i <= n,
            w == chars@.subrange(a as int, b as int),
            forall|j: int|
                #![trigger w[j], w[j + 1], w[j + 2]]
                0 <= j < i && j + 2 < w.len() && three_char_boundary(w[j], w[j + 1], w[j + 2])
                    ==> is_char_boundary(w, j + 1),
        decreases n - i,
    {
        if is_three_char_boundary(chars[a + i], chars[a + i + 1], chars[a + i + 2]) {
            if !boundary_at(chars, a, b, i + 1) {
                proof {
                    assert(w[i as int] == chars@[a + i]);
                    assert(w[i + 1] == chars@[a + i + 1]);
                    assert(w[i + 2] == chars@[a + i + 2]);
                }
                return false;
            }
        }
        i = i + 1;
    }
    if n >= 2 && is_two_char_boundary(chars[b - 2], chars[b - 1]) {
        char_utf8_len(chars[b - 1]) == 1
    } else {
        true
    }
}

/// Whether `to_case` splits `text` without panicking.
pub fn case_splits(text: &str) -> (r: bool)
    ensures
        r == splits_cleanly(text@),
{
    let chars = chars_of(text);
    let ghost t = text@;
    let n = chars.len();
    let mut start: usize = 0;
    let mut j: usize = 0;
    while j < n
        invariant
            n == t.len(),
            t == text@,
            chars@ == t,
            start <= j <= n,
            start == 0 || is_separator(t[start - 1]),
            forall|k: int| start <= k < j ==> !is_separator(#[trigger] t[k]),
            forall|a: int, b: int|
                #![trigger is_piece(t, a, b)]
                is_piece(t, a, b) && b < j ==> piece_splits_cleanly(t.subrange(a, b)),
        decreases n - j,
    {
        let c = chars[j];
        if c == '-' || c == '_' || c == ' ' {
            if !piece_splits(&chars, start, j) {
                proof {
                    assert(is_piece(t, start as int, j as int));
                }
                return false;
            }
            proof {
                assert forall|a: int, b: int|
                    #![trigger is_piece(t, a, b)]
                    is_piece(t, a, b) && b < j + 1 implies piece_splits_cleanly(t.subrange(a, b)) by {
                    if b == j {
                        if a < start {
                            assert(!is_separator(t[start - 1]));
                        } else if a > start {
                            assert(!is_separator(t[a - 1]));
                        }
                    }
                }
            }
            start = j + 1;
        }
        j = j + 1;
    }
    if !piece_splits(&chars, start, n) {
        proof {
            assert(is_piece(t, start as int, n as int));
        }
        return false;
    }
    proof {
        assert forall|a: int, b: int| #[trigger] is_piece(t, a, b) implies piece_splits_cleanly(
            t.subrange(a, b),
        ) by {
            if b == n {
                if a < start {
                    assert(!is_separator(t[start - 1]));
                } else if a > start {
                    assert(!is_separator(t[a - 1]));
                }
            }
        }
    }
    true
}

} // verus!

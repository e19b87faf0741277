//! The names that the extraction makes up for C++ and Rust.
use crate::casing::{IdentCase, cased, splits_cleanly, to_case, words_cased};
use crate::syntax::{Ident, Span};
use vstd::prelude::*;

verus! {

/// Describes an ident which has a different name in C++ and Rust
#[derive(Debug)]
pub struct CppRustIdent {
    /// The ident for C++
    pub cpp_ident: Ident,
    /// The ident for rust
    pub rust_ident: Ident,
}

/// `i` is an identifier made up at the call site with the text `text`.
pub open spec fn made_ident(i: Ident, text: Seq<char>) -> bool {
    i.name@ == text && i.span == Span::CallSite
}

/// The names of something named `name`: camel case in C++, snake case in Rust.
pub open spec fn cased_names(names: CppRustIdent, name: Seq<char>) -> bool {
    &&& made_ident(names.cpp_ident, cased(name, IdentCase::Camel))
    &&& made_ident(names.rust_ident, cased(name, IdentCase::Snake))
    &&& words_cased(name, IdentCase::Camel)
    &&& words_cased(name, IdentCase::Snake)
}

/// An identifier at the call site with the text `name`.
pub fn call_site_ident(name: String) -> (r: Ident)
    ensures
        r.name == name,
        r.span == Span::CallSite,
{
    Ident { name, span: Span::CallSite }
}

/// The names made of the C++ text `cpp` and the Rust text `rust`.
pub fn names_from(cpp: String, rust: String) -> (r: CppRustIdent)
    ensures
        made_ident(r.cpp_ident, cpp@),
        made_ident(r.rust_ident, rust@),
{
    CppRustIdent { cpp_ident: call_site_ident(cpp), rust_ident: call_site_ident(rust) }
}

/// The camel case and snake case names of `name`.
pub fn cased_names_of(name: &str) -> (r: CppRustIdent)
    requires
        splits_cleanly(name@),
    ensures
        cased_names(r, name@),
{
    names_from(to_case(name, IdentCase::Camel), to_case(name, IdentCase::Snake))
}

} // verus!

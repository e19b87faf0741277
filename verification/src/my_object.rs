//! The Rust side of the `MyObject` QObject as the generator emits it: the
//! object's Rust state, and the wrapper that gives it access to its C++ object.
use std::pin::Pin;
use vstd::prelude::*;

verus! {

/// Declares `std::pin::Pin` to Verus; its contents stay opaque.
#[verifier::external_type_specification]
#[verifier::external_body]
#[verifier::reject_recursive_types(Ptr)]
pub struct ExPin<Ptr>(Pin<Ptr>);

/// The C++ object of `MyObject`, only ever reached through a pinned reference.
pub struct MyObject {}

pub type CppObj = MyObject;

/// The Rust state of `MyObject`.
#[derive(Debug, PartialEq, Eq, Structural)]
pub struct MyObjectRs;

/// The Rust wrapper that reaches the C++ object.
pub struct MyObjectWrapper<'a> {
    pub cpp: Pin<&'a mut CppObj>,
}

impl<'a> MyObjectWrapper<'a> {
    /// Wraps the pinned C++ object.
    pub fn new(cpp: Pin<&'a mut CppObj>) -> (r: Self)
        ensures
            r.cpp == cpp,
    {
        Self { cpp }
    }
}

/// A new Rust state for `MyObject`, boxed for C++ to own.
pub fn create_my_object_rs() -> (r: Box<MyObjectRs>)
    ensures
        *r == MyObjectRs,
{
    Box::new(MyObjectRs {})
}

} // verus!

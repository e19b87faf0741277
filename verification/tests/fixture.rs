use cxx_qt_gen::my_object::{create_my_object_rs, MyObject, MyObjectRs, MyObjectWrapper};
use std::pin::Pin;

#[test]
fn wrapper_holds_the_cpp_object() {
    let mut object = MyObject {};
    let wrapper = MyObjectWrapper::new(Pin::new(&mut object));
    let inner: &MyObject = &wrapper.cpp;
    assert!(std::ptr::eq(inner, &*wrapper.cpp));
}

#[test]
fn creates_rust_state() {
    let state = create_my_object_rs();
    assert_eq!(*state, MyObjectRs);
}

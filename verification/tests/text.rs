use cxx_qt_gen::errors::{ErrorMessage, TypeContext, TypeProblem};
use cxx_qt_gen::naming::names_from;
use cxx_qt_gen::properties::property_from;
use cxx_qt_gen::syntax::{Ident, Span, SynType};
use cxx_qt_gen::text::{join, text_is, unraw_text};
use cxx_qt_gen::types::{ParameterType, QtTypes};

#[test]
fn join_concatenates() {
    assert_eq!(join("get", "Number"), "getNumber");
    assert_eq!(join("", "x"), "x");
}

#[test]
fn text_is_compares_whole_texts() {
    assert!(text_is(&"crate".to_string(), "crate"));
    assert!(!text_is(&"crates".to_string(), "crate"));
    assert!(!text_is(&"Crate".to_string(), "crate"));
}

#[test]
fn unraw_strips_the_raw_prefix() {
    assert_eq!(unraw_text("r#type"), "type");
    assert_eq!(unraw_text("rtype"), "rtype");
    assert_eq!(unraw_text("r#"), "");
    assert_eq!(unraw_text("MyObject"), "MyObject");
}

#[test]
fn error_message_texts() {
    assert_eq!(ErrorMessage::OnlyMethods.text(), "Only methods are supported.");
    assert_eq!(ErrorMessage::InvalidArgumentIdent.text(), "Invalid argument ident format.");
    assert_eq!(
        ErrorMessage::Type(TypeContext::Argument, TypeProblem::UnknownAndNotCrate).text(),
        "First argument type ident segment must start with 'crate' if there are multiple"
    );
    assert_eq!(
        ErrorMessage::Type(TypeContext::ReturnType, TypeProblem::UnknownPinType).text(),
        "Unknown return Pin<T> type ident to parse"
    );
    assert_eq!(
        ErrorMessage::Type(TypeContext::NamedField, TypeProblem::InvalidType).text(),
        "Invalid name field ident format."
    );
    assert_eq!(ErrorMessage::ImplBeforeStruct.text(), "Impl can only be declared after a struct.");
    assert_eq!(ErrorMessage::InvalidImplPath.text(), "Invalid path on impl block.");
    assert_eq!(ErrorMessage::ImplMismatch.text(), "The impl block needs to match the struct.");
    assert_eq!(ErrorMessage::UnsupportedItem.text(), "Unsupported item in mod.");
}

#[test]
fn names_from_cases() {
    let names = names_from("myNumber".to_string(), "my_number".to_string());
    assert_eq!(names.cpp_ident.name, "myNumber");
    assert_eq!(names.rust_ident.name, "my_number");
    assert_eq!(names.cpp_ident.span, Span::CallSite);
}

#[test]
fn property_from_cases() {
    let type_ident = ParameterType {
        idents: vec![Ident { name: "i32".to_string(), span: Span::Node(1) }],
        is_ref: false,
        original_ty: SynType::Other(Span::Node(2)),
        qt_type: QtTypes::I32,
    };
    let p = property_from(
        type_ident,
        "myNumber".to_string(),
        "my_number".to_string(),
        "MyNumber".to_string(),
    );
    assert_eq!(p.ident.cpp_ident.name, "myNumber");
    assert_eq!(p.getter.as_ref().unwrap().cpp_ident.name, "getMyNumber");
    assert_eq!(p.getter.as_ref().unwrap().rust_ident.name, "my_number");
    assert_eq!(p.setter.as_ref().unwrap().cpp_ident.name, "setMyNumber");
    assert_eq!(p.setter.as_ref().unwrap().rust_ident.name, "set_my_number");
    assert_eq!(p.notify.as_ref().unwrap().cpp_ident.name, "myNumberChanged");
    assert_eq!(p.notify.as_ref().unwrap().rust_ident.name, "my_number");
    assert_eq!(p.type_ident.idents[0].name, "i32");
}

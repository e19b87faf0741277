use cxx_qt_gen::casing::case_splits;
use cxx_qt_gen::errors::{CompileError, ErrorMessage, TypeContext, TypeProblem};
use cxx_qt_gen::invokables::{extract_invokables, try_extract_invokables};
use cxx_qt_gen::properties::{extract_properties, try_extract_properties};
use cxx_qt_gen::qobject::{extract_qobject, try_extract_qobject, QObject};
use cxx_qt_gen::syntax::{
    AngleBracketedArguments, Field, Fields, FnArg, GenericArgument, Ident, ImplItem,
    ImplItemMethod, Item, ItemImpl, ItemMod, ItemStruct, ItemUse, Pat, PatType, Path,
    PathArguments, PathSegment, Span, SynType, TypePath, TypeReference,
};
use cxx_qt_gen::types::{
    extract_qt_type, extract_type_ident, is_type_ident_ptr, path_to_idents,
    ExtractTypeIdentError, QtTypes,
};
use std::sync::atomic::{AtomicU64, Ordering};

static NEXT_NODE: AtomicU64 = AtomicU64::new(1);

/// A fresh node span.
fn node() -> Span {
    Span::Node(NEXT_NODE.fetch_add(1, Ordering::Relaxed))
}

fn ident(name: &str) -> Ident {
    Ident { name: name.to_string(), span: node() }
}

fn segment(name: &str) -> PathSegment {
    PathSegment { ident: ident(name), arguments: PathArguments::Bare, span: node() }
}

fn path(names: &[&str]) -> Path {
    Path { segments: names.iter().map(|n| segment(n)).collect() }
}

/// The type `a::b::C`.
fn path_type(names: &[&str]) -> SynType {
    SynType::Path(TypePath { path: path(names), span: node() })
}

/// The type `&T` or `&mut T`.
fn ref_type(inner: SynType, mutability: bool) -> SynType {
    SynType::Reference(TypeReference { mutability, elem: Box::new(inner), span: node() })
}

/// The type `Name<args>`.
fn generic_type(name: &str, args: Vec<GenericArgument>) -> SynType {
    let seg = PathSegment {
        ident: ident(name),
        arguments: PathArguments::AngleBracketed(AngleBracketedArguments { args, span: node() }),
        span: node(),
    };
    SynType::Path(TypePath { path: Path { segments: vec![seg] }, span: node() })
}

/// The type `Pin<&mut T>` (or `Pin<&T>`).
fn pin_type(inner: &[&str], mutability: bool) -> SynType {
    generic_type(
        "Pin",
        vec![GenericArgument::Type(ref_type(path_type(inner), mutability))],
    )
}

fn receiver() -> FnArg {
    FnArg::Receiver(node())
}

fn arg(name: &str, ty: SynType) -> FnArg {
    FnArg::Typed(PatType { pat: Pat::Ident(ident(name)), ty, span: node() })
}

fn method(name: &str, inputs: Vec<FnArg>, output: Option<SynType>) -> ImplItem {
    ImplItem::Method(ImplItemMethod { ident: ident(name), inputs, output, span: node() })
}

fn field(name: &str, ty: SynType) -> Field {
    Field { ident: Some(ident(name)), ty, span: node() }
}

fn named_struct(name: &str, fields: Vec<Field>) -> Item {
    Item::Struct(ItemStruct { ident: ident(name), fields: Fields::Named(fields), span: node() })
}

fn unit_struct(name: &str) -> Item {
    Item::Struct(ItemStruct { ident: ident(name), fields: Fields::Unit, span: node() })
}

/// `impl Name { items }`
fn impl_block(name: &str, items: Vec<ImplItem>) -> Item {
    Item::Impl(ItemImpl { self_ty: path_type(&[name]), trait_: None, items, span: node() })
}

/// `impl Trait for Name { items }`
fn trait_impl(trait_name: &str, name: &str, items: Vec<ImplItem>) -> Item {
    Item::Impl(ItemImpl {
        self_ty: path_type(&[name]),
        trait_: Some(path(&[trait_name])),
        items,
        span: node(),
    })
}

fn use_decl() -> Item {
    Item::Use(ItemUse { span: node() })
}

fn module(name: &str, items: Vec<Item>) -> ItemMod {
    ItemMod { ident: ident(name), content: Some(items), span: node() }
}

fn say_hi(pin: bool) -> ImplItem {
    let mut inputs = vec![receiver()];
    if pin {
        inputs.push(arg("_cpp", pin_type(&["CppObj"], true)));
    }
    inputs.push(arg("string", ref_type(path_type(&["str"]), false)));
    inputs.push(arg("number", path_type(&["i32"])));
    method("say_hi", inputs, None)
}

fn say_bye(pin: bool) -> ImplItem {
    let mut inputs = vec![receiver()];
    if pin {
        inputs.push(arg("_cpp", pin_type(&["CppObj"], true)));
    }
    method("say_bye", inputs, None)
}

/// mod my_object { struct MyObject { public: i32 } impl MyObject { fn invokable(&self) }
/// impl Default for MyObject { fn default() -> Self } }
fn basic_custom_default() -> ItemMod {
    module(
        "my_object",
        vec![
            named_struct("MyObject", vec![field("public", path_type(&["i32"]))]),
            impl_block("MyObject", vec![method("invokable", vec![receiver()], None)]),
            trait_impl(
                "Default",
                "MyObject",
                vec![method("default", vec![], Some(path_type(&["Self"])))],
            ),
        ],
    )
}

/// mod my_object { struct MyObject { my_number: i32 } impl MyObject { fn say_bye(&self) } }
fn basic_ident_changes() -> ItemMod {
    module(
        "my_object",
        vec![
            named_struct("MyObject", vec![field("my_number", path_type(&["i32"]))]),
            impl_block("MyObject", vec![say_bye(false)]),
        ],
    )
}

/// mod my_object { struct MyObject { number: i32, string: String }
/// impl MyObject { fn say_hi(&self, string: &str, number: i32) fn say_bye(&self) } }
fn basic_invokable_and_properties() -> ItemMod {
    module(
        "my_object",
        vec![
            named_struct(
                "MyObject",
                vec![
                    field("number", path_type(&["i32"])),
                    field("string", path_type(&["String"])),
                ],
            ),
            impl_block("MyObject", vec![say_hi(false), say_bye(false)]),
        ],
    )
}

/// mod my_object { struct MyObject; impl MyObject { fn say_hi(..) fn say_bye(..) } }
fn basic_only_invokable() -> ItemMod {
    module(
        "my_object",
        vec![unit_struct("MyObject"), impl_block("MyObject", vec![say_hi(false), say_bye(false)])],
    )
}

/// mod my_object { struct MyObject { number: i32, string: String } }
fn basic_only_properties() -> ItemMod {
    module(
        "my_object",
        vec![named_struct(
            "MyObject",
            vec![
                field("number", path_type(&["i32"])),
                field("string", path_type(&["String"])),
            ],
        )],
    )
}

/// mod my_object { use super::MyTrait; struct MyObject { number: i32 }
/// impl MyObject { fn say_hi(&self) } }
fn basic_mod_use() -> ItemMod {
    module(
        "my_object",
        vec![
            use_decl(),
            named_struct("MyObject", vec![field("number", path_type(&["i32"]))]),
            impl_block("MyObject", vec![method("say_hi", vec![receiver()], None)]),
        ],
    )
}

/// mod my_object { struct MyObject; impl MyObject {
/// fn say_hi(&self, _cpp: Pin<&mut CppObj>, string: &str, number: i32)
/// fn say_bye(&self, _cpp: Pin<&mut CppObj>) } }
fn basic_pin_invokable() -> ItemMod {
    module(
        "my_object",
        vec![unit_struct("MyObject"), impl_block("MyObject", vec![say_hi(true), say_bye(true)])],
    )
}

fn extract(m: ItemMod) -> QObject {
    match extract_qobject(m) {
        Ok(q) => q,
        Err(e) => panic!("{}", e.message.text()),
    }
}

fn extract_err(m: ItemMod) -> CompileError {
    match extract_qobject(m) {
        Ok(_) => panic!("the module was accepted"),
        Err(e) => e,
    }
}

#[test]
fn parses_basic_custom_default() {
    let qobject = extract(basic_custom_default());

    // Check that it got the inovkables and properties
    assert_eq!(qobject.invokables.len(), 1);
    assert_eq!(qobject.properties.len(), 1);

    // Check that impl Default was found
    assert_eq!(qobject.original_trait_impls.len(), 1);
    let trait_impl = &qobject.original_trait_impls[0];
    if let SynType::Path(TypePath { path, .. }) = &trait_impl.self_ty {
        assert_eq!(path.segments.len(), 1);
        assert_eq!(path.segments[0].ident.name, "MyObjectRs");
    } else {
        panic!("Trait impl was not a TypePath");
    }
}

#[test]
fn parses_basic_ident_changes() {
    let qobject = extract(basic_ident_changes());

    // Check that it got the properties and that the idents are correct
    assert_eq!(qobject.properties.len(), 1);

    // Check first property
    let prop_first = &qobject.properties[0];
    assert_eq!(prop_first.ident.cpp_ident.name, "myNumber");
    assert_eq!(prop_first.ident.rust_ident.name, "my_number");
    assert_eq!(prop_first.type_ident.idents.len(), 1);
    assert_eq!(prop_first.type_ident.idents[0].name, "i32");
    assert_eq!(prop_first.type_ident.is_ref, false);

    assert_eq!(prop_first.getter.is_some(), true);
    let getter = prop_first.getter.as_ref().unwrap();
    assert_eq!(getter.cpp_ident.name, "getMyNumber");
    assert_eq!(getter.rust_ident.name, "my_number");

    assert_eq!(prop_first.setter.is_some(), true);
    let setter = prop_first.setter.as_ref().unwrap();
    assert_eq!(setter.cpp_ident.name, "setMyNumber");
    assert_eq!(setter.rust_ident.name, "set_my_number");

    assert_eq!(prop_first.notify.is_some(), true);
    let notify = prop_first.notify.as_ref().unwrap();
    assert_eq!(notify.cpp_ident.name, "myNumberChanged");
    assert_eq!(notify.rust_ident.name, "my_number");

    // Check that it got the invokables
    assert_eq!(qobject.invokables.len(), 1);

    // Check invokable ident
    let invokable = &qobject.invokables[0];
    assert_eq!(invokable.ident.cpp_ident.name, "sayBye");
    assert_eq!(invokable.ident.rust_ident.name, "say_bye");

    // Check invokable parameters ident and type ident
    assert_eq!(invokable.parameters.len(), 0);
}

#[test]
fn parses_basic_invokable_and_properties() {
    let qobject = extract(basic_invokable_and_properties());

    // Check that it got the invokables and properties
    assert_eq!(qobject.invokables.len(), 2);
    assert_eq!(qobject.properties.len(), 2);
}

#[test]
fn parses_basic_only_invokable() {
    let qobject = extract(basic_only_invokable());

    // Check that it got the names right
    assert_eq!(qobject.ident.name, "MyObject");
    assert_eq!(qobject.original_mod.ident.name, "my_object");
    assert_eq!(qobject.rust_struct_ident.name, "MyObjectRs");

    // Check that it got the invokables
    assert_eq!(qobject.invokables.len(), 2);

    // Check invokable ident
    let invokable = &qobject.invokables[0];
    assert_eq!(invokable.ident.cpp_ident.name, "sayHi");
    assert_eq!(invokable.ident.rust_ident.name, "say_hi");

    // Check invokable parameters ident and type ident
    assert_eq!(invokable.parameters.len(), 2);

    let param_first = &invokable.parameters[0];
    assert_eq!(param_first.ident.name, "string");
    assert_eq!(param_first.type_ident.idents.len(), 1);
    assert_eq!(param_first.type_ident.idents[0].name, "str");
    assert_eq!(param_first.type_ident.is_ref, true);

    let param_second = &invokable.parameters[1];
    assert_eq!(param_second.ident.name, "number");
    assert_eq!(param_second.type_ident.idents.len(), 1);
    assert_eq!(param_second.type_ident.idents[0].name, "i32");
    assert_eq!(param_second.type_ident.is_ref, false);

    // Check invokable ident
    let invokable_second = &qobject.invokables[1];
    assert_eq!(invokable_second.ident.cpp_ident.name, "sayBye");
    assert_eq!(invokable_second.ident.rust_ident.name, "say_bye");

    // Check invokable parameters ident and type ident
    assert_eq!(invokable_second.parameters.len(), 0);
}

#[test]
fn parses_basic_only_properties() {
    let qobject = extract(basic_only_properties());

    // Check that it got the properties and that the idents are correct
    assert_eq!(qobject.properties.len(), 2);

    // Check first property
    let prop_first = &qobject.properties[0];
    assert_eq!(prop_first.ident.cpp_ident.name, "number");
    assert_eq!(prop_first.ident.rust_ident.name, "number");
    assert_eq!(prop_first.type_ident.idents.len(), 1);
    assert_eq!(prop_first.type_ident.idents[0].name, "i32");
    assert_eq!(prop_first.type_ident.is_ref, false);

    assert_eq!(prop_first.getter.is_some(), true);
    let getter = prop_first.getter.as_ref().unwrap();
    assert_eq!(getter.cpp_ident.name, "getNumber");
    assert_eq!(getter.rust_ident.name, "number");

    assert_eq!(prop_first.setter.is_some(), true);
    let setter = prop_first.setter.as_ref().unwrap();
    assert_eq!(setter.cpp_ident.name, "setNumber");
    assert_eq!(setter.rust_ident.name, "set_number");

    assert_eq!(prop_first.notify.is_some(), true);
    let notify = prop_first.notify.as_ref().unwrap();
    assert_eq!(notify.cpp_ident.name, "numberChanged");
    assert_eq!(notify.rust_ident.name, "number");

    // Check second property
    let prop_second = &qobject.properties[1];
    assert_eq!(prop_second.ident.cpp_ident.name, "string");
    assert_eq!(prop_second.ident.rust_ident.name, "string");
    assert_eq!(prop_second.type_ident.idents.len(), 1);
    assert_eq!(prop_second.type_ident.idents[0].name, "String");
    assert_eq!(prop_second.type_ident.is_ref, false);

    assert_eq!(prop_second.getter.is_some(), true);
    let getter = prop_second.getter.as_ref().unwrap();
    assert_eq!(getter.cpp_ident.name, "getString");
    assert_eq!(getter.rust_ident.name, "string");

    assert_eq!(prop_second.setter.is_some(), true);
    let setter = prop_second.setter.as_ref().unwrap();
    assert_eq!(setter.cpp_ident.name, "setString");
    assert_eq!(setter.rust_ident.name, "set_string");

    assert_eq!(prop_second.notify.is_some(), true);
    let notify = prop_second.notify.as_ref().unwrap();
    assert_eq!(notify.cpp_ident.name, "stringChanged");
    assert_eq!(notify.rust_ident.name, "string");
}

#[test]
fn parses_basic_mod_use() {
    let qobject = extract(basic_mod_use());

    // Check that it got the inovkables and properties
    assert_eq!(qobject.invokables.len(), 1);
    assert_eq!(qobject.properties.len(), 1);

    // Check that there is a use declaration
    assert_eq!(qobject.original_use_decls.len(), 1);
}

fn assert_pin_cpp_obj(qt_type: &QtTypes) {
    if let QtTypes::Pin { ident_str, is_mut, is_this, type_idents } = qt_type {
        assert_eq!(ident_str, "CppObj");
        assert_eq!(is_mut, &true);
        assert_eq!(is_this, &true);
        assert_eq!(type_idents.len(), 1);
        assert_eq!(type_idents[0].name, "CppObj");
    } else {
        panic!();
    }
}

#[test]
fn parses_basic_pin_invokable() {
    let qobject = extract(basic_pin_invokable());

    // Check that it got the names right
    assert_eq!(qobject.ident.name, "MyObject");
    assert_eq!(qobject.original_mod.ident.name, "my_object");
    assert_eq!(qobject.rust_struct_ident.name, "MyObjectRs");

    // Check that it got the invokables
    assert_eq!(qobject.invokables.len(), 2);

    // Check invokable ident
    let invokable = &qobject.invokables[0];
    assert_eq!(invokable.ident.cpp_ident.name, "sayHi");
    assert_eq!(invokable.ident.rust_ident.name, "say_hi");

    // Check invokable parameters ident and type ident
    assert_eq!(invokable.parameters.len(), 3);

    let param_first = &invokable.parameters[0];
    assert_eq!(param_first.ident.name, "_cpp");
    assert_eq!(param_first.type_ident.idents.len(), 1);
    assert_eq!(param_first.type_ident.idents[0].name, "Pin");
    assert_eq!(param_first.type_ident.is_ref, false);
    assert_pin_cpp_obj(&param_first.type_ident.qt_type);

    let param_second = &invokable.parameters[1];
    assert_eq!(param_second.ident.name, "string");
    assert_eq!(param_second.type_ident.idents.len(), 1);
    assert_eq!(param_second.type_ident.idents[0].name, "str");
    assert_eq!(param_second.type_ident.is_ref, true);

    let param_third = &invokable.parameters[2];
    assert_eq!(param_third.ident.name, "number");
    assert_eq!(param_third.type_ident.idents.len(), 1);
    assert_eq!(param_third.type_ident.idents[0].name, "i32");
    assert_eq!(param_third.type_ident.is_ref, false);

    // Check invokable ident
    let invokable_second = &qobject.invokables[1];
    assert_eq!(invokable_second.ident.cpp_ident.name, "sayBye");
    assert_eq!(invokable_second.ident.rust_ident.name, "say_bye");

    // Check invokable parameters ident and type ident
    assert_eq!(invokable_second.parameters.len(), 1);

    let param_first = &invokable_second.parameters[0];
    assert_eq!(param_first.ident.name, "_cpp");
    assert_eq!(param_first.type_ident.idents.len(), 1);
    assert_eq!(param_first.type_ident.idents[0].name, "Pin");
    assert_eq!(param_first.type_ident.is_ref, false);
    assert_pin_cpp_obj(&param_first.type_ident.qt_type);
}

// Types

fn type_error(ty: SynType) -> ExtractTypeIdentError {
    match extract_type_ident(&ty) {
        Ok(_) => panic!("the type was accepted"),
        Err(e) => e,
    }
}

#[test]
fn known_types_read_as_their_qt_types() {
    let t = extract_type_ident(&path_type(&["i32"])).unwrap();
    assert!(matches!(t.qt_type, QtTypes::I32));
    let t = extract_type_ident(&path_type(&["String"])).unwrap();
    assert!(matches!(t.qt_type, QtTypes::String));
    let t = extract_type_ident(&ref_type(path_type(&["str"]), false)).unwrap();
    assert!(matches!(t.qt_type, QtTypes::Str));
    assert!(t.is_ref);
}

#[test]
fn crate_paths_read_as_pointers() {
    let ty = path_type(&["crate", "sub_object", "SubObject"]);
    let t = extract_type_ident(&ty).unwrap();
    assert_eq!(t.idents.len(), 3);
    match &t.qt_type {
        QtTypes::Ptr { ident_str } => assert_eq!(ident_str, "SubObject"),
        _ => panic!("not a pointer"),
    }
    assert!(is_type_ident_ptr(&t.idents));
}

#[test]
fn original_type_is_kept() {
    let ty = path_type(&["i32"]);
    let span = match &ty {
        SynType::Path(p) => p.span,
        _ => unreachable!(),
    };
    let t = extract_type_ident(&ty).unwrap();
    match &t.original_ty {
        SynType::Path(p) => {
            assert_eq!(p.span, span);
            assert_eq!(p.path.segments[0].ident.name, "i32");
        },
        _ => panic!("the type changed"),
    }
}

#[test]
fn pin_of_shared_other_type() {
    let t = extract_type_ident(&pin_type(&["crate", "other", "Thing"], false)).unwrap();
    assert_eq!(t.idents.len(), 1);
    assert_eq!(t.idents[0].name, "Pin");
    match &t.qt_type {
        QtTypes::Pin { ident_str, is_mut, is_this, type_idents } => {
            assert_eq!(ident_str, "Thing");
            assert!(!is_mut);
            assert!(!is_this);
            assert_eq!(type_idents.len(), 3);
        },
        _ => panic!("not a pin"),
    }
}

#[test]
fn type_errors_carry_their_spans() {
    // &(T) is not a path
    let inner = SynType::Other(node());
    let ty = ref_type(inner, false);
    let outer = match &ty {
        SynType::Reference(r) => r.span,
        _ => unreachable!(),
    };
    assert_eq!(type_error(ty), ExtractTypeIdentError::InvalidType(outer));

    // Vec<i32>
    let ty = generic_type("Vec", vec![GenericArgument::Type(path_type(&["i32"]))]);
    let seg_span = match &ty {
        SynType::Path(p) => p.path.segments[0].span,
        _ => unreachable!(),
    };
    assert_eq!(type_error(ty), ExtractTypeIdentError::InvalidArguments(seg_span));

    // a path with no segments
    let ty = SynType::Path(TypePath { path: Path { segments: vec![] }, span: Span::Node(900) });
    assert_eq!(type_error(ty), ExtractTypeIdentError::IdentEmpty(Span::Node(900)));

    // std::string::String
    let ty = path_type(&["std", "string", "String"]);
    let first = match &ty {
        SynType::Path(p) => p.path.segments[0].ident.span,
        _ => unreachable!(),
    };
    assert_eq!(type_error(ty), ExtractTypeIdentError::UnknownAndNotCrate(first));

    // u8
    let ty = path_type(&["u8"]);
    let first = match &ty {
        SynType::Path(p) => p.path.segments[0].ident.span,
        _ => unreachable!(),
    };
    assert_eq!(type_error(ty), ExtractTypeIdentError::UnknownIdent(first));

    // Pin<T> without a reference
    let ty = generic_type("Pin", vec![GenericArgument::Type(path_type(&["CppObj"]))]);
    let whole = match &ty {
        SynType::Path(p) => p.span,
        _ => unreachable!(),
    };
    assert_eq!(type_error(ty), ExtractTypeIdentError::UnknownPinType(whole));

    // Pin alone is an unknown ident
    let ty = path_type(&["Pin"]);
    assert!(matches!(type_error(ty), ExtractTypeIdentError::UnknownIdent(_)));
}

#[test]
fn reference_reads_as_referent() {
    let plain = extract_type_ident(&path_type(&["crate", "a", "B"])).unwrap();
    let referenced = extract_type_ident(&ref_type(path_type(&["crate", "a", "B"]), true)).unwrap();
    assert!(!plain.is_ref);
    assert!(referenced.is_ref);
    let names = |t: &cxx_qt_gen::types::ParameterType| {
        t.idents.iter().map(|i| i.name.clone()).collect::<Vec<_>>()
    };
    assert_eq!(names(&plain), names(&referenced));

    let plain = type_error(path_type(&["u8"]));
    let referenced = type_error(ref_type(path_type(&["u8"]), false));
    assert!(matches!(plain, ExtractTypeIdentError::UnknownIdent(_)));
    assert!(matches!(referenced, ExtractTypeIdentError::UnknownIdent(_)));
}

#[test]
fn path_to_idents_reads_each_segment() {
    let idents = path_to_idents(&path(&["crate", "module", "Type"])).unwrap();
    let names: Vec<&str> = idents.iter().map(|i| i.name.as_str()).collect();
    assert_eq!(names, vec!["crate", "module", "Type"]);
}

#[test]
fn extract_qt_type_needs_idents() {
    let ty = path_type(&["i32"]);
    assert!(matches!(extract_qt_type(&[], &ty), Err(ExtractTypeIdentError::IdentEmpty(_))));
    assert!(matches!(extract_qt_type(&[ident("str")], &ty), Ok(QtTypes::Str)));
}

// Invokables and properties

#[test]
fn invokable_return_type_is_read() {
    let items = vec![method("get_number", vec![receiver()], Some(path_type(&["i32"])))];
    let invokables = extract_invokables(&items).unwrap();
    assert_eq!(invokables[0].ident.cpp_ident.name, "getNumber");
    let rt = invokables[0].return_type.as_ref().unwrap();
    assert!(matches!(rt.qt_type, QtTypes::I32));
    assert_eq!(invokables[0].original_method.ident.name, "get_number");
}

#[test]
fn invokable_errors() {
    // a constant in an impl block
    let span = node();
    let e = extract_invokables(&[ImplItem::Other(span)]).unwrap_err();
    assert_eq!(e, CompileError { span, message: ErrorMessage::OnlyMethods });

    // a pattern parameter
    let span = node();
    let bad = FnArg::Typed(PatType {
        pat: Pat::Other(node()),
        ty: path_type(&["i32"]),
        span,
    });
    let e = extract_invokables(&[method("f", vec![receiver(), bad], None)]).unwrap_err();
    assert_eq!(e, CompileError { span, message: ErrorMessage::InvalidArgumentIdent });

    // an unknown argument type
    let e = extract_invokables(&[method("f", vec![arg("x", path_type(&["u8"]))], None)])
        .unwrap_err();
    assert_eq!(e.message, ErrorMessage::Type(TypeContext::Argument, TypeProblem::UnknownIdent));

    // an unknown return type
    let e = extract_invokables(&[method("f", vec![], Some(path_type(&["u8"])))]).unwrap_err();
    assert_eq!(e.message, ErrorMessage::Type(TypeContext::ReturnType, TypeProblem::UnknownIdent));

    // the first failing item is reported
    let first = node();
    let e = extract_invokables(&[
        method("ok", vec![receiver()], None),
        ImplItem::Other(first),
        ImplItem::Other(node()),
    ])
    .unwrap_err();
    assert_eq!(e.span, first);
}

#[test]
fn property_field_type_errors() {
    let s = ItemStruct {
        ident: ident("MyObject"),
        fields: Fields::Named(vec![field("ok", path_type(&["i32"])), field("bad", path_type(&["f64"]))]),
        span: node(),
    };
    let e = extract_properties(&s).unwrap_err();
    assert_eq!(e.message, ErrorMessage::Type(TypeContext::NamedField, TypeProblem::UnknownIdent));
    assert_eq!(e.message.text(), "Unknown named field type ident to parse");
}

#[test]
fn tuple_struct_has_no_properties() {
    let s = ItemStruct {
        ident: ident("MyObject"),
        fields: Fields::Unnamed(vec![Field { ident: None, ty: path_type(&["i32"]), span: node() }]),
        span: node(),
    };
    assert_eq!(extract_properties(&s).unwrap().len(), 0);
}

#[test]
fn property_names_agree() {
    let qobject = extract(basic_ident_changes());
    let p = &qobject.properties[0];
    let rust = &p.ident.rust_ident.name;
    assert_eq!(&p.getter.as_ref().unwrap().rust_ident.name, rust);
    assert_eq!(&p.notify.as_ref().unwrap().rust_ident.name, rust);
    assert_eq!(p.setter.as_ref().unwrap().rust_ident.name, format!("set_{}", rust));
    assert_eq!(
        p.notify.as_ref().unwrap().cpp_ident.name,
        format!("{}Changed", p.ident.cpp_ident.name)
    );
    assert_eq!(p.getter.as_ref().unwrap().cpp_ident.span, Span::CallSite);
}

// Modules

#[test]
fn wrapper_and_struct_idents() {
    let qobject = extract(basic_only_invokable());
    assert_eq!(qobject.rust_wrapper_ident.name, "MyObjectWrapper");
    assert_eq!(qobject.rust_struct_ident.span, qobject.ident.span);
    assert_eq!(qobject.original_struct.ident.name, "MyObject");
}

#[test]
fn raw_struct_ident_loses_its_prefix() {
    let qobject = extract(module("m", vec![unit_struct("r#type")]));
    assert_eq!(qobject.ident.name, "r#type");
    assert_eq!(qobject.rust_struct_ident.name, "typeRs");
    assert_eq!(qobject.rust_wrapper_ident.name, "typeWrapper");
}

#[test]
fn trait_impls_are_for_the_rust_struct() {
    let qobject = extract(basic_custom_default());
    for imp in &qobject.original_trait_impls {
        match &imp.self_ty {
            SynType::Path(p) => assert_eq!(p.path.segments[0].ident.name, qobject.rust_struct_ident.name),
            _ => panic!("not a path"),
        }
        assert!(imp.trait_.is_some());
        assert_eq!(imp.items.len(), 1);
    }
}

#[test]
fn invokables_of_several_impl_blocks_keep_their_order() {
    let m = module(
        "m",
        vec![
            unit_struct("MyObject"),
            impl_block("MyObject", vec![method("first", vec![receiver()], None)]),
            use_decl(),
            impl_block(
                "MyObject",
                vec![method("second", vec![receiver()], None), method("third", vec![], None)],
            ),
        ],
    );
    let qobject = extract(m);
    let names: Vec<&str> =
        qobject.invokables.iter().map(|i| i.ident.rust_ident.name.as_str()).collect();
    assert_eq!(names, vec!["first", "second", "third"]);
    assert_eq!(qobject.original_use_decls.len(), 1);
}

#[test]
fn two_structs_refused() {
    let second = ItemStruct { ident: ident("Other"), fields: Fields::Unit, span: node() };
    let span = second.span;
    let e = extract_err(module("m", vec![unit_struct("MyObject"), Item::Struct(second)]));
    assert_eq!(e, CompileError { span, message: ErrorMessage::OnlyOneStruct });
    assert_eq!(e.message.text(), "Only one struct is supported per mod.");
}

#[test]
fn impl_before_struct_refused() {
    let imp = ItemImpl { self_ty: path_type(&["MyObject"]), trait_: None, items: vec![], span: node() };
    let span = imp.span;
    let e = extract_err(module("m", vec![use_decl(), Item::Impl(imp), unit_struct("MyObject")]));
    assert_eq!(e, CompileError { span, message: ErrorMessage::ImplBeforeStruct });
}

#[test]
fn impl_block_errors() {
    // impl a::MyObject
    let imp = ItemImpl {
        self_ty: path_type(&["a", "MyObject"]),
        trait_: None,
        items: vec![],
        span: node(),
    };
    let span = imp.span;
    let e = extract_err(module("m", vec![unit_struct("MyObject"), Item::Impl(imp)]));
    assert_eq!(e, CompileError { span, message: ErrorMessage::InvalidImplPath });

    // impl Other
    let ty = path_type(&["Other"]);
    let ident_span = match &ty {
        SynType::Path(p) => p.path.segments[0].ident.span,
        _ => unreachable!(),
    };
    let imp = ItemImpl { self_ty: ty, trait_: Some(path(&["Default"])), items: vec![], span: node() };
    let e = extract_err(module("m", vec![unit_struct("MyObject"), Item::Impl(imp)]));
    assert_eq!(e, CompileError { span: ident_span, message: ErrorMessage::ImplMismatch });

    // impl &MyObject
    let imp = ItemImpl {
        self_ty: ref_type(path_type(&["MyObject"]), false),
        trait_: None,
        items: vec![],
        span: node(),
    };
    let span = imp.span;
    let e = extract_err(module("m", vec![unit_struct("MyObject"), Item::Impl(imp)]));
    assert_eq!(e, CompileError { span, message: ErrorMessage::ExpectedTypePath });
    assert_eq!(e.message.text(), "Expected a TypePath impl to parse.");
}

#[test]
fn unsupported_item_refused() {
    let span = node();
    let e = extract_err(module("m", vec![unit_struct("MyObject"), Item::Other(span)]));
    assert_eq!(e, CompileError { span, message: ErrorMessage::UnsupportedItem });
}

#[test]
fn method_errors_reach_the_module() {
    let m = module(
        "m",
        vec![
            unit_struct("MyObject"),
            impl_block("MyObject", vec![method("f", vec![arg("v", generic_type("Vec", vec![]))], None)]),
        ],
    );
    let e = extract_err(m);
    assert_eq!(e.message, ErrorMessage::Type(TypeContext::Argument, TypeProblem::InvalidArguments));
    assert_eq!(e.message.text(), "Argument should not be angle bracketed or parenthesized.");
}

#[test]
fn field_errors_come_after_item_errors() {
    let m = module(
        "m",
        vec![
            named_struct("MyObject", vec![field("bad", path_type(&["u8"]))]),
            Item::Other(Span::Node(901)),
        ],
    );
    let e = extract_err(m);
    assert_eq!(e.span, Span::Node(901));

    let m = module("m", vec![named_struct("MyObject", vec![field("bad", path_type(&["u8"]))])]);
    let e = extract_err(m);
    assert_eq!(e.message, ErrorMessage::Type(TypeContext::NamedField, TypeProblem::UnknownIdent));
}

// Names that case conversion splits inside a character

#[test]
fn case_splits_finds_splits_inside_characters() {
    // a boundary before the last character, which takes two bytes
    assert!(!case_splits("a\u{c4}"));
    // a boundary counted as the fourth character falls inside the third
    assert!(!case_splits("aB\u{e9}Cd"));
    // no boundary in a lowercase word
    assert!(case_splits("gr\u{f6}\u{df}e"));
    assert!(case_splits("IOStream"));
    assert!(case_splits("my_number"));
    assert!(case_splits("say-bye 2x"));
    // pieces are checked one by one
    assert!(!case_splits("ok_a\u{c4}"));
    assert!(case_splits(""));
}

#[test]
fn non_ascii_property_names() {
    let m = module(
        "m",
        vec![named_struct("MyObject", vec![field("gr\u{f6}\u{df}e", path_type(&["i32"]))])],
    );
    let qobject = match try_extract_qobject(m) {
        Some(Ok(q)) => q,
        _ => panic!("the module was not described"),
    };
    let p = &qobject.properties[0];
    assert_eq!(p.ident.cpp_ident.name, "gr\u{f6}\u{df}e");
    assert_eq!(p.getter.as_ref().unwrap().cpp_ident.name, "getGr\u{f6}\u{df}e");
}

#[test]
fn unconvertible_names_stop_extraction() {
    let m = module(
        "m",
        vec![
            unit_struct("MyObject"),
            impl_block("MyObject", vec![method("aB\u{e9}Cd", vec![receiver()], None)]),
        ],
    );
    assert!(try_extract_qobject(m).is_none());

    let items = vec![method("a\u{c4}", vec![], None)];
    assert!(try_extract_invokables(&items).is_none());

    let s = ItemStruct {
        ident: ident("MyObject"),
        fields: Fields::Named(vec![field("a\u{c4}", path_type(&["i32"]))]),
        span: node(),
    };
    assert!(try_extract_properties(&s).is_none());
}

#[test]
fn names_not_reached_are_not_converted() {
    // the second struct is reported before its fields are read
    let second = ItemStruct {
        ident: ident("B"),
        fields: Fields::Named(vec![field("a\u{c4}", path_type(&["i32"]))]),
        span: node(),
    };
    let span = second.span;
    let m = module("m", vec![unit_struct("A"), Item::Struct(second)]);
    match try_extract_qobject(m) {
        Some(Err(e)) => assert_eq!(e, CompileError { span, message: ErrorMessage::OnlyOneStruct }),
        _ => panic!("the second struct was not reported"),
    }

    // a method whose parameter fails is reported before its name is converted
    let items = vec![method("a\u{c4}", vec![arg("x", path_type(&["u8"]))], None)];
    match try_extract_invokables(&items) {
        Some(Err(e)) => assert_eq!(
            e.message,
            ErrorMessage::Type(TypeContext::Argument, TypeProblem::UnknownIdent)
        ),
        _ => panic!("the parameter was not reported"),
    }

    // a field after the first failing one is not read
    let s = ItemStruct {
        ident: ident("MyObject"),
        fields: Fields::Named(vec![
            field("bad", path_type(&["u8"])),
            field("a\u{c4}", path_type(&["i32"])),
        ]),
        span: node(),
    };
    assert!(matches!(try_extract_properties(&s), Some(Err(_))));
}

#[test]
fn names_that_split_cleanly_convert() {
    let names = [
        "a\u{c4}b",
        "\u{c4}\u{d6}",
        "\u{e9}1",
        "x_\u{e9}t\u{e9}",
        "IOStream",
        "myJSONParser",
        "e5150",
        "__weird--var _name-",
    ];
    for name in names {
        assert!(case_splits(name), "{}", name);
        let items = vec![method(name, vec![receiver()], None)];
        assert!(matches!(try_extract_invokables(&items), Some(Ok(_))), "{}", name);
    }
    assert_eq!(
        extract_invokables(&[method("myJSONParser", vec![], None)]).unwrap()[0].ident.rust_ident.name,
        "my_json_parser"
    );
    assert!(!case_splits("1\u{e9}"));
}

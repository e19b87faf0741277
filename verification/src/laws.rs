//! Properties of the extraction as a whole.
use crate::casing::{
    camel_words, capitalized, lower_word, pascal_words, snake_words,
    underscore_joined,
};
use crate::checks::{
    first_failure, lemma_all_pass, lemma_failure_found, lemma_first_failure_stays,
    lemma_no_failure,
};
use crate::errors::spec_problem;
use crate::invokables::{Invokable, invokable_of};
use crate::properties::{Property, property_of};
use crate::qobject::{
    QObject, first_struct, item_check, module_items, module_struct, qobject_failure, qobject_of,
    struct_check, trait_impls, use_decls,
};
use crate::syntax::{
    Field, GenericArgument, Ident, ImplItemMethod, Item, ItemImpl, ItemMod, ItemUse, PathArguments,
    PathSegment,
    Span, SynType,
};
use crate::types::{
    ExtractTypeIdentError, ParameterType, QtTypeView, parameter_type_of, spec_qt_type,
    spec_type_ident,
};
use vstd::prelude::*;

verus! {

/// A reference `&T` to a path `T` reads as `T` does: the same idents and the
/// same Qt type, marked as a reference; and where `T` cannot be read, neither
/// can `&T`, for the same reason.
pub proof fn law_reference_reads_as_referent(ty: SynType)
    requires
        ty matches SynType::Reference(r) && *r.elem is Path,
    ensures
        match (spec_type_ident(ty), spec_type_ident(*ty->Reference_0.elem)) {
            (Ok((idents, is_ref, qt)), Ok((inner_idents, inner_is_ref, inner_qt))) => {
                &&& idents == inner_idents
                &&& qt == inner_qt
                &&& is_ref
                &&& !inner_is_ref
            },
            (Err(e), Err(inner_e)) => spec_problem(e) == spec_problem(inner_e),
            _ => false,
        },
{
}

/// The names of a property agree: its Rust getter and notify names are its
/// Rust name, its Rust setter name is `set_` and that name, and its C++ notify
/// name is its C++ name and `Changed`.
pub proof fn law_property_names_agree(f: Field, p: Property)
    requires
        property_of(f, p),
    ensures
        p.getter->Some_0.rust_ident.name@ == p.ident.rust_ident.name@,
        p.notify->Some_0.rust_ident.name@ == p.ident.rust_ident.name@,
        p.setter->Some_0.rust_ident.name@ == "set_"@ + p.ident.rust_ident.name@,
        p.notify->Some_0.cpp_ident.name@ == p.ident.cpp_ident.name@ + "Changed"@,
{
}

/// A module with two structs is refused: extraction stops, at the second
/// struct or at an item before it.
pub proof fn law_two_structs_refused(m: ItemMod, i: int, j: int)
    requires
        m.content is Some,
        0 <= i < j < module_items(m).len(),
        module_items(m)[i] is Struct,
        module_items(m)[j] is Struct,
    ensures
        qobject_failure(m) is Some,
{
    let items = module_items(m);
    lemma_failure_found(struct_check(items), j as nat, i);
    if first_failure(items.len(), item_check(items)) is None {
        lemma_no_failure(item_check(items), items.len(), j);
    }
}

/// A module with an impl block before any struct is refused: extraction
/// stops, at that impl block or at an item before it.
pub proof fn law_impl_before_struct_refused(m: ItemMod, j: int)
    requires
        m.content is Some,
        0 <= j < module_items(m).len(),
        module_items(m)[j] is Impl,
        forall|i: int| 0 <= i < j ==> !(#[trigger] module_items(m)[i] is Struct),
    ensures
        qobject_failure(m) is Some,
{
    let items = module_items(m);
    assert forall|i: int| 0 <= i < j implies #[trigger] struct_check(items)(i) is None by {}
    lemma_all_pass(struct_check(items), j as nat);
    if first_failure(items.len(), item_check(items)) is None {
        lemma_no_failure(item_check(items), items.len(), j);
    }
}

/// Each trait impl block among `items` stands among them.
proof fn lemma_trait_impl_stands(items: Seq<Item>, k: int)
    requires
        0 <= k < trait_impls(items).len(),
    ensures
        exists|i: int| 0 <= i < items.len() && #[trigger] items[i] == Item::Impl(trait_impls(items)[k]),
    decreases items.len(),
{
    let rest = trait_impls(items.drop_last());
    if k < rest.len() {
        lemma_trait_impl_stands(items.drop_last(), k);
        let i = choose|i: int|
            0 <= i < items.drop_last().len() && #[trigger] items.drop_last()[i] == Item::Impl(
                rest[k],
            );
        assert(items[i] == items.drop_last()[i]);
    } else {
        assert(items[items.len() - 1] == Item::Impl(trait_impls(items)[k]));
    }
}

/// A trait impl block of an accepted module is for the struct: its type is
/// the path of the one segment named as the struct.
proof fn lemma_trait_impl_for_struct(m: ItemMod, imp: ItemImpl)
    requires
        m.content is Some,
        qobject_failure(m) is None,
        trait_impls(module_items(m)).contains(imp),
    ensures
        imp.self_ty matches SynType::Path(tp) && tp.path.segments@.len() == 1
            && tp.path.segments@[0].ident.name@ == module_struct(module_items(m)).ident.name@,
{
    let items = module_items(m);
    let k = choose|k: int| 0 <= k < trait_impls(items).len() && trait_impls(items)[k] == imp;
    lemma_trait_impl_stands(items, k);
    let i = choose|i: int| 0 <= i < items.len() && #[trigger] items[i] == Item::Impl(imp);
    lemma_no_failure(item_check(items), items.len(), i);
    let seen = first_struct(items, i as nat);
    assert(seen is Some);
    lemma_first_failure_stays(struct_check(items), i as nat, items.len());
}

/// Every trait impl block that a description keeps is for the generated Rust
/// struct: its type is the one segment named as `rust_struct_ident`.
pub proof fn law_trait_impls_for_rust_struct(m: ItemMod, q: QObject, k: int)
    requires
        m.content is Some,
        qobject_failure(m) is None,
        qobject_of(m, q),
        0 <= k < q.original_trait_impls@.len(),
    ensures
        q.original_trait_impls@[k].self_ty matches SynType::Path(tp) && tp.path.segments@.len()
            == 1 && tp.path.segments@[0].ident.name@ == q.rust_struct_ident.name@,
{
    let items = module_items(m);
    let orig = trait_impls(items)[k];
    assert(trait_impls(items).contains(orig));
    lemma_trait_impl_for_struct(m, orig);
}

/// The type `Pin<&T>` or `Pin<&mut T>`, whose argument is the path `T`, reads as
/// the Qt type `Pin` of `T`: its idents are those of the segments of `T`, its
/// text the last of them, it is mutable as the reference is, and it is `this`
/// exactly when the first segment of `T` is `CppObj` (so
/// `Pin<&mut crate::sub_object::CppObj>` is another object, not `this`). The
/// type itself has the one ident `Pin`.
pub proof fn law_pin_reads_its_referent(ty: SynType, p: ParameterType)
    requires
        parameter_type_of(ty, p),
        ty is Path,
        ty->Path_0.path.segments@.len() > 0,
        ty->Path_0.path.segments@[0].ident.name@ == "Pin"@,
        ty->Path_0.path.segments@[0].arguments is AngleBracketed,
        ty->Path_0.path.segments@[0].arguments->AngleBracketed_0.args@.len() == 1,
        ty->Path_0.path.segments@[0].arguments->AngleBracketed_0.args@[0] matches GenericArgument::Type(
            SynType::Reference(r),
        ) && *r.elem is Path,
    ensures
        ({
            let head = ty->Path_0.path.segments@[0];
            let r = head.arguments->AngleBracketed_0.args@[0]->Type_0->Reference_0;
            let inner = (*r.elem)->Path_0.path.segments@;
            &&& inner.len() > 0
            &&& p.idents@ == seq![head.ident]
            &&& !p.is_ref
            &&& p.qt_type@ == QtTypeView::Pin {
                ident_str: inner[inner.len() - 1].ident.name@,
                is_mut: r.mutability,
                is_this: inner[0].ident.name@ == "CppObj"@,
                type_idents: Seq::new(inner.len(), |i: int| inner[i].ident),
            }
        }),
{
    let head = ty->Path_0.path.segments@[0];
    let r = head.arguments->AngleBracketed_0.args@[0]->Type_0->Reference_0;
    let inner = (*r.elem)->Path_0.path.segments@;
    assert(inner.map_values(|s: PathSegment| s.ident) =~= Seq::new(
        inner.len(),
        |i: int| inner[i].ident,
    ));
}

/// A path of two or more idents whose first is `crate` (such as
/// `crate::SubObject`) is a pointer to the type named by its last ident; a
/// path of two or more idents whose first is not `crate` is refused at its
/// first ident.
pub proof fn law_crate_paths_are_pointers(idents: Seq<Ident>, ty_span: Span)
    requires
        idents.len() >= 2,
    ensures
        idents[0].name@ == "crate"@ ==> spec_qt_type(idents, ty_span) == Ok::<
            QtTypeView,
            ExtractTypeIdentError,
        >(QtTypeView::Ptr { ident_str: idents[idents.len() - 1].name@ }),
        idents[0].name@ != "crate"@ ==> spec_qt_type(idents, ty_span) == Err::<
            QtTypeView,
            ExtractTypeIdentError,
        >(ExtractTypeIdentError::UnknownAndNotCrate(idents[0].span)),
{
}

/// A type that is a path of two or more segments without arguments, the first
/// `crate`, reads as those idents and as a pointer to its last segment.
pub proof fn law_crate_types_are_pointers(ty: SynType)
    requires
        ty is Path,
        ty->Path_0.path.segments@.len() >= 2,
        ty->Path_0.path.segments@[0].ident.name@ == "crate"@,
        forall|i: int|
            0 <= i < ty->Path_0.path.segments@.len()
                ==> #[trigger] ty->Path_0.path.segments@[i].arguments is Bare,
    ensures
        ({
            let segs = ty->Path_0.path.segments@;
            spec_type_ident(ty) == Ok::<(Seq<Ident>, bool, QtTypeView), ExtractTypeIdentError>(
                (
                    Seq::new(segs.len(), |i: int| segs[i].ident),
                    false,
                    QtTypeView::Ptr { ident_str: segs[segs.len() - 1].ident.name@ },
                ),
            )
        }),
{
    let segs = ty->Path_0.path.segments@;
    reveal_strlit("crate");
    reveal_strlit("Pin");
    assert(segs[0].ident.name@[0] != "Pin"@[0]);
    let idents = Seq::new(segs.len(), |i: int| segs[i].ident);
    crate::checks::lemma_all_pass(crate::types::segment_check(segs), segs.len());
    assert(segs.map_values(|s: PathSegment| s.ident) =~= idents);
    law_crate_paths_are_pointers(idents, ty.span_of());
}

proof fn lemma_use_decls_filter(items: Seq<Item>, pred: spec_fn(Item) -> bool)
    requires
        forall|it: Item| #[trigger] pred(it) == (it is Use),
    ensures
        use_decls(items) == items.filter(pred).map_values(|it: Item| it->Use_0),
    decreases items.len(),
{
    reveal_with_fuel(Seq::filter, 1);
    if items.len() > 0 {
        lemma_use_decls_filter(items.drop_last(), pred);
        let rest = items.drop_last().filter(pred);
        if pred(items.last()) {
            assert(rest.push(items.last()).map_values(|it: Item| it->Use_0) =~= rest.map_values(
                |it: Item| it->Use_0,
            ).push(items.last()->Use_0));
        }
    }
}

/// The use declarations that a description keeps are all the use items of the
/// module, in order.
pub proof fn law_use_decls_all_kept(m: ItemMod, q: QObject)
    requires
        m.content is Some,
        qobject_of(m, q),
    ensures
        q.original_use_decls@ == module_items(m).filter(|it: Item| it is Use).map_values(
            |it: Item| it->Use_0,
        ),
{
    let pred = |it: Item| it is Use;
    lemma_use_decls_filter(module_items(m), pred);
}

/// No character of `s` is an underscore.
pub open spec fn no_underscore(s: Seq<char>) -> bool {
    forall|i: int| 0 <= i < s.len() ==> #[trigger] s[i] != '_'
}

proof fn lemma_capitalized_no_underscore(w: Seq<char>)
    requires
        lower_word(w),
    ensures
        no_underscore(capitalized(w)),
        capitalized(w).len() == w.len(),
        'A' <= capitalized(w)[0] <= 'Z',
{
    let c = capitalized(w);
    assert forall|i: int| 0 <= i < c.len() implies #[trigger] c[i] != '_' by {
        if i > 0 {
            assert(c[i] == w[i]);
        }
    }
}

proof fn lemma_concat_no_underscore(a: Seq<char>, b: Seq<char>)
    requires
        no_underscore(a),
        no_underscore(b),
    ensures
        no_underscore(a + b),
{
    assert forall|i: int| 0 <= i < (a + b).len() implies #[trigger] (a + b)[i] != '_' by {
        if i < a.len() {
            assert((a + b)[i] == a[i]);
        } else {
            assert((a + b)[i] == b[i - a.len()]);
        }
    }
}

/// The camel case of snake_case words leaves no underscore, keeps the first
/// word as it is, and is one character shorter per underscore it drops.
pub proof fn law_camel_words_drop_underscores(ws: Seq<Seq<char>>)
    requires
        snake_words(ws),
    ensures
        no_underscore(camel_words(ws)),
        camel_words(ws).len() + ws.len() - 1 == underscore_joined(ws).len(),
        camel_words(ws).len() >= ws[0].len(),
        camel_words(ws).take(ws[0].len() as int) == ws[0],
    decreases ws.len(),
{
    if ws.len() > 1 {
        let init = ws.drop_last();
        assert(snake_words(init)) by {
            assert forall|i: int| 0 <= i < init.len() implies lower_word(#[trigger] init[i]) by {
                assert(init[i] == ws[i]);
            }
        }
        law_camel_words_drop_underscores(init);
        assert(lower_word(ws[ws.len() - 1]));
        lemma_capitalized_no_underscore(ws.last());
        lemma_concat_no_underscore(camel_words(init), capitalized(ws.last()));
        assert(init[0] == ws[0]);
        let k = ws[0].len() as int;
        assert(camel_words(ws) == camel_words(init) + capitalized(ws.last()));
        assert(camel_words(ws).take(k) =~= camel_words(init).take(k));
    } else {
        assert(lower_word(ws[0]));
        assert forall|i: int| 0 <= i < ws[0].len() implies #[trigger] ws[0][i] != '_' by {
            assert('a' <= ws[0][i] <= 'z');
        }
        assert(camel_words(ws).take(ws[0].len() as int) =~= ws[0]);
    }
}

/// The Pascal case of snake_case words leaves no underscore, starts with an
/// upper-case letter, and is one character shorter per underscore it drops.
pub proof fn law_pascal_words_drop_underscores(ws: Seq<Seq<char>>)
    requires
        snake_words(ws),
    ensures
        no_underscore(pascal_words(ws)),
        pascal_words(ws).len() + ws.len() - 1 == underscore_joined(ws).len(),
        'A' <= pascal_words(ws)[0] <= 'Z',
    decreases ws.len(),
{
    let init = ws.drop_last();
    assert(lower_word(ws[ws.len() - 1]));
    lemma_capitalized_no_underscore(ws.last());
    if ws.len() > 1 {
        assert(snake_words(init)) by {
            assert forall|i: int| 0 <= i < init.len() implies lower_word(#[trigger] init[i]) by {
                assert(init[i] == ws[i]);
            }
        }
        law_pascal_words_drop_underscores(init);
        lemma_concat_no_underscore(pascal_words(init), capitalized(ws.last()));
    } else {
        assert(pascal_words(init) =~= seq![]);
        assert(pascal_words(ws) =~= capitalized(ws.last()));
    }
}

/// An invokable made of a method named in snake case, `w1_w2_..._wn`, is named
/// in C++ by the camel case of those words (`say_hello_world` gives
/// `sayHelloWorld`, with no underscore left) and in Rust by the method's own
/// name.
pub proof fn law_invokable_names_of_snake_words(m: ImplItemMethod, inv: Invokable, ws: Seq<Seq<char>>)
    requires
        invokable_of(m, inv),
        snake_words(ws),
        underscore_joined(ws) == m.ident.name@,
    ensures
        inv.ident.cpp_ident.name@ == camel_words(ws),
        no_underscore(inv.ident.cpp_ident.name@),
        inv.ident.rust_ident.name@ == m.ident.name@,
{
    law_camel_words_drop_underscores(ws);
}

/// A property made of a field named in snake case, `w1_w2_..._wn`, is named in
/// C++ by the camel case of those words, its getter and setter by `get` and
/// `set` and the Pascal case of the words (`my_long_value` gives
/// `getMyLongValue` and `setMyLongValue`), and its notify signal by the camel
/// case and `Changed`, with no underscore in any of them; in Rust the property,
/// its getter and its notify signal are named by the field's name, and its
/// setter by `set_` and that name.
pub proof fn law_property_names_of_snake_words(f: Field, p: Property, ws: Seq<Seq<char>>)
    requires
        property_of(f, p),
        snake_words(ws),
        underscore_joined(ws) == f.ident->Some_0.name@,
    ensures
        ({
            let name = f.ident->Some_0.name@;
            &&& p.ident.cpp_ident.name@ == camel_words(ws)
            &&& p.getter->Some_0.cpp_ident.name@ == "get"@ + pascal_words(ws)
            &&& p.setter->Some_0.cpp_ident.name@ == "set"@ + pascal_words(ws)
            &&& p.notify->Some_0.cpp_ident.name@ == camel_words(ws) + "Changed"@
            &&& no_underscore(camel_words(ws))
            &&& no_underscore(pascal_words(ws))
            &&& p.ident.rust_ident.name@ == name
            &&& p.getter->Some_0.rust_ident.name@ == name
            &&& p.setter->Some_0.rust_ident.name@ == "set_"@ + name
            &&& p.notify->Some_0.rust_ident.name@ == name
        }),
{
    law_camel_words_drop_underscores(ws);
    law_pascal_words_drop_underscores(ws);
}

} // verus!

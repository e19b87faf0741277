//! The description of the QObject that a module declares.
use crate::checks::{first_failure, lemma_first_failure_stays};
use crate::errors::{CompileError, ErrorMessage, Failure, converts};
use crate::invokables::{
    Invokable, invokables_failure, invokables_of, invokables_or_failure, item_invokable_of,
};
use crate::properties::{
    Property, properties_failure, properties_of, properties_or_failure,
};
use crate::syntax::{
    Ident, ImplItem, Item, ItemImpl, ItemMod, ItemStruct, ItemUse, Path, PathSegment, SynType,
    TypePath, duplicate_impl_items, duplicate_optional_path, same_arguments, same_impl_items,
    same_optional_path, same_struct,
};
use crate::text::{join, unraw, unraw_text};
use vstd::prelude::*;

verus! {

/// Describes all the properties of a QObject class
#[derive(Debug)]
pub struct QObject {
    /// The ident of the declared struct and name of the C++ class that represents the QObject
    pub ident: Ident,
    /// The ident of the new Rust struct that will be generated and will form the internals of the QObject
    pub rust_struct_ident: Ident,
    /// The ident of the new Rust wrapper that will be generated and will provide a nice interface to the CppObject
    pub rust_wrapper_ident: Ident,
    /// All the methods that can be invoked from QML
    pub invokables: Vec<Invokable>,
    /// All the properties that can be used from QML
    pub properties: Vec<Property>,
    /// The Rust mod that the QObject was read from
    pub original_mod: ItemMod,
    /// The Rust struct that the object was generated from
    pub original_struct: ItemStruct,
    /// The Rust trait impls for the struct, now for the generated Rust struct
    pub original_trait_impls: Vec<ItemImpl>,
    /// The Rust use declarations from the mod
    pub original_use_decls: Vec<ItemUse>,
}

/// The items of a module with a body.
pub open spec fn module_items(m: ItemMod) -> Seq<Item> {
    m.content->Some_0@
}

/// The check that finds the structs among `items`: it "fails" at a struct with
/// its index, so that the first failure is the first struct.
pub open spec fn struct_check(items: Seq<Item>) -> spec_fn(int) -> Option<int> {
    |i: int|
        if items[i] is Struct {
            Some(i)
        } else {
            None
        }
}

/// The index of the first struct among the first `n` items.
pub open spec fn first_struct(items: Seq<Item>, n: nat) -> Option<int> {
    first_failure(n, struct_check(items))
}

/// Where an impl block after the struct named `struct_name` fails: its type
/// must be the struct; an inherent impl must hold methods that can be invoked.
pub open spec fn impl_failure(imp: ItemImpl, struct_name: Seq<char>) -> Option<Failure> {
    match imp.self_ty {
        SynType::Path(tp) => {
            let segs = tp.path.segments@;
            if segs.len() != 1 {
                Some(
                    Failure::Reported(
                        CompileError { span: imp.span, message: ErrorMessage::InvalidImplPath },
                    ),
                )
            } else if segs[0].ident.name@ != struct_name {
                Some(
                    Failure::Reported(
                        CompileError {
                            span: segs[0].ident.span,
                            message: ErrorMessage::ImplMismatch,
                        },
                    ),
                )
            } else if imp.trait_ is None {
                invokables_failure(imp.items@)
            } else {
                None
            }
        },
        _ => Some(
            Failure::Reported(
                CompileError { span: imp.span, message: ErrorMessage::ExpectedTypePath },
            ),
        ),
    }
}

/// The check of the `i`-th item of a module: one struct; impl blocks after it;
/// use declarations anywhere; nothing else.
pub open spec fn item_check(items: Seq<Item>) -> spec_fn(int) -> Option<Failure> {
    |i: int|
        {
            let seen = first_struct(items, i as nat);
            match items[i] {
                Item::Struct(s) => if seen is Some {
                    Some(
                        Failure::Reported(
                            CompileError { span: s.span, message: ErrorMessage::OnlyOneStruct },
                        ),
                    )
                } else {
                    None
                },
                Item::Impl(imp) => match seen {
                    None => Some(
                        Failure::Reported(
                            CompileError {
                                span: imp.span,
                                message: ErrorMessage::ImplBeforeStruct,
                            },
                        ),
                    ),
                    Some(k) => impl_failure(imp, items[k]->Struct_0.ident.name@),
                },
                Item::Use(_) => None,
                Item::Other(span) => Some(
                    Failure::Reported(CompileError { span, message: ErrorMessage::UnsupportedItem }),
                ),
            }
        }
}

/// The struct of a module: its first struct.
pub open spec fn module_struct(items: Seq<Item>) -> ItemStruct {
    items[first_struct(items, items.len())->Some_0]->Struct_0
}

/// Where a module fails: at its first item that fails, else at the first
/// field of its struct that fails.
pub open spec fn qobject_failure(m: ItemMod) -> Option<Failure> {
    let items = module_items(m);
    match first_failure(items.len(), item_check(items)) {
        Some(e) => Some(e),
        None => properties_failure(module_struct(items)),
    }
}

/// The items of the inherent impl blocks (`impl Struct`) among `items`, in order.
pub open spec fn inherent_items(items: Seq<Item>) -> Seq<ImplItem>
    decreases items.len(),
{
    if items.len() == 0 {
        seq![]
    } else {
        let rest = inherent_items(items.drop_last());
        match items.last() {
            Item::Impl(imp) => if imp.trait_ is None {
                rest + imp.items@
            } else {
                rest
            },
            _ => rest,
        }
    }
}

/// The trait impl blocks (`impl Trait for Struct`) among `items`, in order.
pub open spec fn trait_impls(items: Seq<Item>) -> Seq<ItemImpl>
    decreases items.len(),
{
    if items.len() == 0 {
        seq![]
    } else {
        let rest = trait_impls(items.drop_last());
        match items.last() {
            Item::Impl(imp) => if imp.trait_ is Some {
                rest.push(imp)
            } else {
                rest
            },
            _ => rest,
        }
    }
}

/// The use declarations among `items`, in order.
pub open spec fn use_decls(items: Seq<Item>) -> Seq<ItemUse>
    decreases items.len(),
{
    if items.len() == 0 {
        seq![]
    } else {
        let rest = use_decls(items.drop_last());
        match items.last() {
            Item::Use(u) => rest.push(u),
            _ => rest,
        }
    }
}

/// The text of an identifier formatted from the identifier text `name` and `suffix`.
pub open spec fn suffixed(name: Seq<char>, suffix: Seq<char>) -> Seq<char> {
    unraw(name) + suffix
}

/// `new` is the impl block `orig`, of the type `Struct`, for the type `StructRs`.
pub open spec fn renamed_impl(orig: ItemImpl, new: ItemImpl) -> bool {
    &&& same_optional_path(new.trait_, orig.trait_)
    &&& same_impl_items(new.items@, orig.items@)
    &&& new.span == orig.span
    &&& match orig.self_ty {
        SynType::Path(op) => match new.self_ty {
            SynType::Path(np) => {
                let os = op.path.segments@[0];
                let ns = np.path.segments@[0];
                &&& np.span == op.span
                &&& np.path.segments@.len() == 1
                &&& ns.span == os.span
                &&& same_arguments(ns.arguments, os.arguments)
                &&& ns.ident.name@ == suffixed(os.ident.name@, "Rs"@)
                &&& ns.ident.span == os.ident.span
            },
            _ => false,
        },
        _ => false,
    }
}

/// `impls` are the impl blocks `orig`, each for the renamed type.
pub open spec fn renamed_impls(orig: Seq<ItemImpl>, impls: Seq<ItemImpl>) -> bool {
    &&& impls.len() == orig.len()
    &&& forall|i: int|
        #![trigger impls[i]]
        0 <= i < orig.len() ==> renamed_impl(orig[i], impls[i])
}

/// `q` describes the module `m`.
pub open spec fn qobject_of(m: ItemMod, q: QObject) -> bool {
    let items = module_items(m);
    let s = module_struct(items);
    &&& q.ident == s.ident
    &&& q.rust_struct_ident.name@ == suffixed(s.ident.name@, "Rs"@)
    &&& q.rust_struct_ident.span == s.ident.span
    &&& q.rust_wrapper_ident.name@ == suffixed(s.ident.name@, "Wrapper"@)
    &&& q.rust_wrapper_ident.span == s.ident.span
    &&& invokables_of(inherent_items(items), q.invokables@)
    &&& properties_of(s, q.properties@)
    &&& q.original_mod == m
    &&& same_struct(q.original_struct, s)
    &&& renamed_impls(trait_impls(items), q.original_trait_impls@)
    &&& q.original_use_decls@ == use_decls(items)
}

/// A module that extraction can describe or report: it has a body, and not
/// only use declarations in it.
pub open spec fn extractable(m: ItemMod) -> bool {
    &&& m.content is Some
    &&& exists|i: int|
        0 <= i < module_items(m).len() && !(#[trigger] module_items(m)[i] is Use)
}

proof fn lemma_invokables_append(
    a: Seq<ImplItem>,
    x: Seq<Invokable>,
    b: Seq<ImplItem>,
    y: Seq<Invokable>,
)
    requires
        invokables_of(a, x),
        invokables_of(b, y),
    ensures
        invokables_of(a + b, x + y),
{
    assert forall|i: int| 0 <= i < (a + b).len() implies item_invokable_of(
        (a + b)[i],
        #[trigger] (x + y)[i],
    ) by {
        if i >= a.len() {
            assert((a + b)[i] == b[i - a.len()]);
            assert((x + y)[i] == y[i - x.len()]);
        }
    }
}

/// The identifier formatted from `ident` and `suffix`, at the span of `ident`.
fn suffixed_ident(ident: &Ident, suffix: &str) -> (r: Ident)
    ensures
        r.name@ == suffixed(ident.name@, suffix@),
        r.span == ident.span,
{
    let fragment = unraw_text(ident.name.as_str());
    Ident { name: join(fragment.as_str(), suffix), span: ident.span }
}

/// The impl block `imp` for the type `StructRs` in place of `Struct`.
fn rename_impl(imp: &ItemImpl) -> (r: ItemImpl)
    requires
        imp.self_ty matches SynType::Path(tp) && tp.path.segments@.len() == 1,
    ensures
        renamed_impl(*imp, r),
{
    let self_ty = match &imp.self_ty {
        SynType::Path(tp) => {
            let seg = &tp.path.segments[0];
            let mut segments: Vec<PathSegment> = Vec::new();
            segments.push(
                PathSegment {
                    ident: suffixed_ident(&seg.ident, "Rs"),
                    arguments: seg.arguments.duplicate(),
                    span: seg.span,
                },
            );
            SynType::Path(TypePath { path: Path { segments }, span: tp.span })
        },
        _ => vstd::pervasive::unreached(),
    };
    ItemImpl {
        self_ty,
        trait_: duplicate_optional_path(&imp.trait_),
        items: duplicate_impl_items(&imp.items),
        span: imp.span,
    }
}

/// Describes the QObject of a module, or says where the module fails.
pub(crate) fn qobject_or_failure(module: ItemMod) -> (r: Result<QObject, Failure>)
    requires
        extractable(module),
    ensures
        match r {
            Ok(q) => qobject_failure(module) is None && qobject_of(module, q),
            Err(f) => qobject_failure(module) == Some(f),
        },
{
    let ghost m = module;
    let ident: Ident;
    let rust_struct_ident: Ident;
    let rust_wrapper_ident: Ident;
    let mut object_invokables: Vec<Invokable> = Vec::new();
    let object_properties: Vec<Property>;
    let original_struct: ItemStruct;
    let mut original_trait_impls: Vec<ItemImpl> = Vec::new();
    let mut original_use_decls: Vec<ItemUse> = Vec::new();
    {
        let items = match &module.content {
            Some(items) => items,
            None => vstd::pervasive::unreached(),
        };
        let ghost all = items@;
        let ghost check = item_check(all);
        let ghost structs = struct_check(all);
        // The index of the struct once one is found
        let mut struct_index: Option<usize> = None;
        let n = items.len();
        for i in 0..n
            invariant
                n == all.len(),
                all == items@,
                all == module_items(m),
                m == module,
                extractable(m),
                check == item_check(all),
                structs == struct_check(all),
                first_failure(i as nat, check) is None,
                match struct_index {
                    Some(k) => first_failure(i as nat, structs) == Some(k as int) && k < i
                        && all[k as int] is Struct,
                    None => first_failure(i as nat, structs) is None && forall|j: int|
                        0 <= j < i ==> #[trigger] all[j] is Use,
                },
                invokables_of(inherent_items(all.take(i as int)), object_invokables@),
                renamed_impls(trait_impls(all.take(i as int)), original_trait_impls@),
                original_use_decls@ == use_decls(all.take(i as int)),
        {
            proof {
                assert(all.take(i + 1).drop_last() =~= all.take(i as int));
            }
            match &items[i] {
                // We are a struct
                Item::Struct(s) => {
                    // Check that we are the first struct
                    if struct_index.is_none() {
                        struct_index = Some(i);
                    } else {
                        let e = Failure::Reported(
                            CompileError { span: s.span, message: ErrorMessage::OnlyOneStruct },
                        );
                        proof {
                            lemma_first_failure_stays(check, (i + 1) as nat, n as nat);
                        }
                        return Err(e);
                    }
                },
                // We are an impl
                Item::Impl(original_impl) => {
                    // Ensure that the struct block has already happened
                    let k = match struct_index {
                        Some(k) => k,
                        None => {
                            let e = Failure::Reported(CompileError {
                                span: original_impl.span,
                                message: ErrorMessage::ImplBeforeStruct,
                            });
                            proof {
                                lemma_first_failure_stays(check, (i + 1) as nat, n as nat);
                            }
                            return Err(e);
                        },
                    };
                    let struct_ident = match &items[k] {
                        Item::Struct(s) => &s.ident,
                        _ => vstd::pervasive::unreached(),
                    };
                    // Extract the path from the type (this leads to the struct name)
                    if let SynType::Path(tp) = &original_impl.self_ty {
                        // Check that the path contains segments
                        if tp.path.segments.len() != 1 {
                            let e = Failure::Reported(CompileError {
                                span: original_impl.span,
                                message: ErrorMessage::InvalidImplPath,
                            });
                            proof {
                                lemma_first_failure_stays(check, (i + 1) as nat, n as nat);
                            }
                            return Err(e);
                        }
                        // Retrieve the impl struct name and check it's the same as the declared struct
                        let impl_ident = &tp.path.segments[0].ident;
                        if !(impl_ident.name == struct_ident.name) {
                            let e = Failure::Reported(CompileError {
                                span: impl_ident.span,
                                message: ErrorMessage::ImplMismatch,
                            });
                            proof {
                                lemma_first_failure_stays(check, (i + 1) as nat, n as nat);
                            }
                            return Err(e);
                        }
                        // Check if this impl is a impl or impl Trait
                        if original_impl.trait_.is_none() {
                            // Add invokables if this is just an impl block
                            match invokables_or_failure(original_impl.items.as_slice()) {
                                Ok(mut invokables) => {
                                    proof {
                                        lemma_invokables_append(
                                            inherent_items(all.take(i as int)),
                                            object_invokables@,
                                            original_impl.items@,
                                            invokables@,
                                        );
                                    }
                                    object_invokables.append(&mut invokables);
                                },
                                Err(e) => {
                                    proof {
                                        lemma_first_failure_stays(
                                            check,
                                            (i + 1) as nat,
                                            n as nat,
                                        );
                                    }
                                    return Err(e);
                                },
                            }
                        } else {
                            // We are a impl trait so rename the struct and add to vec
                            original_trait_impls.push(rename_impl(original_impl));
                        }
                    } else {
                        let e = Failure::Reported(CompileError {
                            span: original_impl.span,
                            message: ErrorMessage::ExpectedTypePath,
                        });
                        proof {
                            lemma_first_failure_stays(check, (i + 1) as nat, n as nat);
                        }
                        return Err(e);
                    }
                },
                // We are a use so pass to use declaration list
                Item::Use(u) => {
                    original_use_decls.push(*u);
                },
                Item::Other(span) => {
                    let e = Failure::Reported(
                        CompileError { span: *span, message: ErrorMessage::UnsupportedItem },
                    );
                    proof {
                        lemma_first_failure_stays(check, (i + 1) as nat, n as nat);
                    }
                    return Err(e);
                },
            }
        }
        proof {
            assert(all.take(n as int) =~= all);
        }
        // A module of use declarations only has no struct
        let k = match struct_index {
            Some(k) => k,
            None => {
                proof {
                    let j = choose|j: int| 0 <= j < all.len() && !(#[trigger] all[j] is Use);
                    assert(all[j] is Use);
                }
                vstd::pervasive::unreached()
            },
        };
        let s = match &items[k] {
            Item::Struct(s) => s,
            _ => vstd::pervasive::unreached(),
        };
        // Read properties from the struct
        object_properties = properties_or_failure(s)?;
        ident = s.ident.duplicate();
        rust_struct_ident = suffixed_ident(&s.ident, "Rs");
        rust_wrapper_ident = suffixed_ident(&s.ident, "Wrapper");
        original_struct = s.duplicate();
    }
    Ok(
        QObject {
            ident,
            rust_struct_ident,
            rust_wrapper_ident,
            invokables: object_invokables,
            properties: object_properties,
            original_mod: module,
            original_struct,
            original_trait_impls,
            original_use_decls,
        },
    )
}

/// Parses a module in order to extract a QObject description from it
pub fn extract_qobject(module: ItemMod) -> (r: Result<QObject, CompileError>)
    requires
        extractable(module),
        converts(qobject_failure(module)),
    ensures
        match r {
            Ok(q) => qobject_failure(module) is None && qobject_of(module, q),
            Err(e) => qobject_failure(module) == Some(Failure::Reported(e)),
        },
{
    match qobject_or_failure(module) {
        Ok(q) => Ok(q),
        Err(Failure::Reported(e)) => Err(e),
        Err(Failure::Unconvertible(_)) => vstd::pervasive::unreached(),
    }
}

/// [`extract_qobject`] where no name on which case conversion would panic is
/// reached; `None` where one is.
pub fn try_extract_qobject(module: ItemMod) -> (r: Option<Result<QObject, CompileError>>)
    requires
        extractable(module),
    ensures
        r is None <==> !converts(qobject_failure(module)),
        r matches Some(Ok(q)) ==> qobject_failure(module) is None && qobject_of(module, q),
        r matches Some(Err(e)) ==> qobject_failure(module) == Some(Failure::Reported(e)),
{
    match qobject_or_failure(module) {
        Ok(q) => Some(Ok(q)),
        Err(Failure::Reported(e)) => Some(Err(e)),
        Err(Failure::Unconvertible(_)) => None,
    }
}

} // verus!

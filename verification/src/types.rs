//! Reading the Qt type of a parameter, return value or property from its Rust type.
use crate::checks::{first_failure, lemma_first_failure_stays};
use crate::syntax::{
    GenericArgument, Ident, Path, PathArguments, PathSegment, Span, SynType, TypePath, same_type,
};
use crate::text::text_is;
use vstd::prelude::*;

verus! {

/// Describes a Qt type
#[derive(Debug)]
pub enum QtTypes {
    I32,
    Pin {
        /// Cache of the last type_idents as a str for C++ to reference
        ident_str: String,
        /// Whether the inner type of this Pin is mut
        is_mut: bool,
        /// Whether the inner type of this Pin is the current type, and therefore "this" in C++
        is_this: bool,
        /// The ident of the inner type (eg the T of Pin<T>)
        type_idents: Vec<Ident>,
    },
    Ptr {
        /// Cache of the last type ident as a str for C++ to reference
        ident_str: String,
    },
    String,
    Str,
}

/// A Qt type with its texts and lists as sequences.
pub enum QtTypeView {
    I32,
    Pin { ident_str: Seq<char>, is_mut: bool, is_this: bool, type_idents: Seq<Ident> },
    Ptr { ident_str: Seq<char> },
    String,
    Str,
}

impl View for QtTypes {
    type V = QtTypeView;

    open spec fn view(&self) -> QtTypeView {
        match self {
            QtTypes::I32 => QtTypeView::I32,
            QtTypes::Pin { ident_str, is_mut, is_this, type_idents } => QtTypeView::Pin {
                ident_str: ident_str@,
                is_mut: *is_mut,
                is_this: *is_this,
                type_idents: type_idents@,
            },
            QtTypes::Ptr { ident_str } => QtTypeView::Ptr { ident_str: ident_str@ },
            QtTypes::String => QtTypeView::String,
            QtTypes::Str => QtTypeView::Str,
        }
    }
}

/// Describes a type
#[derive(Debug)]
pub struct ParameterType {
    /// The type of the parameter
    pub idents: Vec<Ident>,
    /// If this parameter is a reference
    pub is_ref: bool,
    /// The type as written, so that an error can later be annotated with its span
    pub original_ty: SynType,
    /// The detected Qt type of the parameter
    pub qt_type: QtTypes,
}

/// Why a type could not be read, and where.
#[derive(Clone, Copy, Debug, PartialEq, Eq, Structural)]
pub enum ExtractTypeIdentError {
    /// We do not support AngleBracketed or Parenthesized rust types
    InvalidArguments(Span),
    /// This is not a valid rust type
    InvalidType(Span),
    /// There are no idents in the type
    IdentEmpty(Span),
    /// There are multiple idents but didn't start with crate::
    UnknownAndNotCrate(Span),
    /// There is one ident but it's unknown to our converters
    UnknownIdent(Span),
    /// There is a Pin<T> but the T is unknown to our converters
    UnknownPinType(Span),
}

/// A path of several segments that starts with `crate` (such as
/// `crate::module::Type`): a pointer to a type of the crate.
pub open spec fn is_crate_path(idents: Seq<Ident>) -> bool {
    idents.len() > 1 && idents[0].name@ == "crate"@
}

/// The Qt type named by the segments `idents` of a type whose span is `ty_span`.
pub open spec fn spec_qt_type(idents: Seq<Ident>, ty_span: Span) -> Result<
    QtTypeView,
    ExtractTypeIdentError,
> {
    if idents.len() == 0 {
        Err(ExtractTypeIdentError::IdentEmpty(ty_span))
    } else if idents.len() == 1 {
        let name = idents[0].name@;
        if name == "str"@ {
            Ok(QtTypeView::Str)
        } else if name == "String"@ {
            Ok(QtTypeView::String)
        } else if name == "i32"@ {
            Ok(QtTypeView::I32)
        } else {
            Err(ExtractTypeIdentError::UnknownIdent(idents[0].span))
        }
    } else if is_crate_path(idents) {
        Ok(QtTypeView::Ptr { ident_str: idents.last().name@ })
    } else {
        Err(ExtractTypeIdentError::UnknownAndNotCrate(idents[0].span))
    }
}

/// Whether the idents of a type are a pointer to a type of the crate.
pub fn is_type_ident_ptr(idents: &[Ident]) -> (r: bool)
    ensures
        r == is_crate_path(idents@),
{
    idents.len() > 1 && text_is(&idents[0].name, "crate")
}

/// Extract the Qt type from a list of Ident's
pub fn extract_qt_type(idents: &[Ident], original_ty: &SynType) -> (r: Result<
    QtTypes,
    ExtractTypeIdentError,
>)
    ensures
        match r {
            Ok(q) => spec_qt_type(idents@, original_ty.span_of()) == Ok::<
                QtTypeView,
                ExtractTypeIdentError,
            >(q@),
            Err(e) => spec_qt_type(idents@, original_ty.span_of()) == Err::<
                QtTypeView,
                ExtractTypeIdentError,
            >(e),
        },
{
    if idents.len() == 0 {
        Err(ExtractTypeIdentError::IdentEmpty(type_span(original_ty)))
    } else if idents.len() == 1 {
        let name = &idents[0].name;
        if text_is(name, "str") {
            Ok(QtTypes::Str)
        } else if text_is(name, "String") {
            Ok(QtTypes::String)
        } else if text_is(name, "i32") {
            Ok(QtTypes::I32)
        } else {
            Err(ExtractTypeIdentError::UnknownIdent(idents[0].span))
        }
    } else if is_type_ident_ptr(idents) {
        Ok(QtTypes::Ptr { ident_str: idents[idents.len() - 1].name.clone() })
    } else {
        Err(ExtractTypeIdentError::UnknownAndNotCrate(idents[0].span))
    }
}

/// The span of a whole type.
pub fn type_span(ty: &SynType) -> (r: Span)
    ensures
        r == ty.span_of(),
{
    match ty {
        SynType::Path(p) => p.span,
        SynType::Reference(r) => r.span,
        SynType::Other(s) => *s,
    }
}

pub open spec fn is_bare(seg: PathSegment) -> bool {
    seg.arguments is Bare
}

/// The check of the `i`-th segment of a path: it must have no arguments.
pub open spec fn segment_check(segs: Seq<PathSegment>) -> spec_fn(int) -> Option<
    ExtractTypeIdentError,
> {
    |i: int|
        if is_bare(segs[i]) {
            None
        } else {
            Some(ExtractTypeIdentError::InvalidArguments(segs[i].span))
        }
}

/// The idents of the segments of a path, or the error for its first segment
/// with arguments.
pub open spec fn spec_path_to_idents(segs: Seq<PathSegment>) -> Result<
    Seq<Ident>,
    ExtractTypeIdentError,
> {
    match first_failure(segs.len(), segment_check(segs)) {
        Some(e) => Err(e),
        None => Ok(segs.map_values(|s: PathSegment| s.ident)),
    }
}

/// Converts a given path to a vector of idents
pub fn path_to_idents(path: &Path) -> (r: Result<Vec<Ident>, ExtractTypeIdentError>)
    ensures
        match r {
            Ok(v) => spec_path_to_idents(path.segments@) == Ok::<
                Seq<Ident>,
                ExtractTypeIdentError,
            >(v@),
            Err(e) => spec_path_to_idents(path.segments@) == Err::<
                Seq<Ident>,
                ExtractTypeIdentError,
            >(e),
        },
{
    let ghost check = segment_check(path.segments@);
    let mut out: Vec<Ident> = Vec::new();
    let n = path.segments.len();
    for i in 0..n
        invariant
            n == path.segments@.len(),
            check == segment_check(path.segments@),
            first_failure(i as nat, check) is None,
            out@.len() == i,
            forall|j: int| 0 <= j < i ==> #[trigger] out@[j] == path.segments@[j].ident,
    {
        let segment = &path.segments[i];
        match &segment.arguments {
            PathArguments::Bare => {
                out.push(segment.ident.duplicate());
            },
            _ => {
                let e = ExtractTypeIdentError::InvalidArguments(segment.span);
                proof {
                    assert(first_failure((i + 1) as nat, check) == Some(e));
                    lemma_first_failure_stays(check, (i + 1) as nat, n as nat);
                }
                return Err(e);
            },
        }
    }
    assert(out@ =~= path.segments@.map_values(|s: PathSegment| s.ident));
    Ok(out)
}

/// The path of a type that is a path, or a reference to a path (then `true`).
pub open spec fn referenced_path(ty: SynType) -> Option<(TypePath, bool)> {
    match ty {
        SynType::Path(p) => Some((p, false)),
        SynType::Reference(r) => match *r.elem {
            SynType::Path(p) => Some((p, true)),
            _ => None,
        },
        SynType::Other(_) => None,
    }
}

/// A segment `Pin<..>` with a single generic argument.
pub open spec fn is_pin_segment(seg: PathSegment) -> bool {
    &&& seg.ident.name@ == "Pin"@
    &&& seg.arguments matches PathArguments::AngleBracketed(a) && a.args@.len() == 1
}

/// The path `T` of the argument of a segment `Pin<&T>` or `Pin<&mut T>`, and
/// whether the reference is mutable.
pub open spec fn pin_inner(seg: PathSegment) -> Option<(TypePath, bool)> {
    match seg.arguments {
        PathArguments::AngleBracketed(a) => match a.args@[0] {
            GenericArgument::Type(SynType::Reference(r)) => match *r.elem {
                SynType::Path(p) => Some((p, r.mutability)),
                _ => None,
            },
            _ => None,
        },
        _ => None,
    }
}

/// What a type reads as: its idents, whether it is a reference, and its Qt type;
/// or why it cannot be read.
///
/// A type is a path `a::b::C`, or a reference `&a::b::C` to one. A path whose
/// first segment is `Pin<&T>` or `Pin<&mut T>` has the idents `[Pin]` and the Qt
/// type `Pin` that describes `T`. Any other path must have no generic arguments
/// and name a known type (`str`, `String`, `i32`) or a type of the crate.
pub open spec fn spec_type_ident(ty: SynType) -> Result<
    (Seq<Ident>, bool, QtTypeView),
    ExtractTypeIdentError,
> {
    match referenced_path(ty) {
        None => Err(ExtractTypeIdentError::InvalidType(ty.span_of())),
        Some((tp, is_ref)) => {
            let segs = tp.path.segments@;
            if segs.len() > 0 && is_pin_segment(segs[0]) {
                match pin_inner(segs[0]) {
                    None => Err(ExtractTypeIdentError::UnknownPinType(ty.span_of())),
                    Some((inner, is_mut)) => match spec_path_to_idents(inner.path.segments@) {
                        Err(e) => Err(e),
                        Ok(type_idents) => if type_idents.len() == 0 {
                            Err(ExtractTypeIdentError::UnknownPinType(ty.span_of()))
                        } else {
                            Ok(
                                (
                                    seq![segs[0].ident],
                                    is_ref,
                                    QtTypeView::Pin {
                                        ident_str: type_idents.last().name@,
                                        is_mut,
                                        is_this: type_idents[0].name@ == "CppObj"@,
                                        type_idents,
                                    },
                                ),
                            )
                        },
                    },
                }
            } else {
                match spec_path_to_idents(segs) {
                    Err(e) => Err(e),
                    Ok(idents) => match spec_qt_type(idents, ty.span_of()) {
                        Err(e) => Err(e),
                        Ok(q) => Ok((idents, is_ref, q)),
                    },
                }
            }
        },
    }
}

/// `p` is what `ty` reads as.
pub open spec fn parameter_type_of(ty: SynType, p: ParameterType) -> bool {
    &&& spec_type_ident(ty) == Ok::<(Seq<Ident>, bool, QtTypeView), ExtractTypeIdentError>(
        (p.idents@, p.is_ref, p.qt_type@),
    )
    &&& same_type(p.original_ty, ty)
}

/// Extract the type ident from a given type
pub fn extract_type_ident(ty: &SynType) -> (r: Result<ParameterType, ExtractTypeIdentError>)
    ensures
        match r {
            Ok(p) => parameter_type_of(*ty, p),
            Err(e) => spec_type_ident(*ty) == Err::<
                (Seq<Ident>, bool, QtTypeView),
                ExtractTypeIdentError,
            >(e),
        },
{
    let ty_path: &TypePath;
    let is_ref: bool;
    match ty {
        SynType::Path(p) => {
            is_ref = false;
            ty_path = p;
        },
        SynType::Reference(r) => {
            if let SynType::Path(p) = &*r.elem {
                is_ref = true;
                ty_path = p;
            } else {
                return Err(ExtractTypeIdentError::InvalidType(type_span(ty)));
            }
        },
        SynType::Other(s) => {
            return Err(ExtractTypeIdentError::InvalidType(*s));
        },
    }

    // Check if this type is a Pin<T>, if it is then attempt to extract it
    if ty_path.path.segments.len() > 0 {
        let segment = &ty_path.path.segments[0];
        if text_is(&segment.ident.name, "Pin") {
            if let PathArguments::AngleBracketed(a) = &segment.arguments {
                if a.args.len() == 1 {
                    let inner: &TypePath;
                    let is_mut: bool;
                    match &a.args[0] {
                        GenericArgument::Type(SynType::Reference(r)) => {
                            is_mut = r.mutability;
                            if let SynType::Path(p) = &*r.elem {
                                inner = p;
                            } else {
                                return Err(ExtractTypeIdentError::UnknownPinType(type_span(ty)));
                            }
                        },
                        _ => {
                            return Err(ExtractTypeIdentError::UnknownPinType(type_span(ty)));
                        },
                    }
                    let type_idents = path_to_idents(&inner.path)?;
                    if type_idents.len() == 0 {
                        // There was no T part of Pin<T>
                        return Err(ExtractTypeIdentError::UnknownPinType(type_span(ty)));
                    }
                    let ident_str = type_idents[type_idents.len() - 1].name.clone();
                    let is_this = text_is(&type_idents[0].name, "CppObj");
                    let qt_type = QtTypes::Pin { ident_str, is_mut, is_this, type_idents };
                    let mut idents: Vec<Ident> = Vec::new();
                    idents.push(segment.ident.duplicate());
                    proof {
                        assert(idents@ =~= seq![segment.ident]);
                    }
                    return Ok(ParameterType { idents, is_ref, original_ty: ty.duplicate(), qt_type });
                }
            }
        }
    }
    let idents = path_to_idents(&ty_path.path)?;
    let qt_type = extract_qt_type(idents.as_slice(), ty)?;
    Ok(ParameterType { idents, is_ref, original_ty: ty.duplicate(), qt_type })
}

} // verus!

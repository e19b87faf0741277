//! The part of a Rust syntax tree that the extraction reads or carries.
//!
//! Every node records a [`Span`]: the host numbers the nodes it converts, so that a
//! span both locates an error and finds the host's own node again.
use vstd::prelude::*;

verus! {

broadcast use vstd::std_specs::vec::group_vec_axioms;

/// Where a node stands: a node of the host's tree, or the call site of the macro
/// for identifiers that the extraction makes up.
#[derive(Clone, Copy, Debug, PartialEq, Eq, Structural)]
pub enum Span {
    CallSite,
    Node(u64),
}

/// An identifier, with its text as the host prints it (`r#` included for a raw one).
#[derive(Debug)]
pub struct Ident {
    pub name: String,
    pub span: Span,
}

/// A type: a path (`crate::a::B`, `Pin<&mut T>`), a reference to a type, or any
/// other kind of type, which the extraction only locates.
#[derive(Debug)]
pub enum SynType {
    Path(TypePath),
    Reference(TypeReference),
    Other(Span),
}

#[derive(Debug)]
pub struct TypePath {
    pub path: Path,
    pub span: Span,
}

#[derive(Debug)]
pub struct TypeReference {
    pub mutability: bool,
    pub elem: Box<SynType>,
    pub span: Span,
}

#[derive(Debug)]
pub struct Path {
    pub segments: Vec<PathSegment>,
}

#[derive(Debug)]
pub struct PathSegment {
    pub ident: Ident,
    pub arguments: PathArguments,
    pub span: Span,
}

/// The arguments of a path segment: none, `<..>`, or `(..) -> ..`.
#[derive(Debug)]
pub enum PathArguments {
    Bare,
    AngleBracketed(AngleBracketedArguments),
    Parenthesized(Span),
}

#[derive(Debug)]
pub struct AngleBracketedArguments {
    pub args: Vec<GenericArgument>,
    pub span: Span,
}

/// A generic argument: a type, or anything else (lifetime, constant, binding).
#[derive(Debug)]
pub enum GenericArgument {
    Type(SynType),
    Other(Span),
}

/// A function parameter: `self` in one of its short forms, or `pattern: Type`.
#[derive(Debug)]
pub enum FnArg {
    Receiver(Span),
    Typed(PatType),
}

#[derive(Debug)]
pub struct PatType {
    pub pat: Pat,
    pub ty: SynType,
    pub span: Span,
}

/// A parameter pattern: a plain identifier, or any other pattern.
#[derive(Debug)]
pub enum Pat {
    Ident(Ident),
    Other(Span),
}

/// A method of an impl block: its name, parameters and return type.
#[derive(Debug)]
pub struct ImplItemMethod {
    pub ident: Ident,
    pub inputs: Vec<FnArg>,
    pub output: Option<SynType>,
    pub span: Span,
}

/// An item of an impl block: a method, or any other item.
#[derive(Debug)]
pub enum ImplItem {
    Method(ImplItemMethod),
    Other(Span),
}

/// An impl block; `trait_` is the implemented trait of `impl Trait for Type`.
#[derive(Debug)]
pub struct ItemImpl {
    pub self_ty: SynType,
    pub trait_: Option<Path>,
    pub items: Vec<ImplItem>,
    pub span: Span,
}

#[derive(Debug)]
pub struct Field {
    pub ident: Option<Ident>,
    pub ty: SynType,
    pub span: Span,
}

#[derive(Debug)]
pub enum Fields {
    Named(Vec<Field>),
    Unnamed(Vec<Field>),
    Unit,
}

#[derive(Debug)]
pub struct ItemStruct {
    pub ident: Ident,
    pub fields: Fields,
    pub span: Span,
}

/// A use declaration, carried through unread.
#[derive(Clone, Copy, Debug, PartialEq, Eq, Structural)]
pub struct ItemUse {
    pub span: Span,
}

/// An item of a module.
#[derive(Debug)]
pub enum Item {
    Struct(ItemStruct),
    Impl(ItemImpl),
    Use(ItemUse),
    Other(Span),
}

/// A module; `content` is `None` for `mod name;` without a body.
#[derive(Debug)]
pub struct ItemMod {
    pub ident: Ident,
    pub content: Option<Vec<Item>>,
    pub span: Span,
}

impl SynType {
    /// The span of the whole type.
    pub open spec fn span_of(self) -> Span {
        match self {
            SynType::Path(p) => p.span,
            SynType::Reference(r) => r.span,
            SynType::Other(s) => s,
        }
    }
}

// Node-by-node equality of two trees (a `Vec` is compared by its elements).
pub open spec fn same_type(a: SynType, b: SynType) -> bool
    decreases a,
{
    match a {
        SynType::Path(pa) => match b {
            SynType::Path(pb) => pa.span == pb.span && same_path(pa.path, pb.path),
            _ => false,
        },
        SynType::Reference(ra) => match b {
            SynType::Reference(rb) => {
                &&& ra.mutability == rb.mutability
                &&& ra.span == rb.span
                &&& same_type(*ra.elem, *rb.elem)
            },
            _ => false,
        },
        SynType::Other(sa) => b == SynType::Other(sa),
    }
}

pub open spec fn same_path(a: Path, b: Path) -> bool
    decreases a,
{
    &&& a.segments@.len() == b.segments@.len()
    &&& forall|i: int|
        #![trigger a.segments@[i]]
        0 <= i < a.segments@.len() ==> same_segment(a.segments@[i], b.segments@[i])
}

pub open spec fn same_segment(a: PathSegment, b: PathSegment) -> bool
    decreases a,
{
    &&& a.ident == b.ident
    &&& a.span == b.span
    &&& same_arguments(a.arguments, b.arguments)
}

pub open spec fn same_arguments(a: PathArguments, b: PathArguments) -> bool
    decreases a,
{
    match a {
        PathArguments::Bare => b is Bare,
        PathArguments::AngleBracketed(aa) => match b {
            PathArguments::AngleBracketed(ab) => {
                &&& aa.span == ab.span
                &&& aa.args@.len() == ab.args@.len()
                &&& forall|i: int|
                    #![trigger aa.args@[i]]
                    0 <= i < aa.args@.len() ==> same_generic(aa.args@[i], ab.args@[i])
            },
            _ => false,
        },
        PathArguments::Parenthesized(sa) => b == PathArguments::Parenthesized(sa),
    }
}

pub open spec fn same_generic(a: GenericArgument, b: GenericArgument) -> bool
    decreases a,
{
    match a {
        GenericArgument::Type(ta) => match b {
            GenericArgument::Type(tb) => same_type(ta, tb),
            _ => false,
        },
        GenericArgument::Other(sa) => b == GenericArgument::Other(sa),
    }
}

pub open spec fn same_pat_type(a: PatType, b: PatType) -> bool {
    a.pat == b.pat && same_type(a.ty, b.ty) && a.span == b.span
}

pub open spec fn same_fn_arg(a: FnArg, b: FnArg) -> bool {
    match a {
        FnArg::Receiver(sa) => b == FnArg::Receiver(sa),
        FnArg::Typed(pa) => match b {
            FnArg::Typed(pb) => same_pat_type(pa, pb),
            _ => false,
        },
    }
}

pub open spec fn same_optional_type(a: Option<SynType>, b: Option<SynType>) -> bool {
    match a {
        Some(ta) => match b {
            Some(tb) => same_type(ta, tb),
            None => false,
        },
        None => b is None,
    }
}

pub open spec fn same_method(a: ImplItemMethod, b: ImplItemMethod) -> bool {
    &&& a.ident == b.ident
    &&& a.inputs@.len() == b.inputs@.len()
    &&& forall|i: int|
        #![trigger a.inputs@[i]]
        0 <= i < a.inputs@.len() ==> same_fn_arg(a.inputs@[i], b.inputs@[i])
    &&& same_optional_type(a.output, b.output)
    &&& a.span == b.span
}

pub open spec fn same_impl_item(a: ImplItem, b: ImplItem) -> bool {
    match a {
        ImplItem::Method(ma) => match b {
            ImplItem::Method(mb) => same_method(ma, mb),
            _ => false,
        },
        ImplItem::Other(sa) => b == ImplItem::Other(sa),
    }
}

pub open spec fn same_impl_items(a: Seq<ImplItem>, b: Seq<ImplItem>) -> bool {
    &&& a.len() == b.len()
    &&& forall|i: int| #![trigger a[i]] 0 <= i < a.len() ==> same_impl_item(a[i], b[i])
}

pub open spec fn same_optional_path(a: Option<Path>, b: Option<Path>) -> bool {
    match a {
        Some(pa) => match b {
            Some(pb) => same_path(pa, pb),
            None => false,
        },
        None => b is None,
    }
}


pub open spec fn same_field(a: Field, b: Field) -> bool {
    a.ident == b.ident && same_type(a.ty, b.ty) && a.span == b.span
}

pub open spec fn same_field_seq(a: Seq<Field>, b: Seq<Field>) -> bool {
    &&& a.len() == b.len()
    &&& forall|i: int| #![trigger a[i]] 0 <= i < a.len() ==> same_field(a[i], b[i])
}

pub open spec fn same_fields(a: Fields, b: Fields) -> bool {
    match a {
        Fields::Named(fa) => match b {
            Fields::Named(fb) => same_field_seq(fa@, fb@),
            _ => false,
        },
        Fields::Unnamed(fa) => match b {
            Fields::Unnamed(fb) => same_field_seq(fa@, fb@),
            _ => false,
        },
        Fields::Unit => b is Unit,
    }
}

pub open spec fn same_struct(a: ItemStruct, b: ItemStruct) -> bool {
    a.ident == b.ident && same_fields(a.fields, b.fields) && a.span == b.span
}



impl Ident {
    /// A copy of the identifier.
    pub fn duplicate(&self) -> (r: Ident)
        ensures
            r == *self,
    {
        Ident { name: self.name.clone(), span: self.span }
    }
}

impl SynType {
    /// A copy of the whole type tree.
    pub fn duplicate(&self) -> (r: SynType)
        ensures
            same_type(r, *self),
        decreases self,
    {
        match self {
            SynType::Path(p) => SynType::Path(TypePath { path: p.path.duplicate(), span: p.span }),
            SynType::Reference(r) => {
                let elem = r.elem.duplicate();
                SynType::Reference(
                    TypeReference { mutability: r.mutability, elem: Box::new(elem), span: r.span },
                )
            },
            SynType::Other(s) => SynType::Other(*s),
        }
    }
}

impl Path {
    pub fn duplicate(&self) -> (r: Path)
        ensures
            same_path(r, *self),
        decreases self,
    {
        let mut segments: Vec<PathSegment> = Vec::new();
        let n = self.segments.len();
        for i in 0..n
            invariant
                n == self.segments@.len(),
                segments@.len() == i,
                forall|j: int| 0 <= j < i ==> same_segment(#[trigger] segments@[j], self.segments@[j]),
        {
            segments.push(self.segments[i].duplicate());
        }
        Path { segments }
    }
}

impl PathSegment {
    pub fn duplicate(&self) -> (r: PathSegment)
        ensures
            same_segment(r, *self),
        decreases self,
    {
        PathSegment {
            ident: self.ident.duplicate(),
            arguments: self.arguments.duplicate(),
            span: self.span,
        }
    }
}

impl PathArguments {
    pub fn duplicate(&self) -> (r: PathArguments)
        ensures
            same_arguments(r, *self),
        decreases self,
    {
        match self {
            PathArguments::Bare => PathArguments::Bare,
            PathArguments::AngleBracketed(a) => {
                let mut args: Vec<GenericArgument> = Vec::new();
                let n = a.args.len();
                for i in 0..n
                    invariant
                        n == a.args@.len(),
                        self is AngleBracketed,
                        *a == self->AngleBracketed_0,
                        args@.len() == i,
                        forall|j: int|
                            0 <= j < i ==> same_generic(#[trigger] args@[j], a.args@[j]),
                {
                    proof {
                        assert(decreases_to!(*self => self->AngleBracketed_0));
                    }
                    args.push(a.args[i].duplicate());
                }
                PathArguments::AngleBracketed(AngleBracketedArguments { args, span: a.span })
            },
            PathArguments::Parenthesized(s) => PathArguments::Parenthesized(*s),
        }
    }
}

impl GenericArgument {
    pub fn duplicate(&self) -> (r: GenericArgument)
        ensures
            same_generic(r, *self),
        decreases self,
    {
        match self {
            GenericArgument::Type(t) => GenericArgument::Type(t.duplicate()),
            GenericArgument::Other(s) => GenericArgument::Other(*s),
        }
    }
}

impl Pat {
    pub fn duplicate(&self) -> (r: Pat)
        ensures
            r == *self,
    {
        match self {
            Pat::Ident(i) => Pat::Ident(i.duplicate()),
            Pat::Other(s) => Pat::Other(*s),
        }
    }
}

impl FnArg {
    pub fn duplicate(&self) -> (r: FnArg)
        ensures
            same_fn_arg(r, *self),
    {
        match self {
            FnArg::Receiver(s) => FnArg::Receiver(*s),
            FnArg::Typed(p) => FnArg::Typed(
                PatType { pat: p.pat.duplicate(), ty: p.ty.duplicate(), span: p.span },
            ),
        }
    }
}

impl ImplItemMethod {
    pub fn duplicate(&self) -> (r: ImplItemMethod)
        ensures
            same_method(r, *self),
    {
        let mut inputs: Vec<FnArg> = Vec::new();
        let n = self.inputs.len();
        for i in 0..n
            invariant
                n == self.inputs@.len(),
                inputs@.len() == i,
                forall|j: int| 0 <= j < i ==> same_fn_arg(#[trigger] inputs@[j], self.inputs@[j]),
        {
            inputs.push(self.inputs[i].duplicate());
        }
        let output = match &self.output {
            Some(t) => Some(t.duplicate()),
            None => None,
        };
        ImplItemMethod { ident: self.ident.duplicate(), inputs, output, span: self.span }
    }
}

impl ImplItem {
    pub fn duplicate(&self) -> (r: ImplItem)
        ensures
            same_impl_item(r, *self),
    {
        match self {
            ImplItem::Method(m) => ImplItem::Method(m.duplicate()),
            ImplItem::Other(s) => ImplItem::Other(*s),
        }
    }
}


fn duplicate_fields(fields: &Vec<Field>) -> (r: Vec<Field>)
    ensures
        same_field_seq(r@, fields@),
{
    let mut out: Vec<Field> = Vec::new();
    let n = fields.len();
    for i in 0..n
        invariant
            n == fields@.len(),
            out@.len() == i,
            forall|j: int| 0 <= j < i ==> same_field(#[trigger] out@[j], fields@[j]),
    {
        let f = &fields[i];
        let ident = match &f.ident {
            Some(id) => Some(id.duplicate()),
            None => None,
        };
        out.push(Field { ident, ty: f.ty.duplicate(), span: f.span });
    }
    out
}

impl ItemStruct {
    pub fn duplicate(&self) -> (r: ItemStruct)
        ensures
            same_struct(r, *self),
    {
        let fields = match &self.fields {
            Fields::Named(v) => Fields::Named(duplicate_fields(v)),
            Fields::Unnamed(v) => Fields::Unnamed(duplicate_fields(v)),
            Fields::Unit => Fields::Unit,
        };
        ItemStruct { ident: self.ident.duplicate(), fields, span: self.span }
    }
}



/// A copy of the items of an impl block.
pub fn duplicate_impl_items(items: &Vec<ImplItem>) -> (r: Vec<ImplItem>)
    ensures
        same_impl_items(r@, items@),
{
    let mut out: Vec<ImplItem> = Vec::new();
    let n = items.len();
    for i in 0..n
        invariant
            n == items@.len(),
            out@.len() == i,
            forall|j: int| 0 <= j < i ==> same_impl_item(#[trigger] out@[j], items@[j]),
    {
        out.push(items[i].duplicate());
    }
    out
}

/// A copy of an optional path.
pub fn duplicate_optional_path(p: &Option<Path>) -> (r: Option<Path>)
    ensures
        same_optional_path(r, *p),
{
    match p {
        Some(p) => Some(p.duplicate()),
        None => None,
    }
}

} // verus!

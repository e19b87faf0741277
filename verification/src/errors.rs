//! The errors that the extraction reports, each at a span of the module.
use crate::syntax::Span;
use crate::types::ExtractTypeIdentError;
use vstd::prelude::*;

verus! {

/// What a type that could not be read was used as.
#[derive(Clone, Copy, Debug, PartialEq, Eq, Structural)]
pub enum TypeContext {
    Argument,
    ReturnType,
    NamedField,
}

/// Why a type could not be read (the variants of [`ExtractTypeIdentError`]).
#[derive(Clone, Copy, Debug, PartialEq, Eq, Structural)]
pub enum TypeProblem {
    InvalidArguments,
    InvalidType,
    IdentEmpty,
    UnknownAndNotCrate,
    UnknownIdent,
    UnknownPinType,
}

/// The message of an error.
#[derive(Clone, Copy, Debug, PartialEq, Eq, Structural)]
pub enum ErrorMessage {
    /// An impl block holds an item that is not a method.
    OnlyMethods,
    /// A parameter is not a plain identifier.
    InvalidArgumentIdent,
    /// A type could not be read.
    Type(TypeContext, TypeProblem),
    /// The module declares a second struct.
    OnlyOneStruct,
    /// An impl block comes before the struct.
    ImplBeforeStruct,
    /// The type of an impl block has a path of other than one segment.
    InvalidImplPath,
    /// The type of an impl block is not the struct.
    ImplMismatch,
    /// The type of an impl block is not a path.
    ExpectedTypePath,
    /// The module holds an item that is not a struct, an impl block or a use declaration.
    UnsupportedItem,
}

/// An error at a span, as the compiler reports it.
#[derive(Clone, Copy, Debug, PartialEq, Eq, Structural)]
pub struct CompileError {
    pub span: Span,
    pub message: ErrorMessage,
}

/// Why extraction stops: an error that it reports, or a name on which case
/// conversion would panic, at the span of that name.
#[derive(Clone, Copy, Debug, PartialEq, Eq, Structural)]
pub enum Failure {
    Reported(CompileError),
    Unconvertible(Span),
}

/// No name on which case conversion would panic is reached.
pub open spec fn converts(f: Option<Failure>) -> bool {
    !(f matches Some(Failure::Unconvertible(_)))
}

pub open spec fn spec_problem(e: ExtractTypeIdentError) -> TypeProblem {
    match e {
        ExtractTypeIdentError::InvalidArguments(_) => TypeProblem::InvalidArguments,
        ExtractTypeIdentError::InvalidType(_) => TypeProblem::InvalidType,
        ExtractTypeIdentError::IdentEmpty(_) => TypeProblem::IdentEmpty,
        ExtractTypeIdentError::UnknownAndNotCrate(_) => TypeProblem::UnknownAndNotCrate,
        ExtractTypeIdentError::UnknownIdent(_) => TypeProblem::UnknownIdent,
        ExtractTypeIdentError::UnknownPinType(_) => TypeProblem::UnknownPinType,
    }
}

pub open spec fn spec_error_span(e: ExtractTypeIdentError) -> Span {
    match e {
        ExtractTypeIdentError::InvalidArguments(s) => s,
        ExtractTypeIdentError::InvalidType(s) => s,
        ExtractTypeIdentError::IdentEmpty(s) => s,
        ExtractTypeIdentError::UnknownAndNotCrate(s) => s,
        ExtractTypeIdentError::UnknownIdent(s) => s,
        ExtractTypeIdentError::UnknownPinType(s) => s,
    }
}

/// The error reported for a type used as `context` that could not be read.
pub open spec fn spec_type_error(context: TypeContext, e: ExtractTypeIdentError) -> CompileError {
    CompileError { span: spec_error_span(e), message: ErrorMessage::Type(context, spec_problem(e)) }
}

/// The error reported for a type used as `context` that could not be read.
pub fn type_error(context: TypeContext, e: ExtractTypeIdentError) -> (r: CompileError)
    ensures
        r == spec_type_error(context, e),
{
    let (span, problem) = match e {
        ExtractTypeIdentError::InvalidArguments(s) => (s, TypeProblem::InvalidArguments),
        ExtractTypeIdentError::InvalidType(s) => (s, TypeProblem::InvalidType),
        ExtractTypeIdentError::IdentEmpty(s) => (s, TypeProblem::IdentEmpty),
        ExtractTypeIdentError::UnknownAndNotCrate(s) => (s, TypeProblem::UnknownAndNotCrate),
        ExtractTypeIdentError::UnknownIdent(s) => (s, TypeProblem::UnknownIdent),
        ExtractTypeIdentError::UnknownPinType(s) => (s, TypeProblem::UnknownPinType),
    };
    CompileError { span, message: ErrorMessage::Type(context, problem) }
}

impl ErrorMessage {
    /// The text of the message.
    pub open spec fn spec_text(self) -> Seq<char> {
        match self {
            ErrorMessage::OnlyMethods => "Only methods are supported."@,
            ErrorMessage::InvalidArgumentIdent => "Invalid argument ident format."@,
            ErrorMessage::Type(TypeContext::Argument, p) => match p {
                TypeProblem::InvalidArguments => "Argument should not be angle bracketed or parenthesized."@,
                TypeProblem::InvalidType => "Invalid argument ident format."@,
                TypeProblem::IdentEmpty => "Argument type ident must have at least one segment"@,
                TypeProblem::UnknownAndNotCrate => "First argument type ident segment must start with 'crate' if there are multiple"@,
                TypeProblem::UnknownIdent => "Unknown argument type ident to parse"@,
                TypeProblem::UnknownPinType => "Unknown argument Pin<T> type ident to parse"@,
            },
            ErrorMessage::Type(TypeContext::ReturnType, p) => match p {
                TypeProblem::InvalidArguments => "Return type should not be angle bracketed or parenthesized."@,
                TypeProblem::InvalidType => "Invalid return type format."@,
                TypeProblem::IdentEmpty => "Return type ident must have at least one segment"@,
                TypeProblem::UnknownAndNotCrate => "First return type ident segment must start with 'crate' if there are multiple"@,
                TypeProblem::UnknownIdent => "Unknown return type ident to parse"@,
                TypeProblem::UnknownPinType => "Unknown return Pin<T> type ident to parse"@,
            },
            ErrorMessage::Type(TypeContext::NamedField, p) => match p {
                TypeProblem::InvalidArguments => "Named field should not be angle bracketed or parenthesized."@,
                TypeProblem::InvalidType => "Invalid name field ident format."@,
                TypeProblem::IdentEmpty => "Named field type ident must have at least one segment"@,
                TypeProblem::UnknownAndNotCrate => "First named field type ident segment must start with 'crate' if there are multiple"@,
                TypeProblem::UnknownIdent => "Unknown named field type ident to parse"@,
                TypeProblem::UnknownPinType => "Unknown named field Pin<T> type ident to parse"@,
            },
            ErrorMessage::OnlyOneStruct => "Only one struct is supported per mod."@,
            ErrorMessage::ImplBeforeStruct => "Impl can only be declared after a struct."@,
            ErrorMessage::InvalidImplPath => "Invalid path on impl block."@,
            ErrorMessage::ImplMismatch => "The impl block needs to match the struct."@,
            ErrorMessage::ExpectedTypePath => "Expected a TypePath impl to parse."@,
            ErrorMessage::UnsupportedItem => "Unsupported item in mod."@,
        }
    }

    /// The text of the message.
    pub fn text(&self) -> (r: &'static str)
        ensures
            r@ == self.spec_text(),
    {
        match self {
            ErrorMessage::OnlyMethods => "Only methods are supported.",
            ErrorMessage::InvalidArgumentIdent => "Invalid argument ident format.",
            ErrorMessage::Type(TypeContext::Argument, p) => match p {
                TypeProblem::InvalidArguments => "Argument should not be angle bracketed or parenthesized.",
                TypeProblem::InvalidType => "Invalid argument ident format.",
                TypeProblem::IdentEmpty => "Argument type ident must have at least one segment",
                TypeProblem::UnknownAndNotCrate => "First argument type ident segment must start with 'crate' if there are multiple",
                TypeProblem::UnknownIdent => "Unknown argument type ident to parse",
                TypeProblem::UnknownPinType => "Unknown argument Pin<T> type ident to parse",
            },
            ErrorMessage::Type(TypeContext::ReturnType, p) => match p {
                TypeProblem::InvalidArguments => "Return type should not be angle bracketed or parenthesized.",
                TypeProblem::InvalidType => "Invalid return type format.",
                TypeProblem::IdentEmpty => "Return type ident must have at least one segment",
                TypeProblem::UnknownAndNotCrate => "First return type ident segment must start with 'crate' if there are multiple",
                TypeProblem::UnknownIdent => "Unknown return type ident to parse",
                TypeProblem::UnknownPinType => "Unknown return Pin<T> type ident to parse",
            },
            ErrorMessage::Type(TypeContext::NamedField, p) => match p {
                TypeProblem::InvalidArguments => "Named field should not be angle bracketed or parenthesized.",
                TypeProblem::InvalidType => "Invalid name field ident format.",
                TypeProblem::IdentEmpty => "Named field type ident must have at least one segment",
                TypeProblem::UnknownAndNotCrate => "First named field type ident segment must start with 'crate' if there are multiple",
                TypeProblem::UnknownIdent => "Unknown named field type ident to parse",
                TypeProblem::UnknownPinType => "Unknown named field Pin<T> type ident to parse",
            },
            ErrorMessage::OnlyOneStruct => "Only one struct is supported per mod.",
            ErrorMessage::ImplBeforeStruct => "Impl can only be declared after a struct.",
            ErrorMessage::InvalidImplPath => "Invalid path on impl block.",
            ErrorMessage::ImplMismatch => "The impl block needs to match the struct.",
            ErrorMessage::ExpectedTypePath => "Expected a TypePath impl to parse.",
            ErrorMessage::UnsupportedItem => "Unsupported item in mod.",
        }
    }
}

} // verus!

//! The methods of an impl block that QML can invoke.
use crate::casing::{case_splits, splits_cleanly};
use crate::checks::{first_failure, lemma_first_failure_stays};
use crate::errors::{
    CompileError, ErrorMessage, Failure, TypeContext, converts, spec_type_error, type_error,
};
use crate::naming::{CppRustIdent, cased_names, cased_names_of};
use crate::syntax::{FnArg, Ident, ImplItem, ImplItemMethod, Pat, PatType, same_method};
use crate::types::{
    ExtractTypeIdentError, ParameterType, QtTypeView, extract_type_ident, parameter_type_of,
    spec_type_ident,
};
use vstd::prelude::*;

verus! {

/// Describes a function parameter
#[derive(Debug)]
pub struct Parameter {
    /// The ident of the parameter
    pub ident: Ident,
    /// The type of the parameter
    pub type_ident: ParameterType,
}

/// Describes a function that can be invoked from QML
#[derive(Debug)]
pub struct Invokable {
    /// The ident of the function
    pub ident: CppRustIdent,
    /// The parameters that the function takes in
    pub parameters: Vec<Parameter>,
    /// The return type information
    pub return_type: Option<ParameterType>,
    /// The Rust method that the invokable was read from
    pub original_method: ImplItemMethod,
}

/// The check of the `i`-th parameter of a method: a typed parameter must be a
/// plain identifier with a type that can be read; `self` is skipped.
pub open spec fn argument_check(inputs: Seq<FnArg>) -> spec_fn(int) -> Option<Failure> {
    |i: int|
        match inputs[i] {
            FnArg::Receiver(_) => None,
            FnArg::Typed(pt) => match pt.pat {
                Pat::Ident(_) => match spec_type_ident(pt.ty) {
                    Ok(_) => None,
                    Err(e) => Some(Failure::Reported(spec_type_error(TypeContext::Argument, e))),
                },
                Pat::Other(_) => Some(
                    Failure::Reported(
                        CompileError { span: pt.span, message: ErrorMessage::InvalidArgumentIdent },
                    ),
                ),
            },
        }
}

/// The failure of the name of `ident` in case conversion, if any.
pub open spec fn name_check(ident: Ident) -> Option<Failure> {
    if splits_cleanly(ident.name@) {
        None
    } else {
        Some(Failure::Unconvertible(ident.span))
    }
}

/// Where a method fails: at its first parameter that fails, else at a return
/// type that cannot be read, else at a name that case conversion cannot split.
pub open spec fn method_failure(m: ImplItemMethod) -> Option<Failure> {
    match first_failure(m.inputs@.len(), argument_check(m.inputs@)) {
        Some(e) => Some(e),
        None => match m.output {
            Some(ty) => match spec_type_ident(ty) {
                Ok(_) => name_check(m.ident),
                Err(e) => Some(Failure::Reported(spec_type_error(TypeContext::ReturnType, e))),
            },
            None => name_check(m.ident),
        },
    }
}

/// The check of the `i`-th item of an impl block: it must be a method that is
/// not reported.
pub open spec fn impl_item_check(items: Seq<ImplItem>) -> spec_fn(int) -> Option<Failure> {
    |i: int|
        match items[i] {
            ImplItem::Method(m) => method_failure(m),
            ImplItem::Other(span) => Some(
                Failure::Reported(CompileError { span, message: ErrorMessage::OnlyMethods }),
            ),
        }
}

/// Where the items of an impl block fail, if they do: at the first item that fails.
pub open spec fn invokables_failure(items: Seq<ImplItem>) -> Option<Failure> {
    first_failure(items.len(), impl_item_check(items))
}

/// The typed parameters among `inputs`, in order.
pub open spec fn typed_arguments(inputs: Seq<FnArg>) -> Seq<PatType>
    decreases inputs.len(),
{
    if inputs.len() == 0 {
        seq![]
    } else {
        let rest = typed_arguments(inputs.drop_last());
        match inputs.last() {
            FnArg::Typed(pt) => rest.push(pt),
            FnArg::Receiver(_) => rest,
        }
    }
}

/// `p` describes the typed parameter `pt`.
pub open spec fn parameter_of(pt: PatType, p: Parameter) -> bool {
    &&& pt.pat == Pat::Ident(p.ident)
    &&& parameter_type_of(pt.ty, p.type_ident)
}

/// `inv` describes the method `m`: its names, one parameter for each typed
/// parameter in order, its return type, and a copy of the method.
pub open spec fn invokable_of(m: ImplItemMethod, inv: Invokable) -> bool {
    let typed = typed_arguments(m.inputs@);
    &&& cased_names(inv.ident, m.ident.name@)
    &&& inv.parameters@.len() == typed.len()
    &&& forall|i: int|
        #![trigger inv.parameters@[i]]
        0 <= i < typed.len() ==> parameter_of(typed[i], inv.parameters@[i])
    &&& match m.output {
        None => inv.return_type is None,
        Some(ty) => inv.return_type matches Some(rt) && parameter_type_of(ty, rt),
    }
    &&& same_method(inv.original_method, m)
}

/// `inv` describes the item `item`, a method.
pub open spec fn item_invokable_of(item: ImplItem, inv: Invokable) -> bool {
    match item {
        ImplItem::Method(m) => invokable_of(m, inv),
        ImplItem::Other(_) => false,
    }
}

/// `invokables` describes the items of an impl block, one for each, in order.
pub open spec fn invokables_of(items: Seq<ImplItem>, invokables: Seq<Invokable>) -> bool {
    &&& invokables.len() == items.len()
    &&& forall|i: int|
        #![trigger invokables[i]]
        0 <= i < items.len() ==> item_invokable_of(items[i], invokables[i])
}

/// Describes one method as an invokable, or says where it fails.
fn method_invokable(method: &ImplItemMethod) -> (r: Result<Invokable, Failure>)
    ensures
        match r {
            Ok(inv) => method_failure(*method) is None && invokable_of(*method, inv),
            Err(f) => method_failure(*method) == Some(f),
        },
{
    let ghost inputs = method.inputs@;
    let ghost check = argument_check(inputs);
    let mut parameters: Vec<Parameter> = Vec::new();
    let n = method.inputs.len();
    for i in 0..n
        invariant
            n == inputs.len(),
            inputs == method.inputs@,
            check == argument_check(inputs),
            first_failure(i as nat, check) is None,
            parameters@.len() == typed_arguments(inputs.take(i as int)).len(),
            forall|j: int|
                #![trigger parameters@[j]]
                0 <= j < parameters@.len() ==> parameter_of(
                    typed_arguments(inputs.take(i as int))[j],
                    parameters@[j],
                ),
    {
        proof {
            assert(inputs.take(i + 1).drop_last() =~= inputs.take(i as int));
        }
        match &method.inputs[i] {
            FnArg::Typed(pt) => {
                let parameter_ident = match &pt.pat {
                    Pat::Ident(ident) => ident,
                    Pat::Other(_) => {
                        let e = Failure::Reported(
                            CompileError { span: pt.span, message: ErrorMessage::InvalidArgumentIdent },
                        );
                        proof {
                            lemma_first_failure_stays(check, (i + 1) as nat, n as nat);
                        }
                        return Err(e);
                    },
                };
                match extract_type_ident(&pt.ty) {
                    Ok(type_ident) => {
                        parameters.push(Parameter { ident: parameter_ident.duplicate(), type_ident });
                    },
                    Err(e) => {
                        let e = Failure::Reported(type_error(TypeContext::Argument, e));
                        proof {
                            lemma_first_failure_stays(check, (i + 1) as nat, n as nat);
                        }
                        return Err(e);
                    },
                }
            },
            FnArg::Receiver(_) => {},
        }
    }
    proof {
        assert(inputs.take(n as int) =~= inputs);
    }
    let return_type = match &method.output {
        Some(ty) => match extract_type_ident(ty) {
            Ok(t) => Some(t),
            Err(e) => {
                return Err(Failure::Reported(type_error(TypeContext::ReturnType, e)));
            },
        },
        None => None,
    };
    if !case_splits(method.ident.name.as_str()) {
        return Err(Failure::Unconvertible(method.ident.span));
    }
    let ident = cased_names_of(method.ident.name.as_str());
    Ok(Invokable { ident, parameters, return_type, original_method: method.duplicate() })
}

/// Describes the items of an impl block as invokables, or says where they fail.
pub(crate) fn invokables_or_failure(items: &[ImplItem]) -> (r: Result<Vec<Invokable>, Failure>)
    ensures
        match r {
            Ok(v) => invokables_failure(items@) is None && invokables_of(items@, v@),
            Err(f) => invokables_failure(items@) == Some(f),
        },
{
    let ghost check = impl_item_check(items@);
    let mut invokables: Vec<Invokable> = Vec::new();
    let n = items.len();
    for i in 0..n
        invariant
            n == items@.len(),
            check == impl_item_check(items@),
            first_failure(i as nat, check) is None,
            invokables@.len() == i,
            forall|j: int|
                #![trigger invokables@[j]]
                0 <= j < i ==> item_invokable_of(items@[j], invokables@[j]),
    {
        match &items[i] {
            ImplItem::Method(method) => match method_invokable(method) {
                Ok(inv) => {
                    invokables.push(inv);
                },
                Err(e) => {
                    proof {
                        lemma_first_failure_stays(check, (i + 1) as nat, n as nat);
                    }
                    return Err(e);
                },
            },
            ImplItem::Other(span) => {
                let e = Failure::Reported(
                    CompileError { span: *span, message: ErrorMessage::OnlyMethods },
                );
                proof {
                    lemma_first_failure_stays(check, (i + 1) as nat, n as nat);
                }
                return Err(e);
            },
        }
    }
    Ok(invokables)
}

/// Extracts all the member functions from a module and generates invokables from them
pub fn extract_invokables(items: &[ImplItem]) -> (r: Result<Vec<Invokable>, CompileError>)
    requires
        converts(invokables_failure(items@)),
    ensures
        match r {
            Ok(v) => invokables_failure(items@) is None && invokables_of(items@, v@),
            Err(e) => invokables_failure(items@) == Some(Failure::Reported(e)),
        },
{
    match invokables_or_failure(items) {
        Ok(v) => Ok(v),
        Err(Failure::Reported(e)) => Err(e),
        Err(Failure::Unconvertible(_)) => vstd::pervasive::unreached(),
    }
}

/// [`extract_invokables`] where no name on which case conversion would panic is
/// reached; `None` where one is.
pub fn try_extract_invokables(items: &[ImplItem]) -> (r: Option<Result<Vec<Invokable>, CompileError>>)
    ensures
        r is None <==> !converts(invokables_failure(items@)),
        r matches Some(Ok(v)) ==> invokables_failure(items@) is None && invokables_of(items@, v@),
        r matches Some(Err(e)) ==> invokables_failure(items@) == Some(Failure::Reported(e)),
{
    match invokables_or_failure(items) {
        Ok(v) => Some(Ok(v)),
        Err(Failure::Reported(e)) => Some(Err(e)),
        Err(Failure::Unconvertible(_)) => None,
    }
}

} // verus!

//! The fields of the struct that QML can use as properties.
use crate::casing::{IdentCase, case_splits, cased, splits_cleanly, to_case, words_cased};
use crate::checks::{first_failure, lemma_first_failure_stays};
use crate::errors::{
    CompileError, Failure, TypeContext, converts, spec_type_error, type_error,
};
use crate::naming::{CppRustIdent, cased_names, made_ident, names_from};
use crate::syntax::{Field, Fields, ItemStruct};
use crate::text::join;
use crate::types::{ParameterType, extract_type_ident, parameter_type_of, spec_type_ident};
use vstd::prelude::*;

verus! {

/// Describes a property that can be used from QML
#[derive(Debug)]
pub struct Property {
    /// The ident of the property
    pub ident: CppRustIdent,
    /// The type of the property
    pub type_ident: ParameterType,
    /// The getter ident of the property (used for READ)
    pub getter: Option<CppRustIdent>,
    /// The setter ident of the property (used for WRITE)
    pub setter: Option<CppRustIdent>,
    /// The notify ident of the property (used for NOTIFY)
    pub notify: Option<CppRustIdent>,
}

/// The named fields of a struct (none for a tuple or unit struct).
pub open spec fn named_fields(s: ItemStruct) -> Seq<Field> {
    match s.fields {
        Fields::Named(v) => v@,
        _ => seq![],
    }
}

/// The check of the `i`-th named field: a field with a name must have a type
/// that can be read, and then a name that case conversion can split.
pub open spec fn field_check(fields: Seq<Field>) -> spec_fn(int) -> Option<Failure> {
    |i: int|
        match fields[i].ident {
            Some(id) => match spec_type_ident(fields[i].ty) {
                Ok(_) => if splits_cleanly(id.name@) {
                    None
                } else {
                    Some(Failure::Unconvertible(id.span))
                },
                Err(e) => Some(Failure::Reported(spec_type_error(TypeContext::NamedField, e))),
            },
            None => None,
        }
}

/// Where the fields of a struct fail, if they do: at the first field that fails.
pub open spec fn properties_failure(s: ItemStruct) -> Option<Failure> {
    first_failure(named_fields(s).len(), field_check(named_fields(s)))
}

/// The fields among `fields` that have a name, in order.
pub open spec fn identified_fields(fields: Seq<Field>) -> Seq<Field>
    decreases fields.len(),
{
    if fields.len() == 0 {
        seq![]
    } else {
        let rest = identified_fields(fields.drop_last());
        if fields.last().ident is Some {
            rest.push(fields.last())
        } else {
            rest
        }
    }
}

/// The READ names of a property named `name`: `getName` in C++, `name` in Rust.
pub open spec fn getter_names(g: CppRustIdent, name: Seq<char>) -> bool {
    &&& made_ident(g.cpp_ident, "get"@ + cased(name, IdentCase::Pascal))
    &&& made_ident(g.rust_ident, cased(name, IdentCase::Snake))
}

/// The WRITE names of a property named `name`: `setName` in C++, `set_name` in Rust.
pub open spec fn setter_names(s: CppRustIdent, name: Seq<char>) -> bool {
    &&& made_ident(s.cpp_ident, "set"@ + cased(name, IdentCase::Pascal))
    &&& made_ident(s.rust_ident, "set_"@ + cased(name, IdentCase::Snake))
}

/// The NOTIFY names of a property named `name`: `nameChanged` in C++, `name` in Rust.
pub open spec fn notify_names(n: CppRustIdent, name: Seq<char>) -> bool {
    &&& made_ident(n.cpp_ident, cased(name, IdentCase::Camel) + "Changed"@)
    &&& made_ident(n.rust_ident, cased(name, IdentCase::Snake))
}

/// `p` describes the named field `f`: its names, its type, and the names of
/// its getter, setter and notify signal, all of which it has.
pub open spec fn property_of(f: Field, p: Property) -> bool {
    let name = f.ident->Some_0.name@;
    &&& cased_names(p.ident, name)
    &&& words_cased(name, IdentCase::Pascal)
    &&& parameter_type_of(f.ty, p.type_ident)
    &&& p.getter matches Some(g) && getter_names(g, name)
    &&& p.setter matches Some(s) && setter_names(s, name)
    &&& p.notify matches Some(n) && notify_names(n, name)
}

/// `properties` describes the fields with a name of the struct `s`, one for
/// each, in order.
pub open spec fn properties_of(s: ItemStruct, properties: Seq<Property>) -> bool {
    let fields = identified_fields(named_fields(s));
    &&& properties.len() == fields.len()
    &&& forall|i: int|
        #![trigger properties[i]]
        0 <= i < fields.len() ==> property_of(fields[i], properties[i])
}

/// The property of the type `type_ident` whose name reads `camel`, `snake` and
/// `pascal` in camel, snake and Pascal case.
pub fn property_from(type_ident: ParameterType, camel: String, snake: String, pascal: String) -> (r:
    Property)
    ensures
        r.type_ident == type_ident,
        made_ident(r.ident.cpp_ident, camel@),
        made_ident(r.ident.rust_ident, snake@),
        r.getter matches Some(g) && made_ident(g.cpp_ident, "get"@ + pascal@) && made_ident(
            g.rust_ident,
            snake@,
        ),
        r.setter matches Some(s) && made_ident(s.cpp_ident, "set"@ + pascal@) && made_ident(
            s.rust_ident,
            "set_"@ + snake@,
        ),
        r.notify matches Some(n) && made_ident(n.cpp_ident, camel@ + "Changed"@) && made_ident(
            n.rust_ident,
            snake@,
        ),
{
    let ident = names_from(camel.clone(), snake.clone());
    let getter = names_from(join("get", pascal.as_str()), snake.clone());
    let setter = names_from(join("set", pascal.as_str()), join("set_", snake.as_str()));
    let notify = names_from(join(camel.as_str(), "Changed"), snake);
    Property { ident, type_ident, getter: Some(getter), setter: Some(setter), notify: Some(notify) }
}

/// Describes the named field `f`, whose type reads as `type_ident`, as a property.
fn extract_property(f: &Field, type_ident: ParameterType) -> (r: Property)
    requires
        f.ident matches Some(id) && splits_cleanly(id.name@),
        parameter_type_of(f.ty, type_ident),
    ensures
        property_of(*f, r),
{
    let ident_str = match &f.ident {
        Some(ident) => ident.name.as_str(),
        None => "",
    };
    property_from(
        type_ident,
        to_case(ident_str, IdentCase::Camel),
        to_case(ident_str, IdentCase::Snake),
        to_case(ident_str, IdentCase::Pascal),
    )
}

/// Describes the named fields of a struct as properties, or says where they fail.
pub(crate) fn properties_or_failure(s: &ItemStruct) -> (r: Result<Vec<Property>, Failure>)
    ensures
        match r {
            Ok(v) => properties_failure(*s) is None && properties_of(*s, v@),
            Err(f) => properties_failure(*s) == Some(f),
        },
{
    let mut properties: Vec<Property> = Vec::new();
    if let Fields::Named(named) = &s.fields {
        let ghost fields = named@;
        let ghost check = field_check(fields);
        let n = named.len();
        for i in 0..n
            invariant
                n == fields.len(),
                fields == named@,
                fields == named_fields(*s),
                check == field_check(fields),
                first_failure(i as nat, check) is None,
                properties@.len() == identified_fields(fields.take(i as int)).len(),
                forall|j: int|
                    #![trigger properties@[j]]
                    0 <= j < properties@.len() ==> property_of(
                        identified_fields(fields.take(i as int))[j],
                        properties@[j],
                    ),
        {
            proof {
                assert(fields.take(i + 1).drop_last() =~= fields.take(i as int));
            }
            let field = &named[i];
            if field.ident.is_some() {
                match extract_type_ident(&field.ty) {
                    Ok(type_ident) => {
                        let name = match &field.ident {
                            Some(ident) => ident,
                            None => vstd::pervasive::unreached(),
                        };
                        if !case_splits(name.name.as_str()) {
                            let e = Failure::Unconvertible(name.span);
                            proof {
                                lemma_first_failure_stays(check, (i + 1) as nat, n as nat);
                            }
                            return Err(e);
                        }
                        properties.push(extract_property(field, type_ident));
                    },
                    Err(e) => {
                        let e = Failure::Reported(type_error(TypeContext::NamedField, e));
                        proof {
                            lemma_first_failure_stays(check, (i + 1) as nat, n as nat);
                        }
                        return Err(e);
                    },
                }
            }
        }
        proof {
            assert(fields.take(n as int) =~= fields);
        }
    }
    Ok(properties)
}

/// Extracts all the attributes from a struct and generates properties from them
pub fn extract_properties(s: &ItemStruct) -> (r: Result<Vec<Property>, CompileError>)
    requires
        converts(properties_failure(*s)),
    ensures
        match r {
            Ok(v) => properties_failure(*s) is None && properties_of(*s, v@),
            Err(e) => properties_failure(*s) == Some(Failure::Reported(e)),
        },
{
    match properties_or_failure(s) {
        Ok(v) => Ok(v),
        Err(Failure::Reported(e)) => Err(e),
        Err(Failure::Unconvertible(_)) => vstd::pervasive::unreached(),
    }
}

/// [`extract_properties`] where no name on which case conversion would panic is
/// reached; `None` where one is.
pub fn try_extract_properties(s: &ItemStruct) -> (r: Option<Result<Vec<Property>, CompileError>>)
    ensures
        r is None <==> !converts(properties_failure(*s)),
        r matches Some(Ok(v)) ==> properties_failure(*s) is None && properties_of(*s, v@),
        r matches Some(Err(e)) ==> properties_failure(*s) == Some(Failure::Reported(e)),
{
    match properties_or_failure(s) {
        Ok(v) => Some(Ok(v)),
        Err(Failure::Reported(e)) => Some(Err(e)),
        Err(Failure::Unconvertible(_)) => None,
    }
}

} // verus!

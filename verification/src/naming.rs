//! The identifiers and type references that the synthesis derives.

use vstd::prelude::*;
use vstd::string::StringExecFns;

use crate::text::concat;

verus! {

/// The name of the type synthesized for the method `fn_name`: the method's
/// name with `ref_name` after it.
pub open spec fn struct_name(ref_name: Seq<char>, fn_name: Seq<char>) -> Seq<char> {
    fn_name + ref_name
}

/// The provider identifier of the function `function_name` of the provider
/// manager `struct_ident`.
pub open spec fn provider_name(function_name: Seq<char>, struct_ident: Seq<char>) -> Seq<char> {
    function_name + "_"@ + struct_ident
}

/// The name of the handler field through which `function_name` of the
/// aggregate's field `field` is called.
pub open spec fn field_name(field: Seq<char>, function_name: Seq<char>) -> Seq<char> {
    field + "_"@ + function_name
}

/// The text of the type `name` of the runtime's helper traits: as a trait
/// object where `dynamic`, then boxed where `boxed`, then shared where
/// `shared`.
pub open spec fn type_reference(name: Seq<char>, shared: bool, boxed: bool, dynamic: bool) -> Seq<
    char,
> {
    let path = "::tonirs_core::traits_helpers::"@ + name;
    let object = if dynamic {
        "dyn "@ + path
    } else {
        path
    };
    let owned = if boxed {
        "Box<"@ + object + ">"@
    } else {
        object
    };
    if shared {
        "::std::sync::Arc<"@ + owned + ">"@
    } else {
        owned
    }
}

/// Names the type that is synthesized for a method.
pub fn create_struct_name(ref_name: &str, fn_name: &str) -> (name: String)
    ensures
        name@ == struct_name(ref_name@, fn_name@),
{
    concat(fn_name, ref_name)
}

/// Derives the provider identifier of a function of a provider manager.
pub fn create_provider_name_by_fn_and_struct_ident(function_name: &str, struct_ident: &str) -> (name:
    String)
    ensures
        name@ == provider_name(function_name@, struct_ident@),
{
    concat(function_name, "_").concat(struct_ident)
}

/// Names the handler field that stands for one function of one field of the
/// aggregate.
pub fn create_field_name(field: &str, function_name: &str) -> (name: String)
    ensures
        name@ == field_name(field@, function_name@),
{
    concat(field, "_").concat(function_name)
}

/// Writes a reference to one of the runtime's helper traits.
pub fn create_type_reference(name: &str, shared: bool, boxed: bool, dynamic: bool) -> (reference:
    String)
    ensures
        reference@ == type_reference(name@, shared, boxed, dynamic),
{
    let mut reference = concat("::tonirs_core::traits_helpers::", name);
    if dynamic {
        reference = concat("dyn ", reference.as_str());
    }
    if boxed {
        reference = concat("Box<", reference.as_str()).concat(">");
    }
    if shared {
        reference = concat("::std::sync::Arc<", reference.as_str()).concat(">");
    }
    reference
}

/// Two methods get the same type name only if they have the same name.
pub proof fn lemma_struct_name_injective(ref_name: Seq<char>, a: Seq<char>, b: Seq<char>)
    requires
        struct_name(ref_name, a) == struct_name(ref_name, b),
    ensures
        a == b,
{
    let x = struct_name(ref_name, a);
    let y = struct_name(ref_name, b);
    assert(x.len() == a.len() + ref_name.len());
    assert(y.len() == b.len() + ref_name.len());
    assert(a =~= x.subrange(0, a.len() as int));
    assert(b =~= y.subrange(0, b.len() as int));
}

/// For one function, two fields of the aggregate get the same handler field
/// only if they are the same field.
pub proof fn lemma_field_name_injective(function_name: Seq<char>, a: Seq<char>, b: Seq<char>)
    requires
        field_name(a, function_name) == field_name(b, function_name),
    ensures
        a == b,
{
    let x = field_name(a, function_name);
    let y = field_name(b, function_name);
    assert(x.len() == a.len() + "_"@.len() + function_name.len());
    assert(y.len() == b.len() + "_"@.len() + function_name.len());
    assert(a =~= x.subrange(0, a.len() as int));
    assert(b =~= y.subrange(0, b.len() as int));
}

} // verus!

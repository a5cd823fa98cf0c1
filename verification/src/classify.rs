//! The option-ness classifier: decides, from a field's declared type alone,
//! whether that type is already structurally an `Option` application.
//!
//! The decision is purely structural: the final path segment must be the
//! identifier `Option` and must carry angle-bracketed arguments. Aliases are
//! not resolved, so an alias that expands to an `Option` is classified as
//! required; this is a deliberate, documented limitation.

use vstd::prelude::*;

use crate::model::{ArgStyle, Field, TypeExpr, TypeShape};

verus! {

/// A type is optional-shaped when it is a path whose final segment is the
/// identifier `Option` applied to angle-bracketed arguments.
pub open spec fn is_option_spec(ty: TypeExpr) -> bool {
    match ty.shape {
        TypeShape::Path { last_ident, last_args } => last_ident@ == "Option"@ && last_args
            == ArgStyle::AngleArgs,
        TypeShape::Other => false,
    }
}

/// A field is required when its declared type is not already optional-shaped.
pub open spec fn field_required(f: Field) -> bool {
    !is_option_spec(f.ty)
}

/// The required-origin fields, in declaration order.
pub open spec fn required_fields(fields: Seq<Field>) -> Seq<Field> {
    fields.filter(|f: Field| field_required(f))
}

/// Decides whether a path's final segment is `Option` with angle-bracketed
/// arguments.
pub fn is_path_option(last_ident: &String, last_args: &ArgStyle) -> (r: bool)
    ensures
        r == (last_ident@ == "Option"@ && *last_args == ArgStyle::AngleArgs),
{
    let option_ident: String = "Option".to_owned();
    let ident_matches = *last_ident == option_ident;
    let angled = match last_args {
        ArgStyle::AngleArgs => true,
        _ => false,
    };
    ident_matches && angled
}

/// Detects whether a given type is structurally `Option<...>`.
pub fn is_option_type(ty: &TypeExpr) -> (r: bool)
    ensures
        r == is_option_spec(*ty),
{
    match &ty.shape {
        TypeShape::Path { last_ident, last_args } => is_path_option(last_ident, last_args),
        TypeShape::Other => false,
    }
}

/// A record all of whose fields are already optional has no required fields.
pub proof fn lemma_all_optional_no_required(fields: Seq<Field>)
    requires
        forall|i: int| 0 <= i < fields.len() ==> is_option_spec(#[trigger] fields[i].ty),
    ensures
        required_fields(fields).len() == 0,
    decreases fields.len(),
{
    reveal(Seq::filter);
    if fields.len() > 0 {
        assert(fields.drop_last() =~= fields.take(fields.len() - 1));
        lemma_all_optional_no_required(fields.drop_last());
    }
}

} // verus!

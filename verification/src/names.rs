//! The naming conventions of the generated artifacts, kept in one place so
//! that the taxonomy builder and the reconstruction builder can never
//! disagree on them:
//!
//! - shadow type name: original name + `Partial`;
//! - error taxonomy name: shadow type name + `Error`;
//! - error case name: PascalCase(field name) + `Missing`;
//! - error message: ``Field `<name>` is missing``;
//! - wrapped field type text: `::std::option::Option<` + original + `>`.

use convert_case::{Case, Casing};
use vstd::prelude::*;
use vstd::string::StringExecFns;

use crate::classify::is_option_spec;
use crate::model::{ArgStyle, TypeExpr, TypeShape};

verus! {

/// The PascalCase rendering of an identifier.
pub uninterp spec fn pascal_of(s: Seq<char>) -> Seq<char>;

/// Relies on convert_case: `to_case(Case::Pascal)` is a pure function of the
/// characters of its input.
#[verifier::external_body]
fn to_pascal_case(s: &str) -> (r: String)
    ensures
        r@ == pascal_of(s@),
{
    s.to_case(Case::Pascal)
}

/// The name of the shadow type derived for a record of the given name.
pub open spec fn shadow_name_of(name: Seq<char>) -> Seq<char> {
    name + "Partial"@
}

/// The name of the error taxonomy derived for a record of the given name.
pub open spec fn error_name_of(name: Seq<char>) -> Seq<char> {
    shadow_name_of(name) + "Error"@
}

/// The name of the taxonomy case raised when the given field is missing.
pub open spec fn case_name_of(field: Seq<char>) -> Seq<char> {
    pascal_of(field) + "Missing"@
}

/// The user-facing message of the taxonomy case for the given field.
pub open spec fn missing_message_of(field: Seq<char>) -> Seq<char> {
    "Field `"@ + field + "` is missing"@
}

/// The text of a field type after one layer of `Option` wrapping.
pub open spec fn option_wrapped_text(t: Seq<char>) -> Seq<char> {
    "::std::option::Option<"@ + t + ">"@
}

/// Builds the shadow type name for a record of the given name.
pub fn shadow_type_name(name: &String) -> (r: String)
    ensures
        r@ == shadow_name_of(name@),
{
    let mut r = name.clone();
    r.append("Partial");
    r
}

/// Builds the error taxonomy name for a record of the given name.
pub fn error_type_name(name: &String) -> (r: String)
    ensures
        r@ == error_name_of(name@),
{
    let mut r = shadow_type_name(name);
    r.append("Error");
    r
}

/// Builds the taxonomy case name for the given field name.
pub fn error_case_name(field: &String) -> (r: String)
    ensures
        r@ == case_name_of(field@),
{
    let mut r = to_pascal_case(field.as_str());
    r.append("Missing");
    r
}

/// Builds the user-facing message of the taxonomy case for the given field.
pub fn missing_message(field: &String) -> (r: String)
    ensures
        r@ == missing_message_of(field@),
{
    let mut r: String = "Field `".to_owned();
    r.append(field.as_str());
    r.append("` is missing");
    r
}

/// Wraps a field type in exactly one layer of `Option`.
pub fn wrap_in_option(ty: &TypeExpr) -> (r: TypeExpr)
    ensures
        r.text@ == option_wrapped_text(ty.text@),
        is_option_spec(r),
{
    let mut text: String = "::std::option::Option<".to_owned();
    text.append(ty.text.as_str());
    text.append(">");
    TypeExpr {
        text,
        shape: TypeShape::Path { last_ident: "Option".to_owned(), last_args: ArgStyle::AngleArgs },
    }
}

} // verus!

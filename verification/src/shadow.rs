//! The shadow-type synthesizer: builds the field list of the derived
//! optional twin. Every field keeps its name and visibility; its type is
//! wrapped in exactly one layer of `Option` unless the classifier says it
//! is already optional, in which case it is copied unchanged.

use vstd::prelude::*;

use crate::artifacts::ShadowType;
use crate::classify::{is_option_spec, is_option_type};
use crate::model::{clone_opt_text, clone_type_expr, opt_text, Field};
use crate::names::{option_wrapped_text, wrap_in_option};

verus! {

/// The type-transform outcome for one field: unchanged when the original
/// was already optional, otherwise exactly one wrapping layer added.
pub open spec fn shadow_field_ok(orig: Field, out: Field) -> bool {
    &&& out.name@ == orig.name@
    &&& out.vis@ == orig.vis@
    &&& if is_option_spec(orig.ty) {
        out.ty == orig.ty
    } else {
        out.ty.text@ == option_wrapped_text(orig.ty.text@) && is_option_spec(out.ty)
    }
}

/// The shadow field list mirrors the original field list: same length, same
/// names and visibilities in the same order, with the per-field type
/// transform applied.
pub open spec fn shadow_fields_ok(origs: Seq<Field>, outs: Seq<Field>) -> bool {
    &&& outs.len() == origs.len()
    &&& forall|i: int| 0 <= i < origs.len() ==> shadow_field_ok(origs[i], #[trigger] outs[i])
}

/// Builds the shadow type declaration for the given (already validated)
/// field list. `type_ident` is the shadow type's own name; visibility,
/// generics and `where` clause are copied verbatim from the source type,
/// and the requested derives are attached unchanged.
pub fn construct_partial_struct(
    type_ident: &String,
    type_vis: &String,
    fields: &Vec<Field>,
    generics: &String,
    where_clause: &Option<String>,
    derive_attrs: Vec<String>,
) -> (r: ShadowType)
    ensures
        r.name@ == type_ident@,
        r.vis@ == type_vis@,
        r.generics@ == generics@,
        opt_text(r.where_clause) == opt_text(*where_clause),
        r.derives == derive_attrs,
        shadow_fields_ok(fields@, r.fields@),
{
    let mut shadow_fields: Vec<Field> = Vec::new();
    let n = fields.len();
    let mut i: usize = 0;
    while i < n
        invariant
            n == fields@.len(),
            i <= n,
            shadow_fields@.len() == i as int,
            forall|j: int| 0 <= j < i ==> shadow_field_ok(fields@[j], #[trigger] shadow_fields@[j]),
        decreases n - i,
    {
        let f = &fields[i];
        let shadow_ty = if is_option_type(&f.ty) {
            clone_type_expr(&f.ty)
        } else {
            wrap_in_option(&f.ty)
        };
        shadow_fields.push(Field { name: f.name.clone(), vis: f.vis.clone(), ty: shadow_ty });
        i = i + 1;
    }
    ShadowType {
        name: type_ident.clone(),
        vis: type_vis.clone(),
        generics: generics.clone(),
        where_clause: clone_opt_text(where_clause),
        derives: derive_attrs,
        fields: shadow_fields,
    }
}

} // verus!

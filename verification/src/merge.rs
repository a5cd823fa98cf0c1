//! The merge-algorithm synthesizer: builds the description of the binary,
//! order-sensitive combinator over two instances of the shadow type. The
//! per-field rule is uniform and independent of the classification: the
//! left operand's value wins if present, else the right operand's is used.

use vstd::prelude::*;

use crate::artifacts::MergeImpl;
use crate::model::{clone_opt_text, opt_text, Field};

verus! {

/// The generated operation combines exactly the record's fields, by name,
/// in declaration order.
pub open spec fn merge_fields_ok(fields: Seq<Field>, names: Seq<String>) -> bool {
    &&& names.len() == fields.len()
    &&& forall|i: int| 0 <= i < fields.len() ==> (#[trigger] names[i])@ == fields[i].name@
}

/// Builds the `merge` implementation block for the shadow type of the given
/// name, over the given (already validated) field list.
pub fn construct_merge_impl_block(
    type_ident: &String,
    fields: &Vec<Field>,
    generics: &String,
    where_clause: &Option<String>,
) -> (r: MergeImpl)
    ensures
        r.shadow_name@ == type_ident@,
        r.generics@ == generics@,
        opt_text(r.where_clause) == opt_text(*where_clause),
        merge_fields_ok(fields@, r.field_names@),
{
    let mut field_names: Vec<String> = Vec::new();
    let n = fields.len();
    let mut i: usize = 0;
    while i < n
        invariant
            n == fields@.len(),
            i <= n,
            field_names@.len() == i as int,
            forall|j: int| 0 <= j < i ==> (#[trigger] field_names@[j])@ == fields@[j].name@,
        decreases n - i,
    {
        field_names.push(fields[i].name.clone());
        i = i + 1;
    }
    MergeImpl {
        shadow_name: type_ident.clone(),
        generics: generics.clone(),
        where_clause: clone_opt_text(where_clause),
        field_names,
    }
}

} // verus!

//! The reconstruction-algorithm synthesizer: builds the error taxonomy —
//! one case per required-origin field, in declaration order — and the
//! per-field reconstruction plan of the fallible conversion from the shadow
//! type back to the original type.
//!
//! Both are derived from the single shared classification and the single
//! shared naming convention in [`crate::names`], so the case set and the
//! conversion logic cannot diverge.

use vstd::prelude::*;

use crate::artifacts::{ErrorCase, ErrorTaxonomy, FieldPlan, PlanAction, ReconstructionImpl};
use crate::classify::{field_required, is_option_spec, is_option_type, required_fields};
use crate::model::{clone_opt_text, opt_text, Field};
use crate::names::{case_name_of, error_case_name, missing_message, missing_message_of};

verus! {

/// The taxonomy case that reports on the given field.
pub open spec fn case_for(f: Field, c: ErrorCase) -> bool {
    &&& c.field_name@ == f.name@
    &&& c.name@ == case_name_of(f.name@)
    &&& c.message@ == missing_message_of(f.name@)
}

/// The taxonomy cases are in exact 1:1 correspondence with the
/// required-origin fields, in declaration order.
pub open spec fn taxonomy_cases_ok(fields: Seq<Field>, cases: Seq<ErrorCase>) -> bool {
    &&& cases.len() == required_fields(fields).len()
    &&& forall|i: int|
        0 <= i < cases.len() ==> case_for(required_fields(fields)[i], #[trigger] cases[i])
}

/// The reconstruction rule for one field: optional-origin fields are copied
/// through unchanged; required-origin fields demand presence and name the
/// taxonomy case raised on absence.
pub open spec fn plan_field_ok(f: Field, p: FieldPlan) -> bool {
    &&& p.field_name@ == f.name@
    &&& if is_option_spec(f.ty) {
        p.action is PassThrough
    } else {
        p.action matches PlanAction::Require { case_name } && case_name@ == case_name_of(f.name@)
    }
}

/// The plan covers every field, in declaration order.
pub open spec fn plan_ok(fields: Seq<Field>, plan: Seq<FieldPlan>) -> bool {
    &&& plan.len() == fields.len()
    &&& forall|i: int| 0 <= i < fields.len() ==> plan_field_ok(fields[i], #[trigger] plan[i])
}

/// Extending the inspected prefix by one field extends the required-field
/// subsequence exactly when that field is required.
proof fn lemma_required_fields_step(fields: Seq<Field>, i: int)
    requires
        0 <= i < fields.len(),
    ensures
        required_fields(fields.take(i + 1)) == (if field_required(fields[i]) {
            required_fields(fields.take(i)).push(fields[i])
        } else {
            required_fields(fields.take(i))
        }),
{
    reveal(Seq::filter);
    assert(fields.take(i + 1).drop_last() =~= fields.take(i));
    assert(fields.take(i + 1).last() == fields[i]);
}

/// Builds the error taxonomy and the fallible-conversion description for
/// the record `orig_ident` with shadow type `partial_ident`, over the given
/// (already validated) field list. The taxonomy is named after the shadow
/// type with an `Error` suffix.
pub fn construct_tryfrom_impl_block(
    orig_ident: &String,
    partial_ident: &String,
    fields: &Vec<Field>,
    generics: &String,
    where_clause: &Option<String>,
) -> (r: ReconstructionImpl)
    ensures
        r.original_name@ == orig_ident@,
        r.shadow_name@ == partial_ident@,
        r.generics@ == generics@,
        opt_text(r.where_clause) == opt_text(*where_clause),
        r.taxonomy.name@ == partial_ident@ + "Error"@,
        taxonomy_cases_ok(fields@, r.taxonomy.cases@),
        plan_ok(fields@, r.plan@),
{
    let mut error_ident = partial_ident.clone();
    error_ident.append("Error");

    let mut cases: Vec<ErrorCase> = Vec::new();
    let mut plan: Vec<FieldPlan> = Vec::new();
    let n = fields.len();
    let mut i: usize = 0;
    while i < n
        invariant
            n == fields@.len(),
            i <= n,
            plan@.len() == i as int,
            forall|j: int| 0 <= j < i ==> plan_field_ok(fields@[j], #[trigger] plan@[j]),
            taxonomy_cases_ok(fields@.take(i as int), cases@),
        decreases n - i,
    {
        let f = &fields[i];
        proof {
            lemma_required_fields_step(fields@, i as int);
        }
        if is_option_type(&f.ty) {
            plan.push(FieldPlan { field_name: f.name.clone(), action: PlanAction::PassThrough });
        } else {
            let case = error_case_name(&f.name);
            cases.push(
                ErrorCase {
                    name: case.clone(),
                    field_name: f.name.clone(),
                    message: missing_message(&f.name),
                },
            );
            plan.push(
                FieldPlan {
                    field_name: f.name.clone(),
                    action: PlanAction::Require { case_name: case },
                },
            );
        }
        i = i + 1;
    }
    proof {
        assert(fields@.take(n as int) =~= fields@);
    }
    ReconstructionImpl {
        original_name: orig_ident.clone(),
        shadow_name: partial_ident.clone(),
        generics: generics.clone(),
        where_clause: clone_opt_text(where_clause),
        taxonomy: ErrorTaxonomy { name: error_ident, cases },
        plan,
    }
}

} // verus!

//! The runtime semantics of the generated operations, stated over a
//! field-indexed instance model: a shadow instance is the ordered list of
//! its field values, each present or absent. The generated `merge` and the
//! generated fallible conversion behave exactly like [`ShadowInstance::merge`]
//! and [`try_reconstruct`] on this model.

use vstd::prelude::*;

use crate::artifacts::{FieldPlan, PlanAction};
use crate::classify::is_option_spec;
use crate::model::Field;
use crate::names::{missing_message, missing_message_of};
use crate::reconstruct::plan_ok;

verus! {

/// One instance of a shadow type: the field values in declaration order.
#[derive(Debug)]
pub struct ShadowInstance<V> {
    pub fields: Vec<Option<V>>,
}

/// The per-field merge rule: the left value wins if present.
pub open spec fn merged_field<V>(a: Option<V>, b: Option<V>) -> Option<V> {
    if a is Some {
        a
    } else {
        b
    }
}

/// The field-by-field merge of two aligned field lists.
pub open spec fn merged_seq<V>(a: Seq<Option<V>>, b: Seq<Option<V>>) -> Seq<Option<V>> {
    Seq::new(a.len(), |i: int| merged_field(a[i], b[i]))
}

/// Merging an instance with itself gives back a field-equal instance: the
/// self-merge sense in which merge is idempotent.
pub proof fn lemma_merge_self_identity<V>(a: Seq<Option<V>>)
    ensures
        merged_seq(a, a) == a,
{
    assert(merged_seq(a, a) =~= a);
}

impl<V> ShadowInstance<V> {
    /// Combines two instances of the same shape, consuming both: per field,
    /// the left operand's value if present, else the right operand's value,
    /// regardless of the field's optional or required origin. Total: no
    /// error is possible.
    pub fn merge(self, other: ShadowInstance<V>) -> (r: ShadowInstance<V>)
        requires
            self.fields@.len() == other.fields@.len(),
        ensures
            r.fields@ == merged_seq(self.fields@, other.fields@),
    {
        let ghost ga = self.fields@;
        let ghost gb = other.fields@;
        let mut left = self.fields;
        let mut right = other.fields;
        let mut reversed: Vec<Option<V>> = Vec::new();
        while left.len() > 0
            invariant
                left@.len() == right@.len(),
                left@ == ga.take(left@.len() as int),
                right@ == gb.take(right@.len() as int),
                reversed@.len() + left@.len() == ga.len(),
                ga.len() == gb.len(),
                forall|k: int|
                    0 <= k < reversed@.len() ==> #[trigger] reversed@[k] == merged_field(
                        ga[ga.len() - 1 - k],
                        gb[ga.len() - 1 - k],
                    ),
            decreases left.len(),
        {
            let a = left.pop().unwrap();
            let b = right.pop().unwrap();
            let merged = match a {
                Some(v) => Some(v),
                None => b,
            };
            reversed.push(merged);
        }
        let mut fields: Vec<Option<V>> = Vec::new();
        while reversed.len() > 0
            invariant
                fields@.len() + reversed@.len() == ga.len(),
                ga.len() == gb.len(),
                forall|k: int|
                    0 <= k < reversed@.len() ==> #[trigger] reversed@[k] == merged_field(
                        ga[ga.len() - 1 - k],
                        gb[ga.len() - 1 - k],
                    ),
                forall|k: int|
                    0 <= k < fields@.len() ==> #[trigger] fields@[k] == merged_field(ga[k], gb[k]),
            decreases reversed.len(),
        {
            let v = reversed.pop().unwrap();
            fields.push(v);
        }
        proof {
            assert(fields@ =~= merged_seq(ga, gb));
        }
        ShadowInstance { fields }
    }
}

/// A required-origin field of the shadow instance is missing when its value
/// is absent: exactly the situation the matching taxonomy case reports.
pub open spec fn field_missing<V>(p: FieldPlan, v: Option<V>) -> bool {
    p.action is Require && v is None
}

/// The taxonomy case name a plan raises for its field; empty for a
/// pass-through field, which raises none.
pub open spec fn plan_case_name(a: PlanAction) -> Seq<char> {
    match a {
        PlanAction::Require { case_name } => case_name@,
        PlanAction::PassThrough => Seq::empty(),
    }
}

/// One field of a reconstructed original instance: required-origin fields
/// carry their value plain, optional-origin fields keep their wrapper.
#[derive(Debug, PartialEq, Eq)]
pub enum OriginalField<V> {
    Required(V),
    Optional(Option<V>),
}

/// What reconstruction does with one field on success.
pub open spec fn reconstructed_field<V>(p: FieldPlan, v: Option<V>, out: OriginalField<V>) -> bool {
    match p.action {
        PlanAction::Require { .. } => v matches Some(x) && out == OriginalField::Required(x),
        PlanAction::PassThrough => out == OriginalField::Optional(v),
    }
}

/// The taxonomy case returned when reconstruction fails.
#[derive(Debug)]
pub struct ReconError {
    /// The missing field.
    pub field_name: String,
    /// The taxonomy case name: PascalCase(field name) + `Missing`.
    pub case_name: String,
    /// The user-facing message naming the missing field.
    pub message: String,
}

/// Converts a shadow instance back to an original-type instance following
/// the given reconstruction plan. Succeeds exactly when every
/// required-origin field is present; on success every field carries the
/// corresponding shadow value, optional-origin fields keeping their
/// presence or absence unchanged. On failure the returned case is the one
/// of the *first* missing required-origin field in declaration order.
pub fn try_reconstruct<V>(plan: &Vec<FieldPlan>, partial: ShadowInstance<V>) -> (r: Result<
    Vec<OriginalField<V>>,
    ReconError,
>)
    requires
        partial.fields@.len() == plan@.len(),
    ensures
        match r {
            Ok(orig) => {
                &&& orig@.len() == plan@.len()
                &&& forall|i: int|
                    0 <= i < plan@.len() ==> reconstructed_field(
                        plan@[i],
                        partial.fields@[i],
                        #[trigger] orig@[i],
                    )
                &&& forall|i: int|
                    0 <= i < plan@.len() ==> !field_missing(#[trigger] plan@[i], partial.fields@[i])
            },
            Err(e) => exists|i: int|
                {
                    &&& 0 <= i < plan@.len()
                    &&& field_missing(#[trigger] plan@[i], partial.fields@[i])
                    &&& forall|j: int| 0 <= j < i ==> !field_missing(#[trigger] plan@[j], partial.fields@[j])
                    &&& e.field_name@ == plan@[i].field_name@
                    &&& e.case_name@ == plan_case_name(plan@[i].action)
                    &&& e.message@ == missing_message_of(plan@[i].field_name@)
                },
        },
{
    let n = plan.len();
    let mut i: usize = 0;
    while i < n
        invariant
            n == plan@.len(),
            partial.fields@.len() == n,
            i <= n,
            forall|j: int| 0 <= j < i ==> !field_missing(#[trigger] plan@[j], partial.fields@[j]),
        decreases n - i,
    {
        let absent = partial.fields[i].is_none();
        match &plan[i].action {
            PlanAction::Require { case_name } => {
                if absent {
                    return Err(
                        ReconError {
                            field_name: plan[i].field_name.clone(),
                            case_name: case_name.clone(),
                            message: missing_message(&plan[i].field_name),
                        },
                    );
                }
            },
            PlanAction::PassThrough => {},
        }
        i = i + 1;
    }
    let ghost gv = partial.fields@;
    let mut vals = partial.fields;
    let mut reversed: Vec<OriginalField<V>> = Vec::new();
    while vals.len() > 0
        invariant
            n == plan@.len(),
            gv.len() == n,
            vals@ == gv.take(vals@.len() as int),
            reversed@.len() + vals@.len() == n,
            forall|j: int| 0 <= j < n ==> !field_missing(#[trigger] plan@[j], gv[j]),
            forall|k: int|
                0 <= k < reversed@.len() ==> reconstructed_field(
                    plan@[n - 1 - k],
                    gv[n - 1 - k],
                    #[trigger] reversed@[k],
                ),
        decreases vals.len(),
    {
        let idx = vals.len() - 1;
        let v = vals.pop().unwrap();
        let out = match &plan[idx].action {
            PlanAction::Require { .. } => OriginalField::Required(v.unwrap()),
            PlanAction::PassThrough => OriginalField::Optional(v),
        };
        reversed.push(out);
    }
    let mut orig: Vec<OriginalField<V>> = Vec::new();
    while reversed.len() > 0
        invariant
            n == plan@.len(),
            gv.len() == n,
            orig@.len() + reversed@.len() == n,
            forall|k: int|
                0 <= k < reversed@.len() ==> reconstructed_field(
                    plan@[n - 1 - k],
                    gv[n - 1 - k],
                    #[trigger] reversed@[k],
                ),
            forall|k: int|
                0 <= k < orig@.len() ==> reconstructed_field(plan@[k], gv[k], #[trigger] orig@[k]),
        decreases reversed.len(),
    {
        let v = reversed.pop().unwrap();
        orig.push(v);
    }
    Ok(orig)
}

/// A record whose fields were all already optional yields a plan with no
/// required-origin field, so no field of any shadow instance can be
/// missing: reconstruction succeeds whichever fields are present or
/// absent, by the contract of [`try_reconstruct`].
pub proof fn lemma_all_optional_always_reconstructs<V>(
    fields: Seq<Field>,
    plan: Seq<FieldPlan>,
    vals: Seq<Option<V>>,
)
    requires
        plan_ok(fields, plan),
        forall|i: int| 0 <= i < fields.len() ==> is_option_spec(#[trigger] fields[i].ty),
    ensures
        forall|i: int| 0 <= i < plan.len() ==> !field_missing(#[trigger] plan[i], vals[i]),
{
}

} // verus!

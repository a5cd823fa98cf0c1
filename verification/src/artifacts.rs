//! Structural model of the generated code: the three artifacts the engine
//! emits for one record type. They are descriptions of declarations, not
//! running values; rendering them to source text is the host side's job.

use vstd::prelude::*;

use crate::model::Field;

verus! {

/// The generated shadow type declaration: the optional-fields twin.
#[derive(Debug)]
pub struct ShadowType {
    pub name: String,
    pub vis: String,
    /// Generic and lifetime parameters, copied verbatim from the source type.
    pub generics: String,
    /// The `where` clause, copied verbatim from the source type, if any.
    pub where_clause: Option<String>,
    /// The capability (derive) requests to place on the declaration,
    /// verbatim and in order, duplicates kept.
    pub derives: Vec<String>,
    pub fields: Vec<Field>,
}

/// The generated `merge` implementation block, scoped to the shadow type:
/// per field, the left operand's value wins if present.
#[derive(Debug)]
pub struct MergeImpl {
    pub shadow_name: String,
    pub generics: String,
    pub where_clause: Option<String>,
    /// The field names the generated operation combines, in order.
    pub field_names: Vec<String>,
}

/// One case of the error taxonomy: raised when the named required-origin
/// field is absent at reconstruction time.
#[derive(Debug)]
pub struct ErrorCase {
    /// The case (variant) name: PascalCase(field name) + `Missing`.
    pub name: String,
    /// The field this case reports on.
    pub field_name: String,
    /// The user-facing message naming the missing field.
    pub message: String,
}

/// The generated error taxonomy: one case per required-origin field, in
/// declaration order.
#[derive(Debug)]
pub struct ErrorTaxonomy {
    pub name: String,
    pub cases: Vec<ErrorCase>,
}

/// What the generated reconstruction does with one field.
#[derive(Debug)]
pub enum PlanAction {
    /// Optional-origin field: copied through unchanged, present or absent.
    PassThrough,
    /// Required-origin field: its value must be present, else the named
    /// taxonomy case is raised.
    Require { case_name: String },
}

/// The reconstruction rule for one field, in original field order.
#[derive(Debug)]
pub struct FieldPlan {
    pub field_name: String,
    pub action: PlanAction,
}

/// The generated fallible conversion from the shadow type back to the
/// original type, together with its error taxonomy.
#[derive(Debug)]
pub struct ReconstructionImpl {
    pub original_name: String,
    pub shadow_name: String,
    pub generics: String,
    pub where_clause: Option<String>,
    pub taxonomy: ErrorTaxonomy,
    pub plan: Vec<FieldPlan>,
}

/// Everything the engine emits for one record type.
#[derive(Debug)]
pub struct GeneratedCode {
    pub shadow: ShadowType,
    pub merge: MergeImpl,
    pub reconstruction: ReconstructionImpl,
}

} // verus!

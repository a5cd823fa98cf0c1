//! The derivation engine: validates the shape of the input description and
//! runs the three synthesizers over the single shared field list.

use vstd::prelude::*;

use crate::artifacts::GeneratedCode;
use crate::merge::{construct_merge_impl_block, merge_fields_ok};
use crate::model::{clone_type_expr, opt_text, AttrInput, Field, FieldInput, ShapeError, TypeData,
    TypeInput};
use crate::names::{error_name_of, shadow_name_of, shadow_type_name};
use crate::reconstruct::{construct_tryfrom_impl_block, plan_ok, taxonomy_cases_ok};
use crate::shadow::{construct_partial_struct, shadow_fields_ok};

verus! {

/// The views of a list of strings, in order.
pub open spec fn views_of(ss: Seq<String>) -> Seq<Seq<char>> {
    ss.map_values(|s: String| s@)
}

/// The flat, ordered list of capability requests found in the annotation
/// blocks named `partial_derive`, verbatim, duplicates kept.
pub open spec fn partial_derive_args(attrs: Seq<AttrInput>) -> Seq<Seq<char>>
    decreases attrs.len(),
{
    if attrs.len() == 0 {
        Seq::empty()
    } else if attrs.last().name@ == "partial_derive"@ {
        partial_derive_args(attrs.drop_last()) + views_of(attrs.last().args@)
    } else {
        partial_derive_args(attrs.drop_last())
    }
}

proof fn lemma_partial_derive_args_step(attrs: Seq<AttrInput>, i: int)
    requires
        0 <= i < attrs.len(),
    ensures
        partial_derive_args(attrs.take(i + 1)) == (if attrs[i].name@ == "partial_derive"@ {
            partial_derive_args(attrs.take(i)) + views_of(attrs[i].args@)
        } else {
            partial_derive_args(attrs.take(i))
        }),
{
    assert(attrs.take(i + 1).drop_last() =~= attrs.take(i));
    assert(attrs.take(i + 1).last() == attrs[i]);
}

/// Collects the requested derives for the shadow type: the arguments of
/// every annotation block named `partial_derive`, in order of appearance,
/// not deduplicated.
pub fn collect_partial_derives(input: &TypeInput) -> (r: Vec<String>)
    ensures
        views_of(r@) == partial_derive_args(input.attrs@),
{
    let marker: String = "partial_derive".to_owned();
    let mut out: Vec<String> = Vec::new();
    let n = input.attrs.len();
    let mut i: usize = 0;
    while i < n
        invariant
            n == input.attrs@.len(),
            i <= n,
            views_of(out@) == partial_derive_args(input.attrs@.take(i as int)),
            marker@ == "partial_derive"@,
        decreases n - i,
    {
        proof {
            lemma_partial_derive_args_step(input.attrs@, i as int);
        }
        let attr = &input.attrs[i];
        if attr.name == marker {
            let m = attr.args.len();
            let mut j: usize = 0;
            while j < m
                invariant
                    m == attr.args@.len(),
                    j <= m,
                    views_of(out@) == partial_derive_args(input.attrs@.take(i as int)) + views_of(
                        attr.args@.take(j as int),
                    ),
                decreases m - j,
            {
                let arg = attr.args[j].clone();
                let ghost prev = out@;
                out.push(arg);
                proof {
                    assert(views_of(out@) =~= views_of(prev).push(attr.args@[j as int]@));
                    assert(views_of(attr.args@.take(j + 1)) =~= views_of(
                        attr.args@.take(j as int),
                    ).push(attr.args@[j as int]@));
                    assert(views_of(out@) =~= partial_derive_args(input.attrs@.take(i as int))
                        + views_of(attr.args@.take(j + 1)));
                }
                j = j + 1;
            }
            proof {
                assert(attr.args@.take(m as int) =~= attr.args@);
            }
        } else {
            proof {
                assert(views_of(out@) =~= partial_derive_args(input.attrs@.take(i + 1)));
            }
        }
        i = i + 1;
    }
    proof {
        assert(input.attrs@.take(n as int) =~= input.attrs@);
    }
    out
}

/// The raw field list of a named-record input; empty for any other shape.
pub open spec fn input_fields(input: TypeInput) -> Seq<FieldInput> {
    match input.data {
        TypeData::NamedRecord(fs) => fs@,
        _ => Seq::empty(),
    }
}

/// The shapes the engine accepts: a record with a non-empty list of fields,
/// every one of them named.
pub open spec fn shape_accepted(input: TypeInput) -> bool {
    &&& input.data is NamedRecord
    &&& input_fields(input).len() > 0
    &&& forall|i: int|
        0 <= i < input_fields(input).len() ==> (#[trigger] input_fields(input)[i]).name is Some
}

/// A raw field with its (present) name made plain.
pub open spec fn strip_field(f: FieldInput) -> Field {
    Field { name: f.name->0, vis: f.vis, ty: f.ty }
}

/// The validated field list of an accepted input.
pub open spec fn stripped_fields(fs: Seq<FieldInput>) -> Seq<Field> {
    fs.map_values(|f: FieldInput| strip_field(f))
}

/// What the engine emits for an accepted input: the shadow type, the merge
/// implementation and the reconstruction implementation, all derived from
/// the one validated field list and the one naming convention.
pub open spec fn generation_ok(input: TypeInput, g: GeneratedCode) -> bool {
    let fields = stripped_fields(input_fields(input));
    &&& g.shadow.name@ == shadow_name_of(input.name@)
    &&& g.shadow.vis@ == input.vis@
    &&& g.shadow.generics@ == input.generics@
    &&& opt_text(g.shadow.where_clause) == opt_text(input.where_clause)
    &&& views_of(g.shadow.derives@) == partial_derive_args(input.attrs@)
    &&& shadow_fields_ok(fields, g.shadow.fields@)
    &&& g.merge.shadow_name@ == shadow_name_of(input.name@)
    &&& g.merge.generics@ == input.generics@
    &&& opt_text(g.merge.where_clause) == opt_text(input.where_clause)
    &&& merge_fields_ok(fields, g.merge.field_names@)
    &&& g.reconstruction.original_name@ == input.name@
    &&& g.reconstruction.shadow_name@ == shadow_name_of(input.name@)
    &&& g.reconstruction.generics@ == input.generics@
    &&& opt_text(g.reconstruction.where_clause) == opt_text(input.where_clause)
    &&& g.reconstruction.taxonomy.name@ == error_name_of(input.name@)
    &&& taxonomy_cases_ok(fields, g.reconstruction.taxonomy.cases@)
    &&& plan_ok(fields, g.reconstruction.plan@)
}

/// The full contract of the engine: generation succeeds exactly on accepted
/// shapes, and each refusal names what was wrong with the input.
pub open spec fn derive_partial_ok(input: TypeInput, r: Result<GeneratedCode, ShapeError>) -> bool {
    match r {
        Ok(g) => shape_accepted(input) && generation_ok(input, g),
        Err(e) => match e {
            ShapeError::NotAStruct => input.data is SumType || input.data is UntaggedUnion,
            ShapeError::UnnamedFields => input.data is PositionalRecord
                || input.data is UnitRecord,
            ShapeError::NoFields => input.data is NamedRecord && input_fields(input).len() == 0,
            ShapeError::AnonymousField => input.data is NamedRecord && input_fields(input).len()
                > 0 && exists|i: int|
                0 <= i < input_fields(input).len() && (#[trigger] input_fields(
                    input,
                )[i]).name is None,
        },
    }
}

/// Derives the shadow type, the merge operation and the fallible
/// reconstruction for one record type description, or refuses the input
/// when it is not a record with named fields.
pub fn derive_partial(input: &TypeInput) -> (r: Result<GeneratedCode, ShapeError>)
    ensures
        derive_partial_ok(*input, r),
{
    let fields_in: &Vec<FieldInput> = match &input.data {
        TypeData::NamedRecord(fs) => fs,
        TypeData::PositionalRecord => {
            return Err(ShapeError::UnnamedFields);
        },
        TypeData::UnitRecord => {
            return Err(ShapeError::UnnamedFields);
        },
        TypeData::SumType => {
            return Err(ShapeError::NotAStruct);
        },
        TypeData::UntaggedUnion => {
            return Err(ShapeError::NotAStruct);
        },
    };
    if fields_in.len() == 0 {
        return Err(ShapeError::NoFields);
    }
    let mut fields: Vec<Field> = Vec::new();
    let n = fields_in.len();
    let mut i: usize = 0;
    while i < n
        invariant
            n == fields_in@.len(),
            fields_in@ == input_fields(*input),
            i <= n,
            fields@.len() == i as int,
            forall|j: int| 0 <= j < i ==> (#[trigger] fields_in@[j]).name is Some,
            forall|j: int| 0 <= j < i ==> #[trigger] fields@[j] == strip_field(fields_in@[j]),
        decreases n - i,
    {
        let f = &fields_in[i];
        match &f.name {
            Some(nm) => {
                fields.push(
                    Field { name: nm.clone(), vis: f.vis.clone(), ty: clone_type_expr(&f.ty) },
                );
            },
            None => {
                return Err(ShapeError::AnonymousField);
            },
        }
        i = i + 1;
    }
    proof {
        assert(fields@ =~= stripped_fields(fields_in@));
    }
    let partial_ident = shadow_type_name(&input.name);
    let derives = collect_partial_derives(input);
    let shadow = construct_partial_struct(
        &partial_ident,
        &input.vis,
        &fields,
        &input.generics,
        &input.where_clause,
        derives,
    );
    let merge = construct_merge_impl_block(
        &partial_ident,
        &fields,
        &input.generics,
        &input.where_clause,
    );
    let reconstruction = construct_tryfrom_impl_block(
        &input.name,
        &partial_ident,
        &fields,
        &input.generics,
        &input.where_clause,
    );
    Ok(GeneratedCode { shadow, merge, reconstruction })
}

} // verus!

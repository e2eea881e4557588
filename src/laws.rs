//! Properties of planning that relate several fields, entries or calls.
use vstd::prelude::*;
use crate::derive::{derive_model, field_outcome, outcome_at, plan_prefix};
use crate::directive::{
    lemma_prefix_failure, is_skip_word, no_directive, path_models, read_entries, AttrsModel,
};
use crate::schema::{
    is_ident, ErrorKind, Field, FieldPlanModel, GenError, ImplModel, MemberModel, PathModel,
    Shape, StrategyModel, StructBody, StructDef, TypeKind,
};

verus! {

/// The fields of a struct item and how they are addressed; `None` for an
/// item without a field list.
pub open spec fn fields_of(input: StructDef) -> Option<(Seq<Field>, Shape)> {
    match input.body {
        StructBody::Named(fields) => Some((fields@, Shape::Named)),
        StructBody::Unnamed(fields) => Some((fields@, Shape::Unnamed)),
        _ => None,
    }
}

/// How field `i` is addressed in the generated code.
pub open spec fn member_at(fields: Seq<Field>, shape: Shape, i: int) -> MemberModel {
    match shape {
        Shape::Named => MemberModel::Named(fields[i].ident->Some_0@),
        Shape::Unnamed => MemberModel::Index(i as usize),
    }
}

/// When every one of the first `n` fields can be planned, the plans of the
/// first `n` fields are exactly those fields' plans, in order.
pub proof fn lemma_all_fields_planned(fields: Seq<Field>, shape: Shape, n: nat)
    requires
        n <= fields.len(),
        forall|i: int| 0 <= i < n ==> outcome_at(fields, shape, i) is Ok,
    ensures
        plan_prefix(fields, shape, n) is Ok,
        plan_prefix(fields, shape, n)->Ok_0.len() == n,
        forall|i: int|
            0 <= i < n ==> plan_prefix(fields, shape, n)->Ok_0[i] == outcome_at(
                fields,
                shape,
                i,
            )->Ok_0,
    decreases n,
{
    if n > 0 {
        lemma_all_fields_planned(fields, shape, (n - 1) as nat);
    }
}

/// Planning reports the error of the first field that fails: if the fields
/// before field `k` can be planned and field `k` cannot, the plans of every
/// longer prefix fail with field `k`'s error.
pub proof fn lemma_first_failure_wins(fields: Seq<Field>, shape: Shape, k: nat, n: nat)
    requires
        k < n <= fields.len(),
        forall|i: int| 0 <= i < k ==> outcome_at(fields, shape, i) is Ok,
        outcome_at(fields, shape, k as int) is Err,
    ensures
        plan_prefix(fields, shape, n) == Err::<Seq<FieldPlanModel>, GenError>(
            outcome_at(fields, shape, k as int)->Err_0,
        ),
    decreases n,
{
    if n == k + 1 {
        lemma_all_fields_planned(fields, shape, k);
    } else {
        lemma_first_failure_wins(fields, shape, k, (n - 1) as nat);
    }
}

/// A struct fails to plan as soon as any one of its fields fails.
pub proof fn lemma_failing_field_fails_struct(input: StructDef, k: int)
    requires
        fields_of(input) matches Some((fields, shape)) && 0 <= k < fields.len() && outcome_at(
            fields,
            shape,
            k,
        ) is Err,
    ensures
        derive_model(input) is Err,
    decreases k,
{
    let (fields, shape) = fields_of(input)->Some_0;
    if exists|j: int| 0 <= j < k && outcome_at(fields, shape, j) is Err {
        let j = choose|j: int| 0 <= j < k && outcome_at(fields, shape, j) is Err;
        lemma_failing_field_fails_struct(input, j);
    } else {
        lemma_first_failure_wins(fields, shape, k as nat, fields.len());
    }
}

/// A field whose type is `f32` or `f64` and which carries no directive casts
/// the interpolation parameter to its own type. So a struct whose fields are
/// all of these two scalar types, in any mix, and carry no directives, is
/// planned field by field, each field in its place, each cast to its own type,
/// with named and positional fields alike.
pub proof fn lemma_scalar_fields_cast_to_own_type(input: StructDef)
    requires
        fields_of(input) matches Some((fields, shape)) && fields.len() > 0 && forall|i: int|
            0 <= i < fields.len() ==> {
                let f = #[trigger] fields[i];
                &&& f.directives@.len() == 0
                &&& f.ty.kind matches TypeKind::Path(p) && (is_ident(p@, "f32"@) || is_ident(
                    p@,
                    "f64"@,
                ))
                &&& shape == Shape::Named ==> f.ident is Some
            },
    ensures
        derive_model(input) matches Ok(m) && m.name == input.name@ && m.fields.len()
            == fields_of(input)->Some_0.0.len() && forall|i: int|
            0 <= i < m.fields.len() ==> {
                let (fields, shape) = fields_of(input)->Some_0;
                &&& #[trigger] m.fields[i].member == member_at(fields, shape, i)
                &&& m.fields[i].strategy == StrategyModel::ExplicitScalar(
                    fields[i].ty.kind->Path_0@,
                )
            },
{
    let (fields, shape) = fields_of(input)->Some_0;
    assert forall|i: int| 0 <= i < fields.len() implies outcome_at(fields, shape, i) == Ok::<
        FieldPlanModel,
        GenError,
    >(
        FieldPlanModel {
            member: member_at(fields, shape, i),
            strategy: StrategyModel::ExplicitScalar(fields[i].ty.kind->Path_0@),
        },
    ) by {
        let f = fields[i];
        assert(f.directives@.len() == 0);
    }
    lemma_all_fields_planned(fields, shape, fields.len());
}

/// A field whose one directive is a single `skip` or `ignore` keeps the left
/// operand's value whatever its type, even a type that could not be
/// interpolated; the interpolation parameter plays no part.
pub proof fn lemma_skipped_field_is_kept(member: MemberModel, f: Field)
    requires
        f.directives@.len() == 1,
        f.directives@[0].entries@.len() == 1,
        is_skip_word(f.directives@[0].entries@[0]@),
    ensures
        field_outcome(member, f) == Ok::<FieldPlanModel, GenError>(
            FieldPlanModel { member, strategy: StrategyModel::Skip },
        ),
{
    let entries = path_models(f.directives@[0].entries@);
    assert(entries.drop_last() =~= Seq::<PathModel>::empty());
    assert(entries.last() == f.directives@[0].entries@[0]@);
    assert(read_entries(entries.drop_last()) == Ok::<AttrsModel, GenError>(no_directive()));
}

/// A field whose type is some other path, such as a struct that is itself
/// interpolated this way, passes the interpolation parameter on unchanged
/// when it has no directive, and casts it to `o` when its one directive is
/// the single type entry `o`.
pub proof fn lemma_nested_field(member: MemberModel, f: Field)
    requires
        f.ty.kind matches TypeKind::Path(p) && !is_ident(p@, "f32"@) && !is_ident(p@, "f64"@),
    ensures
        f.directives@.len() == 0 ==> field_outcome(member, f) == Ok::<FieldPlanModel, GenError>(
            FieldPlanModel { member, strategy: StrategyModel::GenericFloat },
        ),
        f.directives@.len() == 1 && f.directives@[0].entries@.len() == 1 && !is_skip_word(
            f.directives@[0].entries@[0]@,
        ) ==> field_outcome(member, f) == Ok::<FieldPlanModel, GenError>(
            FieldPlanModel {
                member,
                strategy: StrategyModel::ExplicitScalar(f.directives@[0].entries@[0]@),
            },
        ),
{
    if f.directives@.len() == 1 && f.directives@[0].entries@.len() == 1 {
        let entries = path_models(f.directives@[0].entries@);
        assert(entries.drop_last() =~= Seq::<PathModel>::empty());
        assert(entries.last() == f.directives@[0].entries@[0]@);
        assert(read_entries(entries.drop_last()) == Ok::<AttrsModel, GenError>(no_directive()));
    }
}

/// What a successful reading of entries records: a skip marker among them
/// sets `skip`, and a type entry among them sets the override.
proof fn lemma_read_records(entries: Seq<PathModel>)
    ensures
        read_entries(entries) matches Ok(a) ==> (forall|i: int|
            0 <= i < entries.len() && is_skip_word(#[trigger] entries[i]) ==> a.skip) && (forall|
            i: int,
        |
            0 <= i < entries.len() && !is_skip_word(#[trigger] entries[i])
                ==> a.type_override is Some),
    decreases entries.len(),
{
    if entries.len() > 0 {
        let shorter = entries.drop_last();
        lemma_read_records(shorter);
        assert forall|i: int| 0 <= i < entries.len() - 1 implies entries[i] == #[trigger] shorter[i] by {}
    }
}

/// A second entry of the same kind as an earlier one, at index `j`, makes
/// the reading of the entries fail.
proof fn lemma_repeated_entry_fails(entries: Seq<PathModel>, i: int, j: int)
    requires
        0 <= i < j < entries.len(),
        is_skip_word(entries[i]) == is_skip_word(entries[j]),
    ensures
        read_entries(entries) is Err,
{
    let upto = entries.subrange(0, j + 1);
    assert(upto.drop_last() =~= entries.subrange(0, j));
    lemma_read_records(entries.subrange(0, j));
    assert(entries.subrange(0, j)[i] == entries[i]);
    assert(read_entries(upto) is Err);
    lemma_prefix_failure(entries, j + 1);
}

/// Two `skip`/`ignore` markers in a field's directive make the field fail
/// rather than one being picked.
pub proof fn lemma_repeated_skip_fails(member: MemberModel, f: Field, i: int, j: int)
    requires
        f.directives@.len() == 1,
        0 <= i < j < f.directives@[0].entries@.len(),
        is_skip_word(f.directives@[0].entries@[i]@),
        is_skip_word(f.directives@[0].entries@[j]@),
    ensures
        field_outcome(member, f) is Err,
{
    lemma_repeated_entry_fails(path_models(f.directives@[0].entries@), i, j);
}

/// Two type entries in a field's directive make the field fail rather than
/// one being picked.
pub proof fn lemma_repeated_type_fails(member: MemberModel, f: Field, i: int, j: int)
    requires
        f.directives@.len() == 1,
        0 <= i < j < f.directives@[0].entries@.len(),
        !is_skip_word(f.directives@[0].entries@[i]@),
        !is_skip_word(f.directives@[0].entries@[j]@),
    ensures
        field_outcome(member, f) is Err,
{
    lemma_repeated_entry_fails(path_models(f.directives@[0].entries@), i, j);
}

/// Two separate directives on one field make the field fail, at the second.
pub proof fn lemma_repeated_directive_fails(member: MemberModel, f: Field)
    requires
        f.directives@.len() >= 2,
    ensures
        field_outcome(member, f) == Err::<FieldPlanModel, GenError>(
            GenError { kind: ErrorKind::DuplicateAttribute, at: f.directives@[1].at },
        ),
{
}

/// An item that is not a struct, and a struct without fields, fail with a
/// shape error at the item.
pub proof fn lemma_fieldless_item_fails(input: StructDef)
    requires
        fields_of(input) matches Some((fields, _)) ==> fields.len() == 0,
    ensures
        derive_model(input) == Err::<ImplModel, GenError>(
            GenError { kind: ErrorKind::MalformedStructShape, at: input.at },
        ),
{
}

} // verus!

//! Field classification and the plan for a whole struct.
use vstd::prelude::*;
use crate::directive::{field_attributes, field_decision, AttrsModel, LerpAttributes};
use crate::schema::{
    is_ident, plan_models, ErrorKind, Field, FieldPlan, FieldPlanModel, GenError, ImplModel,
    LerpImpl, Member, MemberModel, Shape, Strategy, StrategyModel, StructBody, StructDef,
    TypeExpr, TypeKind,
};

verus! {

/// The strategy for a field of type `ty` that is not skipped. Groups,
/// parentheses and references are looked through; a path is cast to the
/// override when there is one, else to its own type when that is `f32` or
/// `f64`, else it gets `t` as it is; any other type form is unsupported.
pub open spec fn classify(ty: TypeExpr, attrs: AttrsModel) -> Result<StrategyModel, GenError>
    decreases ty,
{
    match ty.kind {
        TypeKind::Path(p) => match attrs.type_override {
            Some(o) => Ok(StrategyModel::ExplicitScalar(o)),
            None => if is_ident(p@, "f64"@) || is_ident(p@, "f32"@) {
                Ok(StrategyModel::ExplicitScalar(p@))
            } else {
                Ok(StrategyModel::GenericFloat)
            },
        },
        TypeKind::Group(inner) => classify(*inner, attrs),
        TypeKind::Paren(inner) => classify(*inner, attrs),
        TypeKind::Reference(inner) => classify(*inner, attrs),
        _ => Err(GenError { kind: ErrorKind::UnsupportedFieldShape, at: ty.at }),
    }
}

/// The plan for one field addressed as `member`: the field's directives are
/// read first, and a skipped field is kept whatever its type.
pub open spec fn field_outcome(member: MemberModel, f: Field) -> Result<FieldPlanModel, GenError> {
    match field_decision(f.directives@) {
        Err(e) => Err(e),
        Ok(attrs) => if attrs.skip {
            Ok(FieldPlanModel { member, strategy: StrategyModel::Skip })
        } else {
            match classify(f.ty, attrs) {
                Ok(strategy) => Ok(FieldPlanModel { member, strategy }),
                Err(e) => Err(e),
            }
        },
    }
}

/// The plan for field `i` of a struct of the given shape: by name, which a
/// field of a named struct must have, or by position.
pub open spec fn outcome_at(fields: Seq<Field>, shape: Shape, i: int) -> Result<
    FieldPlanModel,
    GenError,
> {
    match shape {
        Shape::Named => match fields[i].ident {
            Some(name) => field_outcome(MemberModel::Named(name@), fields[i]),
            None => Err(GenError { kind: ErrorKind::FieldNotNamed, at: fields[i].at }),
        },
        Shape::Unnamed => field_outcome(MemberModel::Index(i as usize), fields[i]),
    }
}

/// The plans of the first `n` fields, or the error of the first field among
/// them that fails.
pub open spec fn plan_prefix(fields: Seq<Field>, shape: Shape, n: nat) -> Result<
    Seq<FieldPlanModel>,
    GenError,
>
    decreases n,
{
    if n == 0 {
        Ok(Seq::empty())
    } else {
        match plan_prefix(fields, shape, (n - 1) as nat) {
            Err(e) => Err(e),
            Ok(plans) => match outcome_at(fields, shape, n - 1) {
                Ok(p) => Ok(plans.push(p)),
                Err(e) => Err(e),
            },
        }
    }
}

pub open spec fn plan_fields(
    name: Seq<char>,
    fields: Seq<Field>,
    shape: Shape,
) -> Result<ImplModel, GenError> {
    match plan_prefix(fields, shape, fields.len()) {
        Ok(plans) => Ok(ImplModel { name, shape, fields: plans }),
        Err(e) => Err(e),
    }
}

/// The plan for a whole struct. A struct without fields, or an item that is
/// not a struct, is a shape error at the item.
pub open spec fn derive_model(item: StructDef) -> Result<ImplModel, GenError> {
    let shape_error = GenError { kind: ErrorKind::MalformedStructShape, at: item.at };
    match item.body {
        StructBody::Named(fields) => if fields@.len() > 0 {
            plan_fields(item.name@, fields@, Shape::Named)
        } else {
            Err(shape_error)
        },
        StructBody::Unnamed(fields) => if fields@.len() > 0 {
            plan_fields(item.name@, fields@, Shape::Unnamed)
        } else {
            Err(shape_error)
        },
        _ => Err(shape_error),
    }
}

pub open spec fn strategy_view(r: Result<Strategy, GenError>) -> Result<StrategyModel, GenError> {
    match r {
        Ok(s) => Ok(s@),
        Err(e) => Err(e),
    }
}

pub open spec fn plan_view(r: Result<FieldPlan, GenError>) -> Result<FieldPlanModel, GenError> {
    match r {
        Ok(p) => Ok(p@),
        Err(e) => Err(e),
    }
}

pub open spec fn impl_view(r: Result<LerpImpl, GenError>) -> Result<ImplModel, GenError> {
    match r {
        Ok(p) => Ok(p@),
        Err(e) => Err(e),
    }
}

/// Chooses the strategy for a field of type `ty` that is not skipped.
pub fn classify_type(ty: &TypeExpr, attrs: &LerpAttributes) -> (r: Result<Strategy, GenError>)
    ensures
        strategy_view(r) == classify(*ty, attrs@),
    decreases ty,
{
    match &ty.kind {
        TypeKind::Path(p) => match &attrs.type_override {
            Some(o) => Ok(Strategy::ExplicitScalar(o.copied())),
            None => if p.is_ident("f64") || p.is_ident("f32") {
                Ok(Strategy::ExplicitScalar(p.copied()))
            } else {
                Ok(Strategy::GenericFloat)
            },
        },
        TypeKind::Group(inner) => classify_type(inner, attrs),
        TypeKind::Paren(inner) => classify_type(inner, attrs),
        TypeKind::Reference(inner) => classify_type(inner, attrs),
        _ => Err(GenError { kind: ErrorKind::UnsupportedFieldShape, at: ty.at }),
    }
}

/// Plans one field, addressed in the generated code as `member`.
pub fn lerp_field(member: Member, field: &Field) -> (r: Result<FieldPlan, GenError>)
    ensures
        plan_view(r) == field_outcome(member@, *field),
{
    let attrs = match field_attributes(&field.directives) {
        Ok(a) => a,
        Err(e) => return Err(e),
    };
    if attrs.skip {
        Ok(FieldPlan { member, strategy: Strategy::Skip })
    } else {
        match classify_type(&field.ty, &attrs) {
            Ok(strategy) => Ok(FieldPlan { member, strategy }),
            Err(e) => Err(e),
        }
    }
}

/// Once a field fails, the plans of all longer prefixes fail with its error.
proof fn lemma_failure_persists(fields: Seq<Field>, shape: Shape, k: nat, n: nat)
    requires
        k <= n,
        plan_prefix(fields, shape, k) is Err,
    ensures
        plan_prefix(fields, shape, n) == plan_prefix(fields, shape, k),
    decreases n,
{
    if n > k {
        lemma_failure_persists(fields, shape, k, (n - 1) as nat);
    }
}

/// Plans every field of a non-empty field list in order, stopping at the
/// first failure.
fn plan_all(name: &String, fields: &Vec<Field>, shape: Shape) -> (r: Result<LerpImpl, GenError>)
    ensures
        impl_view(r) == plan_fields(name@, fields@, shape),
{
    let mut plans: Vec<FieldPlan> = Vec::new();
    let mut i: usize = 0;
    assert(plan_models(plans@) =~= Seq::<FieldPlanModel>::empty());
    while i < fields.len()
        invariant
            i <= fields@.len(),
            plan_prefix(fields@, shape, i as nat) == Ok::<Seq<FieldPlanModel>, GenError>(
                plan_models(plans@),
            ),
        decreases fields@.len() - i,
    {
        let field = &fields[i];
        let member = match shape {
            Shape::Named => match &field.ident {
                Some(ident) => Member::Named(ident.clone()),
                None => {
                    let e = GenError { kind: ErrorKind::FieldNotNamed, at: field.at };
                    proof {
                        lemma_failure_persists(fields@, shape, (i + 1) as nat, fields@.len());
                    }
                    return Err(e);
                },
            },
            Shape::Unnamed => Member::Index(i),
        };
        match lerp_field(member, field) {
            Ok(p) => {
                let ghost before = plans@;
                let ghost pm = p@;
                plans.push(p);
                proof {
                    assert(plan_models(plans@) =~= plan_models(before).push(pm));
                }
            },
            Err(e) => {
                proof {
                    lemma_failure_persists(fields@, shape, (i + 1) as nat, fields@.len());
                }
                return Err(e);
            },
        }
        i = i + 1;
    }
    Ok(LerpImpl { name: name.clone(), shape, fields: plans })
}

/// Plans the interpolation of every field of `input`, or reports the first
/// failure: the shape error of an item without fields, or the error of the
/// first field, in declaration order, that cannot be planned.
pub fn lerp_derive_internal(input: &StructDef) -> (r: Result<LerpImpl, GenError>)
    ensures
        impl_view(r) == derive_model(*input),
{
    let shape_error = GenError { kind: ErrorKind::MalformedStructShape, at: input.at };
    match &input.body {
        StructBody::Named(fields) => if fields.len() > 0 {
            plan_all(&input.name, fields, Shape::Named)
        } else {
            Err(shape_error)
        },
        StructBody::Unnamed(fields) => if fields.len() > 0 {
            plan_all(&input.name, fields, Shape::Unnamed)
        } else {
            Err(shape_error)
        },
        _ => Err(shape_error),
    }
}

/// What is emitted for an annotated item: the planned implementation, or the
/// diagnostic together with a placeholder implementation for the named type,
/// so that the diagnostic is the only error the host compiler reports.
pub enum Expansion {
    Generated(LerpImpl),
    Fallback { name: String, error: GenError },
}

/// Expands one annotated item. Planning never fails outright: a failure
/// becomes a fallback carrying the item's name and the first error.
pub fn lerp_derive(input: &StructDef) -> (r: Expansion)
    ensures
        match derive_model(*input) {
            Ok(m) => r matches Expansion::Generated(i) && i@ == m,
            Err(e) => r matches Expansion::Fallback { name, error } && name@ == input.name@
                && error == e,
        },
{
    match lerp_derive_internal(input) {
        Ok(i) => Expansion::Generated(i),
        Err(error) => Expansion::Fallback { name: input.name.clone(), error },
    }
}

} // verus!

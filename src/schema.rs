//! The description of a struct that interpolation is planned for, the plan
//! that comes out, and the errors that can stop planning.
//!
//! Every node of the input carries `at`, a location handle chosen by the front
//! end; an error reports the handle of the node it is about.
use vstd::prelude::*;
use crate::text::same_text;

verus! {

/// One segment of a path: an identifier and whether it carries generic
/// arguments (`Vec<T>` does, `f64` does not).
pub struct PathSegment {
    pub ident: String,
    pub has_arguments: bool,
}

/// A type path such as `f64` or `crate::geometry::Point`.
pub struct TypePath {
    pub at: usize,
    pub leading_colon: bool,
    pub segments: Vec<PathSegment>,
}

pub struct SegmentModel {
    pub ident: Seq<char>,
    pub has_arguments: bool,
}

pub struct PathModel {
    pub at: usize,
    pub leading_colon: bool,
    pub segments: Seq<SegmentModel>,
}

impl View for PathSegment {
    type V = SegmentModel;

    open spec fn view(&self) -> SegmentModel {
        SegmentModel { ident: self.ident@, has_arguments: self.has_arguments }
    }
}

impl View for TypePath {
    type V = PathModel;

    open spec fn view(&self) -> PathModel {
        PathModel {
            at: self.at,
            leading_colon: self.leading_colon,
            segments: segment_models(self.segments@),
        }
    }
}

pub open spec fn segment_models(s: Seq<PathSegment>) -> Seq<SegmentModel> {
    s.map_values(|g: PathSegment| g@)
}

/// The path is the bare identifier `name`: no leading `::`, one segment, no
/// generic arguments.
pub open spec fn is_ident(p: PathModel, name: Seq<char>) -> bool {
    &&& !p.leading_colon
    &&& p.segments.len() == 1
    &&& !p.segments[0].has_arguments
    &&& p.segments[0].ident == name
}

impl PathSegment {
    pub fn copied(&self) -> (r: PathSegment)
        ensures
            r@ == self@,
    {
        PathSegment { ident: self.ident.clone(), has_arguments: self.has_arguments }
    }
}

impl TypePath {
    pub fn is_ident(&self, name: &str) -> (r: bool)
        ensures
            r == is_ident(self@, name@),
    {
        if self.leading_colon || self.segments.len() != 1 {
            return false;
        }
        let seg = &self.segments[0];
        !seg.has_arguments && same_text(seg.ident.as_str(), name)
    }

    pub fn copied(&self) -> (r: TypePath)
        ensures
            r@ == self@,
    {
        let mut segments: Vec<PathSegment> = Vec::new();
        let mut i: usize = 0;
        while i < self.segments.len()
            invariant
                i <= self.segments@.len(),
                segments@.len() == i,
                forall|j: int| 0 <= j < i ==> (#[trigger] segments@[j])@ == self.segments@[j]@,
            decreases self.segments@.len() - i,
        {
            segments.push(self.segments[i].copied());
            i = i + 1;
        }
        assert(segment_models(segments@) =~= segment_models(self.segments@));
        TypePath { at: self.at, leading_colon: self.leading_colon, segments }
    }
}

/// The shape of a field's declared type.
pub enum TypeKind {
    Path(TypePath),
    /// An invisible group around a type.
    Group(Box<TypeExpr>),
    /// A parenthesised type, `(T)`.
    Paren(Box<TypeExpr>),
    /// A reference, `&T` or `&mut T`.
    Reference(Box<TypeExpr>),
    Array,
    Tuple,
    Slice,
    /// Any other type form (function pointer, trait object, ...).
    Other,
}

pub struct TypeExpr {
    pub at: usize,
    pub kind: TypeKind,
}

/// One `lerp` attribute on a field: its comma-separated entries, in order.
pub struct Directive {
    pub at: usize,
    pub entries: Vec<TypePath>,
}

pub struct Field {
    pub at: usize,
    pub ident: Option<String>,
    pub ty: TypeExpr,
    /// Every `lerp` attribute found on the field, in order.
    pub directives: Vec<Directive>,
}

pub enum StructBody {
    Named(Vec<Field>),
    Unnamed(Vec<Field>),
    Unit,
    /// The annotated item is not a struct.
    NotStruct,
}

pub struct StructDef {
    pub at: usize,
    pub name: String,
    pub body: StructBody,
}

/// How a field is addressed in the generated struct literal.
pub enum Member {
    Named(String),
    Index(usize),
}

/// How one field is interpolated.
pub enum Strategy {
    /// The left operand's value is kept as it is.
    Skip,
    /// The field's own interpolation is called with `t` cast to this scalar type.
    ExplicitScalar(TypePath),
    /// The field's own interpolation is called with `t` as it is.
    GenericFloat,
}

pub struct FieldPlan {
    pub member: Member,
    pub strategy: Strategy,
}

#[derive(Clone, Copy, PartialEq, Eq, Debug, Structural)]
pub enum Shape {
    Named,
    Unnamed,
}

/// The interpolation to generate for a struct: one entry per field, in
/// declaration order.
pub struct LerpImpl {
    pub name: String,
    pub shape: Shape,
    pub fields: Vec<FieldPlan>,
}

pub enum MemberModel {
    Named(Seq<char>),
    Index(usize),
}

pub enum StrategyModel {
    Skip,
    ExplicitScalar(PathModel),
    GenericFloat,
}

pub struct FieldPlanModel {
    pub member: MemberModel,
    pub strategy: StrategyModel,
}

pub struct ImplModel {
    pub name: Seq<char>,
    pub shape: Shape,
    pub fields: Seq<FieldPlanModel>,
}

impl View for Member {
    type V = MemberModel;

    open spec fn view(&self) -> MemberModel {
        match self {
            Member::Named(s) => MemberModel::Named(s@),
            Member::Index(i) => MemberModel::Index(*i),
        }
    }
}

impl View for Strategy {
    type V = StrategyModel;

    open spec fn view(&self) -> StrategyModel {
        match self {
            Strategy::Skip => StrategyModel::Skip,
            Strategy::ExplicitScalar(p) => StrategyModel::ExplicitScalar(p@),
            Strategy::GenericFloat => StrategyModel::GenericFloat,
        }
    }
}

impl View for FieldPlan {
    type V = FieldPlanModel;

    open spec fn view(&self) -> FieldPlanModel {
        FieldPlanModel { member: self.member@, strategy: self.strategy@ }
    }
}

pub open spec fn plan_models(s: Seq<FieldPlan>) -> Seq<FieldPlanModel> {
    s.map_values(|f: FieldPlan| f@)
}

impl View for LerpImpl {
    type V = ImplModel;

    open spec fn view(&self) -> ImplModel {
        ImplModel { name: self.name@, shape: self.shape, fields: plan_models(self.fields@) }
    }
}

#[derive(Clone, Copy, PartialEq, Eq, Debug, Structural)]
pub enum ErrorKind {
    /// A second `skip` or `ignore` entry in one attribute.
    DuplicateSkip,
    /// A second type entry in one attribute.
    DuplicateLerpType,
    /// A second `lerp` attribute on one field.
    DuplicateAttribute,
    /// A field type that is neither a path nor a wrapper around one.
    UnsupportedFieldShape,
    /// A struct without fields, or an item that is not a struct.
    MalformedStructShape,
    /// A field of a struct with named fields that has no name.
    FieldNotNamed,
}

/// A planning failure: what went wrong and the location handle of the node
/// it concerns.
#[derive(Clone, Copy, PartialEq, Eq, Debug, Structural)]
pub struct GenError {
    pub kind: ErrorKind,
    pub at: usize,
}

pub open spec fn message_of(kind: ErrorKind) -> Seq<char> {
    match kind {
        ErrorKind::DuplicateSkip => "duplicate skip statement"@,
        ErrorKind::DuplicateLerpType => "duplicate occurrence of lerp type"@,
        ErrorKind::DuplicateAttribute =>
            "found duplicate attribute on field, consolidate the attributes into one"@,
        ErrorKind::UnsupportedFieldShape => "Unsupported type."@,
        ErrorKind::MalformedStructShape => "Struct must have fields"@,
        ErrorKind::FieldNotNamed => "All fields must be named in the struct"@,
    }
}

impl ErrorKind {
    /// The diagnostic shown for this kind of failure.
    pub fn message(&self) -> (r: &'static str)
        ensures
            r@ == message_of(*self),
    {
        match self {
            ErrorKind::DuplicateSkip => "duplicate skip statement",
            ErrorKind::DuplicateLerpType => "duplicate occurrence of lerp type",
            ErrorKind::DuplicateAttribute =>
                "found duplicate attribute on field, consolidate the attributes into one",
            ErrorKind::UnsupportedFieldShape => "Unsupported type.",
            ErrorKind::MalformedStructShape => "Struct must have fields",
            ErrorKind::FieldNotNamed => "All fields must be named in the struct",
        }
    }
}

} // verus!

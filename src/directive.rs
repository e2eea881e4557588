//! The per-field directive language: `#[lerp(skip)]`, `#[lerp(ignore)]`, or
//! `#[lerp(f32)]` and the like, which names the scalar type that the
//! interpolation parameter is cast to for that field.
use vstd::prelude::*;
use crate::schema::{
    is_ident, Directive, ErrorKind, GenError, PathModel, TypePath,
};

verus! {

/// What the directives on one field decide.
pub struct LerpAttributes {
    pub skip: bool,
    pub type_override: Option<TypePath>,
}

pub struct AttrsModel {
    pub skip: bool,
    pub type_override: Option<PathModel>,
}

impl View for LerpAttributes {
    type V = AttrsModel;

    open spec fn view(&self) -> AttrsModel {
        AttrsModel {
            skip: self.skip,
            type_override: match self.type_override {
                Some(p) => Some(p@),
                None => None,
            },
        }
    }
}

pub open spec fn no_directive() -> AttrsModel {
    AttrsModel { skip: false, type_override: None }
}

pub open spec fn path_models(s: Seq<TypePath>) -> Seq<PathModel> {
    s.map_values(|p: TypePath| p@)
}

/// `skip` and `ignore` are the two spellings of the skip marker.
pub open spec fn is_skip_word(p: PathModel) -> bool {
    is_ident(p, "skip"@) || is_ident(p, "ignore"@)
}

/// Reads one more entry of an attribute into what the earlier entries decided.
pub open spec fn read_entry(acc: AttrsModel, p: PathModel) -> Result<AttrsModel, GenError> {
    if is_skip_word(p) {
        if acc.skip {
            Err(GenError { kind: ErrorKind::DuplicateSkip, at: p.at })
        } else {
            Ok(AttrsModel { skip: true, ..acc })
        }
    } else {
        if acc.type_override is Some {
            Err(GenError { kind: ErrorKind::DuplicateLerpType, at: p.at })
        } else {
            Ok(AttrsModel { type_override: Some(p), ..acc })
        }
    }
}

/// The decision of one attribute's entries, read left to right; the first
/// entry that repeats a marker of its kind is the error.
pub open spec fn read_entries(entries: Seq<PathModel>) -> Result<AttrsModel, GenError>
    decreases entries.len(),
{
    if entries.len() == 0 {
        Ok(no_directive())
    } else {
        match read_entries(entries.drop_last()) {
            Ok(acc) => read_entry(acc, entries.last()),
            Err(e) => Err(e),
        }
    }
}

/// Once a prefix of the entries fails, reading the rest keeps that failure.
pub proof fn lemma_prefix_failure(entries: Seq<PathModel>, k: int)
    requires
        0 <= k <= entries.len(),
        read_entries(entries.subrange(0, k)) is Err,
    ensures
        read_entries(entries) == read_entries(entries.subrange(0, k)),
    decreases entries.len(),
{
    if k == entries.len() {
        assert(entries.subrange(0, k) =~= entries);
    } else {
        let shorter = entries.drop_last();
        assert(shorter.subrange(0, k) =~= entries.subrange(0, k));
        lemma_prefix_failure(shorter, k);
    }
}

/// The decision for a field with the given attributes: none decides nothing,
/// one is read entry by entry, and a second one is an error at that second one.
pub open spec fn field_decision(directives: Seq<Directive>) -> Result<AttrsModel, GenError> {
    if directives.len() == 0 {
        Ok(no_directive())
    } else if directives.len() == 1 {
        read_entries(path_models(directives[0].entries@))
    } else {
        Err(GenError { kind: ErrorKind::DuplicateAttribute, at: directives[1].at })
    }
}

pub open spec fn decision_view(r: Result<LerpAttributes, GenError>) -> Result<AttrsModel, GenError> {
    match r {
        Ok(a) => Ok(a@),
        Err(e) => Err(e),
    }
}

impl LerpAttributes {
    /// Reads the entries of one `lerp` attribute.
    pub fn parse(entries: &Vec<TypePath>) -> (r: Result<LerpAttributes, GenError>)
        ensures
            decision_view(r) == read_entries(path_models(entries@)),
    {
        let ghost models = path_models(entries@);
        let mut skip = false;
        let mut type_override: Option<TypePath> = None;
        let mut i: usize = 0;
        while i < entries.len()
            invariant
                i <= entries@.len(),
                models == path_models(entries@),
                read_entries(models.subrange(0, i as int)) == Ok::<AttrsModel, GenError>(
                    (LerpAttributes { skip, type_override })@,
                ),
            decreases entries@.len() - i,
        {
            let path = &entries[i];
            proof {
                assert(models.subrange(0, i + 1).drop_last() =~= models.subrange(0, i as int));
            }
            if path.is_ident("skip") || path.is_ident("ignore") {
                if skip {
                    proof {
                        lemma_prefix_failure(models, i + 1);
                    }
                    return Err(GenError { kind: ErrorKind::DuplicateSkip, at: path.at });
                }
                skip = true;
            } else {
                if type_override.is_some() {
                    proof {
                        lemma_prefix_failure(models, i + 1);
                    }
                    return Err(GenError { kind: ErrorKind::DuplicateLerpType, at: path.at });
                }
                type_override = Some(path.copied());
            }
            i = i + 1;
        }
        proof {
            assert(models.subrange(0, entries@.len() as int) =~= models);
        }
        Ok(LerpAttributes { skip, type_override })
    }
}

/// Gathers the decision for a field from all `lerp` attributes on it.
pub fn field_attributes(directives: &Vec<Directive>) -> (r: Result<LerpAttributes, GenError>)
    ensures
        decision_view(r) == field_decision(directives@),
{
    if directives.len() == 0 {
        Ok(LerpAttributes { skip: false, type_override: None })
    } else if directives.len() == 1 {
        LerpAttributes::parse(&directives[0].entries)
    } else {
        Err(GenError { kind: ErrorKind::DuplicateAttribute, at: directives[1].at })
    }
}

} // verus!

use lerp::directive::{field_attributes, LerpAttributes};
use lerp::schema::{Directive, ErrorKind, GenError, PathSegment, TypePath};

fn word(at: usize, name: &str) -> TypePath {
    TypePath {
        at,
        leading_colon: false,
        segments: vec![PathSegment { ident: name.to_string(), has_arguments: false }],
    }
}

#[test]
fn no_directive_decides_nothing() {
    let a = field_attributes(&vec![]).unwrap();
    assert!(!a.skip);
    assert!(a.type_override.is_none());
}

#[test]
fn skip_and_type_together() {
    let a = LerpAttributes::parse(&vec![word(1, "ignore"), word(2, "f64")]).unwrap();
    assert!(a.skip);
    assert_eq!(a.type_override.unwrap().segments[0].ident, "f64");
}

#[test]
fn skip_word_must_be_bare() {
    let qualified = TypePath {
        at: 1,
        leading_colon: false,
        segments: vec![
            PathSegment { ident: "a".to_string(), has_arguments: false },
            PathSegment { ident: "skip".to_string(), has_arguments: false },
        ],
    };
    let a = LerpAttributes::parse(&vec![qualified]).unwrap();
    assert!(!a.skip);
    assert_eq!(a.type_override.unwrap().segments.len(), 2);
    assert!(!word(1, "skips").is_ident("skip"));
    assert!(word(1, "skip").is_ident("skip"));
}

#[test]
fn repeated_entries_fail() {
    let e = LerpAttributes::parse(&vec![word(1, "skip"), word(2, "skip")]);
    assert_eq!(e.err(), Some(GenError { kind: ErrorKind::DuplicateSkip, at: 2 }));
    let e = LerpAttributes::parse(&vec![word(1, "f32"), word(2, "f64")]);
    assert_eq!(e.err(), Some(GenError { kind: ErrorKind::DuplicateLerpType, at: 2 }));
}

#[test]
fn second_attribute_fails() {
    let d = vec![
        Directive { at: 4, entries: vec![word(5, "skip")] },
        Directive { at: 8, entries: vec![] },
    ];
    assert_eq!(
        field_attributes(&d).err(),
        Some(GenError { kind: ErrorKind::DuplicateAttribute, at: 8 })
    );
}

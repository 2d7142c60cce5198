use std::cmp::Ordering;
use omnibor::{
    parse_relation, ArtifactId, Error, HashAlgorithm, InputManifest, Relation, RelationKind, Sha1,
    Sha256,
};

const A: &str = "fee53a18d32820613c0527aa79be5cb30173c823a9b448fa4817767cc84c6f03";
const B: &str = "0000000000000000000000000000000000000000000000000000000000000001";

fn id(hex: &str) -> ArtifactId<Sha256> {
    ArtifactId::<Sha256>::try_from_hex(hex.as_bytes()).unwrap()
}

#[test]
fn header_and_one_input_line() {
    let text = format!("gitoid:blob:sha256\ninput {}\n", A);
    let manifest = InputManifest::<Sha256>::from_bytes(text.as_bytes()).unwrap();
    assert!(manifest.is_detached());
    assert_eq!(manifest.target(), None);
    assert_eq!(manifest.relations().len(), 1);
    let relation = manifest.relations()[0];
    assert_eq!(relation.kind(), RelationKind::Input);
    assert_eq!(relation.artifact(), id(A));
    assert_eq!(relation.manifest(), None);
}

#[test]
fn bom_gives_the_manifest_of_the_related_artifact() {
    let text = format!("gitoid:blob:sha256\ninput {} bom {}\n", A, B);
    let manifest = InputManifest::<Sha256>::from_bytes(text.as_bytes()).unwrap();
    assert_eq!(manifest.relations().len(), 1);
    let relation = manifest.relations()[0];
    assert_eq!(relation.kind(), RelationKind::Input);
    assert_eq!(relation.artifact(), id(A));
    assert_eq!(relation.manifest(), Some(id(B)));
}

#[test]
fn as_bytes_writes_header_and_lines_in_order() {
    let manifest = InputManifest::<Sha256>::with_relations(vec![
        Relation::new(RelationKind::Input, id(A), None),
        Relation::new(RelationKind::BuiltBy, id(B), Some(id(A))),
        Relation::new(RelationKind::Input, id(A), None),
    ]);
    let text = manifest.as_bytes().unwrap();
    let expected = format!(
        "gitoid:blob:sha256\ninput {}\nbuilt-by {} bom {}\ninput {}\n",
        A, B, A, A
    );
    assert_eq!(text, expected.into_bytes());
}

#[test]
fn empty_manifest_is_only_the_header() {
    let manifest = InputManifest::<Sha1>::with_relations(Vec::new());
    assert_eq!(manifest.as_bytes().unwrap(), b"gitoid:blob:sha1\n".to_vec());
    let read = InputManifest::<Sha1>::from_bytes(b"gitoid:blob:sha1\n").unwrap();
    assert_eq!(read, manifest);
    assert!(read.relations().is_empty());
}

#[test]
fn round_trip_keeps_relations_and_drops_the_target() {
    let mut manifest = InputManifest::<Sha256>::with_relations(vec![
        Relation::new(RelationKind::BuiltBy, id(B), None),
        Relation::new(RelationKind::Input, id(A), Some(id(B))),
        Relation::new(RelationKind::BuiltBy, id(B), None),
    ]);
    manifest.set_target(Some(id(A)));
    assert!(!manifest.is_detached());
    assert_eq!(manifest.target(), Some(id(A)));
    let text = manifest.as_bytes().unwrap();
    let read = InputManifest::<Sha256>::from_bytes(&text).unwrap();
    assert_eq!(read.relations(), manifest.relations());
    assert_eq!(read.target(), None);
    assert!(read.is_detached());
    assert_eq!(read.as_bytes().unwrap(), text);
}

#[test]
fn target_is_not_written() {
    let mut manifest =
        InputManifest::<Sha256>::with_relations(vec![Relation::new(RelationKind::Input, id(A), None)]);
    let detached = manifest.as_bytes().unwrap();
    manifest.set_target(Some(id(B)));
    assert_eq!(manifest.as_bytes().unwrap(), detached);
}

#[test]
fn clone_is_equal() {
    let mut manifest =
        InputManifest::<Sha256>::with_relations(vec![Relation::new(RelationKind::Input, id(A), None)]);
    manifest.set_target(Some(id(B)));
    assert_eq!(manifest.clone(), manifest);
}

#[test]
fn empty_text_has_no_header() {
    assert_eq!(InputManifest::<Sha256>::from_bytes(b""), Err(Error::ManifestMissingHeader));
}

#[test]
fn header_needs_three_parts() {
    assert_eq!(
        InputManifest::<Sha256>::from_bytes(b"gitoid:blob\n"),
        Err(Error::MissingHeaderParts)
    );
    assert_eq!(
        InputManifest::<Sha256>::from_bytes(b"gitoid:blob:sha256:x\n"),
        Err(Error::MissingHeaderParts)
    );
    assert_eq!(InputManifest::<Sha256>::from_bytes(b"\n"), Err(Error::MissingHeaderParts));
}

#[test]
fn header_needs_scheme_and_object_type() {
    assert_eq!(
        InputManifest::<Sha256>::from_bytes(b"oid:blob:sha256\n"),
        Err(Error::MissingGitOidInHeader)
    );
    assert_eq!(
        InputManifest::<Sha256>::from_bytes(b"gitoid:tree:sha256\n"),
        Err(Error::MissingObjectTypeInHeader)
    );
}

#[test]
fn header_algorithm_must_be_the_expected_one() {
    assert_eq!(
        InputManifest::<Sha256>::from_bytes(b"gitoid:blob:sha1\n"),
        Err(Error::WrongHashAlgorithm { expected: HashAlgorithm::Sha256, got: b"sha1".to_vec() })
    );
    assert_eq!(
        InputManifest::<Sha1>::from_bytes(b"gitoid:blob:sha256\n"),
        Err(Error::WrongHashAlgorithm { expected: HashAlgorithm::Sha1, got: b"sha256".to_vec() })
    );
}

#[test]
fn relation_needs_two_parts() {
    assert_eq!(parse_relation::<Sha256>(b"input"), Err(Error::MissingRelationParts));
    assert_eq!(parse_relation::<Sha256>(b""), Err(Error::MissingRelationParts));
    let text = format!("gitoid:blob:sha256\ninput {}\n\n", A);
    assert_eq!(
        InputManifest::<Sha256>::from_bytes(text.as_bytes()),
        Err(Error::MissingRelationParts)
    );
}

#[test]
fn bom_without_a_hash_fails() {
    let line = format!("input {} bom", A);
    assert_eq!(parse_relation::<Sha256>(line.as_bytes()), Err(Error::MissingBomValueInRelation));
    let text = format!("gitoid:blob:sha256\n{}\n", line);
    assert_eq!(
        InputManifest::<Sha256>::from_bytes(text.as_bytes()),
        Err(Error::MissingBomValueInRelation)
    );
}

#[test]
fn unknown_kind_is_named() {
    let line = format!("output {}", A);
    assert_eq!(
        parse_relation::<Sha256>(line.as_bytes()),
        Err(Error::InvalidRelationKind(b"output".to_vec()))
    );
    assert_eq!("output".parse::<RelationKind>(), Err(Error::InvalidRelationKind(b"output".to_vec())));
}

#[test]
fn kinds_have_their_words() {
    assert_eq!("input".parse::<RelationKind>(), Ok(RelationKind::Input));
    assert_eq!("built-by".parse::<RelationKind>(), Ok(RelationKind::BuiltBy));
    assert_eq!(RelationKind::from_bytes(b"built-by"), Ok(RelationKind::BuiltBy));
    assert_eq!(RelationKind::Input.name(), "input");
    assert_eq!(RelationKind::BuiltBy.name(), "built-by");
    assert_eq!(RelationKind::BuiltBy.word(), b"built-by");
    assert!(RelationKind::Input < RelationKind::BuiltBy);
}

#[test]
fn fourth_part_needs_the_bom_indicator() {
    let line = format!("input {} manifest {}", A, B);
    assert_eq!(
        parse_relation::<Sha256>(line.as_bytes()),
        Err(Error::MissingBomIndicatorInRelation)
    );
}

#[test]
fn a_third_part_must_be_bom() {
    let line = format!("input {} note", A);
    assert_eq!(
        parse_relation::<Sha256>(line.as_bytes()),
        Err(Error::MissingBomIndicatorInRelation)
    );
    let text = format!("gitoid:blob:sha256\n{}\n", line);
    assert_eq!(
        InputManifest::<Sha256>::from_bytes(text.as_bytes()),
        Err(Error::MissingBomIndicatorInRelation)
    );
}

#[test]
fn nothing_may_follow_the_second_hash() {
    let line = format!("built-by {} bom {} and more", A, B);
    assert_eq!(parse_relation::<Sha256>(line.as_bytes()), Err(Error::UnexpectedRelationParts));
    let line = format!("built-by {} bom {} ", A, B);
    assert_eq!(parse_relation::<Sha256>(line.as_bytes()), Err(Error::UnexpectedRelationParts));
    let line = format!("built-by {} ", A);
    assert_eq!(
        parse_relation::<Sha256>(line.as_bytes()),
        Err(Error::MissingBomIndicatorInRelation)
    );
    let line = format!("built-by {} bom {}", A, B);
    assert_eq!(
        parse_relation::<Sha256>(line.as_bytes()),
        Ok(Relation::new(RelationKind::BuiltBy, id(A), Some(id(B))))
    );
}

#[test]
fn hashes_must_be_hex_of_the_right_width() {
    assert_eq!(parse_relation::<Sha256>(b"input xyz"), Err(Error::InvalidHex));
    let line = format!("input {}", A);
    assert_eq!(
        parse_relation::<Sha1>(line.as_bytes()),
        Err(Error::UnexpectedHashLength { expected: 20, observed: 32 })
    );
    let line = format!("input {} bom {}", A, "zz");
    assert_eq!(parse_relation::<Sha256>(line.as_bytes()), Err(Error::InvalidHex));
    let line = format!("input {} bom {}", A, "abcd");
    assert_eq!(
        parse_relation::<Sha256>(line.as_bytes()),
        Err(Error::UnexpectedHashLength { expected: 32, observed: 2 })
    );
}

#[test]
fn one_bad_line_spoils_the_manifest() {
    let text = format!("gitoid:blob:sha256\ninput {}\nbogus {}\ninput {}\n", A, B, A);
    assert_eq!(
        InputManifest::<Sha256>::from_bytes(text.as_bytes()),
        Err(Error::InvalidRelationKind(b"bogus".to_vec()))
    );
}

#[test]
fn the_first_bad_line_is_reported() {
    let text = format!("gitoid:blob:sha256\ninput\nbogus {}\n", B);
    assert_eq!(
        InputManifest::<Sha256>::from_bytes(text.as_bytes()),
        Err(Error::MissingRelationParts)
    );
}

#[test]
fn line_endings() {
    let unix = format!("gitoid:blob:sha256\ninput {}\n", A);
    let dos = format!("gitoid:blob:sha256\r\ninput {}\r\n", A);
    let unterminated = format!("gitoid:blob:sha256\ninput {}", A);
    let expected = InputManifest::<Sha256>::from_bytes(unix.as_bytes()).unwrap();
    assert_eq!(InputManifest::<Sha256>::from_bytes(dos.as_bytes()), Ok(expected.clone()));
    assert_eq!(InputManifest::<Sha256>::from_bytes(unterminated.as_bytes()), Ok(expected));
}

#[test]
fn relation_accessors() {
    let relation = Relation::new(RelationKind::BuiltBy, id(A), Some(id(B)));
    assert_eq!(relation.kind(), RelationKind::BuiltBy);
    assert_eq!(relation.artifact(), id(A));
    assert_eq!(relation.manifest(), Some(id(B)));
    let copy = relation;
    assert_eq!(copy, relation.clone());
}

#[test]
fn kinds_are_ordered() {
    assert_eq!(RelationKind::Input.partial_cmp(&RelationKind::BuiltBy), Some(Ordering::Less));
    assert_eq!(RelationKind::BuiltBy.partial_cmp(&RelationKind::Input), Some(Ordering::Greater));
    assert_eq!(RelationKind::Input.cmp(&RelationKind::Input), Ordering::Equal);
    assert_eq!(RelationKind::Input.cmp(&RelationKind::BuiltBy), Ordering::Less);
    assert!(RelationKind::BuiltBy > RelationKind::Input);
    let mut kinds = vec![RelationKind::BuiltBy, RelationKind::Input, RelationKind::BuiltBy];
    kinds.sort();
    assert_eq!(kinds, vec![RelationKind::Input, RelationKind::BuiltBy, RelationKind::BuiltBy]);
}

#[test]
fn relations_that_differ_in_the_manifest_only() {
    let bare = Relation::new(RelationKind::Input, id(A), None);
    let with_manifest = Relation::new(RelationKind::Input, id(A), Some(id(B)));
    let with_other = Relation::new(RelationKind::Input, id(A), Some(id(A)));
    assert_ne!(bare, with_manifest);
    assert_ne!(with_manifest, with_other);
    assert_eq!(with_manifest, Relation::new(RelationKind::Input, id(A), Some(id(B))));
    assert_eq!(bare.partial_cmp(&with_manifest), Some(Ordering::Equal));
    assert_eq!(with_manifest.partial_cmp(&with_other), Some(Ordering::Equal));
    assert!(!(bare < with_manifest) && !(with_manifest < bare));
}

#[test]
fn relation_order_reverses() {
    let input_a = Relation::new(RelationKind::Input, id(A), None);
    let input_b = Relation::new(RelationKind::Input, id(B), Some(id(A)));
    let tool_b = Relation::new(RelationKind::BuiltBy, id(B), None);
    assert_eq!(input_b.partial_cmp(&input_a), Some(Ordering::Less));
    assert_eq!(input_a.partial_cmp(&input_b), Some(Ordering::Greater));
    assert_eq!(input_a.partial_cmp(&tool_b), Some(Ordering::Less));
    assert_eq!(tool_b.partial_cmp(&input_a), Some(Ordering::Greater));
    assert_eq!(input_a.partial_cmp(&input_a), Some(Ordering::Equal));
    assert_ne!(input_a, input_b);
    assert_ne!(input_a, tool_b);
}

#[test]
fn relations_are_ordered_by_kind_then_artifact() {
    let input_b = Relation::new(RelationKind::Input, id(B), None);
    let input_a = Relation::new(RelationKind::Input, id(A), None);
    let built_by_b = Relation::new(RelationKind::BuiltBy, id(B), None);
    assert!(input_b < input_a);
    assert!(input_a < built_by_b);
    assert!(input_b < built_by_b);
}

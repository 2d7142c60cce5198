use omnibor::{
    ArtifactId, BinaryType, Embed, Error, InMemoryStorage, InputManifest, InputManifestBuilder,
    NoEmbed, Relation, RelationKind, Sha256, Storage, TargetType, TextType,
};

fn builder_no_embed() -> InputManifestBuilder<Sha256, NoEmbed, InMemoryStorage<Sha256>> {
    InputManifestBuilder::with_storage(InMemoryStorage::new())
}

fn builder_embed() -> InputManifestBuilder<Sha256, Embed, InMemoryStorage<Sha256>> {
    InputManifestBuilder::with_storage(InMemoryStorage::new())
}

#[test]
fn finish_without_embedding() {
    let a = ArtifactId::<Sha256>::id_bytes(b"input a");
    let b = ArtifactId::<Sha256>::id_bytes(b"tool b");
    let target = b"the target\n";
    let mut builder = builder_no_embed();
    builder.add_relation(RelationKind::Input, a);
    builder.add_relation(RelationKind::BuiltBy, b);
    let finished = builder.finish(target, &TargetType::Unknown).unwrap();
    assert_eq!(finished.target, target.to_vec());
    assert_eq!(finished.target_id, ArtifactId::<Sha256>::id_bytes(target));
    assert_eq!(finished.manifest.target(), Some(ArtifactId::<Sha256>::id_bytes(target)));
    assert_eq!(
        finished.manifest.relations(),
        &[
            Relation::new(RelationKind::Input, a, None),
            Relation::new(RelationKind::BuiltBy, b, None)
        ]
    );
    let stored = builder.storage().get(finished.target_id).unwrap().unwrap();
    assert_eq!(stored, finished.manifest_text);
    let read = InputManifest::<Sha256>::from_bytes(&stored).unwrap();
    assert_eq!(read.relations(), finished.manifest.relations());
    assert!(read.is_detached());
    assert_eq!(finished.manifest_id, ArtifactId::<Sha256>::id_bytes(&stored));
    assert!(builder.relations().is_empty());
}

#[test]
fn relations_keep_their_order_and_duplicates() {
    let a = ArtifactId::<Sha256>::id_bytes(b"a");
    let b = ArtifactId::<Sha256>::id_bytes(b"b");
    let mut builder = builder_no_embed();
    builder.add_relation(RelationKind::BuiltBy, b);
    builder.add_relation(RelationKind::Input, a);
    builder.add_relation(RelationKind::BuiltBy, b);
    builder.add_relation_with_manifest(RelationKind::Input, a, b);
    assert_eq!(
        builder.relations(),
        &[
            Relation::new(RelationKind::BuiltBy, b, None),
            Relation::new(RelationKind::Input, a, None),
            Relation::new(RelationKind::BuiltBy, b, None),
            Relation::new(RelationKind::Input, a, Some(b)),
        ]
    );
}

#[test]
fn order_changes_the_manifest_but_not_the_target() {
    let a = ArtifactId::<Sha256>::id_bytes(b"a");
    let b = ArtifactId::<Sha256>::id_bytes(b"b");
    let mut first = builder_no_embed();
    first.add_relation(RelationKind::Input, a);
    first.add_relation(RelationKind::Input, b);
    let mut second = builder_no_embed();
    second.add_relation(RelationKind::Input, b);
    second.add_relation(RelationKind::Input, a);
    let one = first.finish(b"target", &TargetType::Unknown).unwrap();
    let two = second.finish(b"target", &TargetType::Unknown).unwrap();
    assert_eq!(one.target_id, two.target_id);
    assert_ne!(one.manifest_id, two.manifest_id);
}

#[test]
fn embedding_in_text_with_prefix_comments() {
    let a = ArtifactId::<Sha256>::id_bytes(b"input a");
    let mut builder = builder_embed();
    builder.add_relation(RelationKind::Input, a);
    let text = TargetType::KnownTextType(TextType::PrefixComments { prefix: "#".to_owned() });
    let finished = builder.finish(b"echo hello\n", &text).unwrap();
    let manifest_text = format!("gitoid:blob:sha256\ninput {}\n", a.as_hex());
    let manifest_id = ArtifactId::<Sha256>::id_str(&manifest_text);
    assert_eq!(finished.manifest_id, manifest_id);
    let expected = format!("echo hello\n# gitoid:blob:sha256:{}\n", manifest_id.as_hex());
    assert_eq!(finished.target, expected.clone().into_bytes());
    assert_eq!(finished.target_id, ArtifactId::<Sha256>::id_str(&expected));
    assert_eq!(finished.manifest.target(), Some(finished.target_id));
    assert_eq!(
        builder.storage().get(finished.target_id),
        Ok(Some(manifest_text.into_bytes()))
    );
}

#[test]
fn embedding_adds_a_line_feed_where_one_is_missing() {
    let mut builder = builder_embed();
    let text = TargetType::KnownTextType(TextType::WrappedComments {
        prefix: "/*".to_owned(),
        suffix: "*/".to_owned(),
    });
    let finished = builder.finish(b"int x;", &text).unwrap();
    let expected =
        format!("int x;\n/* gitoid:blob:sha256:{} */\n", finished.manifest_id.as_hex());
    assert_eq!(finished.target, expected.into_bytes());
    let mut empty = builder_embed();
    let finished = empty.finish(b"", &text).unwrap();
    let expected = format!("/* gitoid:blob:sha256:{} */\n", finished.manifest_id.as_hex());
    assert_eq!(finished.target, expected.into_bytes());
}

#[test]
fn embedding_fails_where_nothing_is_known() {
    let a = ArtifactId::<Sha256>::id_bytes(b"input a");
    let mut builder = builder_embed();
    builder.add_relation(RelationKind::Input, a);
    assert_eq!(
        builder.finish(b"target", &TargetType::Unknown).err(),
        Some(Error::UnknownEmbeddingTarget)
    );
    assert_eq!(
        builder.finish(b"target", &TargetType::KnownBinaryType(BinaryType::ElfFile)).err(),
        Some(Error::UndefinedBinaryEmbedding)
    );
    assert_eq!(builder.relations(), &[Relation::new(RelationKind::Input, a, None)]);
    let would_be = ArtifactId::<Sha256>::id_bytes(b"target");
    assert_eq!(builder.storage().get(would_be), Ok(None));
}

#[test]
fn prepare_stores_nothing() {
    let a = ArtifactId::<Sha256>::id_bytes(b"input a");
    let mut builder = builder_no_embed();
    builder.add_relation(RelationKind::Input, a);
    let prepared = builder.prepare(b"target", &TargetType::Unknown).unwrap();
    assert_eq!(prepared.target_id, ArtifactId::<Sha256>::id_bytes(b"target"));
    assert_eq!(builder.storage().get(prepared.target_id), Ok(None));
    assert_eq!(builder.relations().len(), 1);
}

#[test]
fn storage_keeps_what_was_put_under_each_target() {
    let one = ArtifactId::<Sha256>::id_bytes(b"one");
    let two = ArtifactId::<Sha256>::id_bytes(b"two");
    let mut storage = InMemoryStorage::<Sha256>::new();
    assert_eq!(storage.get(one), Ok(None));
    assert_eq!(storage.put(one, b"first"), Ok(()));
    assert_eq!(storage.put(two, b"second"), Ok(()));
    assert_eq!(storage.get(one), Ok(Some(b"first".to_vec())));
    assert_eq!(storage.get(two), Ok(Some(b"second".to_vec())));
    assert_eq!(storage.put(one, b"third"), Ok(()));
    assert_eq!(storage.get(one), Ok(Some(b"third".to_vec())));
    assert_eq!(storage.get(two), Ok(Some(b"second".to_vec())));
}

#[test]
fn conclude_follows_the_store() {
    let mut builder = builder_no_embed();
    let prepared = builder.prepare(b"target", &TargetType::Unknown).unwrap();
    let id = prepared.target_id;
    let failed = omnibor::input_manifest_builder::conclude(
        prepared,
        Err(Error::Storage("disk full".to_owned())),
    );
    assert_eq!(failed.err(), Some(Error::Storage("disk full".to_owned())));
    let prepared = builder.prepare(b"target", &TargetType::Unknown).unwrap();
    let done = omnibor::input_manifest_builder::conclude(prepared, Ok(())).unwrap();
    assert_eq!(done.target_id, id);
    assert!(builder.finish(b"target", &TargetType::Unknown).is_ok());
}

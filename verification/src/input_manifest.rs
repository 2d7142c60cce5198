//! [`InputManifest`] type that represents build inputs for an artifact.
//!
//! A manifest is written as text. The first line, `gitoid:blob:<algorithm>`,
//! fixes the algorithm of every identifier in the file. Each further line
//! is one relation: `<kind> <hex>`, optionally followed by ` bom <hex>`,
//! where the first hash names the related artifact and the second the
//! manifest of that artifact.

use crate::artifact_id::{
    lemma_hash_round_trip, lemma_lower_hex_is_plain, lemma_words_are_plain, object_type,
    parse_hash, scheme, ArtifactId,
};
use crate::error::{Error, ErrorView};
use crate::hash_algorithm::{HashAlgorithm, SupportedHash};
use crate::hex::{hex_encode, lemma_hex_encode_shape};
use crate::relation::{relation_fits, Relation, RelationView};
use crate::relation_kind::RelationKind;
use crate::text::{
    ascii_bytes, ascii_str_bytes, bytes_eq, is_line, join_lines, lacks, lemma_lines_of_joined,
    lemma_split_cons, lemma_split_single, lines, push_all, split, split_fields, split_lines,
    CARRIAGE_RETURN, COLON, LINE_FEED, SPACE,
};
use vstd::prelude::*;

verus! {

/// The word that announces the identifier of a related artifact's manifest.
pub open spec fn bom_word() -> Seq<u8> {
    ascii_bytes("bom"@)
}

/// What an `InputManifest` stands for: the hash of its target, if it has
/// one, and its relations in order.
pub struct InputManifestView {
    pub target: Option<Seq<u8>>,
    pub relations: Seq<RelationView>,
}

/// The first line of a manifest for `algorithm`.
pub open spec fn header_line(algorithm: HashAlgorithm) -> Seq<u8> {
    scheme() + seq![COLON] + object_type() + seq![COLON] + algorithm.spec_name_bytes()
}

/// The line that records `relation`.
pub open spec fn relation_line(relation: RelationView) -> Seq<u8> {
    let start = relation.kind.spec_word() + seq![SPACE] + hex_encode(relation.artifact);
    match relation.manifest {
        Some(manifest) => start + seq![SPACE] + bom_word() + seq![SPACE] + hex_encode(manifest),
        None => start,
    }
}

/// The lines of the manifest that holds `relations`: the header, then one
/// line for each relation, in order.
pub open spec fn manifest_lines(algorithm: HashAlgorithm, relations: Seq<RelationView>) -> Seq<
    Seq<u8>,
> {
    seq![header_line(algorithm)] + relations.map_values(|r: RelationView| relation_line(r))
}

/// The text of the manifest that holds `relations`. The target is not part
/// of the text.
pub open spec fn manifest_text(algorithm: HashAlgorithm, relations: Seq<RelationView>) -> Seq<u8> {
    join_lines(manifest_lines(algorithm, relations))
}

/// What reading the first line of a manifest gives: nothing, or the first
/// thing wrong with it.
pub open spec fn parse_header(algorithm: HashAlgorithm, line: Seq<u8>) -> Result<(), ErrorView> {
    parse_header_parts(algorithm, split(line, COLON))
}

/// What the parts of the first line of a manifest give.
pub open spec fn parse_header_parts(algorithm: HashAlgorithm, parts: Seq<Seq<u8>>) -> Result<
    (),
    ErrorView,
> {
    if parts.len() != 3 {
        Err(ErrorView::MissingHeaderParts)
    } else if parts[0] != scheme() {
        Err(ErrorView::MissingGitOidInHeader)
    } else if parts[1] != object_type() {
        Err(ErrorView::MissingObjectTypeInHeader)
    } else if parts[2] != algorithm.spec_name_bytes() {
        Err(ErrorView::WrongHashAlgorithm { expected: algorithm, got: parts[2] })
    } else {
        Ok(())
    }
}

/// What reading one relation line gives.
///
/// The line is cut at every space. It has two parts, a kind and a hash, or
/// four: a kind, a hash, the word `bom` and a second hash. Any other line
/// is an error.
pub open spec fn parse_relation_line(algorithm: HashAlgorithm, line: Seq<u8>) -> Result<
    RelationView,
    ErrorView,
> {
    parse_relation_parts(algorithm, split(line, SPACE))
}

/// What the parts of one relation line give.
pub open spec fn parse_relation_parts(algorithm: HashAlgorithm, parts: Seq<Seq<u8>>) -> Result<
    RelationView,
    ErrorView,
> {
    if parts.len() < 2 {
        Err(ErrorView::MissingRelationParts)
    } else {
        match RelationKind::parse(parts[0]) {
            Err(error) => Err(error),
            Ok(kind) => match parse_hash(algorithm, parts[1]) {
                Err(error) => Err(error),
                Ok(artifact) => if parts.len() == 2 {
                    Ok(RelationView { kind, artifact, manifest: None })
                } else if parts[2] != bom_word() {
                    Err(ErrorView::MissingBomIndicatorInRelation)
                } else if parts.len() == 3 {
                    Err(ErrorView::MissingBomValueInRelation)
                } else if parts.len() > 4 {
                    Err(ErrorView::UnexpectedRelationParts)
                } else {
                    match parse_hash(algorithm, parts[3]) {
                        Err(error) => Err(error),
                        Ok(manifest) => Ok(RelationView { kind, artifact, manifest: Some(manifest) }),
                    }
                },
            },
        }
    }
}

/// What reading relation lines one after another gives: all the relations,
/// or the error of the first line that has one.
pub open spec fn parse_relation_lines(algorithm: HashAlgorithm, lines: Seq<Seq<u8>>) -> Result<
    Seq<RelationView>,
    ErrorView,
>
    decreases lines.len(),
{
    if lines.len() == 0 {
        Ok(Seq::empty())
    } else {
        match parse_relation_lines(algorithm, lines.drop_last()) {
            Err(error) => Err(error),
            Ok(relations) => match parse_relation_line(algorithm, lines.last()) {
                Err(error) => Err(error),
                Ok(relation) => Ok(relations.push(relation)),
            },
        }
    }
}

/// What reading the text of a manifest gives. A manifest that was read has
/// no target.
pub open spec fn parse_manifest(algorithm: HashAlgorithm, text: Seq<u8>) -> Result<
    InputManifestView,
    ErrorView,
> {
    let all = lines(text);
    if all.len() == 0 {
        Err(ErrorView::ManifestMissingHeader)
    } else {
        match parse_header(algorithm, all[0]) {
            Err(error) => Err(error),
            Ok(_) => match parse_relation_lines(algorithm, all.drop_first()) {
                Err(error) => Err(error),
                Ok(relations) => Ok(InputManifestView { target: None, relations }),
            },
        }
    }
}

/// A header that is right but for its algorithm fails, and the error names
/// the algorithm that was expected and the one that was found.
pub proof fn lemma_wrong_algorithm_in_header(algorithm: HashAlgorithm, found: Seq<u8>)
    requires
        lacks(found, COLON),
        found != algorithm.spec_name_bytes(),
    ensures
        parse_header(algorithm, scheme() + seq![COLON] + object_type() + seq![COLON] + found) == Err::<
            (),
            ErrorView,
        >(ErrorView::WrongHashAlgorithm { expected: algorithm, got: found }),
{
    let tail = object_type() + seq![COLON] + found;
    let line = scheme() + seq![COLON] + object_type() + seq![COLON] + found;
    lemma_words_are_plain();
    assert(split(found, COLON) == seq![found]) by {
        lemma_split_single(found, COLON);
    }
    assert(split(tail, COLON) == seq![object_type()] + split(found, COLON)) by {
        lemma_split_cons(object_type(), found, COLON);
    }
    assert(split(scheme() + seq![COLON] + tail, COLON) == seq![scheme()] + split(tail, COLON)) by {
        lemma_split_cons(scheme(), tail, COLON);
    }
    assert(line =~= scheme() + seq![COLON] + tail);
    assert(seq![scheme()] + (seq![object_type()] + seq![found]) =~= seq![
        scheme(),
        object_type(),
        found,
    ]);
}

/// A manifest whose header fails cannot be read, whatever follows.
pub proof fn lemma_header_error_is_manifest_error(algorithm: HashAlgorithm, text: Seq<u8>)
    requires
        lines(text).len() > 0,
        parse_header(algorithm, lines(text)[0]) is Err,
    ensures
        parse_manifest(algorithm, text) == Err::<InputManifestView, ErrorView>(
            parse_header(algorithm, lines(text)[0])->Err_0,
        ),
{
}

/// A relation line that ends with the word `bom` fails: the hash that the
/// word announces is missing.
pub proof fn lemma_bom_without_hash(algorithm: HashAlgorithm, kind: RelationKind, artifact: Seq<u8>)
    requires
        artifact.len() == algorithm.spec_width(),
    ensures
        parse_relation_line(
            algorithm,
            kind.spec_word() + seq![SPACE] + hex_encode(artifact) + seq![SPACE] + bom_word(),
        ) == Err::<RelationView, ErrorView>(ErrorView::MissingBomValueInRelation),
{
    let word = kind.spec_word();
    let hex = hex_encode(artifact);
    let tail = hex + seq![SPACE] + bom_word();
    let line = word + seq![SPACE] + hex + seq![SPACE] + bom_word();
    kind.lemma_word_is_plain();
    lemma_hex_encode_shape(artifact);
    lemma_lower_hex_is_plain(hex);
    lemma_bom_is_plain();
    lemma_hash_round_trip(algorithm, artifact);
    assert(split(bom_word(), SPACE) == seq![bom_word()]) by {
        lemma_split_single(bom_word(), SPACE);
    }
    assert(split(tail, SPACE) == seq![hex] + split(bom_word(), SPACE)) by {
        lemma_split_cons(hex, bom_word(), SPACE);
    }
    assert(split(word + seq![SPACE] + tail, SPACE) == seq![word] + split(tail, SPACE)) by {
        lemma_split_cons(word, tail, SPACE);
    }
    assert(line =~= word + seq![SPACE] + tail);
    assert(seq![word] + (seq![hex] + seq![bom_word()]) =~= seq![word, hex, bom_word()]);
}

/// A line that reads as a relation has two parts, and then no manifest, or
/// four, and then a manifest: nothing else is a relation line.
pub proof fn lemma_relation_line_shape(algorithm: HashAlgorithm, line: Seq<u8>)
    requires
        parse_relation_line(algorithm, line) is Ok,
    ensures
        split(line, SPACE).len() == 2 || split(line, SPACE).len() == 4,
        split(line, SPACE).len() == 2 <==> parse_relation_line(algorithm, line)->Ok_0.manifest is None,
        split(line, SPACE).len() == 4 ==> split(line, SPACE)[2] == bom_word(),
{
}

/// A relation line of two or more parts whose first part names no kind
/// fails, and the error holds that part.
pub proof fn lemma_unknown_kind(algorithm: HashAlgorithm, line: Seq<u8>)
    requires
        split(line, SPACE).len() >= 2,
        split(line, SPACE)[0] != RelationKind::Input.spec_word(),
        split(line, SPACE)[0] != RelationKind::BuiltBy.spec_word(),
    ensures
        parse_relation_line(algorithm, line) == Err::<RelationView, ErrorView>(
            ErrorView::InvalidRelationKind(split(line, SPACE)[0]),
        ),
{
}

/// A relation line that cannot be read makes the lines it stands among
/// unreadable: no later line makes up for it.
pub proof fn lemma_bad_line_spoils_all(algorithm: HashAlgorithm, lines: Seq<Seq<u8>>, at: int)
    requires
        0 <= at < lines.len(),
        parse_relation_line(algorithm, lines[at]) is Err,
    ensures
        parse_relation_lines(algorithm, lines) is Err,
{
    let upto = lines.take(at + 1);
    assert(upto.last() == lines[at]);
    lemma_first_error_stays(algorithm, lines, at + 1);
}

/// The word `bom` holds no space.
pub proof fn lemma_bom_is_plain()
    ensures
        lacks(bom_word(), SPACE),
        bom_word().len() == 3,
{
    reveal_strlit("bom");
}

/// The header that is written for an algorithm is read as a header of that
/// algorithm.
pub proof fn lemma_header_round_trip(algorithm: HashAlgorithm)
    ensures
        parse_header(algorithm, header_line(algorithm)) == Ok::<(), ErrorView>(()),
        is_line(header_line(algorithm)),
{
    let name = algorithm.spec_name_bytes();
    let tail = object_type() + seq![COLON] + name;
    lemma_words_are_plain();
    algorithm.lemma_name_is_plain();
    assert(split(name, COLON) == seq![name]) by {
        lemma_split_single(name, COLON);
    }
    assert(split(tail, COLON) == seq![object_type()] + split(name, COLON)) by {
        lemma_split_cons(object_type(), name, COLON);
    }
    assert(split(scheme() + seq![COLON] + tail, COLON) == seq![scheme()] + split(tail, COLON)) by {
        lemma_split_cons(scheme(), tail, COLON);
    }
    assert(header_line(algorithm) =~= scheme() + seq![COLON] + tail);
    assert(seq![scheme()] + (seq![object_type()] + seq![name]) =~= seq![
        scheme(),
        object_type(),
        name,
    ]);
    let line = header_line(algorithm);
    assert(line.last() == name.last());
    assert(lacks(line, LINE_FEED));
}

/// The parts of the line that is written for a relation: the kind and the
/// hash, and then the word `bom` and a second hash if the relation has a
/// manifest.
pub proof fn lemma_relation_parts(relation: RelationView)
    ensures
        split(relation_line(relation), SPACE) == match relation.manifest {
            None => seq![relation.kind.spec_word(), hex_encode(relation.artifact)],
            Some(manifest) => seq![
                relation.kind.spec_word(),
                hex_encode(relation.artifact),
                bom_word(),
                hex_encode(manifest),
            ],
        },
{
    let word = relation.kind.spec_word();
    let hex = hex_encode(relation.artifact);
    assert(lacks(word, SPACE)) by {
        relation.kind.lemma_word_is_plain();
    }
    assert(lacks(hex, SPACE)) by {
        lemma_hex_encode_shape(relation.artifact);
        lemma_lower_hex_is_plain(hex);
    }
    match relation.manifest {
        None => {
            assert(split(hex, SPACE) == seq![hex]) by {
                lemma_split_single(hex, SPACE);
            }
            assert(split(word + seq![SPACE] + hex, SPACE) == seq![word] + split(hex, SPACE)) by {
                lemma_split_cons(word, hex, SPACE);
            }
            assert(seq![word] + seq![hex] =~= seq![word, hex]);
        },
        Some(manifest) => {
            let hex2 = hex_encode(manifest);
            let tail2 = bom_word() + seq![SPACE] + hex2;
            let tail1 = hex + seq![SPACE] + tail2;
            assert(lacks(hex2, SPACE)) by {
                lemma_hex_encode_shape(manifest);
                lemma_lower_hex_is_plain(hex2);
            }
            assert(lacks(bom_word(), SPACE)) by {
                lemma_bom_is_plain();
            }
            assert(split(hex2, SPACE) == seq![hex2]) by {
                lemma_split_single(hex2, SPACE);
            }
            assert(split(tail2, SPACE) == seq![bom_word()] + split(hex2, SPACE)) by {
                lemma_split_cons(bom_word(), hex2, SPACE);
            }
            assert(split(tail1, SPACE) == seq![hex] + split(tail2, SPACE)) by {
                lemma_split_cons(hex, tail2, SPACE);
            }
            assert(split(word + seq![SPACE] + tail1, SPACE) == seq![word] + split(tail1, SPACE)) by {
                lemma_split_cons(word, tail1, SPACE);
            }
            assert(relation_line(relation) =~= word + seq![SPACE] + tail1);
            assert(seq![word] + (seq![hex] + (seq![bom_word()] + seq![hex2])) =~= seq![
                word,
                hex,
                bom_word(),
                hex2,
            ]);
        },
    }
}

/// The line that is written for a relation holds no line break.
pub proof fn lemma_relation_is_line(relation: RelationView)
    ensures
        is_line(relation_line(relation)),
{
    let word = relation.kind.spec_word();
    let hex = hex_encode(relation.artifact);
    let line = relation_line(relation);
    relation.kind.lemma_word_is_plain();
    lemma_hex_encode_shape(relation.artifact);
    lemma_lower_hex_is_plain(hex);
    reveal_strlit("bom");
    let last = match relation.manifest {
        None => hex,
        Some(manifest) => hex_encode(manifest),
    };
    if let Some(manifest) = relation.manifest {
        lemma_hex_encode_shape(manifest);
        lemma_lower_hex_is_plain(last);
    }
    assert(lacks(last, CARRIAGE_RETURN));
    if last.len() > 0 {
        assert(line.last() == last.last());
    } else {
        assert(line.last() == SPACE);
    }
    assert forall|i: int| 0 <= i < line.len() implies #[trigger] line[i] != LINE_FEED by {
        if i < word.len() {
            assert(line[i] == word[i]);
        } else if i == word.len() {
        } else if i < word.len() + 1 + hex.len() {
            assert(line[i] == hex[i - word.len() - 1]);
        } else {
            let k = i - word.len() - 1 - hex.len();
            if k == 0 {
            } else if k < 4 {
                assert(line[i] == bom_word()[k - 1]);
            } else if k == 4 {
            } else {
                assert(line[i] == last[k - 5]);
            }
        }
    }
}

/// The line that is written for a relation is read as that relation.
pub proof fn lemma_relation_round_trip(algorithm: HashAlgorithm, relation: RelationView)
    requires
        relation_fits(algorithm, relation),
    ensures
        parse_relation_line(algorithm, relation_line(relation)) == Ok::<RelationView, ErrorView>(
            relation,
        ),
        is_line(relation_line(relation)),
{
    lemma_relation_is_line(relation);
    lemma_relation_parts(relation);
    lemma_relation_parts_round_trip(algorithm, relation);
}

/// The parts that are written for a relation are read as that relation.
pub proof fn lemma_relation_parts_round_trip(algorithm: HashAlgorithm, relation: RelationView)
    requires
        relation_fits(algorithm, relation),
    ensures
        parse_relation_parts(
            algorithm,
            match relation.manifest {
                None => seq![relation.kind.spec_word(), hex_encode(relation.artifact)],
                Some(manifest) => seq![
                    relation.kind.spec_word(),
                    hex_encode(relation.artifact),
                    bom_word(),
                    hex_encode(manifest),
                ],
            },
        ) == Ok::<RelationView, ErrorView>(relation),
{
    let word = relation.kind.spec_word();
    let hex = hex_encode(relation.artifact);
    assert(RelationKind::parse(word) == Ok::<RelationKind, ErrorView>(relation.kind)) by {
        relation.kind.lemma_word_is_plain();
    }
    assert(parse_hash(algorithm, hex) == Ok::<Seq<u8>, ErrorView>(relation.artifact)) by {
        lemma_hash_round_trip(algorithm, relation.artifact);
    }
    if let Some(manifest) = relation.manifest {
        assert(parse_hash(algorithm, hex_encode(manifest)) == Ok::<Seq<u8>, ErrorView>(manifest))
            by {
            lemma_hash_round_trip(algorithm, manifest);
        }
    }
}

/// The lines that are written for relations are read as those relations.
pub proof fn lemma_relations_round_trip(algorithm: HashAlgorithm, relations: Seq<RelationView>)
    requires
        forall|i: int| 0 <= i < relations.len() ==> relation_fits(algorithm, #[trigger] relations[i]),
    ensures
        parse_relation_lines(algorithm, relations.map_values(|r: RelationView| relation_line(r)))
            == Ok::<Seq<RelationView>, ErrorView>(relations),
    decreases relations.len(),
{
    let write = |r: RelationView| relation_line(r);
    let written = relations.map_values(write);
    if relations.len() == 0 {
        assert(relations =~= Seq::<RelationView>::empty());
    } else {
        let before = relations.drop_last();
        assert forall|i: int| 0 <= i < before.len() implies relation_fits(
            algorithm,
            #[trigger] before[i],
        ) by {
            assert(before[i] == relations[i]);
        }
        lemma_relations_round_trip(algorithm, before);
        assert(written.drop_last() =~= before.map_values(write));
        assert(written.last() == relation_line(relations.last()));
        lemma_relation_round_trip(algorithm, relations.last());
        assert(before.push(relations.last()) =~= relations);
    }
}

/// Reading the text of a manifest gives its relations back, in order, and
/// no target: writing and reading a manifest loses nothing but the target.
pub proof fn lemma_manifest_round_trip(algorithm: HashAlgorithm, relations: Seq<RelationView>)
    requires
        forall|i: int| 0 <= i < relations.len() ==> relation_fits(algorithm, #[trigger] relations[i]),
    ensures
        parse_manifest(algorithm, manifest_text(algorithm, relations)) == Ok::<
            InputManifestView,
            ErrorView,
        >(InputManifestView { target: None, relations }),
{
    let write = |r: RelationView| relation_line(r);
    let all = manifest_lines(algorithm, relations);
    lemma_header_round_trip(algorithm);
    assert forall|i: int| 0 <= i < all.len() implies is_line(#[trigger] all[i]) by {
        if i > 0 {
            assert(all[i] == relation_line(relations[i - 1]));
            lemma_relation_round_trip(algorithm, relations[i - 1]);
        }
    }
    lemma_lines_of_joined(all);
    assert(all.drop_first() =~= relations.map_values(write));
    lemma_relations_round_trip(algorithm, relations);
}

/// The result of reading a relation, in terms of views.
pub open spec fn relation_result_view<H: SupportedHash>(made: Result<Relation<H>, Error>) -> Result<
    RelationView,
    ErrorView,
> {
    match made {
        Ok(relation) => Ok(relation@),
        Err(error) => Err(error@),
    }
}

/// Appends the line of `relation`, and a line feed, to `out`.
fn write_relation_line<H: SupportedHash>(relation: &Relation<H>, out: &mut Vec<u8>)
    ensures
        final(out)@ == old(out)@ + relation_line(relation@) + seq![LINE_FEED],
{
    proof {
        reveal_strlit("bom");
    }
    push_all(out, relation.kind().word());
    out.push(SPACE);
    let hex = relation.artifact().as_hex_bytes();
    push_all(out, hex.as_slice());
    if let Some(manifest) = relation.manifest() {
        out.push(SPACE);
        push_all(out, ascii_str_bytes("bom"));
        out.push(SPACE);
        let hex = manifest.as_hex_bytes();
        push_all(out, hex.as_slice());
    }
    out.push(LINE_FEED);
    assert(out@ =~= old(out)@ + relation_line(relation@) + seq![LINE_FEED]);
}

/// Parse a single relation line.
pub fn parse_relation<H: SupportedHash>(input: &[u8]) -> (made: Result<Relation<H>, Error>)
    ensures
        relation_result_view(made) == parse_relation_line(H::spec_algorithm(), input@),
        made matches Ok(relation) ==> relation.wf(),
{
    proof {
        reveal_strlit("bom");
    }
    let parts = split_fields(input, SPACE);
    if parts.len() < 2 {
        return Err(Error::MissingRelationParts);
    }
    let kind = match RelationKind::from_bytes(parts[0]) {
        Ok(kind) => kind,
        Err(error) => {
            return Err(error);
        },
    };
    let artifact = match ArtifactId::<H>::try_from_hex(parts[1]) {
        Ok(artifact) => artifact,
        Err(error) => {
            return Err(error);
        },
    };
    if parts.len() == 2 {
        return Ok(Relation::new(kind, artifact, None));
    }
    if !bytes_eq(parts[2], ascii_str_bytes("bom")) {
        return Err(Error::MissingBomIndicatorInRelation);
    }
    if parts.len() == 3 {
        return Err(Error::MissingBomValueInRelation);
    }
    if parts.len() > 4 {
        return Err(Error::UnexpectedRelationParts);
    }
    match ArtifactId::<H>::try_from_hex(parts[3]) {
        Ok(manifest) => Ok(Relation::new(kind, artifact, Some(manifest))),
        Err(error) => Err(error),
    }
}

/// A manifest describing the inputs used to build an artifact.
///
/// The manifest is constructed with a specific target artifact in mind.
/// The rest of the manifest then describes relations to other artifacts.
/// Each relation can be thought of as describing edges between nodes
/// in an Artifact Dependency Graph.
///
/// Each relation encodes a kind which describes how the other artifact
/// relates to the target artifact.
///
/// Relations may additionally refer to the [`InputManifest`] of the
/// related artifact.
#[derive(Debug, PartialEq, Eq)]
pub struct InputManifest<H: SupportedHash> {
    /// The artifact the manifest is describing.
    ///
    /// A manifest without this is "detached" because we don't know
    /// what artifact it's describing.
    target: Option<ArtifactId<H>>,
    /// The relations recorded in the manifest.
    relations: Vec<Relation<H>>,
}

impl<H: SupportedHash> View for InputManifest<H> {
    type V = InputManifestView;

    open spec fn view(&self) -> InputManifestView {
        InputManifestView {
            target: match self.spec_target() {
                Some(target) => Some(target@),
                None => None,
            },
            relations: relation_views(self.spec_relations()),
        }
    }
}

/// The views of `relations`, in order.
pub open spec fn relation_views<H: SupportedHash>(relations: Seq<Relation<H>>) -> Seq<RelationView> {
    relations.map_values(|r: Relation<H>| r@)
}

/// The result of reading a manifest, in terms of views.
pub open spec fn manifest_result_view<H: SupportedHash>(made: Result<InputManifest<H>, Error>)
    -> Result<InputManifestView, ErrorView> {
    match made {
        Ok(manifest) => Ok(manifest@),
        Err(error) => Err(error@),
    }
}

impl<H: SupportedHash> Clone for InputManifest<H> {
    fn clone(&self) -> (copy: Self)
        ensures
            copy.spec_target() == self.spec_target(),
            copy.spec_relations() == self.spec_relations(),
    {
        let relations = vstd::slice::slice_to_vec(self.relations.as_slice());
        InputManifest { target: self.target, relations }
    }
}

impl<H: SupportedHash> InputManifest<H> {
    /// The identifiers of the manifest are well formed.
    pub open spec fn wf(self) -> bool {
        &&& self.spec_target() matches Some(target) ==> target.wf()
        &&& forall|i: int|
            0 <= i < self.spec_relations().len() ==> (#[trigger] self.spec_relations()[i]).wf()
    }

    /// Reading what is written for a well-formed manifest gives its
    /// relations back, in order, and no target.
    pub proof fn lemma_round_trip(self)
        requires
            self.wf(),
        ensures
            parse_manifest(H::spec_algorithm(), manifest_text(H::spec_algorithm(), self@.relations))
                == Ok::<InputManifestView, ErrorView>(
                InputManifestView { target: None, relations: self@.relations },
            ),
    {
        let views = self@.relations;
        assert forall|i: int| 0 <= i < views.len() implies relation_fits(
            H::spec_algorithm(),
            #[trigger] views[i],
        ) by {
            self.spec_relations()[i].lemma_fits();
        }
        lemma_manifest_round_trip(H::spec_algorithm(), views);
    }

    /// The ID of the artifact this manifest is describing, if it has one.
    pub closed spec fn spec_target(&self) -> Option<ArtifactId<H>> {
        self.target
    }

    /// The relations inside the manifest, in order.
    pub closed spec fn spec_relations(&self) -> Seq<Relation<H>> {
        self.relations@
    }

    /// A detached manifest that holds `relations` in the order given.
    pub fn with_relations(relations: Vec<Relation<H>>) -> (manifest: Self)
        ensures
            manifest.spec_target() is None,
            manifest.spec_relations() == relations@,
            (forall|i: int| 0 <= i < relations@.len() ==> (#[trigger] relations@[i]).wf())
                ==> manifest.wf(),
    {
        InputManifest { target: None, relations }
    }

    /// Get the ID of the artifact this manifest is describing.
    ///
    /// If the manifest does not have a target, it is a "detached" manifest.
    ///
    /// Detached manifests may still be usable if the target artifact was
    /// created in embedding mode, in which case it will carry the [`ArtifactId`]
    /// of its own input manifest in its contents.
    #[inline]
    #[verifier::when_used_as_spec(spec_target)]
    pub fn target(&self) -> (target: Option<ArtifactId<H>>)
        ensures
            target == self.spec_target(),
    {
        self.target
    }

    /// Identify if the manifest is a "detached" manifest.
    ///
    /// "Detached" manifests are ones without a target [`ArtifactId`].
    pub fn is_detached(&self) -> (detached: bool)
        ensures
            detached == (self.spec_target() is None),
    {
        self.target.is_none()
    }

    /// Set a new target.
    pub fn set_target(&mut self, target: Option<ArtifactId<H>>)
        ensures
            final(self).spec_target() == target,
            final(self).spec_relations() == old(self).spec_relations(),
            old(self).wf() ==> final(self).wf(),
    {
        match &target {
            Some(id) => {
                proof {
                    use_type_invariant(id);
                }
            },
            None => {},
        }
        assert(target matches Some(id) ==> id.wf());
        self.target = target;
        assert(self.spec_relations() == old(self).spec_relations());
    }

    /// Get the relations inside an [`InputManifest`].
    #[inline]
    pub fn relations(&self) -> (relations: &[Relation<H>])
        ensures
            relations@ == self.spec_relations(),
    {
        self.relations.as_slice()
    }

    /// Read a manifest from its text.
    ///
    /// The text must start with the header line for `H`. Any line that
    /// cannot be read makes the whole text unreadable. The manifest that is
    /// read is detached.
    pub fn from_bytes(text: &[u8]) -> (made: Result<Self, Error>)
        ensures
            manifest_result_view(made) == parse_manifest(H::spec_algorithm(), text@),
            made matches Ok(manifest) ==> manifest.wf(),
    {
        let all = split_lines(text);
        if all.len() == 0 {
            return Err(Error::ManifestMissingHeader);
        }
        match check_header(H::algorithm(), all[0]) {
            Ok(_) => {},
            Err(error) => {
                return Err(error);
            },
        }
        let ghost rest = lines(text@).drop_first();
        let mut relations: Vec<Relation<H>> = Vec::new();
        let mut i: usize = 1;
        assert(rest.take(0) =~= Seq::<Seq<u8>>::empty());
        assert(relation_views(relations@) =~= Seq::<RelationView>::empty());
        while i < all.len()
            invariant
                1 <= i <= all@.len(),
                all@.len() == lines(text@).len(),
                forall|j: int| 0 <= j < all@.len() ==> (#[trigger] all@[j])@ == lines(text@)[j],
                rest == lines(text@).drop_first(),
                parse_header(H::spec_algorithm(), lines(text@)[0]) is Ok,
                parse_relation_lines(H::spec_algorithm(), rest.take(i - 1)) == Ok::<
                    Seq<RelationView>,
                    ErrorView,
                >(relation_views(relations@)),
                forall|j: int| 0 <= j < relations@.len() ==> (#[trigger] relations@[j]).wf(),
            decreases all@.len() - i,
        {
            let ghost read = rest.take(i as int);
            proof {
                assert(read.drop_last() =~= rest.take(i - 1));
                assert(read.last() == all@[i as int]@);
            }
            match parse_relation::<H>(all[i]) {
                Ok(relation) => {
                    let ghost before = relations@;
                    relations.push(relation);
                    assert(relation_views(relations@) =~= relation_views(before).push(relation@));
                },
                Err(error) => {
                    proof {
                        lemma_first_error_stays(H::spec_algorithm(), rest, i as int);
                    }
                    return Err(error);
                },
            }
            i += 1;
        }
        assert(rest.take(i - 1) =~= rest);
        Ok(InputManifest { target: None, relations })
    }

    /// Write the manifest out as text.
    ///
    /// The text holds the header of `H` and the relations in their order;
    /// it does not hold the target. Writing into memory cannot fail, so the
    /// result is always `Ok`.
    pub fn as_bytes(&self) -> (written: Result<Vec<u8>, Error>)
        ensures
            written is Ok,
            written->Ok_0@ == manifest_text(H::spec_algorithm(), self@.relations),
            self.wf() ==> parse_manifest(H::spec_algorithm(), written->Ok_0@) == Ok::<
                InputManifestView,
                ErrorView,
            >(InputManifestView { target: None, relations: self@.relations }),
    {
        proof {
            if self.wf() {
                self.lemma_round_trip();
            }
        }
        proof {
            reveal_strlit("gitoid");
            reveal_strlit("blob");
        }
        let ghost algorithm = H::spec_algorithm();
        let ghost write = |r: RelationView| relation_line(r);
        let ghost views = self@.relations;
        let mut bytes: Vec<u8> = Vec::new();
        push_all(&mut bytes, ascii_str_bytes("gitoid"));
        bytes.push(COLON);
        push_all(&mut bytes, ascii_str_bytes("blob"));
        bytes.push(COLON);
        push_all(&mut bytes, H::algorithm().name_bytes());
        bytes.push(LINE_FEED);
        proof {
            let first = seq![header_line(algorithm)];
            assert(first.drop_last() =~= Seq::<Seq<u8>>::empty());
            assert(join_lines(Seq::<Seq<u8>>::empty()) =~= Seq::<u8>::empty());
            assert(bytes@ =~= header_line(algorithm) + seq![LINE_FEED]);
            assert(bytes@ =~= join_lines(first));
            assert(views.take(0).map_values(write) =~= Seq::<Seq<u8>>::empty());
            assert(manifest_lines(algorithm, views.take(0)) =~= first);
        }
        let mut i: usize = 0;
        while i < self.relations.len()
            invariant
                i <= self.relations@.len(),
                algorithm == H::spec_algorithm(),
                views == self@.relations,
                views.len() == self.relations@.len(),
                bytes@ == join_lines(manifest_lines(algorithm, views.take(i as int))),
            decreases self.relations@.len() - i,
        {
            let relation = &self.relations[i];
            write_relation_line(relation, &mut bytes);
            proof {
                let done = manifest_lines(algorithm, views.take(i + 1));
                assert(views[i as int] == relation@);
                assert(done.drop_last() =~= manifest_lines(algorithm, views.take(i as int)));
                assert(done.last() == relation_line(relation@));
            }
            i += 1;
        }
        assert(views.take(i as int) =~= views);
        Ok(bytes)
    }
}

/// Once a line cannot be read, no more lines change the outcome.
proof fn lemma_first_error_stays(algorithm: HashAlgorithm, lines: Seq<Seq<u8>>, n: int)
    requires
        0 <= n <= lines.len(),
        parse_relation_lines(algorithm, lines.take(n)) is Err,
    ensures
        parse_relation_lines(algorithm, lines) == parse_relation_lines(algorithm, lines.take(n)),
    decreases lines.len() - n,
{
    if n < lines.len() {
        let next = lines.take(n + 1);
        assert(next.drop_last() =~= lines.take(n));
        lemma_first_error_stays(algorithm, lines, n + 1);
    } else {
        assert(lines.take(n) =~= lines);
    }
}

/// Checks the first line of a manifest against `algorithm`.
fn check_header(algorithm: HashAlgorithm, line: &[u8]) -> (checked: Result<(), Error>)
    ensures
        checked is Ok <==> parse_header(algorithm, line@) is Ok,
        checked matches Err(error) ==> parse_header(algorithm, line@) == Err::<(), ErrorView>(error@),
{
    proof {
        reveal_strlit("gitoid");
        reveal_strlit("blob");
    }
    let parts = split_fields(line, COLON);
    if parts.len() != 3 {
        return Err(Error::MissingHeaderParts);
    }
    if !bytes_eq(parts[0], ascii_str_bytes("gitoid")) {
        return Err(Error::MissingGitOidInHeader);
    }
    if !bytes_eq(parts[1], ascii_str_bytes("blob")) {
        return Err(Error::MissingObjectTypeInHeader);
    }
    if !bytes_eq(parts[2], algorithm.name_bytes()) {
        return Err(
            Error::WrongHashAlgorithm {
                expected: algorithm,
                got: vstd::slice::slice_to_vec(parts[2]),
            },
        );
    }
    Ok(())
}

} // verus!

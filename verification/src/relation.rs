//! One edge of the dependency graph: a relation of a target to an artifact.

use crate::artifact_id::ArtifactId;
use crate::hash_algorithm::{HashAlgorithm, SupportedHash};
use crate::relation_kind::RelationKind;
use crate::text::{
    bytes_eq, bytes_precedence, lemma_precedence_reverse, precedence, Precedence,
};
use core::cmp::Ordering;
use vstd::prelude::*;
use vstd::std_specs::cmp::{PartialEqSpec, PartialOrdSpec};

verus! {

/// What a `Relation` stands for: a kind, the hash of the related artifact and,
/// if it is known, the hash of that artifact's own manifest.
pub struct RelationView {
    pub kind: RelationKind,
    pub artifact: Seq<u8>,
    pub manifest: Option<Seq<u8>>,
}

/// True when the hashes of `relation` have the width of `algorithm`.
pub open spec fn relation_fits(algorithm: HashAlgorithm, relation: RelationView) -> bool {
    &&& relation.artifact.len() == algorithm.spec_width()
    &&& relation.manifest matches Some(manifest) ==> manifest.len() == algorithm.spec_width()
}

/// The place in the order that a place among byte strings gives.
pub open spec fn ordering_of(place: Precedence) -> Ordering {
    match place {
        Precedence::Before => Ordering::Less,
        Precedence::Same => Ordering::Equal,
        Precedence::After => Ordering::Greater,
    }
}

/// An order seen from the other side.
pub open spec fn reversed(order: Option<Ordering>) -> Option<Ordering> {
    match order {
        Some(Ordering::Less) => Some(Ordering::Greater),
        Some(Ordering::Greater) => Some(Ordering::Less),
        other => other,
    }
}

/// The place in the order that a place among byte strings gives.
fn to_ordering(place: Precedence) -> (order: Ordering)
    ensures
        order == ordering_of(place),
{
    match place {
        Precedence::Before => Ordering::Less,
        Precedence::Same => Ordering::Equal,
        Precedence::After => Ordering::Greater,
    }
}

/// A single input artifact represented in a [`InputManifest`](crate::InputManifest).
///
/// Two relations are equal when kind, artifact and manifest are. The order
/// of relations looks at the kind first and then at the artifact; it does
/// not look at the manifest, so two relations that differ in nothing else
/// are unequal and yet neither comes first.
#[derive(Debug, Eq, Hash)]
pub struct Relation<H: SupportedHash> {
    /// The kind of relation being represented.
    kind: RelationKind,
    /// The ID of the artifact itself.
    artifact: ArtifactId<H>,
    /// The ID of the manifest, if a manifest is present.
    manifest: Option<ArtifactId<H>>,
}

impl<H: SupportedHash> Clone for Relation<H> {
    fn clone(&self) -> (copy: Self)
        ensures
            copy == *self,
    {
        Relation { kind: self.kind, artifact: self.artifact, manifest: self.manifest }
    }
}

impl<H: SupportedHash> Copy for Relation<H> {

}

impl<H: SupportedHash> View for Relation<H> {
    type V = RelationView;

    open spec fn view(&self) -> RelationView {
        RelationView {
            kind: self.spec_kind(),
            artifact: self.spec_artifact()@,
            manifest: match self.spec_manifest() {
                Some(manifest) => Some(manifest@),
                None => None,
            },
        }
    }
}

impl<H: SupportedHash> PartialEq for Relation<H> {
    fn eq(&self, other: &Self) -> (same: bool) {
        let manifests = match (self.manifest, other.manifest) {
            (None, None) => true,
            (Some(mine), Some(theirs)) => bytes_eq(mine.as_bytes(), theirs.as_bytes()),
            _ => false,
        };
        self.kind == other.kind && bytes_eq(self.artifact.as_bytes(), other.artifact.as_bytes())
            && manifests
    }
}

impl<H: SupportedHash> vstd::std_specs::cmp::PartialEqSpecImpl for Relation<H> {
    open spec fn obeys_eq_spec() -> bool {
        true
    }

    /// Relations are equal when they stand for the same kind, the same
    /// artifact and the same manifest.
    open spec fn eq_spec(&self, other: &Self) -> bool {
        self@ == other@
    }
}

impl<H: SupportedHash> PartialOrd for Relation<H> {
    fn partial_cmp(&self, other: &Self) -> (order: Option<Ordering>) {
        match (self.kind, other.kind) {
            (RelationKind::Input, RelationKind::BuiltBy) => Some(Ordering::Less),
            (RelationKind::BuiltBy, RelationKind::Input) => Some(Ordering::Greater),
            _ => Some(
                to_ordering(bytes_precedence(self.artifact.as_bytes(), other.artifact.as_bytes())),
            ),
        }
    }
}

impl<H: SupportedHash> vstd::std_specs::cmp::PartialOrdSpecImpl for Relation<H> {
    open spec fn obeys_partial_cmp_spec() -> bool {
        true
    }

    /// Relations of different kinds are ordered by their kinds, an input
    /// before a tool. Relations of one kind are ordered by the hashes of
    /// their artifacts, in the order of a dictionary.
    open spec fn partial_cmp_spec(&self, other: &Self) -> Option<Ordering> {
        if self.spec_kind().rank() < other.spec_kind().rank() {
            Some(Ordering::Less)
        } else if self.spec_kind().rank() > other.spec_kind().rank() {
            Some(Ordering::Greater)
        } else {
            Some(ordering_of(precedence(self.spec_artifact()@, other.spec_artifact()@)))
        }
    }
}

impl<H: SupportedHash> Relation<H> {
    /// The kind of relation being described.
    pub closed spec fn spec_kind(&self) -> RelationKind {
        self.kind
    }

    /// The ID of the artifact.
    pub closed spec fn spec_artifact(&self) -> ArtifactId<H> {
        self.artifact
    }

    /// The manifest ID, if present.
    pub closed spec fn spec_manifest(&self) -> Option<ArtifactId<H>> {
        self.manifest
    }

    /// The identifiers of the relation are well formed.
    pub open spec fn wf(self) -> bool {
        &&& self.spec_artifact().wf()
        &&& self.spec_manifest() matches Some(manifest) ==> manifest.wf()
    }

    /// The hashes of a well-formed relation have the width of `H`.
    pub proof fn lemma_fits(self)
        requires
            self.wf(),
        ensures
            relation_fits(H::spec_algorithm(), self@),
    {
        self.spec_artifact().lemma_width();
        if let Some(manifest) = self.spec_manifest() {
            manifest.lemma_width();
        }
    }

    /// Well-formed relations are equal exactly when their kinds, their
    /// artifacts and their manifests are the same.
    pub proof fn lemma_eq_by_parts(self, other: Self)
        requires
            self.wf(),
            other.wf(),
        ensures
            self.eq_spec(&other) <==> (self.spec_kind() == other.spec_kind()
                && self.spec_artifact() == other.spec_artifact() && self.spec_manifest()
                == other.spec_manifest()),
    {
        if self@ == other@ {
            self.spec_artifact().lemma_view_injective(other.spec_artifact());
            if let Some(mine) = self.spec_manifest() {
                if let Some(theirs) = other.spec_manifest() {
                    mine.lemma_view_injective(theirs);
                }
            }
        }
    }

    /// Seen from the other side, the order of two relations is the reverse.
    pub proof fn lemma_order_reverses(self, other: Self)
        ensures
            other.partial_cmp_spec(&self) == reversed(self.partial_cmp_spec(&other)),
    {
        lemma_precedence_reverse(self.spec_artifact()@, other.spec_artifact()@);
    }

    /// Relations of different kinds stand in the order of their kinds, and
    /// relations of one kind in the order of the hashes of their artifacts.
    pub proof fn lemma_order_by_kind_then_artifact(self, other: Self)
        ensures
            self.spec_kind() != other.spec_kind() ==> self.partial_cmp_spec(&other)
                == self.spec_kind().partial_cmp_spec(&other.spec_kind()),
            self.spec_kind() == other.spec_kind() ==> self.partial_cmp_spec(&other) == Some(
                ordering_of(precedence(self.spec_artifact()@, other.spec_artifact()@)),
            ),
    {
    }

    /// The relation of kind `kind` to `artifact`, whose own manifest is
    /// `manifest` if it is known.
    pub closed spec fn spec_new(
        kind: RelationKind,
        artifact: ArtifactId<H>,
        manifest: Option<ArtifactId<H>>,
    ) -> Relation<H> {
        Relation { kind, artifact, manifest }
    }

    /// A relation holds what it was made of.
    pub proof fn lemma_new(
        kind: RelationKind,
        artifact: ArtifactId<H>,
        manifest: Option<ArtifactId<H>>,
    )
        ensures
            Self::spec_new(kind, artifact, manifest).spec_kind() == kind,
            Self::spec_new(kind, artifact, manifest).spec_artifact() == artifact,
            Self::spec_new(kind, artifact, manifest).spec_manifest() == manifest,
    {
    }

    /// A relation of kind `kind` to `artifact`, whose own manifest is
    /// `manifest` if it is known.
    #[verifier::when_used_as_spec(spec_new)]
    pub fn new(kind: RelationKind, artifact: ArtifactId<H>, manifest: Option<ArtifactId<H>>) -> (relation:
        Relation<H>)
        ensures
            relation == Self::spec_new(kind, artifact, manifest),
            relation.spec_kind() == kind,
            relation.spec_artifact() == artifact,
            relation.spec_manifest() == manifest,
            relation.wf(),
    {
        proof {
            use_type_invariant(&artifact);
        }
        match &manifest {
            Some(id) => {
                proof {
                    use_type_invariant(id);
                }
            },
            None => {},
        }
        Relation { kind, artifact, manifest }
    }

    /// Get the kind of relation being described.
    #[inline]
    #[verifier::when_used_as_spec(spec_kind)]
    pub fn kind(&self) -> (kind: RelationKind)
        ensures
            kind == self.spec_kind(),
    {
        self.kind
    }

    /// Get the ID of the artifact.
    #[inline]
    #[verifier::when_used_as_spec(spec_artifact)]
    pub fn artifact(&self) -> (artifact: ArtifactId<H>)
        ensures
            artifact == self.spec_artifact(),
    {
        self.artifact
    }

    /// Get the manifest ID, if present.
    #[inline]
    #[verifier::when_used_as_spec(spec_manifest)]
    pub fn manifest(&self) -> (manifest: Option<ArtifactId<H>>)
        ensures
            manifest == self.spec_manifest(),
    {
        self.manifest
    }
}

} // verus!

//! Builds the input manifest of a target, relation by relation.
//!
//! A builder starts empty. Relations are added in any number; each is kept
//! at once, in the order given, and nothing is ever merged or dropped.
//! Finishing assembles the manifest, identifies it, prepares the target as
//! the embedding mode asks, identifies the target, and stores the manifest
//! under the target's identifier. A builder that fails to finish has stored
//! nothing.

use crate::artifact_id::ArtifactId;
use crate::embedding::{finish_target, finished_target, EmbeddingMode};
use crate::error::{Error, ErrorView};
use crate::gitoid::gitoid_hash;
use crate::hash_algorithm::SupportedHash;
use crate::input_manifest::{manifest_text, relation_views, InputManifest};
use crate::relation::{Relation, RelationView};
use crate::relation_kind::RelationKind;
use crate::storage::Storage;
use crate::target_type::{TargetType, TargetTypeView};
use core::marker::PhantomData;
use vstd::prelude::*;

verus! {

/// What finishing a manifest produces, apart from the entry in the store.
pub struct Finished<H: SupportedHash> {
    /// The manifest, with its target set.
    pub manifest: InputManifest<H>,
    /// The identifier of the manifest: that of its text.
    pub manifest_id: ArtifactId<H>,
    /// The identifier of the target, made from `target`.
    pub target_id: ArtifactId<H>,
    /// The bytes of the target as they must now be: those that were given,
    /// or those with the manifest's identifier embedded.
    pub target: Vec<u8>,
    /// The text of the manifest, as it is stored.
    pub manifest_text: Vec<u8>,
}

/// What was prepared, or the reason why nothing was, in terms of views.
pub open spec fn finished_result_view<H: SupportedHash>(made: Result<Finished<H>, Error>) -> Result<
    FinishedView,
    ErrorView,
> {
    match made {
        Ok(finished) => Ok(
            FinishedView {
                manifest_id: finished.manifest_id@,
                target_id: finished.target_id@,
                manifest_text: finished.manifest_text@,
                target: finished.target@,
            },
        ),
        Err(error) => Err(error@),
    }
}

/// What finishing returns once the store has answered: what was prepared
/// if the store took the manifest, and the store's error if it did not.
pub fn conclude<H: SupportedHash>(finished: Finished<H>, stored: Result<(), Error>) -> (done: Result<
    Finished<H>,
    Error,
>)
    ensures
        stored is Ok ==> done == Ok::<Finished<H>, Error>(finished),
        stored matches Err(error) ==> done == Err::<Finished<H>, Error>(error),
{
    match stored {
        Ok(_) => Ok(finished),
        Err(error) => Err(error),
    }
}

/// What finishing comes to, before anything is stored.
pub struct FinishedView {
    /// The hash of the manifest's identifier.
    pub manifest_id: Seq<u8>,
    /// The hash of the target's identifier.
    pub target_id: Seq<u8>,
    /// The text of the manifest, which is what goes into the store.
    pub manifest_text: Seq<u8>,
    /// The bytes of the target as they must now be.
    pub target: Seq<u8>,
}

/// What finishing a manifest with `relations` for a target comes to: the
/// manifest is identified by its text, the target is prepared as the mode
/// asks, and the prepared target is identified.
pub open spec fn finish_plan<H: SupportedHash, M: EmbeddingMode>(
    relations: Seq<RelationView>,
    target: Seq<u8>,
    target_type: TargetTypeView,
) -> Result<FinishedView, ErrorView> {
    let algorithm = H::spec_algorithm();
    let text = manifest_text(algorithm, relations);
    let manifest_id = gitoid_hash(algorithm, text);
    match finished_target(M::spec_strategy(), target_type, algorithm, manifest_id, target) {
        Err(error) => Err(error),
        Ok(prepared) => Ok(
            FinishedView {
                manifest_id,
                target_id: gitoid_hash(algorithm, prepared),
                manifest_text: text,
                target: prepared,
            },
        ),
    }
}

/// Without embedding, finishing never fails before the store is reached,
/// the target stays as it is, and its identifier is that of its bytes.
pub proof fn lemma_no_embed_plan<H: SupportedHash, M: EmbeddingMode>(
    relations: Seq<RelationView>,
    target: Seq<u8>,
    target_type: TargetTypeView,
)
    requires
        M::spec_strategy() == crate::embedding::EmbeddingStrategy::NoEmbed,
    ensures
        finish_plan::<H, M>(relations, target, target_type) is Ok,
        finish_plan::<H, M>(relations, target, target_type)->Ok_0.target == target,
        finish_plan::<H, M>(relations, target, target_type)->Ok_0.target_id == gitoid_hash(
            H::spec_algorithm(),
            target,
        ),
{
}

/// An [`InputManifest`] builder.
pub struct InputManifestBuilder<H: SupportedHash, M: EmbeddingMode, S: Storage<H>> {
    /// The relations added so far.
    relations: Vec<Relation<H>>,
    /// Where the finished manifest goes.
    storage: S,
    /// Ties the builder to its embedding mode.
    _mode: PhantomData<M>,
}

impl<H: SupportedHash, M: EmbeddingMode, S: Storage<H>> InputManifestBuilder<H, M, S> {
    /// The relations added so far, in order.
    pub closed spec fn spec_relations(&self) -> Seq<Relation<H>> {
        self.relations@
    }

    /// The store of the builder.
    pub closed spec fn spec_storage(&self) -> S {
        self.storage
    }

    /// The identifiers of all relations are well formed.
    pub open spec fn wf(&self) -> bool {
        forall|i: int|
            0 <= i < self.spec_relations().len() ==> (#[trigger] self.spec_relations()[i]).wf()
    }

    /// Construct a new builder with no relations, on the given store.
    pub fn with_storage(storage: S) -> (builder: Self)
        ensures
            builder.spec_relations() == Seq::<Relation<H>>::empty(),
            builder.spec_storage() == storage,
            builder.wf(),
    {
        InputManifestBuilder { relations: Vec::new(), storage, _mode: PhantomData }
    }

    /// Add a relation to an artifact.
    ///
    /// The relation is kept at once, behind those added before. Adding the
    /// same relation twice keeps it twice.
    pub fn add_relation(&mut self, kind: RelationKind, artifact: ArtifactId<H>)
        ensures
            final(self).spec_relations() == old(self).spec_relations().push(
                Relation::new(kind, artifact, None),
            ),
            final(self).spec_storage() == old(self).spec_storage(),
            old(self).wf() ==> final(self).wf(),
    {
        let relation = Relation::new(kind, artifact, None);
        self.relations.push(relation);
        proof {
            if old(self).wf() {
                assert forall|i: int| 0 <= i < self.spec_relations().len() implies (
                #[trigger] self.spec_relations()[i]).wf() by {
                    if i < old(self).spec_relations().len() {
                        assert(self.spec_relations()[i] == old(self).spec_relations()[i]);
                    }
                }
            }
        }
    }

    /// Add a relation to an artifact whose own manifest is known.
    pub fn add_relation_with_manifest(
        &mut self,
        kind: RelationKind,
        artifact: ArtifactId<H>,
        manifest: ArtifactId<H>,
    )
        ensures
            final(self).spec_relations() == old(self).spec_relations().push(
                Relation::new(kind, artifact, Some(manifest)),
            ),
            final(self).spec_storage() == old(self).spec_storage(),
            old(self).wf() ==> final(self).wf(),
    {
        let relation = Relation::new(kind, artifact, Some(manifest));
        self.relations.push(relation);
        proof {
            if old(self).wf() {
                assert forall|i: int| 0 <= i < self.spec_relations().len() implies (
                #[trigger] self.spec_relations()[i]).wf() by {
                    if i < old(self).spec_relations().len() {
                        assert(self.spec_relations()[i] == old(self).spec_relations()[i]);
                    }
                }
            }
        }
    }

    /// The relations added so far.
    pub fn relations(&self) -> (relations: &[Relation<H>])
        ensures
            relations@ == self.spec_relations(),
    {
        self.relations.as_slice()
    }

    /// Access the underlying storage for the builder.
    pub fn storage(&self) -> (storage: &S)
        ensures
            *storage == self.spec_storage(),
    {
        &self.storage
    }

    /// Assemble the manifest for the target with the bytes `target`,
    /// identify both, and prepare the target, without storing anything.
    ///
    /// `target_type` says what kind of file the target is. It matters only
    /// when the mode is to embed; then a target that is not text with a
    /// known way of writing comments is an error.
    pub fn prepare(&self, target: &[u8], target_type: &TargetType) -> (made: Result<
        Finished<H>,
        Error,
    >)
        ensures
            finished_result_view(made) == finish_plan::<H, M>(
                relation_views(self.spec_relations()),
                target@,
                target_type@,
            ),
            made matches Ok(finished) ==> {
                &&& finished.manifest.spec_relations() == self.spec_relations()
                &&& finished.manifest.spec_target() == Some(finished.target_id)
                &&& self.wf() ==> finished.manifest.wf()
            },
    {
        // Construct a new input manifest.
        let mut manifest = InputManifest::with_relations(
            vstd::slice::slice_to_vec(self.relations.as_slice()),
        );
        // Identify it by its text.
        let manifest_text = match manifest.as_bytes() {
            Ok(text) => text,
            Err(error) => {
                return Err(error);
            },
        };
        let manifest_id = ArtifactId::<H>::id_bytes(manifest_text.as_slice());
        // Get the bytes of the target, possibly embedding the identifier of
        // the manifest in them first, and identify the target.
        let prepared = match finish_target(M::strategy(), target_type, &manifest_id, target) {
            Ok(prepared) => prepared,
            Err(error) => {
                return Err(error);
            },
        };
        let target_id = ArtifactId::<H>::id_bytes(prepared.as_slice());
        proof {
            use_type_invariant(&target_id);
        }
        manifest.set_target(Some(target_id));
        Ok(Finished { manifest, manifest_id, target_id, target: prepared, manifest_text })
    }

    /// Complete the manifest for the target with the bytes `target`, and
    /// store it.
    ///
    /// On success the manifest is in the store under the identifier of the
    /// target, the relations have gone into the manifest, and the builder
    /// is empty again. On failure the store and the builder are as they
    /// were: either the target cannot be embedded in, or the store refused.
    pub fn finish(&mut self, target: &[u8], target_type: &TargetType) -> (done: Result<
        Finished<H>,
        Error,
    >)
        ensures
            finish_plan::<H, M>(relation_views(old(self).spec_relations()), target@, target_type@)
                matches Err(error) ==> done matches Err(e) && e@ == error,
            done matches Ok(finished) ==> {
                &&& finished_result_view(done) == finish_plan::<H, M>(
                    relation_views(old(self).spec_relations()),
                    target@,
                    target_type@,
                )
                &&& finished.manifest.spec_relations() == old(self).spec_relations()
                &&& finished.manifest.spec_target() == Some(finished.target_id)
                &&& final(self).spec_storage().contents() == old(self).spec_storage().contents().insert(
                    finished.target_id@,
                    finished.manifest_text@,
                )
                &&& final(self).spec_relations() == Seq::<Relation<H>>::empty()
                &&& old(self).wf() ==> finished.manifest.wf()
            },
            done is Err ==> final(self).spec_relations() == old(self).spec_relations()
                && final(self).spec_storage().contents() == old(self).spec_storage().contents(),
            old(self).wf() ==> final(self).wf(),
    {
        let finished = match self.prepare(target, target_type) {
            Ok(finished) => finished,
            Err(error) => {
                return Err(error);
            },
        };
        // Keep the manifest under the identifier of the target.
        let stored = self.storage.put(finished.target_id, finished.manifest_text.as_slice());
        if stored.is_ok() {
            self.relations = Vec::new();
        }
        conclude(finished, stored)
    }
}

} // verus!

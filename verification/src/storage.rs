//! Where manifests are kept.
//!
//! A store keeps the text of manifests under the identifiers of their
//! targets. Any backend will do that behaves like a map: what was put under
//! an identifier is what is found under it, and nothing else changes.

use crate::artifact_id::ArtifactId;
use crate::error::Error;
use crate::hash_algorithm::SupportedHash;
use crate::text::bytes_eq;
use vstd::prelude::*;

verus! {

/// A place to keep manifests, by the identifier of the target.
pub trait Storage<H: SupportedHash> {
    /// What the store holds: the text of a manifest for each hash of a
    /// target that has one.
    spec fn contents(&self) -> Map<Seq<u8>, Seq<u8>>;

    /// Keep `bytes` under `target`, in place of what was kept under it.
    ///
    /// A call that fails leaves the store as it was.
    fn put(&mut self, target: ArtifactId<H>, bytes: &[u8]) -> (put: Result<(), Error>)
        ensures
            put is Ok ==> final(self).contents() == old(self).contents().insert(target@, bytes@),
            put is Err ==> final(self).contents() == old(self).contents(),
    ;

    /// What is kept under `target`, or `None` if nothing is.
    fn get(&self, target: ArtifactId<H>) -> (got: Result<Option<Vec<u8>>, Error>)
        ensures
            got matches Ok(Some(bytes)) ==> self.contents().contains_key(target@)
                && self.contents()[target@] == bytes@,
            got matches Ok(None) ==> !self.contents().contains_key(target@),
    ;
}

/// One manifest of an `InMemoryStorage`.
struct Entry<H: SupportedHash> {
    target: ArtifactId<H>,
    bytes: Vec<u8>,
}

/// The map that a list of entries stands for. Where two entries have the
/// same target, the earlier one counts.
spec fn entries_map<H: SupportedHash>(entries: Seq<Entry<H>>) -> Map<Seq<u8>, Seq<u8>>
    decreases entries.len(),
{
    if entries.len() == 0 {
        Map::empty()
    } else {
        entries_map(entries.drop_first()).insert(entries[0].target@, entries[0].bytes@)
    }
}

/// A target that no entry has is not in the map, and adding an entry for it
/// at the end adds it to the map.
proof fn lemma_entries_push<H: SupportedHash>(entries: Seq<Entry<H>>, entry: Entry<H>)
    requires
        forall|i: int| 0 <= i < entries.len() ==> (#[trigger] entries[i]).target@ != entry.target@,
    ensures
        entries_map(entries.push(entry)) == entries_map(entries).insert(
            entry.target@,
            entry.bytes@,
        ),
    decreases entries.len(),
{
    if entries.len() == 0 {
        assert(entries.push(entry).drop_first() =~= entries);
    } else {
        let rest = entries.drop_first();
        assert forall|i: int| 0 <= i < rest.len() implies (#[trigger] rest[i]).target@
            != entry.target@ by {
            assert(rest[i] == entries[i + 1]);
        }
        lemma_entries_push(rest, entry);
        assert(entries[0].target@ != entry.target@);
        assert(entries.push(entry).drop_first() =~= rest.push(entry));
    }
    assert(entries_map(entries.push(entry)) =~= entries_map(entries).insert(
        entry.target@,
        entry.bytes@,
    ));
}

/// A target that no entry has is not in the map.
proof fn lemma_entries_absent<H: SupportedHash>(entries: Seq<Entry<H>>, target: Seq<u8>)
    requires
        forall|i: int| 0 <= i < entries.len() ==> (#[trigger] entries[i]).target@ != target,
    ensures
        !entries_map(entries).contains_key(target),
    decreases entries.len(),
{
    if entries.len() > 0 {
        let rest = entries.drop_first();
        assert forall|i: int| 0 <= i < rest.len() implies (#[trigger] rest[i]).target@ != target by {
            assert(rest[i] == entries[i + 1]);
        }
        lemma_entries_absent(rest, target);
        assert(entries[0].target@ != target);
    }
}

/// The first entry for a target is the one the map holds, and replacing it
/// replaces what the map holds for that target.
proof fn lemma_entries_first<H: SupportedHash>(entries: Seq<Entry<H>>, at: int, entry: Entry<H>)
    requires
        0 <= at < entries.len(),
        entries[at].target@ == entry.target@,
        forall|i: int| 0 <= i < at ==> (#[trigger] entries[i]).target@ != entry.target@,
    ensures
        entries_map(entries).contains_key(entry.target@),
        entries_map(entries)[entry.target@] == entries[at].bytes@,
        entries_map(entries.update(at, entry)) == entries_map(entries).insert(
            entry.target@,
            entry.bytes@,
        ),
    decreases at,
{
    let rest = entries.drop_first();
    if at == 0 {
        assert(entries.update(at, entry).drop_first() =~= rest);
        assert(entries_map(entries.update(at, entry)) =~= entries_map(entries).insert(
            entry.target@,
            entry.bytes@,
        ));
    } else {
        assert forall|i: int| 0 <= i < at - 1 implies (#[trigger] rest[i]).target@
            != entry.target@ by {
            assert(rest[i] == entries[i + 1]);
        }
        assert(rest[at - 1] == entries[at]);
        lemma_entries_first(rest, at - 1, entry);
        assert(entries[0].target@ != entry.target@);
        assert(entries.update(at, entry).drop_first() =~= rest.update(at - 1, entry));
        assert(entries_map(entries.update(at, entry)) =~= entries_map(entries).insert(
            entry.target@,
            entry.bytes@,
        ));
    }
}

/// A store that keeps its manifests in memory.
pub struct InMemoryStorage<H: SupportedHash> {
    entries: Vec<Entry<H>>,
}

impl<H: SupportedHash> InMemoryStorage<H> {
    /// A store that holds nothing.
    pub fn new() -> (storage: Self)
        ensures
            storage.contents() == Map::<Seq<u8>, Seq<u8>>::empty(),
    {
        InMemoryStorage { entries: Vec::new() }
    }

    /// The place of the first entry for `target`, or the number of entries
    /// if there is none.
    fn find(&self, target: &ArtifactId<H>) -> (at: usize)
        ensures
            at <= self.entries@.len(),
            at < self.entries@.len() ==> self.entries@[at as int].target@ == target@,
            forall|i: int| 0 <= i < at ==> (#[trigger] self.entries@[i]).target@ != target@,
    {
        let mut at: usize = 0;
        while at < self.entries.len()
            invariant
                at <= self.entries@.len(),
                forall|i: int| 0 <= i < at ==> (#[trigger] self.entries@[i]).target@ != target@,
            decreases self.entries@.len() - at,
        {
            if bytes_eq(self.entries[at].target.as_bytes(), target.as_bytes()) {
                return at;
            }
            at += 1;
        }
        at
    }
}

impl<H: SupportedHash> Storage<H> for InMemoryStorage<H> {
    closed spec fn contents(&self) -> Map<Seq<u8>, Seq<u8>> {
        entries_map(self.entries@)
    }

    /// Keep `bytes` under `target`. This store never fails.
    fn put(&mut self, target: ArtifactId<H>, bytes: &[u8]) -> (put: Result<(), Error>)
        ensures
            put is Ok,
    {
        let at = self.find(&target);
        let entry = Entry { target, bytes: vstd::slice::slice_to_vec(bytes) };
        if at < self.entries.len() {
            proof {
                lemma_entries_first(self.entries@, at as int, entry);
            }
            self.entries.set(at, entry);
        } else {
            proof {
                lemma_entries_push(self.entries@, entry);
            }
            self.entries.push(entry);
        }
        Ok(())
    }

    /// What is kept under `target`. This store never fails.
    fn get(&self, target: ArtifactId<H>) -> (got: Result<Option<Vec<u8>>, Error>)
        ensures
            got is Ok,
    {
        let at = self.find(&target);
        if at < self.entries.len() {
            proof {
                lemma_entries_first(self.entries@, at as int, self.entries@[at as int]);
            }
            Ok(Some(self.entries[at].bytes.clone()))
        } else {
            proof {
                lemma_entries_absent(self.entries@, target@);
            }
            Ok(None)
        }
    }
}

} // verus!

//! A gitoid representing a single artifact.
//!
//! A gitoid is the digest of an artifact's bytes framed the way Git frames a
//! blob: the word `blob`, a space, the length in decimal, a zero byte, then
//! the bytes themselves.

use crate::digest::{digest_of, Digester};
use crate::error::{Error, ErrorView};
use crate::hash_algorithm::{HashAlgorithm, NUM_HASH_BYTES};
use crate::text::{ascii_bytes, ascii_chars, ascii_str_bytes, decimal, push_all, push_decimal};
use vstd::prelude::*;
use vstd::string::StringSliceAdditionalSpecFns;

verus! {

/// What stands before the content of a blob of `length` bytes.
pub open spec fn blob_header(length: nat) -> Seq<u8> {
    ascii_bytes("blob "@) + decimal(length) + seq![0u8]
}

/// `content` framed as a Git blob object.
pub open spec fn blob_frame(content: Seq<u8>) -> Seq<u8> {
    blob_header(content.len()) + content
}

/// The hash that identifies `content` under `algorithm`.
pub open spec fn gitoid_hash(algorithm: HashAlgorithm, content: Seq<u8>) -> Seq<u8> {
    digest_of(algorithm, blob_frame(content))
}

/// The text of a gitoid: the name of the algorithm, a colon, and the hash in
/// lowercase hexadecimal.
pub open spec fn gitoid_text(gitoid: GitOidView) -> Seq<char> {
    gitoid.algorithm.spec_name() + seq![':'] + ascii_chars(crate::hex::hex_encode(gitoid.hash))
}

/// What a `GitOid` stands for: an algorithm and a hash of that algorithm's
/// width.
pub struct GitOidView {
    pub algorithm: HashAlgorithm,
    pub hash: Seq<u8>,
}

/// A struct that holds a [git oid](https://git-scm.com/book/en/v2/Git-Internals-Git-Objects)
/// computed with the selected algorithm.
#[derive(Clone, Copy, PartialOrd, Eq, Ord, Debug, Hash, PartialEq)]
pub struct GitOid {
    /// The hash algorithm being used.
    hash_algorithm: HashAlgorithm,
    /// The length of the hashed data in number of bytes.
    len: usize,
    /// The buffer storing the actual hashed bytes. What lies behind the
    /// first `len` bytes is zero.
    value: [u8; NUM_HASH_BYTES],
}

impl View for GitOid {
    type V = GitOidView;

    closed spec fn view(&self) -> GitOidView {
        GitOidView {
            algorithm: self.hash_algorithm,
            hash: self.value@.subrange(0, self.len as int),
        }
    }
}

impl GitOid {
    /// The hash has the width of the algorithm, and the rest of the buffer
    /// is zero, so that two gitoids are the same value exactly when they
    /// stand for the same algorithm and hash.
    #[verifier::type_invariant]
    pub closed spec fn wf(self) -> bool {
        &&& self.len == self.hash_algorithm.spec_width()
        &&& forall|i: int| self.len <= i < NUM_HASH_BYTES ==> self.value@[i] == 0
    }

    /// The hash of a well-formed gitoid has the width of its algorithm.
    pub proof fn lemma_width(self)
        requires
            self.wf(),
        ensures
            self@.hash.len() == self@.algorithm.spec_width(),
    {
    }

    /// Well-formed gitoids that stand for the same algorithm and hash are
    /// the same value.
    pub proof fn lemma_view_injective(self, other: GitOid)
        requires
            self.wf(),
            other.wf(),
            self@ == other@,
        ensures
            self == other,
    {
        assert forall|i: int| 0 <= i < NUM_HASH_BYTES implies self.value@[i] == other.value@[i] by {
            if i < self.len {
                assert(self@.hash[i] == self.value@[i]);
                assert(other@.hash[i] == other.value@[i]);
            }
        }
        assert(self.value@ =~= other.value@);
        vstd::array::axiom_array_ext_equal(self.value, other.value);
    }

    /// A gitoid of `algorithm` that holds `digest`.
    fn from_digest(algorithm: HashAlgorithm, digest: &[u8]) -> (gitoid: GitOid)
        requires
            digest@.len() == algorithm.spec_width(),
        ensures
            gitoid@.algorithm == algorithm,
            gitoid@.hash == digest@,
            gitoid.wf(),
    {
        let len = algorithm.width();
        let mut value = [0u8; NUM_HASH_BYTES];
        let mut i: usize = 0;
        while i < len
            invariant
                len == digest@.len(),
                len <= NUM_HASH_BYTES,
                i <= len,
                forall|j: int| 0 <= j < i ==> value@[j] == digest@[j],
                forall|j: int| i <= j < NUM_HASH_BYTES ==> value@[j] == 0,
            decreases len - i,
        {
            value[i] = digest[i];
            i += 1;
        }
        let gitoid = GitOid { hash_algorithm: algorithm, len, value };
        assert(gitoid@.hash =~= digest@);
        gitoid
    }

    /// Create a new `GitOid` based on a slice of bytes.
    pub fn new_from_bytes(hash_algorithm: HashAlgorithm, content: &[u8]) -> (gitoid: GitOid)
        ensures
            gitoid@.algorithm == hash_algorithm,
            gitoid@.hash == gitoid_hash(hash_algorithm, content@),
            gitoid.wf(),
    {
        let mut hasher = GitOidHasher::new(hash_algorithm, content.len());
        hasher.update(content);
        hasher.complete()
    }

    /// Create a `GitOid` from a UTF-8 string slice.
    pub fn new_from_str(hash_algorithm: HashAlgorithm, s: &str) -> (gitoid: GitOid)
        ensures
            gitoid@.algorithm == hash_algorithm,
            gitoid@.hash == gitoid_hash(hash_algorithm, s.spec_bytes()),
            gitoid.wf(),
    {
        let content = s.as_bytes();
        GitOid::new_from_bytes(hash_algorithm, content)
    }

    /// Create a `GitOid` from a source that arrives in pieces.
    ///
    /// This requires an `expected_length` as part of a correctness check: the
    /// pieces must add up to exactly that many bytes.
    pub fn new_from_chunks(
        hash_algorithm: HashAlgorithm,
        chunks: &[Vec<u8>],
        expected_length: usize,
    ) -> (made: Result<GitOid, Error>)
        ensures
            gitoid_result_view(made) == stream_outcome(
                hash_algorithm,
                expected_length as nat,
                chunks.deep_view(),
            ),
            made matches Ok(gitoid) ==> gitoid.wf(),
    {
        let mut hasher = GitOidHasher::new(hash_algorithm, expected_length);
        let mut i: usize = 0;
        assert(chunks.deep_view().take(0) =~= Seq::<Seq<u8>>::empty());
        while i < chunks.len()
            invariant
                i <= chunks@.len(),
                hasher.wf(),
                hasher@ == feed(
                    HasherModel::start(hash_algorithm, expected_length as nat),
                    chunks.deep_view().take(i as int),
                ),
            decreases chunks@.len() - i,
        {
            hasher.update(chunks[i].as_slice());
            proof {
                let fed = chunks.deep_view().take(i + 1);
                assert(fed.drop_last() =~= chunks.deep_view().take(i as int));
                assert(fed.last() == chunks@[i as int]@);
            }
            i += 1;
        }
        assert(chunks.deep_view().take(i as int) =~= chunks.deep_view());
        hasher.finish()
    }

    /// Take a hash that was computed elsewhere, such as one read from text.
    ///
    /// Fails when `hash` does not have the width of the algorithm's digests.
    pub fn try_from_hash(hash_algorithm: HashAlgorithm, hash: &[u8]) -> (made: Result<
        GitOid,
        Error,
    >)
        ensures
            hash@.len() == hash_algorithm.spec_width() ==> made is Ok && made->Ok_0@ == (GitOidView {
                algorithm: hash_algorithm,
                hash: hash@,
            }) && made->Ok_0.wf(),
            hash@.len() != hash_algorithm.spec_width() ==> made is Err && made->Err_0@ == (
            ErrorView::UnexpectedHashLength {
                expected: hash_algorithm.spec_width() as usize,
                observed: hash@.len() as usize,
            }),
    {
        let expected = hash_algorithm.width();
        if hash.len() == expected {
            Ok(GitOid::from_digest(hash_algorithm, hash))
        } else {
            Err(Error::UnexpectedHashLength { expected, observed: hash.len() })
        }
    }

    /// Get the hex value of the hashcode, without the hash type.
    pub fn hex_hash(&self) -> (text: String)
        ensures
            text@ == ascii_chars(crate::hex::hex_encode(self@.hash)),
    {
        crate::hex::encode(self.hash_value())
    }

    /// The gitoid written out: the name of the algorithm, a colon, and the
    /// hash in lowercase hexadecimal.
    pub fn display(&self) -> (text: String)
        ensures
            text@ == gitoid_text(self@),
    {
        proof {
            reveal_strlit(":");
        }
        let mut text = String::from_str(self.hash_algorithm.name());
        text.append(":");
        let hex = self.hex_hash();
        text.append(hex.as_str());
        assert(text@ =~= gitoid_text(self@));
        text
    }

    /// Get the hash data as a slice.
    pub fn hash_value(&self) -> (hash: &[u8])
        ensures
            hash@ == self@.hash,
            hash@.len() == self@.algorithm.spec_width(),
    {
        proof {
            use_type_invariant(self);
        }
        vstd::slice::slice_subrange(self.value.as_slice(), 0, self.len)
    }

    /// Get the hash algorithm used for this GitOid.
    pub fn hash_algorithm(&self) -> (algorithm: HashAlgorithm)
        ensures
            algorithm == self@.algorithm,
    {
        self.hash_algorithm
    }
}

/// What a `GitOidHasher` has seen: the algorithm, the length that was
/// declared when it was made, and the content received since.
pub struct HasherModel {
    pub algorithm: HashAlgorithm,
    pub expected_length: nat,
    pub received: Seq<u8>,
}

impl HasherModel {
    /// The state before any content has arrived.
    pub open spec fn start(algorithm: HashAlgorithm, expected_length: nat) -> HasherModel {
        HasherModel { algorithm, expected_length, received: Seq::empty() }
    }

    /// The state after one more piece of content.
    pub open spec fn absorb(self, chunk: Seq<u8>) -> HasherModel {
        HasherModel { received: self.received + chunk, ..self }
    }

    /// What the end of the source yields: the gitoid of the content when as
    /// much has arrived as was declared, and a length mismatch otherwise.
    pub open spec fn outcome(self) -> Result<GitOidView, ErrorView> {
        if self.received.len() == self.expected_length {
            Ok(
                GitOidView {
                    algorithm: self.algorithm,
                    hash: digest_of(
                        self.algorithm,
                        blob_header(self.expected_length) + self.received,
                    ),
                },
            )
        } else {
            Err(
                ErrorView::LengthMismatch {
                    expected: self.expected_length as usize,
                    actual: if self.received.len() <= usize::MAX {
                        self.received.len() as usize
                    } else {
                        usize::MAX
                    },
                },
            )
        }
    }
}

/// The state after the pieces `chunks` have arrived one after another.
pub open spec fn feed(model: HasherModel, chunks: Seq<Seq<u8>>) -> HasherModel
    decreases chunks.len(),
{
    if chunks.len() == 0 {
        model
    } else {
        feed(model, chunks.drop_last()).absorb(chunks.last())
    }
}

/// What identifying a source that delivers `chunks` and was declared to hold
/// `expected_length` bytes yields.
pub open spec fn stream_outcome(
    algorithm: HashAlgorithm,
    expected_length: nat,
    chunks: Seq<Seq<u8>>,
) -> Result<GitOidView, ErrorView> {
    feed(HasherModel::start(algorithm, expected_length), chunks).outcome()
}

/// The result of making a gitoid, in terms of views.
pub open spec fn gitoid_result_view(made: Result<GitOid, Error>) -> Result<GitOidView, ErrorView> {
    match made {
        Ok(gitoid) => Ok(gitoid@),
        Err(error) => Err(error@),
    }
}

/// All the pieces of `chunks`, one after another.
pub open spec fn concat(chunks: Seq<Seq<u8>>) -> Seq<u8>
    decreases chunks.len(),
{
    if chunks.len() == 0 {
        Seq::empty()
    } else {
        concat(chunks.drop_last()) + chunks.last()
    }
}

/// Feeding pieces one by one is the same as receiving them all at once.
pub proof fn lemma_feed_is_concat(model: HasherModel, chunks: Seq<Seq<u8>>)
    ensures
        feed(model, chunks) == (HasherModel {
            received: model.received + concat(chunks),
            ..model
        }),
    decreases chunks.len(),
{
    if chunks.len() == 0 {
        assert(model.received + concat(chunks) =~= model.received);
    } else {
        lemma_feed_is_concat(model, chunks.drop_last());
        assert(model.received + concat(chunks.drop_last()) + chunks.last() =~= model.received
            + concat(chunks));
    }
}

/// However a source cuts its content into pieces, identifying it with
/// the true length declared gives the gitoid of the content in memory:
/// streamed and in-memory identification agree.
pub proof fn lemma_stream_agrees_with_bytes(algorithm: HashAlgorithm, chunks: Seq<Seq<u8>>)
    ensures
        stream_outcome(algorithm, concat(chunks).len(), chunks) == Ok::<GitOidView, ErrorView>(
            GitOidView { algorithm, hash: gitoid_hash(algorithm, concat(chunks)) },
        ),
{
    let start = HasherModel::start(algorithm, concat(chunks).len());
    lemma_feed_is_concat(start, chunks);
    assert(start.received + concat(chunks) =~= concat(chunks));
}

/// Two sources that deliver the same content, cut into pieces in any two
/// ways, are identified alike, whatever length was declared.
pub proof fn lemma_stream_ignores_chunking(
    algorithm: HashAlgorithm,
    expected_length: nat,
    first: Seq<Seq<u8>>,
    second: Seq<Seq<u8>>,
)
    requires
        concat(first) == concat(second),
    ensures
        stream_outcome(algorithm, expected_length, first) == stream_outcome(
            algorithm,
            expected_length,
            second,
        ),
{
    let start = HasherModel::start(algorithm, expected_length);
    lemma_feed_is_concat(start, first);
    lemma_feed_is_concat(start, second);
}

/// A source whose content has another length than was declared yields a
/// length mismatch and no gitoid. The error names the length that was
/// declared and the length that arrived.
pub proof fn lemma_stream_length_mismatch(
    algorithm: HashAlgorithm,
    expected_length: nat,
    chunks: Seq<Seq<u8>>,
)
    requires
        concat(chunks).len() != expected_length,
    ensures
        stream_outcome(algorithm, expected_length, chunks) == Err::<GitOidView, ErrorView>(
            ErrorView::LengthMismatch {
                expected: expected_length as usize,
                actual: if concat(chunks).len() <= usize::MAX {
                    concat(chunks).len() as usize
                } else {
                    usize::MAX
                },
            },
        ),
{
    let start = HasherModel::start(algorithm, expected_length);
    lemma_feed_is_concat(start, chunks);
    assert(start.received + concat(chunks) =~= concat(chunks));
}

/// Computes a gitoid from content that arrives piece by piece.
///
/// The caller declares the length of the content first, feeds the pieces as
/// it reads them, and asks for the gitoid at the end of the source.
pub struct GitOidHasher {
    /// The digest, which has absorbed the blob header and all content so far.
    digester: Digester,
    /// The length that was declared.
    expected_length: usize,
    /// How many bytes of content have arrived, as far as that fits.
    amount_read: usize,
    /// Whether more bytes of content have arrived than `amount_read` can hold.
    overflowed: bool,
}

impl View for GitOidHasher {
    type V = HasherModel;

    closed spec fn view(&self) -> HasherModel {
        HasherModel {
            algorithm: self.digester.algorithm(),
            expected_length: self.expected_length as nat,
            received: self.digester.absorbed().skip(
                blob_header(self.expected_length as nat).len() as int,
            ),
        }
    }
}

impl GitOidHasher {
    /// The digest has absorbed the header and then the content, and the
    /// counter holds the length of the content.
    pub closed spec fn wf(self) -> bool {
        &&& self.digester.absorbed() == blob_header(self.expected_length as nat) + self@.received
        &&& !self.overflowed ==> self.amount_read == self@.received.len()
        &&& self.overflowed ==> self@.received.len() > usize::MAX
    }

    /// Start identifying a source that is declared to hold `expected_length`
    /// bytes.
    pub fn new(hash_algorithm: HashAlgorithm, expected_length: usize) -> (hasher: GitOidHasher)
        ensures
            hasher.wf(),
            hasher@ == HasherModel::start(hash_algorithm, expected_length as nat),
    {
        let mut prefix: Vec<u8> = Vec::new();
        proof {
            reveal_strlit("blob ");
        }
        push_all(&mut prefix, ascii_str_bytes("blob "));
        push_decimal(&mut prefix, expected_length);
        prefix.push(0u8);
        let mut digester = hash_algorithm.create_digester();
        digester.update(prefix.as_slice());
        let hasher = GitOidHasher { digester, expected_length, amount_read: 0, overflowed: false };
        proof {
            let header = blob_header(expected_length as nat);
            assert(prefix@ =~= header);
            assert(digester.absorbed() =~= header);
            assert(hasher@.received =~= Seq::<u8>::empty());
            assert(header + hasher@.received =~= header);
        }
        hasher
    }

    /// Take in the next piece of content.
    pub fn update(&mut self, chunk: &[u8])
        requires
            old(self).wf(),
        ensures
            final(self).wf(),
            final(self)@ == old(self)@.absorb(chunk@),
    {
        self.digester.update(chunk);
        if !self.overflowed {
            match self.amount_read.checked_add(chunk.len()) {
                Some(total) => {
                    self.amount_read = total;
                },
                None => {
                    self.overflowed = true;
                },
            }
        }
        proof {
            let header = blob_header(self.expected_length as nat);
            assert(self.digester.absorbed() =~= header + (old(self)@.received + chunk@));
            assert(self@.received =~= old(self)@.received + chunk@);
        }
    }

    /// The source has ended: check the length and produce the gitoid.
    ///
    /// Fails with `Error::LengthMismatch` when the content received does not
    /// have the declared length. No gitoid is returned then.
    pub fn finish(self) -> (made: Result<GitOid, Error>)
        requires
            self.wf(),
        ensures
            gitoid_result_view(made) == self@.outcome(),
            made matches Ok(gitoid) ==> gitoid.wf(),
    {
        if self.overflowed {
            return Err(
                Error::LengthMismatch { expected: self.expected_length, actual: usize::MAX },
            );
        }
        if self.amount_read != self.expected_length {
            return Err(
                Error::LengthMismatch {
                    expected: self.expected_length,
                    actual: self.amount_read,
                },
            );
        }
        Ok(self.complete())
    }

    /// The gitoid of the content received, which has the declared length.
    fn complete(self) -> (gitoid: GitOid)
        requires
            self.wf(),
            self@.received.len() == self@.expected_length,
        ensures
            self@.outcome() == Ok::<GitOidView, ErrorView>(gitoid@),
            gitoid.wf(),
    {
        let algorithm = self.digester.hash_algorithm();
        let digest = self.digester.finalize();
        GitOid::from_digest(algorithm, digest.as_slice())
    }
}

} // verus!

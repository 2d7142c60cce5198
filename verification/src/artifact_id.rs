//! A typed identifier of an artifact.
//!
//! An `ArtifactId` is a gitoid of a blob whose hash algorithm is fixed by a
//! type parameter, so that identifiers of different algorithms cannot be
//! mixed up. Its text form is the URL
//! `gitoid:blob:<algorithm>:<lowercase hex>`.

use crate::error::{Error, ErrorView};
use crate::gitoid::{gitoid_hash, stream_outcome, GitOid, GitOidView};
use crate::hash_algorithm::{HashAlgorithm, SupportedHash};
use crate::hex::{hex_decode, hex_encode, is_hex, is_lower_hex, lemma_hex_encode_shape, lemma_hex_round_trip};
use crate::text::{
    ascii_bytes, ascii_chars, ascii_str_bytes, bytes_eq, lacks, lemma_split_cons,
    lemma_split_nonempty, lemma_split_single, push_all, split, split_fields, CARRIAGE_RETURN, COLON,
    LINE_FEED, SPACE,
};
use core::marker::PhantomData;
use vstd::prelude::*;
use vstd::string::StringSliceAdditionalSpecFns;

verus! {

/// The scheme of an identifier URL.
pub open spec fn scheme() -> Seq<u8> {
    ascii_bytes("gitoid"@)
}

/// The only object type identifiers are made for: file contents.
pub open spec fn object_type() -> Seq<u8> {
    ascii_bytes("blob"@)
}

/// The URL of the identifier with hash `hash` under `algorithm`.
pub open spec fn url_text(algorithm: HashAlgorithm, hash: Seq<u8>) -> Seq<u8> {
    scheme() + seq![COLON] + object_type() + seq![COLON] + algorithm.spec_name_bytes() + seq![COLON]
        + hex_encode(hash)
}

/// What reading a hash of `algorithm` from hexadecimal text gives: the hash,
/// or the reason why the text is none.
pub open spec fn parse_hash(algorithm: HashAlgorithm, text: Seq<u8>) -> Result<Seq<u8>, ErrorView> {
    if !is_hex(text) {
        Err(ErrorView::InvalidHex)
    } else if text.len() / 2 != algorithm.spec_width() {
        Err(
            ErrorView::UnexpectedHashLength {
                expected: algorithm.spec_width() as usize,
                observed: (text.len() / 2) as usize,
            },
        )
    } else {
        Ok(hex_decode(text))
    }
}

/// What reading an identifier URL of `algorithm` gives: the hash, or the
/// first part of the URL that is not as it must be.
pub open spec fn parse_url(algorithm: HashAlgorithm, text: Seq<u8>) -> Result<Seq<u8>, ErrorView> {
    parse_url_parts(algorithm, split(text, COLON))
}

/// What the parts of an identifier URL give, the parts being what stands
/// between its colons.
pub open spec fn parse_url_parts(algorithm: HashAlgorithm, parts: Seq<Seq<u8>>) -> Result<
    Seq<u8>,
    ErrorView,
> {
    if parts[0] != scheme() {
        Err(ErrorView::InvalidScheme)
    } else if parts.len() < 2 {
        Err(ErrorView::MissingObjectType)
    } else if parts[1] != object_type() {
        Err(ErrorView::MismatchedObjectType)
    } else if parts.len() < 3 {
        Err(ErrorView::MissingHashAlgorithm)
    } else if parts[2] != algorithm.spec_name_bytes() {
        Err(ErrorView::MismatchedHashAlgorithm { expected: algorithm, got: parts[2] })
    } else if parts.len() < 4 {
        Err(ErrorView::MissingHash)
    } else if parts.len() > 4 {
        Err(ErrorView::UnexpectedUrlParts)
    } else {
        parse_hash(algorithm, parts[3])
    }
}

/// The words of an identifier URL hold no colon, space or line break.
pub proof fn lemma_words_are_plain()
    ensures
        lacks(scheme(), COLON),
        lacks(object_type(), COLON),
        lacks(scheme(), SPACE),
        lacks(object_type(), SPACE),
        lacks(scheme(), LINE_FEED),
        lacks(object_type(), LINE_FEED),
        lacks(scheme(), CARRIAGE_RETURN),
        lacks(object_type(), CARRIAGE_RETURN),
        scheme().len() == 6,
        object_type().len() == 4,
{
    reveal_strlit("gitoid");
    reveal_strlit("blob");
}

/// Lowercase hexadecimal text holds no colon, space or line break.
pub proof fn lemma_lower_hex_is_plain(text: Seq<u8>)
    requires
        is_lower_hex(text),
    ensures
        lacks(text, COLON),
        lacks(text, SPACE),
        lacks(text, LINE_FEED),
        lacks(text, CARRIAGE_RETURN),
{
    assert forall|i: int| 0 <= i < text.len() implies #[trigger] text[i] != COLON && text[i] != SPACE
        && text[i] != LINE_FEED && text[i] != CARRIAGE_RETURN by {
        assert(48 <= text[i] <= 57 || 97 <= text[i] <= 102);
    }
}

/// Reading the hexadecimal text of a hash of the algorithm's width gives
/// the hash back.
pub proof fn lemma_hash_round_trip(algorithm: HashAlgorithm, hash: Seq<u8>)
    requires
        hash.len() == algorithm.spec_width(),
    ensures
        parse_hash(algorithm, hex_encode(hash)) == Ok::<Seq<u8>, ErrorView>(hash),
{
    lemma_hex_round_trip(hash);
    lemma_hex_encode_shape(hash);
}

/// Reading the URL of an identifier gives the identifier back, for every
/// supported algorithm.
pub proof fn lemma_url_round_trip(algorithm: HashAlgorithm, hash: Seq<u8>)
    requires
        hash.len() == algorithm.spec_width(),
    ensures
        parse_url(algorithm, url_text(algorithm, hash)) == Ok::<Seq<u8>, ErrorView>(hash),
{
    let parts = split(url_text(algorithm, hash), COLON);
    assert(parts == seq![scheme(), object_type(), algorithm.spec_name_bytes(), hex_encode(hash)]) by {
        lemma_url_parts(algorithm, hash);
    }
    assert(parts.len() == 4);
    assert(parts[0] == scheme());
    assert(parts[1] == object_type());
    assert(parts[2] == algorithm.spec_name_bytes());
    assert(parse_hash(algorithm, parts[3]) == Ok::<Seq<u8>, ErrorView>(hash)) by {
        lemma_hash_round_trip(algorithm, hash);
    }
}

/// The URL of an identifier has four parts: the scheme, the object type,
/// the name of the algorithm and the hash in hexadecimal.
pub proof fn lemma_url_parts(algorithm: HashAlgorithm, hash: Seq<u8>)
    ensures
        split(url_text(algorithm, hash), COLON) == seq![
            scheme(),
            object_type(),
            algorithm.spec_name_bytes(),
            hex_encode(hash),
        ],
{
    let name = algorithm.spec_name_bytes();
    let hex = hex_encode(hash);
    let tail2 = name + seq![COLON] + hex;
    let tail1 = object_type() + seq![COLON] + tail2;
    assert(lacks(scheme(), COLON) && lacks(object_type(), COLON)) by {
        lemma_words_are_plain();
    }
    assert(lacks(name, COLON)) by {
        algorithm.lemma_name_is_plain();
    }
    assert(lacks(hex, COLON)) by {
        lemma_hex_encode_shape(hash);
        lemma_lower_hex_is_plain(hex);
    }
    assert(split(hex, COLON) == seq![hex]) by {
        lemma_split_single(hex, COLON);
    }
    assert(split(tail2, COLON) == seq![name] + split(hex, COLON)) by {
        lemma_split_cons(name, hex, COLON);
    }
    assert(split(tail1, COLON) == seq![object_type()] + split(tail2, COLON)) by {
        lemma_split_cons(object_type(), tail2, COLON);
    }
    assert(split(scheme() + seq![COLON] + tail1, COLON) == seq![scheme()] + split(tail1, COLON)) by {
        lemma_split_cons(scheme(), tail1, COLON);
    }
    assert(url_text(algorithm, hash) =~= scheme() + seq![COLON] + tail1);
    assert(seq![scheme()] + (seq![object_type()] + (seq![name] + seq![hex])) =~= seq![
        scheme(),
        object_type(),
        name,
        hex,
    ]);
}

/// An identifier of an artifact, made with the hash algorithm `H`.
#[derive(Debug, PartialEq, Eq, PartialOrd, Ord, Hash)]
pub struct ArtifactId<H: SupportedHash> {
    /// The gitoid of the artifact's content.
    gitoid: GitOid,
    /// Ties the identifier to its algorithm.
    _phantom: PhantomData<H>,
}

impl<H: SupportedHash> Clone for ArtifactId<H> {
    fn clone(&self) -> (copy: Self)
        ensures
            copy == *self,
    {
        proof {
            use_type_invariant(self);
        }
        ArtifactId { gitoid: self.gitoid, _phantom: PhantomData }
    }
}

impl<H: SupportedHash> Copy for ArtifactId<H> {

}

impl<H: SupportedHash> View for ArtifactId<H> {
    type V = Seq<u8>;

    /// The hash of the identifier.
    closed spec fn view(&self) -> Seq<u8> {
        self.gitoid@.hash
    }
}

impl<H: SupportedHash> core::str::FromStr for ArtifactId<H> {
    type Err = Error;

    /// Read an identifier from its URL, as `try_from_str` does.
    fn from_str(s: &str) -> (made: Result<Self, Error>)
        ensures
            id_result_view(made) == parse_url(H::spec_algorithm(), s.spec_bytes()),
            made matches Ok(id) ==> id.wf(),
    {
        ArtifactId::try_from_str(s)
    }
}

/// The result of making an identifier, in terms of views.
pub open spec fn id_result_view<H: SupportedHash>(made: Result<ArtifactId<H>, Error>) -> Result<
    Seq<u8>,
    ErrorView,
> {
    match made {
        Ok(id) => Ok(id@),
        Err(error) => Err(error@),
    }
}

/// A gitoid or an error, reduced to the hash or the error.
pub open spec fn hash_of_outcome(outcome: Result<GitOidView, ErrorView>) -> Result<
    Seq<u8>,
    ErrorView,
> {
    match outcome {
        Ok(gitoid) => Ok(gitoid.hash),
        Err(error) => Err(error),
    }
}

impl<H: SupportedHash> ArtifactId<H> {
    /// The gitoid is well formed and of the algorithm `H`.
    #[verifier::type_invariant]
    pub closed spec fn wf(self) -> bool {
        &&& self.gitoid.wf()
        &&& self.gitoid@.algorithm == H::spec_algorithm()
    }

    /// The hash of a well-formed identifier has the width of its algorithm.
    pub proof fn lemma_width(self)
        requires
            self.wf(),
        ensures
            self@.len() == H::spec_algorithm().spec_width(),
    {
        self.gitoid.lemma_width();
    }

    /// Well-formed identifiers with the same hash are the same value.
    pub proof fn lemma_view_injective(self, other: Self)
        requires
            self.wf(),
            other.wf(),
            self@ == other@,
        ensures
            self == other,
    {
        self.gitoid.lemma_view_injective(other.gitoid);
    }

    /// Wraps a gitoid that is known to be of the algorithm `H`.
    fn from_gitoid(gitoid: GitOid) -> (id: Self)
        requires
            gitoid.wf(),
            gitoid@.algorithm == H::spec_algorithm(),
        ensures
            id@ == gitoid@.hash,
            id.wf(),
    {
        ArtifactId { gitoid, _phantom: PhantomData }
    }

    /// Identify the content `content`.
    pub fn id_bytes(content: &[u8]) -> (id: Self)
        ensures
            id@ == gitoid_hash(H::spec_algorithm(), content@),
            id.wf(),
    {
        Self::from_gitoid(GitOid::new_from_bytes(H::algorithm(), content))
    }

    /// Identify the content of a string.
    pub fn id_str(s: &str) -> (id: Self)
        ensures
            id@ == gitoid_hash(H::spec_algorithm(), s.spec_bytes()),
            id.wf(),
    {
        Self::from_gitoid(GitOid::new_from_str(H::algorithm(), s))
    }

    /// Identify content that arrives in pieces and is declared to be
    /// `expected_length` bytes long.
    pub fn id_chunks(chunks: &[Vec<u8>], expected_length: usize) -> (made: Result<Self, Error>)
        ensures
            id_result_view(made) == hash_of_outcome(
                stream_outcome(H::spec_algorithm(), expected_length as nat, chunks.deep_view()),
            ),
            made matches Ok(id) ==> id.wf(),
    {
        match GitOid::new_from_chunks(H::algorithm(), chunks, expected_length) {
            Ok(gitoid) => {
                proof {
                    crate::gitoid::lemma_feed_is_concat(
                        crate::gitoid::HasherModel::start(
                            H::spec_algorithm(),
                            expected_length as nat,
                        ),
                        chunks.deep_view(),
                    );
                }
                Ok(Self::from_gitoid(gitoid))
            },
            Err(error) => Err(error),
        }
    }

    /// Take a gitoid as an identifier, provided it was made with `H`.
    pub fn try_from_gitoid(gitoid: GitOid) -> (made: Result<Self, Error>)
        ensures
            gitoid@.algorithm == H::spec_algorithm() ==> id_result_view(made) == Ok::<
                Seq<u8>,
                ErrorView,
            >(gitoid@.hash),
            gitoid@.algorithm != H::spec_algorithm() ==> id_result_view(made) == Err::<
                Seq<u8>,
                ErrorView,
            >(ErrorView::WrongAlgorithm { expected: H::spec_algorithm(), got: gitoid@.algorithm }),
            made matches Ok(id) ==> id.wf(),
    {
        proof {
            use_type_invariant(&gitoid);
        }
        let expected = H::algorithm();
        let got = gitoid.hash_algorithm();
        if got == expected {
            Ok(Self::from_gitoid(gitoid))
        } else {
            Err(Error::WrongAlgorithm { expected, got })
        }
    }

    /// Read an identifier from the hexadecimal text of its hash.
    pub fn try_from_hex(text: &[u8]) -> (made: Result<Self, Error>)
        ensures
            id_result_view(made) == parse_hash(H::spec_algorithm(), text@),
            made matches Ok(id) ==> id.wf(),
    {
        match crate::hex::decode(text) {
            None => Err(Error::InvalidHex),
            Some(hash) => {
                match GitOid::try_from_hash(H::algorithm(), hash.as_slice()) {
                    Ok(gitoid) => Ok(Self::from_gitoid(gitoid)),
                    Err(error) => Err(error),
                }
            },
        }
    }

    /// Read an identifier from its URL.
    ///
    /// The URL must be `gitoid:blob:`, the name of the algorithm `H`, a
    /// colon, and the hash in hexadecimal; the error tells which of these
    /// parts is the first that fails.
    pub fn try_from_url(text: &[u8]) -> (made: Result<Self, Error>)
        ensures
            id_result_view(made) == parse_url(H::spec_algorithm(), text@),
            made matches Ok(id) ==> id.wf(),
    {
        proof {
            reveal_strlit("gitoid");
            reveal_strlit("blob");
            lemma_split_nonempty(text@, COLON);
        }
        let algorithm = H::algorithm();
        let parts = split_fields(text, COLON);
        if !bytes_eq(parts[0], ascii_str_bytes("gitoid")) {
            return Err(Error::InvalidScheme);
        }
        if parts.len() < 2 {
            return Err(Error::MissingObjectType);
        }
        if !bytes_eq(parts[1], ascii_str_bytes("blob")) {
            return Err(Error::MismatchedObjectType);
        }
        if parts.len() < 3 {
            return Err(Error::MissingHashAlgorithm);
        }
        if !bytes_eq(parts[2], algorithm.name_bytes()) {
            return Err(
                Error::MismatchedHashAlgorithm {
                    expected: algorithm,
                    got: vstd::slice::slice_to_vec(parts[2]),
                },
            );
        }
        if parts.len() < 4 {
            return Err(Error::MissingHash);
        }
        if parts.len() > 4 {
            return Err(Error::UnexpectedUrlParts);
        }
        Self::try_from_hex(parts[3])
    }

    /// Read an identifier from its URL, given as a string.
    pub fn try_from_str(s: &str) -> (made: Result<Self, Error>)
        ensures
            id_result_view(made) == parse_url(H::spec_algorithm(), s.spec_bytes()),
            made matches Ok(id) ==> id.wf(),
    {
        Self::try_from_url(s.as_bytes())
    }

    /// The gitoid behind the identifier.
    pub fn gitoid(&self) -> (gitoid: GitOid)
        ensures
            gitoid@ == (GitOidView { algorithm: H::spec_algorithm(), hash: self@ }),
            gitoid.wf(),
    {
        proof {
            use_type_invariant(self);
        }
        self.gitoid
    }

    /// The hash algorithm of the identifier.
    pub fn hash_algorithm(&self) -> (algorithm: HashAlgorithm)
        ensures
            algorithm == H::spec_algorithm(),
    {
        H::algorithm()
    }

    /// The bytes of the hash.
    pub fn as_bytes(&self) -> (hash: &[u8])
        ensures
            hash@ == self@,
            hash@.len() == H::spec_algorithm().spec_width(),
    {
        proof {
            use_type_invariant(self);
        }
        self.gitoid.hash_value()
    }

    /// The hash in lowercase hexadecimal.
    pub fn as_hex(&self) -> (text: String)
        ensures
            text@ == ascii_chars(hex_encode(self@)),
    {
        self.gitoid.hex_hash()
    }

    /// The hash in lowercase hexadecimal, as bytes.
    pub fn as_hex_bytes(&self) -> (text: Vec<u8>)
        ensures
            text@ == hex_encode(self@),
    {
        crate::hex::encode_bytes(self.gitoid.hash_value())
    }

    /// The URL of the identifier, as bytes.
    pub fn url_bytes(&self) -> (text: Vec<u8>)
        ensures
            text@ == url_text(H::spec_algorithm(), self@),
    {
        proof {
            reveal_strlit("gitoid");
            reveal_strlit("blob");
        }
        let mut text: Vec<u8> = Vec::new();
        push_all(&mut text, ascii_str_bytes("gitoid"));
        text.push(COLON);
        push_all(&mut text, ascii_str_bytes("blob"));
        text.push(COLON);
        push_all(&mut text, H::algorithm().name_bytes());
        text.push(COLON);
        let hex = self.as_hex_bytes();
        push_all(&mut text, hex.as_slice());
        assert(text@ =~= url_text(H::spec_algorithm(), self@));
        text
    }
}

} // verus!

//! The errors of this crate.

use crate::hash_algorithm::HashAlgorithm;
use vstd::prelude::*;

verus! {

/// Why an operation of this crate failed.
#[derive(Clone, Debug, PartialEq, Eq)]
#[allow(inconsistent_fields)]
pub enum Error {
    /// A byte source ended after a number of bytes other than the declared one.
    LengthMismatch { expected: usize, actual: usize },
    /// An identifier URL does not start with the `gitoid` scheme.
    InvalidScheme,
    /// An identifier URL ends before its object type.
    MissingObjectType,
    /// An identifier URL names an object type other than `blob`.
    MismatchedObjectType,
    /// An identifier URL ends before its hash algorithm.
    MissingHashAlgorithm,
    /// An identifier URL names another hash algorithm than the expected one.
    MismatchedHashAlgorithm { expected: HashAlgorithm, got: Vec<u8> },
    /// An identifier URL ends before its hash.
    MissingHash,
    /// An identifier URL goes on after its hash.
    UnexpectedUrlParts,
    /// A hash is not an even number of hexadecimal digits.
    InvalidHex,
    /// A hash has another number of bytes than the algorithm's digests.
    UnexpectedHashLength { expected: usize, observed: usize },
    /// An identifier was made with another hash algorithm than the expected one.
    WrongAlgorithm { expected: HashAlgorithm, got: HashAlgorithm },
    /// A manifest has no lines at all.
    ManifestMissingHeader,
    /// A manifest header does not have three parts.
    MissingHeaderParts,
    /// A manifest header does not start with `gitoid`.
    MissingGitOidInHeader,
    /// A manifest header does not name the object type `blob`.
    MissingObjectTypeInHeader,
    /// A manifest header names another hash algorithm than the expected one.
    WrongHashAlgorithm { expected: HashAlgorithm, got: Vec<u8> },
    /// A relation line has fewer than two parts.
    MissingRelationParts,
    /// A relation line has a third part that is not `bom`.
    MissingBomIndicatorInRelation,
    /// A relation line ends after `bom`.
    MissingBomValueInRelation,
    /// A relation line goes on after the hash that follows `bom`.
    UnexpectedRelationParts,
    /// A relation line starts with a word that names no kind of relation.
    InvalidRelationKind(Vec<u8>),
    /// The target is a binary file of a format that cannot carry a manifest
    /// identifier.
    UnsupportedBinaryType(String),
    /// Nothing is known of the target that tells how to embed in it.
    UnknownEmbeddingTarget,
    /// The target is a binary of a recognised format, for which no way of
    /// embedding is laid down.
    UndefinedBinaryEmbedding,
    /// The storage backend failed.
    Storage(String),
}

/// An `Error` with its texts as sequences.
#[allow(inconsistent_fields)]
pub enum ErrorView {
    LengthMismatch { expected: usize, actual: usize },
    InvalidScheme,
    MissingObjectType,
    MismatchedObjectType,
    MissingHashAlgorithm,
    MismatchedHashAlgorithm { expected: HashAlgorithm, got: Seq<u8> },
    MissingHash,
    UnexpectedUrlParts,
    InvalidHex,
    UnexpectedHashLength { expected: usize, observed: usize },
    WrongAlgorithm { expected: HashAlgorithm, got: HashAlgorithm },
    ManifestMissingHeader,
    MissingHeaderParts,
    MissingGitOidInHeader,
    MissingObjectTypeInHeader,
    WrongHashAlgorithm { expected: HashAlgorithm, got: Seq<u8> },
    MissingRelationParts,
    MissingBomIndicatorInRelation,
    MissingBomValueInRelation,
    UnexpectedRelationParts,
    InvalidRelationKind(Seq<u8>),
    UnsupportedBinaryType(Seq<char>),
    UnknownEmbeddingTarget,
    UndefinedBinaryEmbedding,
    Storage(Seq<char>),
}

impl View for Error {
    type V = ErrorView;

    open spec fn view(&self) -> ErrorView {
        match *self {
            Error::LengthMismatch { expected, actual } => ErrorView::LengthMismatch {
                expected,
                actual,
            },
            Error::InvalidScheme => ErrorView::InvalidScheme,
            Error::MissingObjectType => ErrorView::MissingObjectType,
            Error::MismatchedObjectType => ErrorView::MismatchedObjectType,
            Error::MissingHashAlgorithm => ErrorView::MissingHashAlgorithm,
            Error::MismatchedHashAlgorithm { expected, got } => ErrorView::MismatchedHashAlgorithm {
                expected,
                got: got@,
            },
            Error::MissingHash => ErrorView::MissingHash,
            Error::UnexpectedUrlParts => ErrorView::UnexpectedUrlParts,
            Error::InvalidHex => ErrorView::InvalidHex,
            Error::UnexpectedHashLength { expected, observed } => ErrorView::UnexpectedHashLength {
                expected,
                observed,
            },
            Error::WrongAlgorithm { expected, got } => ErrorView::WrongAlgorithm { expected, got },
            Error::ManifestMissingHeader => ErrorView::ManifestMissingHeader,
            Error::MissingHeaderParts => ErrorView::MissingHeaderParts,
            Error::MissingGitOidInHeader => ErrorView::MissingGitOidInHeader,
            Error::MissingObjectTypeInHeader => ErrorView::MissingObjectTypeInHeader,
            Error::WrongHashAlgorithm { expected, got } => ErrorView::WrongHashAlgorithm {
                expected,
                got: got@,
            },
            Error::MissingRelationParts => ErrorView::MissingRelationParts,
            Error::MissingBomIndicatorInRelation => ErrorView::MissingBomIndicatorInRelation,
            Error::MissingBomValueInRelation => ErrorView::MissingBomValueInRelation,
            Error::UnexpectedRelationParts => ErrorView::UnexpectedRelationParts,
            Error::InvalidRelationKind(token) => ErrorView::InvalidRelationKind(token@),
            Error::UnsupportedBinaryType(name) => ErrorView::UnsupportedBinaryType(name@),
            Error::UnknownEmbeddingTarget => ErrorView::UnknownEmbeddingTarget,
            Error::UndefinedBinaryEmbedding => ErrorView::UndefinedBinaryEmbedding,
            Error::Storage(detail) => ErrorView::Storage(detail@),
        }
    }
}

} // verus!

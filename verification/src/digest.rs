//! Incremental hashers of the supported algorithms.
//!
//! The hash functions themselves come from the `sha1`, `sha2` and
//! `sha1collisiondetection` crates. Nothing in this module is proved about
//! them: each hasher is described by the bytes it has absorbed, and its output
//! is named as a function of those bytes.

use crate::hash_algorithm::HashAlgorithm;
use vstd::prelude::*;

verus! {

/// What `sha1::Sha1` returns for a message: `Digest::digest(data)`.
pub uninterp spec fn sha1_digest(data: Seq<u8>) -> Seq<u8>;

/// What `sha1collisiondetection::Sha1CD` returns for a message through the
/// `digest` traits, with the settings of `Sha1CD::default()`.
pub uninterp spec fn sha1cd_digest(data: Seq<u8>) -> Seq<u8>;

/// What `sha2::Sha256` returns for a message: `Digest::digest(data)`.
pub uninterp spec fn sha256_digest(data: Seq<u8>) -> Seq<u8>;

/// A running `sha1::Sha1` computation.
///
/// The type behind `sha1::Sha1` is generic over traits of the `digest` crate
/// that the verifier cannot read, so the hasher is kept behind this struct.
#[verifier::external_body]
pub struct Sha1State {
    inner: sha1::Sha1,
}

/// A running `sha2::Sha256` computation, kept behind a struct for the same
/// reason as `Sha1State`.
#[verifier::external_body]
pub struct Sha256State {
    inner: sha2::Sha256,
}

/// A running `sha1collisiondetection::Sha1CD` computation with the settings
/// of `Sha1CD::default()`.
///
/// The field is private and only `sha1cd_new` fills it, so that no hasher
/// with other settings, whose digests would be other ones, can stand here.
#[verifier::external_body]
pub struct Sha1CdState {
    inner: sha1collisiondetection::Sha1CD,
}

/// The bytes a SHA-1 hasher has been fed since it was made, in order.
pub uninterp spec fn sha1_absorbed(state: Sha1State) -> Seq<u8>;

/// The bytes a SHA-1Cd hasher has been fed since it was made, in order.
pub uninterp spec fn sha1cd_absorbed(state: Sha1CdState) -> Seq<u8>;

/// The bytes a SHA-256 hasher has been fed since it was made, in order.
pub uninterp spec fn sha256_absorbed(state: Sha256State) -> Seq<u8>;

/// `<sha1::Sha1 as Digest>::new()`: a hasher that has absorbed nothing.
#[verifier::external_body]
fn sha1_new() -> (state: Sha1State)
    ensures
        sha1_absorbed(state) == Seq::<u8>::empty(),
{
    Sha1State { inner: <sha1::Sha1 as ::digest::Digest>::new() }
}

/// `Update::update` of `sha1::Sha1`: the hasher absorbs `data` after what it
/// had already absorbed.
#[verifier::external_body]
fn sha1_update(state: &mut Sha1State, data: &[u8])
    ensures
        sha1_absorbed(*final(state)) == sha1_absorbed(*old(state)) + data@,
{
    ::digest::Update::update(&mut state.inner, data)
}

/// `FixedOutput::finalize_fixed` of `sha1::Sha1`: the 20-byte digest of all
/// the hasher has absorbed.
#[verifier::external_body]
fn sha1_finalize(state: Sha1State) -> (out: Vec<u8>)
    ensures
        out@ == sha1_digest(sha1_absorbed(state)),
        out@.len() == 20,
{
    ::digest::FixedOutput::finalize_fixed(state.inner).to_vec()
}

/// `Sha1CD::default()`: a hasher that has absorbed nothing.
#[verifier::external_body]
fn sha1cd_new() -> (state: Sha1CdState)
    ensures
        sha1cd_absorbed(state) == Seq::<u8>::empty(),
{
    Sha1CdState { inner: sha1collisiondetection::Sha1CD::default() }
}

/// `Update::update` of `Sha1CD`: the hasher absorbs `data` after what it had
/// already absorbed.
#[verifier::external_body]
fn sha1cd_update(state: &mut Sha1CdState, data: &[u8])
    ensures
        sha1cd_absorbed(*final(state)) == sha1cd_absorbed(*old(state)) + data@,
{
    ::digest::Update::update(&mut state.inner, data)
}

/// `FixedOutput::finalize_fixed` of `Sha1CD`: the 20-byte digest of all the
/// hasher has absorbed. A detected collision is not reported on this path;
/// the digest then is the mitigated one.
#[verifier::external_body]
fn sha1cd_finalize(state: Sha1CdState) -> (out: Vec<u8>)
    ensures
        out@ == sha1cd_digest(sha1cd_absorbed(state)),
        out@.len() == 20,
{
    ::digest::FixedOutput::finalize_fixed(state.inner).to_vec()
}

/// `<sha2::Sha256 as Digest>::new()`: a hasher that has absorbed nothing.
#[verifier::external_body]
fn sha256_new() -> (state: Sha256State)
    ensures
        sha256_absorbed(state) == Seq::<u8>::empty(),
{
    Sha256State { inner: <sha2::Sha256 as ::digest::Digest>::new() }
}

/// `Update::update` of `sha2::Sha256`: the hasher absorbs `data` after what
/// it had already absorbed.
#[verifier::external_body]
fn sha256_update(state: &mut Sha256State, data: &[u8])
    ensures
        sha256_absorbed(*final(state)) == sha256_absorbed(*old(state)) + data@,
{
    ::digest::Update::update(&mut state.inner, data)
}

/// `FixedOutput::finalize_fixed` of `sha2::Sha256`: the 32-byte digest of all
/// the hasher has absorbed.
#[verifier::external_body]
fn sha256_finalize(state: Sha256State) -> (out: Vec<u8>)
    ensures
        out@ == sha256_digest(sha256_absorbed(state)),
        out@.len() == 32,
{
    ::digest::FixedOutput::finalize_fixed(state.inner).to_vec()
}

/// The digest of `data` under `algorithm`.
pub open spec fn digest_of(algorithm: HashAlgorithm, data: Seq<u8>) -> Seq<u8> {
    match algorithm {
        HashAlgorithm::Sha1 => sha1_digest(data),
        HashAlgorithm::Sha1Cd => sha1cd_digest(data),
        HashAlgorithm::Sha256 => sha256_digest(data),
    }
}

/// An incremental hasher of one of the supported algorithms.
pub enum Digester {
    /// A SHA-1 computation.
    Sha1(Sha1State),
    /// A SHA-1Cd computation.
    Sha1Cd(Sha1CdState),
    /// A SHA-256 computation.
    Sha256(Sha256State),
}

impl HashAlgorithm {
    /// Get an instance of the digester of this algorithm, which has
    /// absorbed nothing yet.
    pub fn create_digester(self) -> (digester: Digester)
        ensures
            digester.algorithm() == self,
            digester.absorbed() == Seq::<u8>::empty(),
    {
        match self {
            HashAlgorithm::Sha1 => Digester::Sha1(sha1_new()),
            HashAlgorithm::Sha1Cd => Digester::Sha1Cd(sha1cd_new()),
            HashAlgorithm::Sha256 => Digester::Sha256(sha256_new()),
        }
    }
}

impl Digester {
    /// The algorithm this hasher computes.
    pub open spec fn algorithm(self) -> HashAlgorithm {
        match self {
            Digester::Sha1(_) => HashAlgorithm::Sha1,
            Digester::Sha1Cd(_) => HashAlgorithm::Sha1Cd,
            Digester::Sha256(_) => HashAlgorithm::Sha256,
        }
    }

    /// The bytes fed to this hasher so far, in order.
    pub open spec fn absorbed(self) -> Seq<u8> {
        match self {
            Digester::Sha1(state) => sha1_absorbed(state),
            Digester::Sha1Cd(state) => sha1cd_absorbed(state),
            Digester::Sha256(state) => sha256_absorbed(state),
        }
    }

    /// The algorithm this hasher computes.
    pub fn hash_algorithm(&self) -> (algorithm: HashAlgorithm)
        ensures
            algorithm == self.algorithm(),
    {
        match self {
            Digester::Sha1(_) => HashAlgorithm::Sha1,
            Digester::Sha1Cd(_) => HashAlgorithm::Sha1Cd,
            Digester::Sha256(_) => HashAlgorithm::Sha256,
        }
    }

    /// Feeds `data` to the hasher.
    pub fn update(&mut self, data: &[u8])
        ensures
            final(self).algorithm() == old(self).algorithm(),
            final(self).absorbed() == old(self).absorbed() + data@,
    {
        match self {
            Digester::Sha1(state) => sha1_update(state, data),
            Digester::Sha1Cd(state) => sha1cd_update(state, data),
            Digester::Sha256(state) => sha256_update(state, data),
        }
    }

    /// Ends the computation and returns the digest of all that was fed.
    pub fn finalize(self) -> (out: Vec<u8>)
        ensures
            out@ == digest_of(self.algorithm(), self.absorbed()),
            out@.len() == self.algorithm().spec_width(),
    {
        match self {
            Digester::Sha1(state) => sha1_finalize(state),
            Digester::Sha1Cd(state) => sha1cd_finalize(state),
            Digester::Sha256(state) => sha256_finalize(state),
        }
    }
}

} // verus!

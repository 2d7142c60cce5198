//! The closed set of hash algorithms an identifier can be made with.

use crate::sealed::Sealed;
use crate::text::{ascii_bytes, ascii_str_bytes, lacks, CARRIAGE_RETURN, COLON, LINE_FEED, SPACE};
use vstd::prelude::*;

verus! {

/// The widest digest any supported algorithm produces, in bytes.
pub const NUM_HASH_BYTES: usize = 32;

/// A hash algorithm that Git-compatible verifiers recognise.
#[derive(Clone, Copy, Debug, PartialEq, Eq, PartialOrd, Ord, Hash, Structural)]
pub enum HashAlgorithm {
    /// SHA-1, 20 bytes of output.
    Sha1,
    /// SHA-1 with collision detection, 20 bytes of output.
    Sha1Cd,
    /// SHA-256, 32 bytes of output.
    Sha256,
}

impl HashAlgorithm {
    /// The number of bytes in a digest of this algorithm.
    pub open spec fn spec_width(self) -> nat {
        match self {
            HashAlgorithm::Sha1 => 20,
            HashAlgorithm::Sha1Cd => 20,
            HashAlgorithm::Sha256 => 32,
        }
    }

    /// The name of this algorithm as it appears in manifests and URLs.
    pub open spec fn spec_name(self) -> Seq<char> {
        match self {
            HashAlgorithm::Sha1 => "sha1"@,
            HashAlgorithm::Sha1Cd => "sha1cd"@,
            HashAlgorithm::Sha256 => "sha256"@,
        }
    }

    /// The name of this algorithm as bytes.
    pub open spec fn spec_name_bytes(self) -> Seq<u8> {
        ascii_bytes(self.spec_name())
    }

    /// The number of bytes in a digest of this algorithm.
    pub fn width(self) -> (w: usize)
        ensures
            w == self.spec_width(),
            w <= NUM_HASH_BYTES,
    {
        match self {
            HashAlgorithm::Sha1 => 20,
            HashAlgorithm::Sha1Cd => 20,
            HashAlgorithm::Sha256 => 32,
        }
    }

    /// The name of this algorithm in lowercase ASCII.
    pub fn name(self) -> (s: &'static str)
        ensures
            s@ == self.spec_name(),
    {
        match self {
            HashAlgorithm::Sha1 => "sha1",
            HashAlgorithm::Sha1Cd => "sha1cd",
            HashAlgorithm::Sha256 => "sha256",
        }
    }

    /// The name of this algorithm in lowercase ASCII, as bytes.
    pub fn name_bytes(self) -> (bytes: &'static [u8])
        ensures
            bytes@ == self.spec_name_bytes(),
    {
        proof {
            reveal_strlit("sha1");
            reveal_strlit("sha1cd");
            reveal_strlit("sha256");
        }
        ascii_str_bytes(self.name())
    }

    /// A name is made of lowercase letters and digits: it holds no colon,
    /// space, line feed or carriage return.
    pub proof fn lemma_name_is_plain(self)
        ensures
            self.spec_name_bytes().len() >= 1,
            lacks(self.spec_name_bytes(), COLON),
            lacks(self.spec_name_bytes(), SPACE),
            lacks(self.spec_name_bytes(), LINE_FEED),
            lacks(self.spec_name_bytes(), CARRIAGE_RETURN),
    {
        reveal_strlit("sha1");
        reveal_strlit("sha1cd");
        reveal_strlit("sha256");
    }
}

/// A marker type that fixes, at compile time, the algorithm of every
/// identifier made with it.
pub trait SupportedHash: Sealed + Sized {
    /// The algorithm this marker stands for.
    spec fn spec_algorithm() -> HashAlgorithm;

    /// The algorithm this marker stands for.
    fn algorithm() -> (a: HashAlgorithm)
        ensures
            a == Self::spec_algorithm(),
    ;
}

/// SHA-1 algorithm.
#[derive(Clone, Copy, Debug, PartialEq, Eq, PartialOrd, Ord, Hash)]
pub struct Sha1 {
    _private: (),
}

/// SHA-256 algorithm.
#[derive(Clone, Copy, Debug, PartialEq, Eq, PartialOrd, Ord, Hash)]
pub struct Sha256 {
    _private: (),
}

/// SHA-1Cd (collision detection) algorithm.
#[derive(Clone, Copy, Debug, PartialEq, Eq, PartialOrd, Ord, Hash)]
pub struct Sha1Cd {
    _private: (),
}

impl Sealed for Sha1 {
}

impl Sealed for Sha256 {
}

impl Sealed for Sha1Cd {
}

impl SupportedHash for Sha1 {
    open spec fn spec_algorithm() -> HashAlgorithm {
        HashAlgorithm::Sha1
    }

    fn algorithm() -> (a: HashAlgorithm) {
        HashAlgorithm::Sha1
    }
}

impl SupportedHash for Sha256 {
    open spec fn spec_algorithm() -> HashAlgorithm {
        HashAlgorithm::Sha256
    }

    fn algorithm() -> (a: HashAlgorithm) {
        HashAlgorithm::Sha256
    }
}

impl SupportedHash for Sha1Cd {
    open spec fn spec_algorithm() -> HashAlgorithm {
        HashAlgorithm::Sha1Cd
    }

    fn algorithm() -> (a: HashAlgorithm) {
        HashAlgorithm::Sha1Cd
    }
}

} // verus!

//! The kinds of relation a manifest records.

use crate::error::{Error, ErrorView};
use crate::text::{ascii_bytes, ascii_str_bytes, bytes_eq, lacks, CARRIAGE_RETURN, LINE_FEED, SPACE};
use core::cmp::Ordering;
use vstd::prelude::*;
use vstd::std_specs::cmp::PartialOrdSpecImpl;
use vstd::string::StringSliceAdditionalSpecFns;

verus! {

/// Describes the relationship between an [`InputManifest`]'s target artifact and other artifacts.
#[derive(Debug, Copy, Clone, PartialEq, Eq, Ord, Hash, Structural)]
pub enum RelationKind {
    /// Is a build input for the target artifact.
    Input,
    /// Is a tool used to build the target artifact.
    BuiltBy,
}

impl PartialOrd for RelationKind {
    /// Kinds are ordered in the order of their declaration: an input comes
    /// before a tool.
    fn partial_cmp(&self, other: &Self) -> (order: Option<Ordering>) {
        match (self, other) {
            (RelationKind::Input, RelationKind::Input) => Some(Ordering::Equal),
            (RelationKind::Input, RelationKind::BuiltBy) => Some(Ordering::Less),
            (RelationKind::BuiltBy, RelationKind::Input) => Some(Ordering::Greater),
            (RelationKind::BuiltBy, RelationKind::BuiltBy) => Some(Ordering::Equal),
        }
    }
}

impl PartialOrdSpecImpl for RelationKind {
    open spec fn obeys_partial_cmp_spec() -> bool {
        true
    }

    open spec fn partial_cmp_spec(&self, other: &Self) -> Option<Ordering> {
        if self.rank() < other.rank() {
            Some(Ordering::Less)
        } else if self.rank() > other.rank() {
            Some(Ordering::Greater)
        } else {
            Some(Ordering::Equal)
        }
    }
}

impl RelationKind {
    /// The place of this kind in the order of kinds: an input comes before
    /// a tool.
    pub open spec fn rank(self) -> nat {
        match self {
            RelationKind::Input => 0,
            RelationKind::BuiltBy => 1,
        }
    }

    /// The characters of the word for this kind in a manifest.
    pub open spec fn spec_name(self) -> Seq<char> {
        match self {
            RelationKind::Input => "input"@,
            RelationKind::BuiltBy => "built-by"@,
        }
    }

    /// The word for this kind in a manifest.
    pub open spec fn spec_word(self) -> Seq<u8> {
        ascii_bytes(self.spec_name())
    }

    /// The kind that `token` names, or an error that holds the token.
    pub open spec fn parse(token: Seq<u8>) -> Result<RelationKind, ErrorView> {
        if token == RelationKind::Input.spec_word() {
            Ok(RelationKind::Input)
        } else if token == RelationKind::BuiltBy.spec_word() {
            Ok(RelationKind::BuiltBy)
        } else {
            Err(ErrorView::InvalidRelationKind(token))
        }
    }

    /// The words for the kinds differ, and neither holds a space or a line
    /// break.
    pub proof fn lemma_word_is_plain(self)
        ensures
            lacks(self.spec_word(), SPACE),
            lacks(self.spec_word(), LINE_FEED),
            lacks(self.spec_word(), CARRIAGE_RETURN),
            RelationKind::parse(self.spec_word()) == Ok::<RelationKind, ErrorView>(self),
    {
        reveal_strlit("input");
        reveal_strlit("built-by");
        assert(RelationKind::Input.spec_word().len() == 5);
        assert(RelationKind::BuiltBy.spec_word().len() == 8);
    }

    /// The word for this kind in a manifest.
    pub fn name(self) -> (word: &'static str)
        ensures
            word@ == self.spec_name(),
    {
        match self {
            RelationKind::Input => "input",
            RelationKind::BuiltBy => "built-by",
        }
    }

    /// The bytes of the word for this kind in a manifest.
    pub fn word(self) -> (word: &'static [u8])
        ensures
            word@ == self.spec_word(),
    {
        proof {
            reveal_strlit("input");
            reveal_strlit("built-by");
        }
        ascii_str_bytes(self.name())
    }

    /// Read a kind from its word.
    ///
    /// Fails with `Error::InvalidRelationKind`, which holds the token, when
    /// the token is neither `input` nor `built-by`.
    pub fn from_bytes(token: &[u8]) -> (kind: Result<RelationKind, Error>)
        ensures
            kind_result_view(kind) == RelationKind::parse(token@),
    {
        if bytes_eq(token, RelationKind::Input.word()) {
            Ok(RelationKind::Input)
        } else if bytes_eq(token, RelationKind::BuiltBy.word()) {
            Ok(RelationKind::BuiltBy)
        } else {
            Err(Error::InvalidRelationKind(vstd::slice::slice_to_vec(token)))
        }
    }
}

impl core::str::FromStr for RelationKind {
    type Err = Error;

    /// Read a kind from its word: `input` or `built-by`. Any other string
    /// is an `Error::InvalidRelationKind` that holds the string's bytes.
    fn from_str(s: &str) -> (kind: Result<Self, Error>)
        ensures
            kind_result_view(kind) == RelationKind::parse(s.spec_bytes()),
    {
        RelationKind::from_bytes(s.as_bytes())
    }
}

/// The result of reading a kind, in terms of views.
pub open spec fn kind_result_view(kind: Result<RelationKind, Error>) -> Result<
    RelationKind,
    ErrorView,
> {
    match kind {
        Ok(kind) => Ok(kind),
        Err(error) => Err(error@),
    }
}

} // verus!

//! Whether and how a manifest's identifier is written into its target.
//!
//! Without embedding the target stays as it is, and its manifest is found
//! by looking up the target's identifier. With embedding the identifier of
//! the manifest is written into the target as a comment, before the target
//! itself is identified, so that the target carries a pointer to its own
//! manifest.

use crate::artifact_id::{url_text, ArtifactId};
use crate::error::{Error, ErrorView};
use crate::hash_algorithm::{HashAlgorithm, SupportedHash};
use crate::sealed::Sealed;
use crate::target_type::{TargetType, TargetTypeView, TextType, TextTypeView};
use crate::text::{push_all, LINE_FEED, SPACE};
use vstd::prelude::*;

verus! {

/// The two ways of finishing a manifest.
#[derive(Debug, Clone, Copy, PartialEq, Eq, Structural)]
pub enum EmbeddingStrategy {
    /// Leave the target untouched.
    NoEmbed,
    /// Write the identifier of the manifest into the target.
    Embed,
}

/// A marker type that fixes, at compile time, how a builder finishes.
pub trait EmbeddingMode: Sealed + Sized {
    /// The strategy this marker stands for.
    spec fn spec_strategy() -> EmbeddingStrategy;

    /// The strategy this marker stands for.
    fn strategy() -> (strategy: EmbeddingStrategy)
        ensures
            strategy == Self::spec_strategy(),
    ;
}

/// Do not embed: the target is left untouched.
#[derive(Debug, Clone, Copy, PartialEq, Eq)]
pub struct NoEmbed {
    _private: (),
}

/// Embed: the identifier of the manifest is written into the target.
#[derive(Debug, Clone, Copy, PartialEq, Eq)]
pub struct Embed {
    _private: (),
}

impl Sealed for NoEmbed {

}

impl Sealed for Embed {

}

impl EmbeddingMode for NoEmbed {
    open spec fn spec_strategy() -> EmbeddingStrategy {
        EmbeddingStrategy::NoEmbed
    }

    fn strategy() -> (strategy: EmbeddingStrategy) {
        EmbeddingStrategy::NoEmbed
    }
}

impl EmbeddingMode for Embed {
    open spec fn spec_strategy() -> EmbeddingStrategy {
        EmbeddingStrategy::Embed
    }

    fn strategy() -> (strategy: EmbeddingStrategy) {
        EmbeddingStrategy::Embed
    }
}

/// The comment line that carries `url` in a text file of the given kind:
/// the comment prefix, a space, the URL, then a space and the suffix where
/// comments have one, and a line feed.
pub open spec fn comment_line(text_type: TextTypeView, url: Seq<u8>) -> Seq<u8> {
    match text_type {
        TextTypeView::PrefixComments { prefix } => prefix + seq![SPACE] + url + seq![LINE_FEED],
        TextTypeView::WrappedComments { prefix, suffix } => prefix + seq![SPACE] + url + seq![SPACE]
            + suffix + seq![LINE_FEED],
    }
}

/// `target` with `line` as its new last line. A target that does not end
/// with a line feed gets one first, so that the new line stands alone.
pub open spec fn append_line(target: Seq<u8>, line: Seq<u8>) -> Seq<u8> {
    if target.len() == 0 || target.last() == LINE_FEED {
        target + line
    } else {
        target + seq![LINE_FEED] + line
    }
}

/// The bytes a target has once a manifest with the hash `manifest` was
/// finished for it, or the reason why it cannot be finished.
///
/// Without embedding these are the bytes of the target. With embedding, a
/// text target gets a comment with the URL of the manifest as its last
/// line. A target of which nothing is known, and a binary target, cannot be
/// embedded in.
pub open spec fn finished_target(
    strategy: EmbeddingStrategy,
    target_type: TargetTypeView,
    algorithm: HashAlgorithm,
    manifest: Seq<u8>,
    target: Seq<u8>,
) -> Result<Seq<u8>, ErrorView> {
    match strategy {
        EmbeddingStrategy::NoEmbed => Ok(target),
        EmbeddingStrategy::Embed => match target_type {
            TargetTypeView::KnownTextType(text_type) => Ok(
                append_line(target, comment_line(text_type, url_text(algorithm, manifest))),
            ),
            TargetTypeView::KnownBinaryType(_) => Err(ErrorView::UndefinedBinaryEmbedding),
            TargetTypeView::Unknown => Err(ErrorView::UnknownEmbeddingTarget),
        },
    }
}

/// The result of preparing a target, in terms of views.
pub open spec fn bytes_result_view(made: Result<Vec<u8>, Error>) -> Result<Seq<u8>, ErrorView> {
    match made {
        Ok(bytes) => Ok(bytes@),
        Err(error) => Err(error@),
    }
}

/// The comment line that carries the URL of `manifest`.
fn write_comment_line<H: SupportedHash>(text_type: &TextType, manifest: &ArtifactId<H>) -> (line:
    Vec<u8>)
    ensures
        line@ == comment_line(text_type@, url_text(H::spec_algorithm(), manifest@)),
{
    let url = manifest.url_bytes();
    let mut line: Vec<u8> = Vec::new();
    match text_type {
        TextType::PrefixComments { prefix } => {
            push_all(&mut line, prefix.as_str().as_bytes());
            line.push(SPACE);
            push_all(&mut line, url.as_slice());
        },
        TextType::WrappedComments { prefix, suffix } => {
            push_all(&mut line, prefix.as_str().as_bytes());
            line.push(SPACE);
            push_all(&mut line, url.as_slice());
            line.push(SPACE);
            push_all(&mut line, suffix.as_str().as_bytes());
        },
    }
    line.push(LINE_FEED);
    assert(line@ =~= comment_line(text_type@, url_text(H::spec_algorithm(), manifest@)));
    line
}

/// Prepares the bytes of a target for which a manifest is being finished.
///
/// Fails, under `EmbeddingStrategy::Embed`, for a target that is not text
/// with a known way of writing comments. It never falls back to leaving
/// the target untouched.
pub fn finish_target<H: SupportedHash>(
    strategy: EmbeddingStrategy,
    target_type: &TargetType,
    manifest: &ArtifactId<H>,
    target: &[u8],
) -> (made: Result<Vec<u8>, Error>)
    ensures
        bytes_result_view(made) == finished_target(
            strategy,
            target_type@,
            H::spec_algorithm(),
            manifest@,
            target@,
        ),
{
    match strategy {
        EmbeddingStrategy::NoEmbed => Ok(vstd::slice::slice_to_vec(target)),
        EmbeddingStrategy::Embed => match target_type {
            TargetType::KnownTextType(text_type) => {
                let line = write_comment_line(text_type, manifest);
                let mut bytes = vstd::slice::slice_to_vec(target);
                if target.len() > 0 && target[target.len() - 1] != LINE_FEED {
                    bytes.push(LINE_FEED);
                }
                push_all(&mut bytes, line.as_slice());
                assert(bytes@ =~= append_line(target@, line@));
                Ok(bytes)
            },
            TargetType::KnownBinaryType(_) => Err(Error::UndefinedBinaryEmbedding),
            TargetType::Unknown => Err(Error::UnknownEmbeddingTarget),
        },
    }
}

} // verus!

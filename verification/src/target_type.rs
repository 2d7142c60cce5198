//! What kind of file a target is, as far as embedding needs to know.
//!
//! Embedding writes the identifier of a manifest into the target. How that
//! is done depends on whether the target is a binary of a known format or
//! text with a known way of writing comments. Binary formats are told apart
//! by the `infer` crate, which is shown the first bytes of the target only:
//! a signature stands at the start of a file.

use crate::error::{Error, ErrorView};
use vstd::prelude::*;

verus! {

/// A binary format that is recognised.
#[derive(Debug, Clone, Copy, PartialEq, Eq, Structural)]
pub enum BinaryType {
    /// An ELF object or executable.
    ElfFile,
}

/// A way of writing comments in a text file.
#[derive(Debug, Clone, PartialEq, Eq)]
#[allow(inconsistent_fields)]
pub enum TextType {
    /// A comment starts with `prefix` and runs to the end of the line.
    PrefixComments { prefix: String },
    /// A comment starts with `prefix` and ends with `suffix`.
    WrappedComments { prefix: String, suffix: String },
}

/// A `TextType` with its texts as bytes.
#[allow(inconsistent_fields)]
pub enum TextTypeView {
    PrefixComments { prefix: Seq<u8> },
    WrappedComments { prefix: Seq<u8>, suffix: Seq<u8> },
}

impl View for TextType {
    type V = TextTypeView;

    open spec fn view(&self) -> TextTypeView {
        match *self {
            TextType::PrefixComments { prefix } => TextTypeView::PrefixComments {
                prefix: vstd::utf8::encode_utf8(prefix@),
            },
            TextType::WrappedComments { prefix, suffix } => TextTypeView::WrappedComments {
                prefix: vstd::utf8::encode_utf8(prefix@),
                suffix: vstd::utf8::encode_utf8(suffix@),
            },
        }
    }
}

/// What a target was found to be.
#[derive(Debug, Clone, PartialEq, Eq)]
pub enum TargetType {
    /// A binary of a recognised format.
    KnownBinaryType(BinaryType),
    /// Text with a known way of writing comments.
    KnownTextType(TextType),
    /// Nothing certain is known.
    Unknown,
}

/// A `TargetType` with its texts as bytes.
pub enum TargetTypeView {
    KnownBinaryType(BinaryType),
    KnownTextType(TextTypeView),
    Unknown,
}

impl View for TargetType {
    type V = TargetTypeView;

    open spec fn view(&self) -> TargetTypeView {
        match *self {
            TargetType::KnownBinaryType(binary) => TargetTypeView::KnownBinaryType(binary),
            TargetType::KnownTextType(text) => TargetTypeView::KnownTextType(text@),
            TargetType::Unknown => TargetTypeView::Unknown,
        }
    }
}

/// What looking at the first bytes of a target tells.
#[derive(Debug, Clone, PartialEq, Eq)]
pub enum Detection {
    /// A binary of a recognised format.
    SupportedBinaryType(BinaryType),
    /// A binary of a format that is known but not supported. The string
    /// is the usual file extension of the format.
    UnsupportedBinaryType(String),
    /// Nothing certain; the target may well be text.
    Uncertain,
}

/// A `Detection` with its text as characters.
pub enum DetectionView {
    SupportedBinaryType(BinaryType),
    UnsupportedBinaryType(Seq<char>),
    Uncertain,
}

impl View for Detection {
    type V = DetectionView;

    open spec fn view(&self) -> DetectionView {
        match *self {
            Detection::SupportedBinaryType(binary) => DetectionView::SupportedBinaryType(binary),
            Detection::UnsupportedBinaryType(name) => DetectionView::UnsupportedBinaryType(name@),
            Detection::Uncertain => DetectionView::Uncertain,
        }
    }
}

/// A file format as `infer` reports it: the MIME type and the usual file
/// extension.
pub struct FileKind {
    pub mime_type: String,
    pub extension: String,
}

/// True when `buf` starts like an ELF file: more than 52 bytes, of which
/// the first four are `0x7F`, `E`, `L`, `F`.
pub open spec fn is_elf(buf: Seq<u8>) -> bool {
    buf.len() > 52 && buf[0] == 0x7F && buf[1] == 0x45 && buf[2] == 0x4C && buf[3] == 0x46
}

/// How many bytes of a target are searched for the signature of a format.
pub const SIGNATURE_PREFIX: usize = 8192;

/// The part of `buf` that is searched for a signature: all of it, or its
/// first `SIGNATURE_PREFIX` bytes if it is longer.
pub open spec fn signature_prefix(buf: Seq<u8>) -> Seq<u8> {
    if buf.len() <= SIGNATURE_PREFIX {
        buf
    } else {
        buf.subrange(0, SIGNATURE_PREFIX as int)
    }
}

/// True on a machine whose addresses have 64 bits. `infer` adds lengths of
/// 32 bits that it reads from the buffer; with narrower addresses such a sum
/// may not fit, and no signature is looked for.
pub open spec fn wide_addresses() -> bool {
    usize::MAX >= 0xFFFF_FFFF_FFFF_FFFF
}

/// The MIME type and extension of the format that `infer::get` finds for
/// `buf`, if it finds one.
pub uninterp spec fn infer_kind(buf: Seq<u8>) -> Option<(Seq<char>, Seq<char>)>;

/// `infer::app::is_elf`: whether the buffer starts like an ELF file.
#[verifier::external_body]
fn infer_is_elf(buf: &[u8]) -> (elf: bool)
    ensures
        elf == is_elf(buf@),
{
    infer::app::is_elf(buf)
}

/// `infer::get`: the first format of `infer`'s table whose signature
/// matches the buffer, reduced to its MIME type and its extension. Nothing
/// is said here of which format that is.
///
/// The buffer is short and addresses are wide: one of `infer`'s matchers
/// calls itself once for every eight bytes of a crafted buffer, and two add
/// a length of 32 bits from the buffer to an address.
#[verifier::external_body]
fn infer_get(buf: &[u8]) -> (kind: Option<FileKind>)
    requires
        buf@.len() <= SIGNATURE_PREFIX,
        wide_addresses(),
    ensures
        kind_view(kind) == infer_kind(buf@),
{
    match infer::get(buf) {
        Some(kind) => Some(
            FileKind {
                mime_type: kind.mime_type().to_owned(),
                extension: kind.extension().to_owned(),
            },
        ),
        None => None,
    }
}

/// A file kind, or none, as characters.
pub open spec fn kind_view(kind: Option<FileKind>) -> Option<(Seq<char>, Seq<char>)> {
    match kind {
        Some(kind) => Some((kind.mime_type@, kind.extension@)),
        None => None,
    }
}

/// True for the MIME types of formats that are text after all, though they
/// have a signature: HTML, XML and shell scripts.
pub open spec fn is_text_mime(mime_type: Seq<char>) -> bool {
    mime_type == "text/html"@ || mime_type == "text/xml"@ || mime_type == "text/x-shellscript"@
}

/// What is detected from whether the target starts like an ELF file and
/// from the format that was found for it.
pub open spec fn detection_of(elf: bool, kind: Option<(Seq<char>, Seq<char>)>) -> DetectionView {
    if elf {
        DetectionView::SupportedBinaryType(BinaryType::ElfFile)
    } else {
        match kind {
            Some((mime_type, extension)) => if is_text_mime(mime_type) {
                DetectionView::Uncertain
            } else {
                DetectionView::UnsupportedBinaryType(extension)
            },
            None => DetectionView::Uncertain,
        }
    }
}

/// The format that is found for a target with the content `buf`: what
/// `infer` finds in the first bytes of it, where addresses are wide enough
/// to ask.
pub open spec fn found_kind(buf: Seq<u8>) -> Option<(Seq<char>, Seq<char>)> {
    if wide_addresses() {
        infer_kind(signature_prefix(buf))
    } else {
        None
    }
}

/// What is detected for a target with the content `buf`.
pub open spec fn detect(buf: Seq<u8>) -> DetectionView {
    detection_of(is_elf(buf), found_kind(buf))
}

/// What a detection makes of a target: a known binary, an error for a
/// binary that cannot be embedded in, or nothing certain.
pub open spec fn target_type_of(detection: DetectionView) -> Result<TargetTypeView, ErrorView> {
    match detection {
        DetectionView::SupportedBinaryType(binary) => Ok(TargetTypeView::KnownBinaryType(binary)),
        DetectionView::UnsupportedBinaryType(name) => Err(ErrorView::UnsupportedBinaryType(name)),
        DetectionView::Uncertain => Ok(TargetTypeView::Unknown),
    }
}

/// The result of classifying a target, in terms of views.
pub open spec fn target_type_result_view(made: Result<TargetType, Error>) -> Result<
    TargetTypeView,
    ErrorView,
> {
    match made {
        Ok(target_type) => Ok(target_type@),
        Err(error) => Err(error@),
    }
}

/// Decides what was detected, given whether the target starts like an ELF
/// file and the format found for it.
///
/// ELF is the one binary format that is supported. Any other format that
/// was found is an unsupported binary, unless it is HTML, XML or a shell
/// script: those are text, and of text nothing is certain here.
pub fn classify(elf: bool, kind: Option<FileKind>) -> (detection: Detection)
    ensures
        detection@ == detection_of(elf, kind_view(kind)),
{
    if elf {
        return Detection::SupportedBinaryType(BinaryType::ElfFile);
    }
    match kind {
        Some(kind) => {
            let text = kind.mime_type == String::from_str("text/html") || kind.mime_type
                == String::from_str("text/xml") || kind.mime_type == String::from_str(
                "text/x-shellscript",
            );
            if text {
                Detection::Uncertain
            } else {
                Detection::UnsupportedBinaryType(kind.extension)
            }
        },
        None => Detection::Uncertain,
    }
}

/// Looks at the content of a target for the signature of a binary format.
pub fn detect_binary_type(buf: &[u8]) -> (detection: Detection)
    ensures
        detection@ == detect(buf@),
{
    // If it's ELF, we're done.
    if infer_is_elf(buf) {
        return classify(true, None);
    }
    // If it's another known format, report that.
    classify(false, find_kind(buf))
}

/// Looks for the signature of a format in the first bytes of `buf`.
///
/// Finds nothing on a machine whose addresses have fewer than 64 bits.
pub fn find_kind(buf: &[u8]) -> (kind: Option<FileKind>)
    ensures
        kind_view(kind) == found_kind(buf@),
{
    if (usize::MAX as u64) < u64::MAX {
        return None;
    }
    if buf.len() <= SIGNATURE_PREFIX {
        infer_get(buf)
    } else {
        infer_get(vstd::slice::slice_subrange(buf, 0, SIGNATURE_PREFIX))
    }
}

impl TargetType {
    /// What a detection makes of a target.
    pub fn from_detection(detection: Detection) -> (made: Result<TargetType, Error>)
        ensures
            target_type_result_view(made) == target_type_of(detection@),
    {
        match detection {
            Detection::SupportedBinaryType(binary) => Ok(TargetType::KnownBinaryType(binary)),
            Detection::UnsupportedBinaryType(name) => Err(Error::UnsupportedBinaryType(name)),
            Detection::Uncertain => Ok(TargetType::Unknown),
        }
    }

    /// Classifies a target by its content.
    ///
    /// A recognised binary format is reported, an unsupported one is an
    /// error. Of anything else nothing certain is known: telling the ways
    /// of writing comments apart is left to the caller.
    pub fn infer(buf: &[u8]) -> (made: Result<TargetType, Error>)
        ensures
            target_type_result_view(made) == target_type_of(detect(buf@)),
    {
        TargetType::from_detection(detect_binary_type(buf))
    }
}

} // verus!

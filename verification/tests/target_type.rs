use omnibor::target_type::{classify, detect_binary_type, find_kind, FileKind, SIGNATURE_PREFIX};
use omnibor::{BinaryType, Detection, Error, TargetType};

fn elf() -> Vec<u8> {
    let mut buf = vec![0x7F, b'E', b'L', b'F'];
    buf.resize(64, 0);
    buf
}

fn kind(mime_type: &str, extension: &str) -> Option<FileKind> {
    Some(FileKind { mime_type: mime_type.to_owned(), extension: extension.to_owned() })
}

#[test]
fn elf_is_a_supported_binary() {
    assert_eq!(detect_binary_type(&elf()), Detection::SupportedBinaryType(BinaryType::ElfFile));
    assert_eq!(TargetType::infer(&elf()), Ok(TargetType::KnownBinaryType(BinaryType::ElfFile)));
}

#[test]
fn a_short_elf_header_is_not_enough() {
    let buf = vec![0x7F, b'E', b'L', b'F', 0, 0];
    assert_eq!(detect_binary_type(&buf), Detection::Uncertain);
    assert_eq!(TargetType::infer(&buf), Ok(TargetType::Unknown));
}

#[test]
fn other_binaries_are_unsupported() {
    let png = [0x89, b'P', b'N', b'G', 0x0D, 0x0A, 0x1A, 0x0A, 0, 0, 0, 0];
    assert_eq!(detect_binary_type(&png), Detection::UnsupportedBinaryType("png".to_owned()));
    assert_eq!(TargetType::infer(&png), Err(Error::UnsupportedBinaryType("png".to_owned())));
}

#[test]
fn text_is_uncertain() {
    assert_eq!(detect_binary_type(b"fn main() {}\n"), Detection::Uncertain);
    assert_eq!(detect_binary_type(b"#!/bin/sh\necho hello\n"), Detection::Uncertain);
    assert_eq!(detect_binary_type(b""), Detection::Uncertain);
    assert_eq!(TargetType::infer(b"plain words"), Ok(TargetType::Unknown));
}

#[test]
fn classify_by_mime_type() {
    assert_eq!(
        classify(true, kind("application/x-executable", "elf")),
        Detection::SupportedBinaryType(BinaryType::ElfFile)
    );
    assert_eq!(classify(false, None), Detection::Uncertain);
    assert_eq!(classify(false, kind("text/html", "html")), Detection::Uncertain);
    assert_eq!(classify(false, kind("text/xml", "xml")), Detection::Uncertain);
    assert_eq!(classify(false, kind("text/x-shellscript", "sh")), Detection::Uncertain);
    assert_eq!(
        classify(false, kind("image/jpeg", "jpg")),
        Detection::UnsupportedBinaryType("jpg".to_owned())
    );
    assert_eq!(
        classify(false, kind("text/plain", "txt")),
        Detection::UnsupportedBinaryType("txt".to_owned())
    );
}

#[test]
fn from_detection() {
    assert_eq!(
        TargetType::from_detection(Detection::SupportedBinaryType(BinaryType::ElfFile)),
        Ok(TargetType::KnownBinaryType(BinaryType::ElfFile))
    );
    assert_eq!(
        TargetType::from_detection(Detection::UnsupportedBinaryType("zip".to_owned())),
        Err(Error::UnsupportedBinaryType("zip".to_owned()))
    );
    assert_eq!(TargetType::from_detection(Detection::Uncertain), Ok(TargetType::Unknown));
}

#[test]
fn only_the_first_bytes_are_searched() {
    let mut png = vec![0x89, b'P', b'N', b'G', 0x0D, 0x0A, 0x1A, 0x0A];
    png.resize(3 * SIGNATURE_PREFIX, 0);
    assert_eq!(detect_binary_type(&png), Detection::UnsupportedBinaryType("png".to_owned()));
    let mut late = vec![b' '; SIGNATURE_PREFIX];
    late.extend_from_slice(&png);
    assert_eq!(detect_binary_type(&late), detect_binary_type(&late[..SIGNATURE_PREFIX]));
    assert_eq!(SIGNATURE_PREFIX, 8192);
}

#[test]
fn a_long_run_of_skippable_frames_is_cut_short() {
    let frame = [0x50, 0x2A, 0x4D, 0x18, 0x00, 0x00, 0x00, 0x00];
    let mut buf = Vec::new();
    for _ in 0..(1 << 17) {
        buf.extend_from_slice(&frame);
    }
    assert_eq!(detect_binary_type(&buf), detect_binary_type(&buf[..SIGNATURE_PREFIX]));
    assert_eq!(
        find_kind(&buf).map(|kind| kind.extension),
        find_kind(&buf[..SIGNATURE_PREFIX]).map(|kind| kind.extension)
    );
}

#[test]
fn find_kind_reports_mime_type_and_extension() {
    let png = [0x89, b'P', b'N', b'G', 0x0D, 0x0A, 0x1A, 0x0A, 0, 0, 0, 0];
    let kind = find_kind(&png).unwrap();
    assert_eq!(kind.mime_type, "image/png");
    assert_eq!(kind.extension, "png");
    assert!(find_kind(b"plain words").is_none());
}

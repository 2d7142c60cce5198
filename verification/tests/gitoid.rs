use digest::Digest;
use omnibor::gitoid::{GitOid, GitOidHasher};
use omnibor::{Error, HashAlgorithm};

fn framed(content: &[u8]) -> Vec<u8> {
    let mut framed = format!("blob {}\0", content.len()).into_bytes();
    framed.extend_from_slice(content);
    framed
}

#[test]
fn hello_world_sha256_is_the_digest_of_the_framed_buffer() {
    let gitoid = GitOid::new_from_bytes(HashAlgorithm::Sha256, b"hello world");
    let plain = sha2::Sha256::digest(b"blob 11\0hello world");
    assert_eq!(gitoid.hash_value(), plain.as_slice());
    assert_eq!(gitoid.hash_algorithm(), HashAlgorithm::Sha256);
    assert_eq!(gitoid.hash_value().len(), 32);
}

#[test]
fn hello_world_sha256_known_hex() {
    let gitoid = GitOid::new_from_str(HashAlgorithm::Sha256, "hello world");
    assert_eq!(
        gitoid.hex_hash(),
        "fee53a18d32820613c0527aa79be5cb30173c823a9b448fa4817767cc84c6f03"
    );
}

#[test]
fn hello_world_sha1_matches_git() {
    let gitoid = GitOid::new_from_bytes(HashAlgorithm::Sha1, b"hello world");
    assert_eq!(gitoid.hex_hash(), "95d09f2b10159347eece71399a7e2e907ea3df4f");
    assert_eq!(gitoid.hash_value().len(), 20);
}

#[test]
fn sha1cd_agrees_with_sha1_on_ordinary_content() {
    let plain = GitOid::new_from_bytes(HashAlgorithm::Sha1, b"hello world");
    let checked = GitOid::new_from_bytes(HashAlgorithm::Sha1Cd, b"hello world");
    assert_eq!(plain.hash_value(), checked.hash_value());
    assert_ne!(plain, checked);
}

#[test]
fn every_algorithm_hashes_the_framed_content() {
    let content = b"some content\nwith two lines\n";
    let sha1 = GitOid::new_from_bytes(HashAlgorithm::Sha1, content);
    assert_eq!(sha1.hash_value(), sha1::Sha1::digest(framed(content)).as_slice());
    let sha256 = GitOid::new_from_bytes(HashAlgorithm::Sha256, content);
    assert_eq!(sha256.hash_value(), sha2::Sha256::digest(framed(content)).as_slice());
    let sha1cd = GitOid::new_from_bytes(HashAlgorithm::Sha1Cd, content);
    assert_eq!(
        sha1cd.hash_value(),
        sha1collisiondetection::Sha1CD::digest(framed(content)).as_slice()
    );
}

#[test]
fn empty_content() {
    let gitoid = GitOid::new_from_bytes(HashAlgorithm::Sha1, b"");
    assert_eq!(gitoid.hex_hash(), "e69de29bb2d1d6434b8b29ae775ad8c2e48c5391");
}

#[test]
fn chunked_and_whole_content_agree() {
    let content: Vec<u8> = (0..10_000u32).map(|i| (i % 251) as u8).collect();
    let whole = GitOid::new_from_bytes(HashAlgorithm::Sha256, &content);
    let chunks: Vec<Vec<u8>> = content.chunks(4096).map(|c| c.to_vec()).collect();
    let streamed = GitOid::new_from_chunks(HashAlgorithm::Sha256, &chunks, content.len());
    assert_eq!(streamed, Ok(whole));
    let other_chunks: Vec<Vec<u8>> = content.chunks(8192).map(|c| c.to_vec()).collect();
    let other = GitOid::new_from_chunks(HashAlgorithm::Sha256, &other_chunks, content.len());
    assert_eq!(other, Ok(whole));
    let with_empty = vec![Vec::new(), content.clone(), Vec::new()];
    assert_eq!(
        GitOid::new_from_chunks(HashAlgorithm::Sha256, &with_empty, content.len()),
        Ok(whole)
    );
}

#[test]
fn declared_length_must_match() {
    let chunks = vec![b"hello ".to_vec(), b"world".to_vec()];
    assert_eq!(
        GitOid::new_from_chunks(HashAlgorithm::Sha256, &chunks, 10),
        Err(Error::LengthMismatch { expected: 10, actual: 11 })
    );
    assert_eq!(
        GitOid::new_from_chunks(HashAlgorithm::Sha1, &chunks, 12),
        Err(Error::LengthMismatch { expected: 12, actual: 11 })
    );
    assert_eq!(
        GitOid::new_from_chunks(HashAlgorithm::Sha1Cd, &[], 1),
        Err(Error::LengthMismatch { expected: 1, actual: 0 })
    );
}

#[test]
fn hasher_fed_by_hand() {
    let mut hasher = GitOidHasher::new(HashAlgorithm::Sha256, 11);
    hasher.update(b"hello");
    hasher.update(b" ");
    hasher.update(b"world");
    let streamed = hasher.finish().unwrap();
    assert_eq!(streamed, GitOid::new_from_bytes(HashAlgorithm::Sha256, b"hello world"));
    let mut short = GitOidHasher::new(HashAlgorithm::Sha256, 11);
    short.update(b"hello");
    assert_eq!(short.finish(), Err(Error::LengthMismatch { expected: 11, actual: 5 }));
}

#[test]
fn length_is_written_in_decimal() {
    let content = vec![7u8; 1234];
    let gitoid = GitOid::new_from_bytes(HashAlgorithm::Sha256, &content);
    let mut framed = b"blob 1234\0".to_vec();
    framed.extend_from_slice(&content);
    assert_eq!(gitoid.hash_value(), sha2::Sha256::digest(&framed).as_slice());
}

#[test]
fn try_from_hash_checks_the_width() {
    let hash = [0xabu8; 32];
    let gitoid = GitOid::try_from_hash(HashAlgorithm::Sha256, &hash).unwrap();
    assert_eq!(gitoid.hash_value(), &hash[..]);
    assert_eq!(
        GitOid::try_from_hash(HashAlgorithm::Sha1, &hash),
        Err(Error::UnexpectedHashLength { expected: 20, observed: 32 })
    );
}

#[test]
fn algorithm_names_and_widths() {
    assert_eq!(HashAlgorithm::Sha1.name(), "sha1");
    assert_eq!(HashAlgorithm::Sha1Cd.name(), "sha1cd");
    assert_eq!(HashAlgorithm::Sha256.name(), "sha256");
    assert_eq!(HashAlgorithm::Sha1.width(), 20);
    assert_eq!(HashAlgorithm::Sha1Cd.width(), 20);
    assert_eq!(HashAlgorithm::Sha256.width(), 32);
    assert_eq!(HashAlgorithm::Sha256.name_bytes(), b"sha256");
}

#[test]
fn gitoid_is_written_with_its_algorithm() {
    let sha256 = GitOid::new_from_bytes(HashAlgorithm::Sha256, b"hello world");
    assert_eq!(
        sha256.display(),
        "sha256:fee53a18d32820613c0527aa79be5cb30173c823a9b448fa4817767cc84c6f03"
    );
    let sha1 = GitOid::new_from_bytes(HashAlgorithm::Sha1, b"hello world");
    assert_eq!(sha1.display(), "sha1:95d09f2b10159347eece71399a7e2e907ea3df4f");
    let sha1cd = GitOid::new_from_bytes(HashAlgorithm::Sha1Cd, b"hello world");
    assert_eq!(sha1cd.display(), "sha1cd:95d09f2b10159347eece71399a7e2e907ea3df4f");
}

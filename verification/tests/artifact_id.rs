use omnibor::{ArtifactId, Error, GitOid, HashAlgorithm, Sha1, Sha1Cd, Sha256};

const HELLO_SHA256: &str = "fee53a18d32820613c0527aa79be5cb30173c823a9b448fa4817767cc84c6f03";
const HELLO_SHA1: &str = "95d09f2b10159347eece71399a7e2e907ea3df4f";

#[test]
fn id_bytes_and_id_str_agree() {
    let from_bytes = ArtifactId::<Sha256>::id_bytes(b"hello world");
    let from_str = ArtifactId::<Sha256>::id_str("hello world");
    assert_eq!(from_bytes, from_str);
    assert_eq!(from_bytes.as_hex(), HELLO_SHA256);
    assert_eq!(from_bytes.as_hex_bytes(), HELLO_SHA256.as_bytes());
    assert_eq!(from_bytes.as_bytes().len(), 32);
    assert_eq!(from_bytes.hash_algorithm(), HashAlgorithm::Sha256);
}

#[test]
fn id_chunks_agrees_with_id_bytes() {
    let chunks = vec![b"hello".to_vec(), b" wor".to_vec(), b"ld".to_vec()];
    assert_eq!(
        ArtifactId::<Sha256>::id_chunks(&chunks, 11),
        Ok(ArtifactId::<Sha256>::id_bytes(b"hello world"))
    );
    assert_eq!(
        ArtifactId::<Sha1>::id_chunks(&chunks, 11),
        Ok(ArtifactId::<Sha1>::id_bytes(b"hello world"))
    );
    assert_eq!(
        ArtifactId::<Sha256>::id_chunks(&chunks, 12),
        Err(Error::LengthMismatch { expected: 12, actual: 11 })
    );
}

#[test]
fn url_of_each_algorithm() {
    let sha256 = ArtifactId::<Sha256>::id_bytes(b"hello world");
    assert_eq!(sha256.url_bytes(), format!("gitoid:blob:sha256:{}", HELLO_SHA256).into_bytes());
    let sha1 = ArtifactId::<Sha1>::id_bytes(b"hello world");
    assert_eq!(sha1.url_bytes(), format!("gitoid:blob:sha1:{}", HELLO_SHA1).into_bytes());
    let sha1cd = ArtifactId::<Sha1Cd>::id_bytes(b"hello world");
    assert_eq!(sha1cd.url_bytes(), format!("gitoid:blob:sha1cd:{}", HELLO_SHA1).into_bytes());
}

#[test]
fn url_round_trip_for_every_algorithm() {
    let sha256 = ArtifactId::<Sha256>::id_bytes(b"round trip");
    assert_eq!(ArtifactId::<Sha256>::try_from_url(&sha256.url_bytes()), Ok(sha256));
    let sha1 = ArtifactId::<Sha1>::id_bytes(b"round trip");
    assert_eq!(ArtifactId::<Sha1>::try_from_url(&sha1.url_bytes()), Ok(sha1));
    let sha1cd = ArtifactId::<Sha1Cd>::id_bytes(b"round trip");
    assert_eq!(ArtifactId::<Sha1Cd>::try_from_url(&sha1cd.url_bytes()), Ok(sha1cd));
}

#[test]
fn parse_known_url() {
    let url = format!("gitoid:blob:sha256:{}", HELLO_SHA256);
    let id = ArtifactId::<Sha256>::try_from_str(&url).unwrap();
    assert_eq!(id, ArtifactId::<Sha256>::id_bytes(b"hello world"));
    let parsed: ArtifactId<Sha256> = url.parse().unwrap();
    assert_eq!(parsed, id);
}

#[test]
fn parse_accepts_uppercase_hex() {
    let url = format!("gitoid:blob:sha256:{}", HELLO_SHA256.to_uppercase());
    assert_eq!(
        ArtifactId::<Sha256>::try_from_str(&url),
        Ok(ArtifactId::<Sha256>::id_bytes(b"hello world"))
    );
}

#[test]
fn parse_rejects_wrong_scheme() {
    let url = format!("gitoid2:blob:sha256:{}", HELLO_SHA256);
    assert_eq!(ArtifactId::<Sha256>::try_from_str(&url), Err(Error::InvalidScheme));
    assert_eq!(ArtifactId::<Sha256>::try_from_str(""), Err(Error::InvalidScheme));
}

#[test]
fn parse_rejects_wrong_object_type() {
    let url = format!("gitoid:tree:sha256:{}", HELLO_SHA256);
    assert_eq!(ArtifactId::<Sha256>::try_from_str(&url), Err(Error::MismatchedObjectType));
    assert_eq!(ArtifactId::<Sha256>::try_from_str("gitoid"), Err(Error::MissingObjectType));
}

#[test]
fn parse_rejects_wrong_algorithm() {
    let url = format!("gitoid:blob:sha1:{}", HELLO_SHA1);
    assert_eq!(
        ArtifactId::<Sha256>::try_from_str(&url),
        Err(Error::MismatchedHashAlgorithm {
            expected: HashAlgorithm::Sha256,
            got: b"sha1".to_vec()
        })
    );
    assert_eq!(
        ArtifactId::<Sha1>::try_from_str(&format!("gitoid:blob:sha1cd:{}", HELLO_SHA1)),
        Err(Error::MismatchedHashAlgorithm {
            expected: HashAlgorithm::Sha1,
            got: b"sha1cd".to_vec()
        })
    );
    assert_eq!(
        ArtifactId::<Sha256>::try_from_str("gitoid:blob"),
        Err(Error::MissingHashAlgorithm)
    );
}

#[test]
fn parse_rejects_missing_or_extra_parts() {
    assert_eq!(ArtifactId::<Sha256>::try_from_str("gitoid:blob:sha256"), Err(Error::MissingHash));
    let url = format!("gitoid:blob:sha256:{}:more", HELLO_SHA256);
    assert_eq!(ArtifactId::<Sha256>::try_from_str(&url), Err(Error::UnexpectedUrlParts));
}

#[test]
fn parse_rejects_bad_hex() {
    let bad = format!("gitoid:blob:sha256:{}", HELLO_SHA256.replace('f', "g"));
    assert_eq!(ArtifactId::<Sha256>::try_from_str(&bad), Err(Error::InvalidHex));
    let odd = format!("gitoid:blob:sha256:{}", &HELLO_SHA256[1..]);
    assert_eq!(ArtifactId::<Sha256>::try_from_str(&odd), Err(Error::InvalidHex));
}

#[test]
fn parse_rejects_wrong_width() {
    let short = format!("gitoid:blob:sha256:{}", HELLO_SHA1);
    assert_eq!(
        ArtifactId::<Sha256>::try_from_str(&short),
        Err(Error::UnexpectedHashLength { expected: 32, observed: 20 })
    );
    let long = format!("gitoid:blob:sha1:{}", HELLO_SHA256);
    assert_eq!(
        ArtifactId::<Sha1>::try_from_str(&long),
        Err(Error::UnexpectedHashLength { expected: 20, observed: 32 })
    );
    assert_eq!(
        ArtifactId::<Sha1>::try_from_str("gitoid:blob:sha1:"),
        Err(Error::UnexpectedHashLength { expected: 20, observed: 0 })
    );
}

#[test]
fn try_from_hex_reads_a_bare_hash() {
    assert_eq!(
        ArtifactId::<Sha1>::try_from_hex(HELLO_SHA1.as_bytes()),
        Ok(ArtifactId::<Sha1>::id_bytes(b"hello world"))
    );
    assert_eq!(ArtifactId::<Sha1>::try_from_hex(b"xyz"), Err(Error::InvalidHex));
}

#[test]
fn try_from_gitoid_checks_the_algorithm() {
    let gitoid = GitOid::new_from_bytes(HashAlgorithm::Sha1, b"hello world");
    let id = ArtifactId::<Sha1>::try_from_gitoid(gitoid).unwrap();
    assert_eq!(id.gitoid(), gitoid);
    assert_eq!(
        ArtifactId::<Sha1Cd>::try_from_gitoid(gitoid),
        Err(Error::WrongAlgorithm { expected: HashAlgorithm::Sha1Cd, got: HashAlgorithm::Sha1 })
    );
}

#[test]
fn identifiers_are_ordered_by_their_hash() {
    let a = ArtifactId::<Sha256>::try_from_hex(&[b'0'; 64]).unwrap();
    let b = ArtifactId::<Sha256>::try_from_hex(&[b'1'; 64]).unwrap();
    assert!(a < b);
    assert_eq!(a, a.clone());
    assert_ne!(a, b);
}

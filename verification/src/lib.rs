//! Content-derived identifiers for software artifacts, computed with Git's
//! blob-hashing convention, and input manifests that record which artifacts
//! went into building a target.

pub mod artifact_id;
pub mod digest;
pub mod embedding;
pub mod error;
pub mod gitoid;
pub mod hash_algorithm;
pub mod hex;
pub mod input_manifest;
pub mod input_manifest_builder;
pub mod relation;
pub mod relation_kind;
mod sealed;
pub mod storage;
pub mod target_type;
pub mod text;

pub use crate::artifact_id::ArtifactId;
pub use crate::digest::Digester;
pub use crate::embedding::{Embed, EmbeddingMode, EmbeddingStrategy, NoEmbed};
pub use crate::error::Error;
pub use crate::gitoid::{GitOid, GitOidHasher};
pub use crate::hash_algorithm::{HashAlgorithm, Sha1, Sha1Cd, Sha256, SupportedHash, NUM_HASH_BYTES};
pub use crate::input_manifest::{parse_relation, InputManifest};
pub use crate::input_manifest_builder::{Finished, InputManifestBuilder};
pub use crate::relation::Relation;
pub use crate::relation_kind::RelationKind;
pub use crate::storage::{InMemoryStorage, Storage};
pub use crate::target_type::{BinaryType, Detection, TargetType, TextType};

//! Content checksums.
pub use crate::utils::lemma_checksum_deterministic;
pub use crate::utils::md5_of_bytes;

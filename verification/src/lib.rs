//! Certified static asset serving for a sandboxed backend process.
//!
//! The library partitions an embedded directory tree into asset records,
//! derives an ordered list of configuration rules for them, hands both to a
//! certifying engine that commits to a single root digest, and answers
//! read requests against that committed digest.
pub mod certification;
pub mod config;
pub mod engine;
pub mod headers;
pub mod tree;

use vstd::prelude::*;

verus! {

/// One servable file: its slash-separated path and its immutable bytes.
pub struct AssetRecord {
    pub path: String,
    pub bytes: Vec<u8>,
}

impl AssetRecord {
    /// The mathematical content of a record: its path and its bytes.
    pub open spec fn view(&self) -> (Seq<char>, Seq<u8>) {
        (self.path@, self.bytes@)
    }
}

} // verus!

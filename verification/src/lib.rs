//! Verified core of a video slide extraction pipeline: perceptual-hash
//! fingerprints, similarity scoring, near-duplicate grouping, a checkpointed
//! session state machine, and the validation rules around them.

pub mod availability;
pub mod checkpoint;
pub mod comparer;
pub mod config;
pub mod decimal;
pub mod dedup;
pub mod deps;
pub mod document;
pub mod error;
pub mod frames;
pub mod hashing;
pub mod ids;
pub mod logging;
pub mod memory;
pub mod ocr;
pub mod retry;
pub mod session;
pub mod storage;
pub mod similarity;
pub mod text;
pub mod video;

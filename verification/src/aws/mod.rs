//! The stages that talk to the cloud: object storage and transcription.
//!
//! Each stage is a state machine. Its step function takes what the last
//! request brought back and gives the next request to make, or the stage's
//! result.

pub mod client;
pub mod multipart;
pub mod multipart_runs;
pub mod poll_runs;
pub mod s3;
pub mod single;
pub mod single_runs;
pub mod transcribe;
pub mod upload;

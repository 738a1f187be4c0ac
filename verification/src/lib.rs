//! Upload a media file to object storage, have it transcribed by a managed
//! speech-to-text service, and retrieve the transcript.
//!
//! The library holds every decision of that pipeline as verified code. Work
//! that needs the network, the file system or the terminal is described by
//! action values that a driver performs; what the driver observed comes back
//! as event values.

pub mod aws;
pub mod error;
pub mod file;
pub mod json;
pub mod models;
pub mod pipeline;
pub mod pipeline_runs;
pub mod progress;
pub mod text;
pub mod utils;

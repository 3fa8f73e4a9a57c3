//! Verified core of a live-stream recorder and of the submission of the
//! recorded videos.
//!
//! The crate holds the decisions of the recorder, of the resumable chunked
//! upload, of the submission workflow and of the background sweeps as
//! functions from plain values to plain values, each with a contract.
//! Sockets, files, the store and the clock stay with the caller.

pub mod codec;
pub mod commands;
pub mod config;
pub mod danmaku;
pub mod edit;
pub mod flv;
pub mod hls;
pub mod json;
pub mod paths;
pub mod reconcile;
pub mod record_path;
pub mod recorder;
pub mod recovery;
pub mod records;
pub mod room;
pub mod runtime;
pub mod settings;
pub mod sorting;
pub mod stream;
pub mod submit;
pub mod text;
pub mod textmap;
pub mod timecode;
pub mod upload;
pub mod upload_api;
pub mod upload_queue;
pub mod workflow;

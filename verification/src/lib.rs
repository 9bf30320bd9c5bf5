//! A streaming file relay without the I/O.
//!
//! Files are stored through one of two backends, a local directory or an
//! object-storage bucket. The library decides what has to be done for an
//! upload or a download and what each answer of the backend means; the caller
//! moves the bytes.

pub mod adapter_fs;
pub mod adapter_s3;
pub mod adapter_trait;
pub mod backend;
pub mod custom_error;
pub mod download_executor;
pub mod service;
pub mod upload_executor;

pub use service::{download, init_clients, upload, AppState};

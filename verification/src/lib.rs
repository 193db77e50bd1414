//! Verified core of a durable job queue for images and PDFs.
use vstd::prelude::*;

pub mod artifacts;
pub mod config;
pub mod digest;
pub mod domain;
pub mod finalize;
pub mod errors;
pub mod events;
pub mod format;
pub mod imaging;
pub mod keys;
pub mod lease;
pub mod pdf_render;
pub mod pipeline;
pub mod policy;
pub mod rendered_page;
pub mod queue;
pub mod request;
pub mod storage;
pub mod submission;
pub mod text;
pub mod upload;
pub mod views;
pub mod worker_loop;

verus! {
} // verus!

//! Download orchestration for serialized chapters: page descriptors, the
//! fetch pipeline's decisions, site dispatch and the chapter run.

pub mod batch;
pub mod download;
pub mod downloader;
pub mod fetch;
pub mod filename;
pub mod manga;
pub mod media;
pub mod run;
pub mod scrape;
pub mod text;
pub mod web;

pub use crate::downloader::{Downloader, DownloaderError};

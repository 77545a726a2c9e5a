//! Feed subscription tracking: a registry of feed subscriptions, the
//! per-subscription poll and diff pipeline, the single-writer mutation
//! coordinator, and the bookkeeping around item metadata and downloads.

pub mod feed;
pub mod api;
pub mod subscription;
pub mod downloader;
pub mod state;
pub mod event;
pub mod task;
pub mod torrent;
pub mod utils;

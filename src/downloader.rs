//! The vocabulary of the download side: where content comes from, how a
//! download is configured, and the handles a download engine hands out.

use vstd::prelude::*;

verus! {

/// Where a download's content comes from.
#[derive(Debug, Clone)]
pub enum Source {
    HttpUrl(String),
    MagnetLink(String),
    TorrentFile(Vec<u8>),
}

/// A handle to a running download, known by its id.
pub trait DownloadHandle {
    fn id(&self) -> usize;
}

/// The status report of a download.
pub trait DownloadStatus {}

/// How a download is carried out.
#[derive(Debug, Clone)]
pub enum DownloadOptions {
    Http { output_path: Option<String> },
    Torrent { trackers: Vec<String> },
}

/// A persisted download task.
#[derive(Debug, Clone, Copy, PartialEq, Eq, Structural)]
pub struct DownloadTask {}

} // verus!

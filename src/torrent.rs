//! File-listing metadata from the acquisition engine, and its delivery onto
//! the item it was fetched for.

use vstd::prelude::*;
use crate::api::Error;
use crate::state::{DataBase, MetadataOutcome};
use crate::subscription::{ItemTorrent, ItemTorrentView, TorrentFileInfo, TorrentFileInfoView};

verus! {

/// One file of a torrent as the engine lists it.
#[derive(Debug, Clone)]
pub struct FileInfo {
    pub filename: String,
    pub torrent_offset: u64,
    pub size: u64,
}

/// The file listing that the engine returns for a torrent.
#[derive(Debug, Clone)]
pub struct TorrentInfo {
    pub files: Vec<FileInfo>,
}

pub open spec fn file_view(f: FileInfo) -> TorrentFileInfoView {
    TorrentFileInfoView { filename: f.filename@, offset: f.torrent_offset, length: f.size }
}

/// The metadata that a listing becomes when fetched at `now`: the same
/// files in the same order.
pub open spec fn torrent_of(info: TorrentInfo, now: u64) -> ItemTorrentView {
    ItemTorrentView { files: info.files@.map_values(|f: FileInfo| file_view(f)), update_time: now }
}

/// Turns a listing fetched at `now` into item metadata.
pub fn item_torrent(info: TorrentInfo, now: u64) -> (r: ItemTorrent)
    ensures
        r@ == torrent_of(info, now),
{
    let mut files: Vec<TorrentFileInfo> = Vec::new();
    let mut i: usize = 0;
    while i < info.files.len()
        invariant
            i <= info.files@.len(),
            files@.map_values(|f: TorrentFileInfo| f@) == info.files@.take(i as int).map_values(
                |f: FileInfo| file_view(f),
            ),
        decreases info.files@.len() - i,
    {
        let f = &info.files[i];
        let t = TorrentFileInfo {
            filename: f.filename.clone(),
            offset: f.torrent_offset,
            length: f.size,
        };
        let ghost before = files@;
        files.push(t);
        proof {
            assert(info.files@.take(i + 1) =~= info.files@.take(i as int).push(info.files@[i as int]));
            assert(files@.map_values(|f: TorrentFileInfo| f@) =~= before.map_values(
                |f: TorrentFileInfo| f@,
            ).push(t@));
            assert(info.files@.take(i + 1).map_values(|f: FileInfo| file_view(f)) =~= info.files@.take(
                i as int,
            ).map_values(|f: FileInfo| file_view(f)).push(file_view(info.files@[i as int])));
        }
        i = i + 1;
    }
    proof {
        assert(info.files@.take(info.files@.len() as int) =~= info.files@);
    }
    ItemTorrent { files, update_time: now }
}

/// Delivers the outcome of a metadata fetch for item `item_id` of
/// subscription `rss_id`, made at `now`. A failed fetch is reported with its
/// reason and changes nothing. A listing is stored on the item, and the
/// outcome says whether its download is to be dispatched; where the item is
/// gone by now this is a silent no-op (`MetadataOutcome::Gone`).
pub fn fetch_torrent_for_item(
    db: &mut DataBase,
    rss_id: usize,
    item_id: usize,
    fetched: Result<TorrentInfo, String>,
    now: u64,
) -> (r: Result<MetadataOutcome, Error>)
    requires
        old(db).wf(),
    ensures
        final(db).wf(),
        match fetched {
            Err(reason) => r is Err && r->Err_0.inner@ == reason@ && *final(db) == *old(db),
            Ok(info) => {
                let present = old(db).rss_list@.contains_key(rss_id) && item_id
                    < old(db).rss_list@[rss_id].items@.len();
                &&& r is Ok
                &&& !present ==> r->Ok_0 == MetadataOutcome::Gone && final(db).rss_list@
                    == old(db).rss_list@
                &&& present ==> {
                    &&& final(db).rss_list@.dom() == old(db).rss_list@.dom()
                    &&& forall|k: usize| #[trigger]
                        old(db).rss_list@.contains_key(k) && k != rss_id ==> final(db).rss_list@[k]
                            == old(db).rss_list@[k]
                    &&& final(db).rss_list@[rss_id]@ == old(db).rss_list@[rss_id]@.with_metadata(
                        item_id as int,
                        torrent_of(info, now),
                    )
                    &&& r->Ok_0 == if old(db).rss_list@[rss_id]@.dispatches(item_id as int) {
                        MetadataOutcome::Dispatch
                    } else {
                        MetadataOutcome::Stored
                    }
                }
                &&& final(db).rss_id_index == old(db).rss_id_index
            },
        },
{
    match fetched {
        Err(reason) => Err(Error { inner: reason }),
        Ok(info) => {
            let t = item_torrent(info, now);
            Ok(db.store_item_metadata(rss_id, item_id, t))
        },
    }
}

} // verus!

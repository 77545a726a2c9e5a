//! The configuration and the subscription registry: the map from id to
//! subscription record together with the id counter.

use vstd::prelude::*;
use std::collections::HashMap;
use vstd::std_specs::iter::IteratorSpec;
use crate::downloader::DownloadTask;
use crate::api::{Context, Error};
use crate::feed::FeedChannel;
use crate::subscription::{DiffKey, ItemTorrent, ItemTorrentView, RssItemStatus, Rss, RssView, RssItemView};

verus! {

/// Trackers handed to the acquisition engine.
#[derive(Debug, Clone)]
pub struct TorrentOptions {
    pub trackers: Vec<String>,
}

#[derive(Debug, Clone)]
pub struct Config {
    pub bind_address: String,
    pub password: String,
    pub username: String,
    pub token: Option<String>,
    pub db_path: String,
    pub session_path: String,
    pub torrent_options: TorrentOptions,
    pub output_path: String,
}

impl Config {
    /// The same configuration with another password.
    pub fn update_password(self, new_pw: String) -> (r: Self)
        ensures
            r == (Config { password: new_pw, ..self }),
    {
        Config { password: new_pw, ..self }
    }

    /// The same configuration with another bind address.
    pub fn update_bind_addr(self, new_ba: String) -> (r: Self)
        ensures
            r == (Config { bind_address: new_ba, ..self }),
    {
        Config { bind_address: new_ba, ..self }
    }
}

impl Default for Config {
    fn default() -> (r: Self)
        ensures
            r.bind_address@ == "[::]:8001"@,
            r.username@ == "admin"@,
            r.password@ == ""@,
            r.token is None,
            r.db_path@ == "./db.bin"@,
            r.session_path@ == "./session"@,
            r.torrent_options.trackers@.len() == 0,
            r.output_path@ == "./downloads"@,
    {
        Config {
            bind_address: "[::]:8001".to_owned(),
            username: "admin".to_owned(),
            password: "".to_owned(),
            token: None,
            db_path: "./db.bin".to_owned(),
            session_path: "./session".to_owned(),
            torrent_options: TorrentOptions { trackers: Vec::new() },
            output_path: "./downloads".to_owned(),
        }
    }
}

/// The summary of one subscription, as listed.
#[derive(Debug, Clone)]
pub struct RssInfo {
    pub title: String,
    pub description: String,
    pub update: u64,
    pub update_interval: u64,
    pub item_num: usize,
    pub id: usize,
}

pub struct RssInfoView {
    pub title: Seq<char>,
    pub description: Seq<char>,
    pub update: u64,
    pub update_interval: u64,
    pub item_num: nat,
    pub id: usize,
}

impl View for RssInfo {
    type V = RssInfoView;

    open spec fn view(&self) -> RssInfoView {
        RssInfoView {
            title: self.title@,
            description: self.description@,
            update: self.update,
            update_interval: self.update_interval,
            item_num: self.item_num as nat,
            id: self.id,
        }
    }
}

pub open spec fn info_of(r: RssView) -> RssInfoView {
    RssInfoView {
        title: r.title,
        description: r.description,
        update: r.update_time,
        update_interval: r.update_interval,
        item_num: r.items.len(),
        id: r.id,
    }
}

/// The summaries of the records with ids `1..=n`, in increasing id order.
pub open spec fn listed(m: Map<usize, Rss>, n: nat) -> Seq<RssInfoView>
    decreases n,
{
    if n == 0 {
        seq![]
    } else {
        let prev = listed(m, (n - 1) as nat);
        if m.contains_key(n as usize) {
            prev.push(info_of(m[n as usize]@))
        } else {
            prev
        }
    }
}

/// What became of metadata delivered for an item.
#[derive(Debug, Clone, Copy, PartialEq, Eq, Structural)]
pub enum MetadataOutcome {
    /// The subscription or the item is gone; nothing was changed.
    Gone,
    /// The metadata was stored on the item.
    Stored,
    /// The metadata was stored, and the item is unread in a subscription that
    /// downloads automatically: a download of its link is to be dispatched
    /// (and the item marked `Downloading` once the engine has taken it).
    Dispatch,
}

impl RssView {
    /// Whether metadata arriving for item `item_id` starts a download.
    pub open spec fn dispatches(self, item_id: int) -> bool {
        self.auto_download && self.items[item_id].status == RssItemStatus::Unread
    }

    /// The record once item `item_id` has received metadata `t`.
    pub open spec fn with_metadata(self, item_id: int, t: ItemTorrentView) -> RssView {
        RssView {
            items: self.items.update(item_id, RssItemView { torrent: Some(t), ..self.items[item_id] }),
            ..self
        }
    }

    /// The record once item `item_id` has taken status `status`.
    pub open spec fn with_status(self, item_id: int, status: RssItemStatus) -> RssView {
        RssView {
            items: self.items.update(item_id, RssItemView { status, ..self.items[item_id] }),
            ..self
        }
    }
}

/// Every record is stored under its own id, and every id was drawn from a
/// counter that stands at `n`.
pub open spec fn consistent(m: Map<usize, Rss>, n: usize) -> bool {
    forall|k: usize| #[trigger] m.contains_key(k) ==> 1 <= k <= n && m[k].id == k
}

/// Key `k` holds the record with id `k`, drawn from a counter at `n`.
pub open spec fn stored_under(m: Map<usize, Rss>, k: usize, n: usize) -> bool {
    1 <= k <= n && m.contains_key(k) && m[k].id == k
}

/// Delivering metadata twice to the same item keeps only the later
/// metadata, and neither delivery changes anything but the item's metadata.
pub proof fn lemma_metadata_overwrites(record: RssView, item_id: int, t1: ItemTorrentView, t2: ItemTorrentView)
    requires
        0 <= item_id < record.items.len(),
    ensures
        record.with_metadata(item_id, t1).with_metadata(item_id, t2) == record.with_metadata(item_id, t2),
        record.with_metadata(item_id, t2).items[item_id] == (RssItemView {
            torrent: Some(t2),
            ..record.items[item_id]
        }),
        record.with_metadata(item_id, t2).items.len() == record.items.len(),
        forall|j: int| 0 <= j < record.items.len() && j != item_id
            ==> #[trigger] record.with_metadata(item_id, t2).items[j] == record.items[j],
{
    assert(record.with_metadata(item_id, t1).with_metadata(item_id, t2).items =~= record.with_metadata(item_id, t2).items);
}

/// The registry: subscriptions by id, and the counter that the last
/// assigned id came from.
pub struct DataBase {
    pub rss_list: HashMap<usize, Rss>,
    pub rss_id_index: usize,
    pub download_task_list: Vec<DownloadTask>,
}

impl DataBase {
    /// Every record is stored under its own id, and every id was drawn
    /// from the counter.
    pub open spec fn wf(&self) -> bool {
        consistent(self.rss_list@, self.rss_id_index)
    }

    /// A registry of the given parts, where they are consistent (see
    /// `consistent`); `None` otherwise. This is how a loaded snapshot is
    /// admitted.
    pub fn from_parts(rss_list: HashMap<usize, Rss>, rss_id_index: usize, download_task_list: Vec<DownloadTask>) -> (r: Option<DataBase>)
        ensures
            consistent(rss_list@, rss_id_index) ==> r is Some && r->Some_0.rss_list@ == rss_list@
                && r->Some_0.rss_id_index == rss_id_index && r->Some_0.download_task_list@
                == download_task_list@,
            !consistent(rss_list@, rss_id_index) ==> r is None,
    {
        let mut ok = true;
        let ghost ks = rss_list.keys().remaining();
        for k in it: rss_list.keys()
            invariant
                it.seq() == ks,
                ok ==> forall|j: int| 0 <= j < it.index() ==> stored_under(rss_list@, *#[trigger] ks[j], rss_id_index),
                !ok ==> exists|j: int| 0 <= j < it.index() && !stored_under(rss_list@, *#[trigger] ks[j], rss_id_index),
        {
            let good = match rss_list.get(k) {
                Some(v) => 1 <= *k && *k <= rss_id_index && v.id == *k,
                None => false,
            };
            ok = ok && good;
        }
        proof {
            assert(ks.unref().to_set() == rss_list@.dom());
            if ok {
                assert forall|k: usize| #[trigger] rss_list@.contains_key(k) implies 1 <= k <= rss_id_index
                    && rss_list@[k].id == k by {
                    assert(ks.unref().to_set().contains(k));
                    let j = choose|j: int| 0 <= j < ks.unref().len() && ks.unref()[j] == k;
                    assert(stored_under(rss_list@, *ks[j], rss_id_index));
                }
            } else {
                let j = choose|j: int| 0 <= j < ks.len() && !stored_under(rss_list@, *#[trigger] ks[j], rss_id_index);
                let k = *ks[j];
                assert(ks.unref()[j] == k);
                assert(ks.unref().to_set().contains(k));
                assert(rss_list@.contains_key(k));
            }
        }
        if ok {
            Some(DataBase { rss_list, rss_id_index, download_task_list })
        } else {
            None
        }
    }

    /// What taking `rss` does: on success with `Some(id)`, `id` is
    /// `rss_id_index + 1`, becomes the counter, is not yet in use and exceeds
    /// every id in use; the record is stored under it with that id and every
    /// other record stays. `None` comes only with an exhausted counter, and
    /// then nothing changes.
    pub open spec fn add_result(self, record: Rss, r: Option<usize>, next: DataBase) -> bool {
        match r {
            Some(id) => {
                &&& self.rss_id_index < usize::MAX
                &&& id == self.rss_id_index + 1
                &&& next.rss_id_index == id
                &&& !self.rss_list@.contains_key(id)
                &&& forall|k: usize| #[trigger] self.rss_list@.contains_key(k) ==> k < id
                &&& next.rss_list@.dom() == self.rss_list@.dom().insert(id)
                &&& forall|k: usize| #[trigger]
                    self.rss_list@.contains_key(k) ==> next.rss_list@[k] == self.rss_list@[k]
                &&& next.rss_list@[id]@ == (RssView { id, ..record@ })
                &&& next.download_task_list == self.download_task_list
            },
            None => {
                &&& self.rss_id_index == usize::MAX
                &&& next == self
            },
        }
    }

    /// An empty registry.
    pub fn new() -> (r: DataBase)
        ensures
            r.wf(),
            r.rss_list@ == Map::<usize, Rss>::empty(),
            r.rss_id_index == 0,
            r.download_task_list@.len() == 0,
    {
        DataBase { rss_list: HashMap::new(), rss_id_index: 0, download_task_list: Vec::new() }
    }

    /// Takes a new subscription: it gets id `rss_id_index + 1`, which becomes
    /// the counter, and is stored under it. Every id in use is smaller. Fails,
    /// changing nothing, only when the counter is exhausted.
    pub fn add_subscription(&mut self, record: Rss) -> (r: Option<usize>)
        requires
            old(self).wf(),
        ensures
            final(self).wf(),
            old(self).add_result(record, r, *final(self)),
    {
        if self.rss_id_index == usize::MAX {
            return None;
        }
        let id = self.rss_id_index + 1;
        let mut record = record;
        record.id = id;
        self.rss_id_index = id;
        self.rss_list.insert(id, record);
        Some(id)
    }

    /// Replaces the record stored under `rss.id`, if there is one; where the
    /// id is gone the call changes nothing. Returns whether it replaced.
    pub fn update_subscription(&mut self, record: Rss) -> (r: bool)
        requires
            old(self).wf(),
        ensures
            final(self).wf(),
            r == old(self).rss_list@.contains_key(record.id),
            r ==> final(self).rss_list@ == old(self).rss_list@.insert(record.id, record),
            !r ==> final(self).rss_list@ == old(self).rss_list@,
            final(self).rss_id_index == old(self).rss_id_index,
            final(self).download_task_list == old(self).download_task_list,
    {
        if self.rss_list.contains_key(&record.id) {
            let id = record.id;
            self.rss_list.insert(id, record);
            true
        } else {
            false
        }
    }

    /// The record stored under `id`.
    pub fn get(&self, id: usize) -> (r: Option<&Rss>)
        ensures
            match r {
                Some(v) => self.rss_list@.contains_key(id) && *v == self.rss_list@[id],
                None => !self.rss_list@.contains_key(id),
            },
    {
        self.rss_list.get(&id)
    }

    /// The summaries of all records, in increasing id order.
    pub fn list_subscriptions(&self) -> (r: Vec<RssInfo>)
        ensures
            r@.map_values(|i: RssInfo| i@) == listed(self.rss_list@, self.rss_id_index as nat),
    {
        let mut out: Vec<RssInfo> = Vec::new();
        let mut i: usize = 0;
        while i < self.rss_id_index
            invariant
                i <= self.rss_id_index,
                out@.map_values(|x: RssInfo| x@) == listed(self.rss_list@, i as nat),
            decreases self.rss_id_index - i,
        {
            i = i + 1;
            let ghost before = out@;
            match self.rss_list.get(&i) {
                Some(record) => {
                    let info = RssInfo {
                        title: record.title.clone(),
                        description: record.description.clone(),
                        update: record.update_time,
                        update_interval: record.update_interval,
                        item_num: record.items.len(),
                        id: record.id,
                    };
                    out.push(info);
                    assert(out@.map_values(|x: RssInfo| x@) =~= before.map_values(|x: RssInfo| x@).push(info@));
                },
                None => {},
            }
        }
        out
    }

    /// Drops the record stored under `id`; its poller then stops.
    pub fn remove_subscription(&mut self, id: usize) -> (r: Option<Rss>)
        requires
            old(self).wf(),
        ensures
            final(self).wf(),
            final(self).rss_list@ == old(self).rss_list@.remove(id),
            match r {
                Some(v) => old(self).rss_list@.contains_key(id) && v == old(self).rss_list@[id],
                None => !old(self).rss_list@.contains_key(id),
            },
            final(self).rss_id_index == old(self).rss_id_index,
            final(self).download_task_list == old(self).download_task_list,
    {
        self.rss_list.remove(&id)
    }

    /// Applies the outcome of one poll of subscription `id` at `now`: a
    /// fetched feed is diffed by `key` and its new items appended; a failed
    /// fetch sets the error status and keeps the items. Returns how many
    /// items were added, or `None`, changing nothing, where the record is
    /// gone.
    pub fn apply_poll(&mut self, id: usize, fetched: Result<FeedChannel, String>, key: DiffKey, now: u64) -> (r: Option<usize>)
        requires
            old(self).wf(),
        ensures
            final(self).wf(),
            final(self).rss_list@.dom() == old(self).rss_list@.dom(),
            forall|k: usize| #[trigger] old(self).rss_list@.contains_key(k) && k != id
                ==> final(self).rss_list@[k] == old(self).rss_list@[k],
            final(self).rss_id_index == old(self).rss_id_index,
            final(self).download_task_list == old(self).download_task_list,
            !old(self).rss_list@.contains_key(id) ==> r is None && final(self).rss_list@ == old(self).rss_list@,
            old(self).rss_list@.contains_key(id) ==> match fetched {
                Ok(feed) => {
                    &&& final(self).rss_list@[id]@ == old(self).rss_list@[id]@.after_fetch(feed.entries_view(), key, now)
                    &&& r == Some(old(self).rss_list@[id]@.new_items(feed.entries_view(), key).len() as usize)
                },
                Err(reason) => {
                    &&& final(self).rss_list@[id]@ == old(self).rss_list@[id]@.after_error(reason@, now)
                    &&& final(self).rss_list@[id].items@ == old(self).rss_list@[id].items@
                    &&& r == Some(0usize)
                },
            },
    {
        match self.rss_list.remove(&id) {
            None => {
                proof {
                    assert(self.rss_list@ =~= old(self).rss_list@);
                }
                None
            },
            Some(record) => {
                let mut record = record;
                let n = match fetched {
                    Ok(feed) => record.apply_fetch(&feed, key, now),
                    Err(reason) => {
                        record.apply_fetch_error(reason, now);
                        0
                    },
                };
                self.rss_list.insert(id, record);
                proof {
                    assert(self.rss_list@.dom() =~= old(self).rss_list@.dom());
                }
                Some(n)
            },
        }
    }

    /// Stores metadata `torrent` on item `item_id` of subscription `rss_id`,
    /// replacing any earlier metadata. Where the subscription or the item is
    /// gone nothing changes. Only the item's metadata changes; the outcome
    /// says whether a download is to be dispatched (see `MetadataOutcome`).
    pub fn store_item_metadata(&mut self, rss_id: usize, item_id: usize, torrent: ItemTorrent) -> (r: MetadataOutcome)
        requires
            old(self).wf(),
        ensures
            final(self).wf(),
            final(self).rss_id_index == old(self).rss_id_index,
            final(self).download_task_list == old(self).download_task_list,
            !(old(self).rss_list@.contains_key(rss_id) && item_id < old(self).rss_list@[rss_id].items@.len())
                ==> r == MetadataOutcome::Gone && final(self).rss_list@ == old(self).rss_list@,
            (old(self).rss_list@.contains_key(rss_id) && item_id < old(self).rss_list@[rss_id].items@.len())
                ==> {
                &&& final(self).rss_list@.dom() == old(self).rss_list@.dom()
                &&& forall|k: usize| #[trigger] old(self).rss_list@.contains_key(k) && k != rss_id
                    ==> final(self).rss_list@[k] == old(self).rss_list@[k]
                &&& final(self).rss_list@[rss_id]@ == old(self).rss_list@[rss_id]@.with_metadata(item_id as int, torrent@)
                &&& r == if old(self).rss_list@[rss_id]@.dispatches(item_id as int) {
                    MetadataOutcome::Dispatch
                } else {
                    MetadataOutcome::Stored
                }
            },
    {
        match self.rss_list.remove(&rss_id) {
            None => {
                proof {
                    assert(self.rss_list@ =~= old(self).rss_list@);
                }
                MetadataOutcome::Gone
            },
            Some(record) => {
                let mut record = record;
                if item_id >= record.items.len() {
                    self.rss_list.insert(rss_id, record);
                    proof {
                        assert(self.rss_list@ =~= old(self).rss_list@);
                    }
                    return MetadataOutcome::Gone;
                }
                let ghost before = record@;
                let dispatch = record.auto_download && record.items[item_id].status == RssItemStatus::Unread;
                record.items[item_id].torrent = Some(torrent);
                proof {
                    assert(record@.items =~= before.with_metadata(item_id as int, torrent@).items);
                }
                self.rss_list.insert(rss_id, record);
                proof {
                    assert(self.rss_list@.dom() =~= old(self).rss_list@.dom());
                }
                if dispatch {
                    MetadataOutcome::Dispatch
                } else {
                    MetadataOutcome::Stored
                }
            },
        }
    }

    /// Sets the status of item `item_id` of subscription `rss_id`. Returns
    /// whether the item was there; where it is gone nothing changes.
    fn set_item_status(&mut self, rss_id: usize, item_id: usize, status: RssItemStatus) -> (r: bool)
        requires
            old(self).wf(),
        ensures
            final(self).wf(),
            final(self).rss_id_index == old(self).rss_id_index,
            final(self).download_task_list == old(self).download_task_list,
            r == (old(self).rss_list@.contains_key(rss_id) && item_id < old(self).rss_list@[rss_id].items@.len()),
            !r ==> final(self).rss_list@ == old(self).rss_list@,
            r ==> {
                &&& final(self).rss_list@.dom() == old(self).rss_list@.dom()
                &&& forall|k: usize| #[trigger] old(self).rss_list@.contains_key(k) && k != rss_id
                    ==> final(self).rss_list@[k] == old(self).rss_list@[k]
                &&& final(self).rss_list@[rss_id]@ == old(self).rss_list@[rss_id]@.with_status(item_id as int, status)
            },
    {
        match self.rss_list.remove(&rss_id) {
            None => {
                proof {
                    assert(self.rss_list@ =~= old(self).rss_list@);
                }
                false
            },
            Some(record) => {
                let mut record = record;
                if item_id >= record.items.len() {
                    self.rss_list.insert(rss_id, record);
                    proof {
                        assert(self.rss_list@ =~= old(self).rss_list@);
                    }
                    return false;
                }
                let ghost before = record@;
                record.items[item_id].status = status;
                proof {
                    assert(record@.items =~= before.with_status(item_id as int, status).items);
                }
                self.rss_list.insert(rss_id, record);
                proof {
                    assert(self.rss_list@.dom() =~= old(self).rss_list@.dom());
                }
                true
            },
        }
    }

    /// Marks item `item_id` of subscription `rss_id` as downloading, once
    /// the engine has taken its download. Returns whether the item was
    /// there; where it is gone nothing changes.
    pub fn mark_downloading(&mut self, rss_id: usize, item_id: usize) -> (r: bool)
        requires
            old(self).wf(),
        ensures
            final(self).wf(),
            final(self).rss_id_index == old(self).rss_id_index,
            final(self).download_task_list == old(self).download_task_list,
            r == (old(self).rss_list@.contains_key(rss_id) && item_id < old(self).rss_list@[rss_id].items@.len()),
            !r ==> final(self).rss_list@ == old(self).rss_list@,
            r ==> {
                &&& final(self).rss_list@.dom() == old(self).rss_list@.dom()
                &&& forall|k: usize| #[trigger] old(self).rss_list@.contains_key(k) && k != rss_id
                    ==> final(self).rss_list@[k] == old(self).rss_list@[k]
                &&& final(self).rss_list@[rss_id]@ == old(self).rss_list@[rss_id]@.with_status(item_id as int, RssItemStatus::Downloading)
            },
    {
        self.set_item_status(rss_id, item_id, RssItemStatus::Downloading)
    }

    /// Marks item `item_id` of subscription `rss_id` as downloaded. Returns
    /// whether the item was there; where it is gone nothing changes.
    pub fn mark_downloaded(&mut self, rss_id: usize, item_id: usize) -> (r: bool)
        requires
            old(self).wf(),
        ensures
            final(self).wf(),
            final(self).rss_id_index == old(self).rss_id_index,
            final(self).download_task_list == old(self).download_task_list,
            r == (old(self).rss_list@.contains_key(rss_id) && item_id < old(self).rss_list@[rss_id].items@.len()),
            !r ==> final(self).rss_list@ == old(self).rss_list@,
            r ==> {
                &&& final(self).rss_list@.dom() == old(self).rss_list@.dom()
                &&& forall|k: usize| #[trigger] old(self).rss_list@.contains_key(k) && k != rss_id
                    ==> final(self).rss_list@[k] == old(self).rss_list@[k]
                &&& final(self).rss_list@[rss_id]@ == old(self).rss_list@[rss_id]@.with_status(item_id as int, RssItemStatus::Downloaded)
            },
    {
        self.set_item_status(rss_id, item_id, RssItemStatus::Downloaded)
    }

    /// Whether subscription `rss_id` is stored and holds item `item_id`.
    pub fn has_item(&self, rss_id: usize, item_id: usize) -> (r: bool)
        ensures
            r == (self.rss_list@.contains_key(rss_id) && item_id < self.rss_list@[rss_id].items@.len()),
    {
        match self.rss_list.get(&rss_id) {
            Some(record) => item_id < record.items.len(),
            None => false,
        }
    }

    /// The link of item `item_id` of subscription `rss_id`, which the
    /// metadata fetcher hands to the acquisition engine.
    pub fn item_link(&self, rss_id: usize, item_id: usize) -> (r: Result<String, Error>)
        ensures
            !self.rss_list@.contains_key(rss_id) ==> r is Err && r->Err_0.inner@ == "Missing Rss not found"@,
            self.rss_list@.contains_key(rss_id) && item_id >= self.rss_list@[rss_id].items@.len()
                ==> r is Err && r->Err_0.inner@ == "Missing Item not found"@,
            self.rss_list@.contains_key(rss_id) && item_id < self.rss_list@[rss_id].items@.len()
                ==> r is Ok && r->Ok_0@ == self.rss_list@[rss_id].items@[item_id as int].link@,
    {
        proof {
            reveal_strlit("Missing ");
            reveal_strlit("Rss not found");
            reveal_strlit("Item not found");
            reveal_strlit("Missing Rss not found");
            reveal_strlit("Missing Item not found");
            assert("Missing "@ + "Rss not found"@ =~= "Missing Rss not found"@);
            assert("Missing "@ + "Item not found"@ =~= "Missing Item not found"@);
        }
        let record = match self.rss_list.get(&rss_id).context("Rss not found") {
            Ok(v) => v,
            Err(e) => {
                return Err(e);
            },
        };
        let item = match record.items.get(item_id).context("Item not found") {
            Ok(v) => v,
            Err(e) => {
                return Err(e);
            },
        };
        Ok(item.link.clone())
    }
}

} // verus!

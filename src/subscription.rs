//! Subscription records and their items, and the poll pipeline that turns a
//! fetched feed into new items: parse, diff against what is known, number,
//! append.

use vstd::prelude::*;
use crate::feed::{FeedChannel, FeedEntry, FeedEntryView};

verus! {

/// The default poll interval of a new subscription, in seconds.
pub const DEFAULT_UPDATE_INTERVAL: u64 = 3600;

/// One file of a torrent's listing.
#[derive(Debug, Clone)]
pub struct TorrentFileInfo {
    pub filename: String,
    pub offset: u64,
    pub length: u64,
}

/// File-listing metadata of an item, with the time (seconds since the Unix
/// epoch) it was fetched.
#[derive(Debug, Clone)]
pub struct ItemTorrent {
    pub files: Vec<TorrentFileInfo>,
    pub update_time: u64,
}

#[derive(Debug, Clone, Copy, PartialEq, Eq, Structural)]
pub enum RssItemStatus {
    Unread,
    Read,
    Downloading,
    Downloaded,
}

#[derive(Debug, Clone)]
pub enum RssStatus {
    Read,
    Created,
    Updated,
    Error(String),
}

/// One entry discovered by a poll. Its id is its position in the
/// subscription's item list.
#[derive(Debug, Clone)]
pub struct RssItem {
    pub title: String,
    pub link: String,
    pub description: String,
    pub status: RssItemStatus,
    pub torrent: Option<ItemTorrent>,
    pub id: usize,
}

/// A tracked feed. Times are seconds since the Unix epoch, the interval is
/// in seconds.
#[derive(Debug, Clone)]
pub struct Rss {
    pub id: usize,
    pub url: String,
    pub title: String,
    pub description: String,
    pub items: Vec<RssItem>,
    pub update_time: u64,
    pub update_interval: u64,
    pub status: RssStatus,
    pub auto_download: bool,
}

/// Which part of an item identifies it when a poll is diffed against the
/// items already known.
#[derive(Debug, Clone, Copy, PartialEq, Eq, Structural)]
pub enum DiffKey {
    Title,
    Link,
}

/// What a poller does next.
#[derive(Debug, Clone, Copy, PartialEq, Eq, Structural)]
pub enum PollAction {
    /// The record is gone: the poller ends.
    Stop,
    /// Sleep this many seconds, then look again.
    Sleep(u64),
    /// Fetch the feed now.
    Fetch,
}

pub struct TorrentFileInfoView {
    pub filename: Seq<char>,
    pub offset: u64,
    pub length: u64,
}

pub struct ItemTorrentView {
    pub files: Seq<TorrentFileInfoView>,
    pub update_time: u64,
}

pub enum RssStatusView {
    Read,
    Created,
    Updated,
    Error(Seq<char>),
}

pub struct RssItemView {
    pub title: Seq<char>,
    pub link: Seq<char>,
    pub description: Seq<char>,
    pub status: RssItemStatus,
    pub torrent: Option<ItemTorrentView>,
    pub id: usize,
}

pub struct RssView {
    pub id: usize,
    pub url: Seq<char>,
    pub title: Seq<char>,
    pub description: Seq<char>,
    pub items: Seq<RssItemView>,
    pub update_time: u64,
    pub update_interval: u64,
    pub status: RssStatusView,
    pub auto_download: bool,
}

impl View for TorrentFileInfo {
    type V = TorrentFileInfoView;

    open spec fn view(&self) -> TorrentFileInfoView {
        TorrentFileInfoView { filename: self.filename@, offset: self.offset, length: self.length }
    }
}

impl View for ItemTorrent {
    type V = ItemTorrentView;

    open spec fn view(&self) -> ItemTorrentView {
        ItemTorrentView {
            files: self.files@.map_values(|f: TorrentFileInfo| f@),
            update_time: self.update_time,
        }
    }
}

impl View for RssStatus {
    type V = RssStatusView;

    open spec fn view(&self) -> RssStatusView {
        match self {
            RssStatus::Read => RssStatusView::Read,
            RssStatus::Created => RssStatusView::Created,
            RssStatus::Updated => RssStatusView::Updated,
            RssStatus::Error(m) => RssStatusView::Error(m@),
        }
    }
}

pub open spec fn torrent_view(t: Option<ItemTorrent>) -> Option<ItemTorrentView> {
    match t {
        Some(v) => Some(v@),
        None => None,
    }
}

impl View for RssItem {
    type V = RssItemView;

    open spec fn view(&self) -> RssItemView {
        RssItemView {
            title: self.title@,
            link: self.link@,
            description: self.description@,
            status: self.status,
            torrent: torrent_view(self.torrent),
            id: self.id,
        }
    }
}

pub open spec fn items_view(items: Seq<RssItem>) -> Seq<RssItemView> {
    items.map_values(|i: RssItem| i@)
}

impl View for Rss {
    type V = RssView;

    open spec fn view(&self) -> RssView {
        RssView {
            id: self.id,
            url: self.url@,
            title: self.title@,
            description: self.description@,
            items: items_view(self.items@),
            update_time: self.update_time,
            update_interval: self.update_interval,
            status: self.status@,
            auto_download: self.auto_download,
        }
    }
}

/// The item that a feed entry with a link becomes: missing title and
/// description get placeholders; its id is the entry's position.
pub open spec fn entry_item(e: FeedEntryView, index: nat) -> RssItemView {
    RssItemView {
        title: match e.title {
            Some(t) => t,
            None => "Default Title"@,
        },
        link: e.link->Some_0,
        description: match e.description {
            Some(d) => d,
            None => "Default Description"@,
        },
        status: RssItemStatus::Unread,
        torrent: None,
        id: index as usize,
    }
}

/// The candidate items of a feed: one for each entry that has a link, in
/// document order. Entries without a link are skipped.
pub open spec fn candidates(entries: Seq<FeedEntryView>) -> Seq<RssItemView>
    decreases entries.len(),
{
    if entries.len() == 0 {
        seq![]
    } else {
        let prev = candidates(entries.drop_last());
        let e = entries.last();
        if e.link is Some {
            prev.push(entry_item(e, (entries.len() - 1) as nat))
        } else {
            prev
        }
    }
}

pub open spec fn key_of(i: RssItemView, key: DiffKey) -> Seq<char> {
    match key {
        DiffKey::Title => i.title,
        DiffKey::Link => i.link,
    }
}

/// Some item of `existing` has the same key as `c`.
pub open spec fn known(existing: Seq<RssItemView>, c: RssItemView, key: DiffKey) -> bool {
    exists|j: int| 0 <= j < existing.len() && #[trigger] key_of(existing[j], key) == key_of(c, key)
}

/// The candidates that no existing item matches, in order.
pub open spec fn fresh(existing: Seq<RssItemView>, cands: Seq<RssItemView>, key: DiffKey) -> Seq<
    RssItemView,
>
    decreases cands.len(),
{
    if cands.len() == 0 {
        seq![]
    } else {
        let prev = fresh(existing, cands.drop_last(), key);
        if known(existing, cands.last(), key) {
            prev
        } else {
            prev.push(cands.last())
        }
    }
}

/// `items` with ids `start`, `start + 1`, ... in order.
pub open spec fn numbered(items: Seq<RssItemView>, start: nat) -> Seq<RssItemView> {
    Seq::new(items.len(), |i: int| RssItemView { id: (start + i) as usize, ..items[i] })
}

/// Seconds since the last update; zero where the clock reads earlier.
pub open spec fn elapsed_since(update_time: u64, now: u64) -> u64 {
    if now >= update_time {
        (now - update_time) as u64
    } else {
        0
    }
}

impl RssView {
    /// The items that a poll of `entries` appends.
    pub open spec fn new_items(self, entries: Seq<FeedEntryView>, key: DiffKey) -> Seq<RssItemView> {
        numbered(fresh(self.items, candidates(entries), key), self.items.len())
    }

    /// The record after a successful poll of `entries` at `now`.
    pub open spec fn after_fetch(self, entries: Seq<FeedEntryView>, key: DiffKey, now: u64) -> RssView {
        RssView {
            items: self.items + self.new_items(entries, key),
            update_time: now,
            status: RssStatusView::Updated,
            ..self
        }
    }

    /// The record after a failed poll at `now`: items are kept.
    pub open spec fn after_error(self, reason: Seq<char>, now: u64) -> RssView {
        RssView { update_time: now, status: RssStatusView::Error(reason), ..self }
    }

    /// What the poller of this record does at `now`: a record that has been
    /// polled before waits out its interval, any other fetches at once.
    pub open spec fn poll_action(self, now: u64) -> PollAction {
        let elapsed = elapsed_since(self.update_time, now);
        if !(self.status is Created) && elapsed < self.update_interval {
            PollAction::Sleep((self.update_interval - elapsed) as u64)
        } else {
            PollAction::Fetch
        }
    }
}

fn owned_or(s: &Option<String>, default: &str) -> (r: String)
    ensures
        r@ == match s {
            Some(v) => v@,
            None => default@,
        },
{
    match s {
        Some(v) => v.clone(),
        None => default.to_owned(),
    }
}

proof fn lemma_candidates_step(entries: Seq<FeedEntryView>, i: int)
    requires
        0 <= i < entries.len(),
    ensures
        candidates(entries.take(i + 1)) == if entries[i].link is Some {
            candidates(entries.take(i)).push(entry_item(entries[i], i as nat))
        } else {
            candidates(entries.take(i))
        },
{
    assert(entries.take(i + 1).drop_last() =~= entries.take(i));
}

/// The candidate items of a feed's entries (see `candidates`).
pub fn candidate_items(entries: &Vec<FeedEntry>) -> (r: Vec<RssItem>)
    ensures
        items_view(r@) == candidates(entries@.map_values(|e: FeedEntry| e@)),
{
    let ghost ev = entries@.map_values(|e: FeedEntry| e@);
    let mut out: Vec<RssItem> = Vec::new();
    let mut i: usize = 0;
    while i < entries.len()
        invariant
            i <= entries@.len(),
            ev == entries@.map_values(|e: FeedEntry| e@),
            items_view(out@) == candidates(ev.take(i as int)),
        decreases entries@.len() - i,
    {
        let e = &entries[i];
        proof {
            lemma_candidates_step(ev, i as int);
        }
        match &e.link {
            Some(link) => {
                let item = RssItem {
                    title: owned_or(&e.title, "Default Title"),
                    link: link.clone(),
                    description: owned_or(&e.description, "Default Description"),
                    status: RssItemStatus::Unread,
                    torrent: None,
                    id: i,
                };
                let ghost before = out@;
                out.push(item);
                assert(items_view(out@) =~= items_view(before).push(item@));
            },
            None => {},
        }
        i = i + 1;
    }
    assert(ev.take(entries@.len() as int) =~= ev);
    out
}

impl RssItem {
    /// Whether two items carry the same title.
    pub fn comprare(&self, item: &Self) -> (r: bool)
        ensures
            r == (self.title@ == item.title@),
    {
        self.title == item.title
    }

    /// Whether two items carry the same key.
    pub fn same_key(&self, item: &Self, key: DiffKey) -> (r: bool)
        ensures
            r == (key_of(self@, key) == key_of(item@, key)),
    {
        match key {
            DiffKey::Title => self.title == item.title,
            DiffKey::Link => self.link == item.link,
        }
    }
}

/// Whether one of the first `upto` items of `existing` has the key of `c`.
fn is_known(existing: &Vec<RssItem>, upto: usize, c: &RssItem, key: DiffKey) -> (r: bool)
    requires
        upto <= existing@.len(),
    ensures
        r == known(items_view(existing@).take(upto as int), c@, key),
{
    let ghost ex = items_view(existing@).take(upto as int);
    let mut j: usize = 0;
    while j < upto
        invariant
            j <= upto <= existing@.len(),
            ex == items_view(existing@).take(upto as int),
            forall|m: int| 0 <= m < j ==> key_of(#[trigger] ex[m], key) != key_of(c@, key),
        decreases upto - j,
    {
        if existing[j].same_key(c, key) {
            assert(key_of(ex[j as int], key) == key_of(c@, key));
            return true;
        }
        j = j + 1;
    }
    false
}

proof fn lemma_fresh_step(existing: Seq<RssItemView>, cands: Seq<RssItemView>, key: DiffKey, i: int)
    requires
        0 <= i < cands.len(),
    ensures
        fresh(existing, cands.take(i + 1), key) == if known(existing, cands[i], key) {
            fresh(existing, cands.take(i), key)
        } else {
            fresh(existing, cands.take(i), key).push(cands[i])
        },
{
    assert(cands.take(i + 1).drop_last() =~= cands.take(i));
}

impl Rss {
    /// The model of `Rss::new(url, title, description, auto_download, now)`.
    pub open spec fn new_view(url: Seq<char>, title: Seq<char>, description: Seq<char>, auto_download: bool, now: u64) -> RssView {
        RssView {
            id: 0,
            url,
            title,
            description,
            items: seq![],
            update_time: now,
            update_interval: DEFAULT_UPDATE_INTERVAL,
            status: RssStatusView::Created,
            auto_download,
        }
    }

    /// A new subscription to `url`, never polled yet, with the default
    /// interval. Its id is assigned when the registry takes it.
    pub fn new(url: String, title: String, description: String, auto_download: bool, now: u64) -> (r: Rss)
        ensures
            r@ == Rss::new_view(url@, title@, description@, auto_download, now),
    {
        let r = Rss {
            id: 0,
            url,
            title,
            description,
            items: Vec::new(),
            update_time: now,
            update_interval: DEFAULT_UPDATE_INTERVAL,
            status: RssStatus::Created,
            auto_download,
        };
        assert(items_view(r.items@) =~= seq![]);
        r
    }

    /// A copy of the record's summary: everything but its items, with the
    /// status reset to `Created`.
    pub fn info(&self) -> (r: Rss)
        ensures
            r@ == (RssView { items: seq![], status: RssStatusView::Created, ..self@ }),
    {
        let r = Rss {
            id: self.id,
            url: self.url.clone(),
            title: self.title.clone(),
            description: self.description.clone(),
            items: Vec::new(),
            update_time: self.update_time,
            update_interval: self.update_interval,
            status: RssStatus::Created,
            auto_download: self.auto_download,
        };
        assert(items_view(r.items@) =~= seq![]);
        r
    }

    /// What the poller of this record does at `now` (see
    /// `RssView::poll_action`); never `Stop`.
    pub fn poll_action(&self, now: u64) -> (r: PollAction)
        ensures
            r == self@.poll_action(now),
            r != PollAction::Stop,
            self.status is Created ==> r == PollAction::Fetch,
            self.status is Updated && elapsed_since(self.update_time, now) < self.update_interval
                ==> r == PollAction::Sleep(
                (self.update_interval - elapsed_since(self.update_time, now)) as u64,
            ),
    {
        let elapsed: u64 = if now >= self.update_time {
            now - self.update_time
        } else {
            0
        };
        let created = match self.status {
            RssStatus::Created => true,
            _ => false,
        };
        if !created && elapsed < self.update_interval {
            PollAction::Sleep(self.update_interval - elapsed)
        } else {
            PollAction::Fetch
        }
    }

    /// Records a failed poll at `now`: the status becomes `Error(reason)`,
    /// the items stay as they are, and the next attempt waits a full
    /// interval.
    pub fn apply_fetch_error(&mut self, reason: String, now: u64)
        ensures
            final(self)@ == old(self)@.after_error(reason@, now),
            final(self).items@ == old(self).items@,
    {
        self.update_time = now;
        self.status = RssStatus::Error(reason);
    }

    /// Records a successful poll of `feed` at `now`: the feed's candidate
    /// items that no known item matches by `key` are appended with ids
    /// continuing from the current item count; the update time becomes
    /// `now` and the status `Updated`. Returns how many items were added.
    pub fn apply_fetch(&mut self, feed: &FeedChannel, key: DiffKey, now: u64) -> (n: usize)
        ensures
            final(self)@ == old(self)@.after_fetch(feed.entries_view(), key, now),
            n == old(self)@.new_items(feed.entries_view(), key).len(),
            final(self).items@.len() == old(self).items@.len() + n,
            final(self).items@.take(old(self).items@.len() as int) == old(self).items@,
            forall|j: int|
                old(self).items@.len() <= j < final(self).items@.len() ==> (#[trigger] final(self).items@[j]).id == j,
    {
        let cands = candidate_items(&feed.entries);
        let ghost cv = items_view(cands@);
        let ghost old_items = self.items@;
        let ghost ov = items_view(old_items);
        let old_len = self.items.len();
        let mut i: usize = 0;
        while i < cands.len()
            invariant
                i <= cands@.len(),
                cv == items_view(cands@),
                cv == candidates(feed.entries_view()),
                ov == items_view(old_items),
                old_len == old_items.len(),
                self.items@.len() >= old_len,
                self.items@.take(old_len as int) == old_items,
                items_view(self.items@) == ov + numbered(fresh(ov, cv.take(i as int), key), old_len as nat),
                self.id == old(self).id,
                self.url == old(self).url,
                self.title == old(self).title,
                self.description == old(self).description,
                self.update_time == old(self).update_time,
                self.update_interval == old(self).update_interval,
                self.status == old(self).status,
                self.auto_download == old(self).auto_download,
            decreases cands@.len() - i,
        {
            let c = &cands[i];
            proof {
                lemma_fresh_step(ov, cv, key, i as int);
                assert(items_view(self.items@).take(old_len as int) =~= ov);
            }
            if !is_known(&self.items, old_len, c, key) {
                let ghost before = self.items@;
                let ghost fr = fresh(ov, cv.take(i as int), key);
                let item = RssItem {
                    title: c.title.clone(),
                    link: c.link.clone(),
                    description: c.description.clone(),
                    status: c.status,
                    torrent: None,
                    id: self.items.len(),
                };
                proof {
                    assert(cv[i as int].torrent is None) by {
                        lemma_candidates_untouched(feed.entries_view());
                    }
                }
                self.items.push(item);
                proof {
                    assert(self.items@.take(old_len as int) =~= before.take(old_len as int));
                    assert(items_view(self.items@) =~= items_view(before).push(item@));
                    assert(numbered(fr.push(cv[i as int]), old_len as nat) =~= numbered(fr, old_len as nat).push(item@));
                    assert(items_view(self.items@) =~= ov + numbered(fr.push(cv[i as int]), old_len as nat));
                }
            }
            i = i + 1;
        }
        proof {
            assert(cv.take(cands@.len() as int) =~= cv);
        }
        self.update_time = now;
        self.status = RssStatus::Updated;
        let n = self.items.len() - old_len;
        proof {
            let nv = self@.items;
            assert(nv == ov + old(self)@.new_items(feed.entries_view(), key));
            assert forall|j: int| old_len <= j < self.items@.len() implies #[trigger] self.items@[j].id == j by {
                assert(nv[j] == self.items@[j]@);
                assert(nv[j] == old(self)@.new_items(feed.entries_view(), key)[j - old_len]);
            }
        }
        n
    }
}

/// The ids of the items from position `from` on that have no metadata yet,
/// in increasing order.
pub open spec fn pending_from(items: Seq<RssItemView>, from: int) -> Seq<usize>
    decreases items.len(),
{
    if items.len() == 0 || items.len() <= from {
        seq![]
    } else {
        let prev = pending_from(items.drop_last(), from);
        if items.last().torrent is None {
            prev.push((items.len() - 1) as usize)
        } else {
            prev
        }
    }
}

impl Rss {
    /// The positions, from `from` on, of the items that still lack
    /// metadata: those a metadata fetch is started for.
    pub fn pending_metadata(&self, from: usize) -> (r: Vec<usize>)
        ensures
            r@ == pending_from(self@.items, from as int),
    {
        let ghost iv = self@.items;
        let mut out: Vec<usize> = Vec::new();
        let mut i: usize = from;
        if i > self.items.len() {
            i = self.items.len();
        }
        proof {
            assert(pending_from(iv.take(i as int), from as int) == Seq::<usize>::empty());
        }
        while i < self.items.len()
            invariant
                iv == self@.items,
                i <= self.items@.len(),
                from <= i || i == self.items@.len(),
                out@ == pending_from(iv.take(i as int), from as int),
            decreases self.items@.len() - i,
        {
            proof {
                assert(iv.take(i + 1).drop_last() =~= iv.take(i as int));
                assert(iv[i as int] == self.items@[i as int]@);
            }
            if self.items[i].torrent.is_none() {
                out.push(i);
            }
            i = i + 1;
        }
        proof {
            assert(iv.take(self.items@.len() as int) =~= iv);
        }
        out
    }
}

/// Every candidate item is unread and has no metadata.
proof fn lemma_candidates_untouched(entries: Seq<FeedEntryView>)
    ensures
        forall|m: int|
            0 <= m < candidates(entries).len() ==> (#[trigger] candidates(entries)[m]).torrent is None
                && candidates(entries)[m].status == RssItemStatus::Unread,
    decreases entries.len(),
{
    if entries.len() > 0 {
        lemma_candidates_untouched(entries.drop_last());
    }
}

proof fn lemma_fresh_all_known(existing: Seq<RssItemView>, cands: Seq<RssItemView>, key: DiffKey)
    requires
        forall|m: int| 0 <= m < cands.len() ==> known(existing, #[trigger] cands[m], key),
    ensures
        fresh(existing, cands, key) == Seq::<RssItemView>::empty(),
    decreases cands.len(),
{
    if cands.len() > 0 {
        let prev = cands.drop_last();
        assert forall|m: int| 0 <= m < prev.len() implies known(existing, #[trigger] prev[m], key) by {
            assert(prev[m] == cands[m]);
        }
        lemma_fresh_all_known(existing, prev, key);
        assert(known(existing, cands[cands.len() - 1], key));
    }
}

/// After the fresh candidates are appended, every candidate is known.
proof fn lemma_fresh_covers(existing: Seq<RssItemView>, cands: Seq<RssItemView>, key: DiffKey, start: nat)
    ensures
        forall|m: int|
            0 <= m < cands.len() ==> known(
                existing + numbered(fresh(existing, cands, key), start),
                #[trigger] cands[m],
                key,
            ),
    decreases cands.len(),
{
    if cands.len() > 0 {
        let prev = cands.drop_last();
        let pf = fresh(existing, prev, key);
        let full = fresh(existing, cands, key);
        let all = existing + numbered(full, start);
        let el = existing.len();
        lemma_fresh_covers(existing, prev, key, start);
        assert(pf.len() <= full.len());
        assert forall|j: int| 0 <= j < pf.len() implies #[trigger] full[j] == pf[j] by {}
        assert forall|m: int| 0 <= m < cands.len() implies known(all, #[trigger] cands[m], key) by {
            if m < cands.len() - 1 {
                assert(prev[m] == cands[m]);
                let pall = existing + numbered(pf, start);
                let j = choose|j: int| 0 <= j < pall.len() && #[trigger] key_of(pall[j], key) == key_of(prev[m], key);
                if j < el {
                    assert(all[j] == existing[j]);
                    assert(key_of(all[j], key) == key_of(cands[m], key));
                } else {
                    assert(key_of(all[j], key) == key_of(full[j - el], key));
                    assert(key_of(pall[j], key) == key_of(pf[j - el], key));
                    assert(key_of(all[j], key) == key_of(cands[m], key));
                }
            } else {
                let c = cands.last();
                if known(existing, c, key) {
                    let j = choose|j: int| 0 <= j < existing.len() && #[trigger] key_of(existing[j], key) == key_of(c, key);
                    assert(all[j] == existing[j]);
                    assert(key_of(all[j], key) == key_of(cands[m], key));
                } else {
                    assert(full == pf.push(c));
                    let j: int = (el + pf.len()) as int;
                    assert(key_of(all[j], key) == key_of(full[pf.len() as int], key));
                    assert(key_of(all[j], key) == key_of(cands[m], key));
                }
            }
        }
    }
}

/// Polling an unchanged feed a second time adds no item: every entry that
/// the first poll saw is then known.
pub proof fn lemma_repoll_adds_nothing(record: RssView, entries: Seq<FeedEntryView>, key: DiffKey, now: u64)
    ensures
        record.after_fetch(entries, key, now).new_items(entries, key) == Seq::<RssItemView>::empty(),
{
    let cands = candidates(entries);
    let first = record.after_fetch(entries, key, now);
    lemma_fresh_covers(record.items, cands, key, record.items.len());
    lemma_fresh_all_known(first.items, cands, key);
    assert(first.new_items(entries, key) =~= Seq::<RssItemView>::empty());
}

/// The items a poll appends carry ids that run on from the number of items
/// already held, one apart, in order.
pub proof fn lemma_new_ids_contiguous(record: RssView, entries: Seq<FeedEntryView>, key: DiffKey)
    requires
        record.items.len() + record.new_items(entries, key).len() <= usize::MAX,
    ensures
        forall|j: int|
            0 <= j < record.new_items(entries, key).len() ==> (#[trigger] record.new_items(entries, key)[j]).id
                == record.items.len() + j,
{
}

/// What the poller of a record does at `now`; `None` stands for a record
/// whose owner has dropped it, and then the poller stops.
pub fn poll_step(record: Option<&Rss>, now: u64) -> (r: PollAction)
    ensures
        match record {
            Some(record) => r == record@.poll_action(now),
            None => r == PollAction::Stop,
        },
{
    match record {
        Some(record) => record.poll_action(now),
        None => PollAction::Stop,
    }
}

} // verus!

//! The mutation coordinator's side of the registry: the events that callers
//! and pollers send, applied one at a time, and what each asks of the task
//! that runs the coordinator.

use vstd::prelude::*;
use crate::api::Error;
use crate::feed::FeedChannel;
use crate::state::DataBase;
use crate::subscription::{Rss, RssView};

verus! {

/// A registry mutation.
#[derive(Debug, Clone)]
pub enum Event {
    /// Take a new subscription; the coordinator assigns its id.
    AddRss(Rss),
    /// Write a snapshot of the registry to storage.
    SaveDatabase,
    /// Replace the stored record with the same id, if it is still there.
    UpdateRss(Rss),
}

/// What the coordinator's task does after an event was applied.
#[derive(Debug, Clone, Copy, PartialEq, Eq, Structural)]
pub enum Effect {
    /// A subscription was stored under this id: start its poller and send
    /// `SaveDatabase`.
    Added(usize),
    /// The id counter is exhausted; the subscription was not taken.
    Rejected,
    /// Write a snapshot of the registry.
    Save,
    /// Nothing further.
    Nothing,
}

impl DataBase {
    /// Applies one event (see `Event`) and says what is to follow.
    pub fn handle_event(&mut self, event: Event) -> (r: Effect)
        requires
            old(self).wf(),
        ensures
            final(self).wf(),
            match event {
                Event::AddRss(record) => {
                    &&& old(self).rss_id_index < usize::MAX ==> r == Effect::Added(
                        (old(self).rss_id_index + 1) as usize,
                    )
                    &&& old(self).rss_id_index == usize::MAX ==> r == Effect::Rejected
                    &&& old(self).add_result(
                        record,
                        match r {
                            Effect::Added(id) => Some(id),
                            _ => None,
                        },
                        *final(self),
                    )
                },
                Event::SaveDatabase => r == Effect::Save && *final(self) == *old(self),
                Event::UpdateRss(record) => {
                    &&& r == Effect::Nothing
                    &&& old(self).rss_list@.contains_key(record.id) ==> final(self).rss_list@
                        == old(self).rss_list@.insert(record.id, record)
                    &&& !old(self).rss_list@.contains_key(record.id) ==> final(self).rss_list@
                        == old(self).rss_list@
                    &&& final(self).rss_id_index == old(self).rss_id_index
                    &&& final(self).download_task_list == old(self).download_task_list
                },
            },
    {
        match event {
            Event::AddRss(record) => match self.add_subscription(record) {
                Some(id) => Effect::Added(id),
                None => Effect::Rejected,
            },
            Event::SaveDatabase => Effect::Save,
            Event::UpdateRss(record) => {
                self.update_subscription(record);
                Effect::Nothing
            },
        }
    }
}

/// The event that a request to subscribe to `url` sends, given the outcome
/// of fetching and parsing the feed: a new subscription with the feed's
/// title and description. Where the fetch failed the request fails with its
/// reason and no event is sent.
pub fn add_rss_sub(url: String, auto_download: bool, fetched: Result<FeedChannel, String>, now: u64) -> (r: Result<Event, Error>)
    ensures
        match fetched {
            Ok(feed) => r is Ok && match r->Ok_0 {
                Event::AddRss(record) => record@ == Rss::new_view(url@, feed.title@, feed.description@, auto_download, now),
                _ => false,
            },
            Err(reason) => r is Err && r->Err_0.inner@ == reason@,
        },
{
    match fetched {
        Ok(feed) => Ok(Event::AddRss(Rss::new(url, feed.title, feed.description, auto_download, now))),
        Err(reason) => Err(Error { inner: reason }),
    }
}

/// Ids handed out by successive adds are unique and strictly increasing:
/// the second exceeds the first, which still names the same record, and both
/// exceed every id in use before.
pub proof fn lemma_add_ids_increase(
    db0: DataBase,
    record1: Rss,
    id1: usize,
    db1: DataBase,
    record2: Rss,
    id2: usize,
    db2: DataBase,
)
    requires
        db0.wf(),
        db0.add_result(record1, Some(id1), db1),
        db1.add_result(record2, Some(id2), db2),
    ensures
        id1 < id2,
        db2.rss_list@.contains_key(id1) && db2.rss_list@.contains_key(id2),
        db2.rss_list@[id1] == db1.rss_list@[id1],
        forall|k: usize| #[trigger] db0.rss_list@.contains_key(k) ==> k < id1 && k < id2,
{
    assert(db1.rss_list@.contains_key(id1));
}

} // verus!

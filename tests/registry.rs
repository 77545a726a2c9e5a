use std::collections::HashMap;
use rss_feeder::api::{get_rss_info, get_rss_list};
use rss_feeder::event::{add_rss_sub, Effect, Event};
use rss_feeder::feed::{FeedChannel, FeedEntry};
use rss_feeder::state::{DataBase, MetadataOutcome};
use rss_feeder::subscription::{DiffKey, Rss, RssItemStatus, RssStatus};
use rss_feeder::torrent::{fetch_torrent_for_item, item_torrent, FileInfo, TorrentInfo};

fn rss(url: &str, auto: bool) -> Rss {
    Rss::new(url.to_string(), format!("title of {}", url), "desc".to_string(), auto, 10)
}

fn feed(titles: &[&str]) -> FeedChannel {
    FeedChannel {
        title: "F".to_string(),
        description: "D".to_string(),
        entries: titles
            .iter()
            .map(|t| FeedEntry {
                title: Some(t.to_string()),
                link: Some(format!("magnet:?{}", t)),
                description: None,
            })
            .collect(),
    }
}

fn listing() -> TorrentInfo {
    TorrentInfo {
        files: vec![
            FileInfo { filename: "a.mkv".to_string(), torrent_offset: 0, size: 100 },
            FileInfo { filename: "b.srt".to_string(), torrent_offset: 100, size: 7 },
        ],
    }
}

#[test]
fn repeated_adds_get_increasing_ids() {
    let mut db = DataBase::new();
    let a = db.add_subscription(rss("u1", false)).unwrap();
    let b = db.add_subscription(rss("u2", false)).unwrap();
    let c = db.add_subscription(rss("u3", false)).unwrap();
    assert_eq!((a, b, c), (1, 2, 3));
    assert_eq!(db.rss_id_index, 3);
    assert_eq!(db.get(2).unwrap().url, "u2");
    assert_eq!(db.get(2).unwrap().id, 2);
}

#[test]
fn exhausted_counter_rejects_add() {
    let mut db = DataBase::new();
    db.rss_id_index = usize::MAX;
    assert_eq!(db.add_subscription(rss("u", false)), None);
    assert!(db.rss_list.is_empty());
    assert_eq!(db.handle_event(Event::AddRss(rss("u", false))), Effect::Rejected);
}

#[test]
fn coordinator_applies_events() {
    let mut db = DataBase::new();
    assert_eq!(db.handle_event(Event::AddRss(rss("u1", true))), Effect::Added(1));
    assert_eq!(db.handle_event(Event::SaveDatabase), Effect::Save);
    let mut changed = db.get(1).unwrap().info();
    changed.title = "renamed".to_string();
    assert_eq!(db.handle_event(Event::UpdateRss(changed)), Effect::Nothing);
    assert_eq!(db.get(1).unwrap().title, "renamed");
    let mut stale = rss("gone", false);
    stale.id = 42;
    assert_eq!(db.handle_event(Event::UpdateRss(stale)), Effect::Nothing);
    assert!(db.get(42).is_none());
    assert_eq!(db.rss_list.len(), 1);
}

#[test]
fn failed_add_request_sends_no_event() {
    let mut db = DataBase::new();
    db.add_subscription(rss("u1", false));
    let r = add_rss_sub("bad://url".to_string(), false, Err("unsupported scheme".to_string()), 5);
    match r {
        Err(e) => assert_eq!(e.message(), "unsupported scheme"),
        Ok(_) => panic!("the request should fail"),
    }
    assert_eq!(db.rss_list.len(), 1);
    assert_eq!(db.rss_id_index, 1);
}

#[test]
fn add_request_builds_new_subscription() {
    let r = add_rss_sub("http://x/rss".to_string(), true, Ok(feed(&["A"])), 77).ok().unwrap();
    match r {
        Event::AddRss(s) => {
            assert_eq!(s.url, "http://x/rss");
            assert_eq!(s.title, "F");
            assert_eq!(s.description, "D");
            assert!(s.auto_download);
            assert!(s.items.is_empty());
            assert_eq!(s.update_time, 77);
            assert_eq!(s.update_interval, 3600);
            assert!(matches!(s.status, RssStatus::Created));
        }
        _ => panic!("expected an add event"),
    }
}

#[test]
fn listing_is_in_id_order() {
    let mut db = DataBase::new();
    for u in ["u1", "u2", "u3"] {
        db.add_subscription(rss(u, false));
    }
    db.remove_subscription(2);
    db.apply_poll(3, Ok(feed(&["A", "B"])), DiffKey::Title, 20);
    let l = get_rss_list(&db);
    assert_eq!(l.iter().map(|i| i.id).collect::<Vec<_>>(), vec![1, 3]);
    assert_eq!(l[1].item_num, 2);
    assert_eq!(l[1].update, 20);
    assert_eq!(l[1].update_interval, 3600);
    assert_eq!(l[0].title, "title of u1");
}

#[test]
fn poll_of_removed_record_changes_nothing() {
    let mut db = DataBase::new();
    db.add_subscription(rss("u1", false));
    assert!(db.remove_subscription(1).is_some());
    assert_eq!(db.apply_poll(1, Ok(feed(&["A"])), DiffKey::Title, 3), None);
    assert!(db.rss_list.is_empty());
}

#[test]
fn failed_poll_keeps_items_in_registry() {
    let mut db = DataBase::new();
    db.add_subscription(rss("u1", false));
    assert_eq!(db.apply_poll(1, Ok(feed(&["A", "B"])), DiffKey::Title, 3), Some(2));
    assert_eq!(db.apply_poll(1, Err("timeout".to_string()), DiffKey::Title, 4), Some(0));
    let r = db.get(1).unwrap();
    assert_eq!(r.items.len(), 2);
    assert!(matches!(&r.status, RssStatus::Error(m) if m == "timeout"));
}

#[test]
fn metadata_is_stored_and_may_dispatch() {
    let mut db = DataBase::new();
    db.add_subscription(rss("manual", false));
    db.add_subscription(rss("auto", true));
    db.apply_poll(1, Ok(feed(&["A"])), DiffKey::Title, 3);
    db.apply_poll(2, Ok(feed(&["A"])), DiffKey::Title, 3);
    assert_eq!(db.store_item_metadata(1, 0, item_torrent(listing(), 9)), MetadataOutcome::Stored);
    assert_eq!(db.get(1).unwrap().items[0].status, RssItemStatus::Unread);
    assert_eq!(db.store_item_metadata(2, 0, item_torrent(listing(), 9)), MetadataOutcome::Dispatch);
    assert_eq!(db.get(2).unwrap().items[0].status, RssItemStatus::Unread);
    assert_eq!(db.store_item_metadata(2, 0, item_torrent(listing(), 10)), MetadataOutcome::Dispatch);
    assert_eq!(db.get(2).unwrap().items[0].status, RssItemStatus::Unread);
    assert_eq!(db.get(2).unwrap().items[0].torrent.as_ref().unwrap().update_time, 10);
    assert!(db.mark_downloading(2, 0));
    assert_eq!(db.get(2).unwrap().items[0].status, RssItemStatus::Downloading);
    assert_eq!(db.store_item_metadata(2, 0, item_torrent(listing(), 11)), MetadataOutcome::Stored);
    assert_eq!(db.get(2).unwrap().items[0].status, RssItemStatus::Downloading);
    assert!(!db.mark_downloading(3, 0));
    assert!(db.mark_downloaded(2, 0));
    assert_eq!(db.get(2).unwrap().items[0].status, RssItemStatus::Downloaded);
    assert!(!db.mark_downloaded(2, 5));
}

#[test]
fn metadata_for_gone_item_is_dropped() {
    let mut db = DataBase::new();
    db.add_subscription(rss("u", false));
    assert_eq!(db.store_item_metadata(1, 0, item_torrent(listing(), 1)), MetadataOutcome::Gone);
    assert_eq!(db.store_item_metadata(7, 0, item_torrent(listing(), 1)), MetadataOutcome::Gone);
}

#[test]
fn fetched_listing_becomes_item_metadata() {
    let mut db = DataBase::new();
    db.add_subscription(rss("u", false));
    db.apply_poll(1, Ok(feed(&["A"])), DiffKey::Title, 3);
    let r = fetch_torrent_for_item(&mut db, 1, 0, Ok(listing()), 55);
    assert_eq!(r.ok(), Some(MetadataOutcome::Stored));
    let t = db.get(1).unwrap().items[0].torrent.clone().unwrap();
    assert_eq!(t.update_time, 55);
    assert_eq!(t.files.len(), 2);
    assert_eq!(t.files[1].filename, "b.srt");
    assert_eq!(t.files[1].offset, 100);
    assert_eq!(t.files[1].length, 7);
    let e = fetch_torrent_for_item(&mut db, 1, 0, Err("session not initialized".to_string()), 56);
    assert_eq!(e.err().unwrap().message(), "session not initialized");
}

#[test]
fn item_lookup_reports_what_is_missing() {
    let mut db = DataBase::new();
    db.add_subscription(rss("u", false));
    db.apply_poll(1, Ok(feed(&["A"])), DiffKey::Title, 3);
    assert_eq!(db.item_link(1, 0).ok().unwrap(), "magnet:?A");
    assert_eq!(db.item_link(2, 0).err().unwrap().message(), "Missing Rss not found");
    assert_eq!(db.item_link(1, 1).err().unwrap().message(), "Missing Item not found");
    assert!(get_rss_info(&db, 1).is_ok());
    assert_eq!(get_rss_info(&db, 3).err().unwrap().message(), "Missing Rss not found");
}

#[test]
fn snapshot_parts_are_admitted_only_when_consistent() {
    let mut r1 = rss("u1", false);
    r1.id = 1;
    let mut r3 = rss("u3", false);
    r3.id = 3;
    let mut good = HashMap::new();
    good.insert(1, r1.clone());
    good.insert(3, r3.clone());
    let db = DataBase::from_parts(good.clone(), 3, vec![]).unwrap();
    assert_eq!(db.get(3).unwrap().url, "u3");
    assert_eq!(db.rss_id_index, 3);
    assert!(DataBase::from_parts(good.clone(), 2, vec![]).is_none());
    let mut misplaced = HashMap::new();
    misplaced.insert(2, r1);
    assert!(DataBase::from_parts(misplaced, 5, vec![]).is_none());
    let mut zero = rss("z", false);
    zero.id = 0;
    let mut at_zero = HashMap::new();
    at_zero.insert(0, zero);
    assert!(DataBase::from_parts(at_zero, 5, vec![]).is_none());
    assert!(DataBase::from_parts(HashMap::new(), 0, vec![]).is_some());
}

#[test]
fn registry_parts_are_readmitted_unchanged() {
    let mut db = DataBase::new();
    db.add_subscription(rss("u1", false));
    db.add_subscription(rss("u2", true));
    db.apply_poll(2, Ok(feed(&["A", "B"])), DiffKey::Title, 9);
    let back = DataBase::from_parts(db.rss_list.clone(), db.rss_id_index, db.download_task_list.clone()).unwrap();
    assert_eq!(back.rss_id_index, 2);
    let before: Vec<(usize, usize, String)> = get_rss_list(&db).into_iter().map(|i| (i.id, i.item_num, i.title)).collect();
    let after: Vec<(usize, usize, String)> = get_rss_list(&back).into_iter().map(|i| (i.id, i.item_num, i.title)).collect();
    assert_eq!(before, after);
    assert_eq!(back.get(2).unwrap().items[1].title, "B");
}

#[test]
fn has_item_tells_whether_an_item_is_there() {
    let mut db = DataBase::new();
    db.add_subscription(rss("u", false));
    assert!(!db.has_item(1, 0));
    db.apply_poll(1, Ok(feed(&["A", "B"])), DiffKey::Title, 3);
    assert!(db.has_item(1, 1));
    assert!(!db.has_item(1, 2));
    assert!(!db.has_item(2, 0));
    db.remove_subscription(1);
    assert!(!db.has_item(1, 0));
}

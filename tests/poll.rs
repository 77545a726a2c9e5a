use rss_feeder::feed::{parse_feed, FeedChannel, FeedEntry};
use rss_feeder::subscription::{
    candidate_items, poll_step, DiffKey, PollAction, Rss, RssItem, RssItemStatus, RssStatus,
    DEFAULT_UPDATE_INTERVAL,
};

fn entry(title: Option<&str>, link: Option<&str>, description: Option<&str>) -> FeedEntry {
    FeedEntry {
        title: title.map(|s| s.to_string()),
        link: link.map(|s| s.to_string()),
        description: description.map(|s| s.to_string()),
    }
}

fn feed(titles: &[&str]) -> FeedChannel {
    FeedChannel {
        title: "Feed".to_string(),
        description: "A feed".to_string(),
        entries: titles
            .iter()
            .map(|t| entry(Some(t), Some(&format!("http://example.com/{}.torrent", t)), Some("d")))
            .collect(),
    }
}

fn new_rss(now: u64) -> Rss {
    Rss::new("http://example.com/rss".to_string(), "Feed".to_string(), "A feed".to_string(), false, now)
}

#[test]
fn scenario_interval_gating_and_diff() {
    let t0: u64 = 1_000_000;
    let mut rss = new_rss(t0);
    assert_eq!(rss.update_interval, 3600);
    assert_eq!(rss.poll_action(t0), PollAction::Fetch);
    let n = rss.apply_fetch(&feed(&["A", "B"]), DiffKey::Title, t0);
    assert_eq!(n, 2);
    assert_eq!(rss.items.iter().map(|i| i.id).collect::<Vec<_>>(), vec![0, 1]);
    assert!(matches!(rss.status, RssStatus::Updated));
    assert_eq!(rss.update_time, t0);
    assert_eq!(rss.poll_action(t0 + 10), PollAction::Sleep(3590));
    assert_eq!(rss.poll_action(t0 + 3600), PollAction::Fetch);
    let n = rss.apply_fetch(&feed(&["A", "B", "C"]), DiffKey::Title, t0 + 3600);
    assert_eq!(n, 1);
    assert_eq!(rss.items.len(), 3);
    assert_eq!(rss.items[2].title, "C");
    assert_eq!(rss.items[2].id, 2);
}

#[test]
fn repoll_of_unchanged_feed_adds_nothing() {
    let mut rss = new_rss(0);
    let f = feed(&["A", "B", "A"]);
    assert_eq!(rss.apply_fetch(&f, DiffKey::Title, 1), 3);
    assert_eq!(rss.apply_fetch(&f, DiffKey::Title, 2), 0);
    assert_eq!(rss.items.len(), 3);
}

#[test]
fn new_ids_continue_from_item_count() {
    let mut rss = new_rss(0);
    rss.apply_fetch(&feed(&["A"]), DiffKey::Title, 1);
    rss.apply_fetch(&feed(&["B", "C", "A", "D"]), DiffKey::Title, 2);
    let ids: Vec<usize> = rss.items.iter().map(|i| i.id).collect();
    assert_eq!(ids, vec![0, 1, 2, 3]);
    let titles: Vec<&str> = rss.items.iter().map(|i| i.title.as_str()).collect();
    assert_eq!(titles, vec!["A", "B", "C", "D"]);
}

#[test]
fn error_status_keeps_items() {
    let mut rss = new_rss(0);
    rss.apply_fetch(&feed(&["A", "B"]), DiffKey::Title, 5);
    rss.apply_fetch_error("connection refused".to_string(), 7);
    assert_eq!(rss.items.len(), 2);
    assert_eq!(rss.items[1].title, "B");
    match &rss.status {
        RssStatus::Error(m) => assert_eq!(m, "connection refused"),
        _ => panic!("status should be an error"),
    }
    assert_eq!(rss.update_time, 7);
    assert_eq!(rss.poll_action(8), PollAction::Sleep(DEFAULT_UPDATE_INTERVAL - 1));
}

#[test]
fn updated_record_within_interval_sleeps() {
    let mut rss = new_rss(100);
    rss.apply_fetch(&feed(&[]), DiffKey::Title, 100);
    assert_eq!(rss.poll_action(100), PollAction::Sleep(3600));
    assert_eq!(rss.poll_action(3699), PollAction::Sleep(1));
    assert_eq!(rss.poll_action(3700), PollAction::Fetch);
    assert_eq!(rss.poll_action(50), PollAction::Sleep(3600));
}

#[test]
fn created_record_fetches_at_once() {
    let rss = new_rss(100);
    assert_eq!(rss.poll_action(100), PollAction::Fetch);
    assert_eq!(poll_step(Some(&rss), 100), PollAction::Fetch);
}

#[test]
fn poller_stops_once_record_is_gone() {
    assert_eq!(poll_step(None, 12345), PollAction::Stop);
}

#[test]
fn candidates_use_placeholders_and_skip_linkless_entries() {
    let entries = vec![
        entry(None, Some("l0"), None),
        entry(Some("t1"), None, Some("d1")),
        entry(Some("t2"), Some("l2"), Some("d2")),
    ];
    let c = candidate_items(&entries);
    assert_eq!(c.len(), 2);
    assert_eq!(c[0].title, "Default Title");
    assert_eq!(c[0].description, "Default Description");
    assert_eq!(c[0].link, "l0");
    assert_eq!(c[0].id, 0);
    assert_eq!(c[1].title, "t2");
    assert_eq!(c[1].id, 2);
    assert!(c.iter().all(|i| i.status == RssItemStatus::Unread && i.torrent.is_none()));
}

#[test]
fn diff_by_link_tells_equal_titles_apart() {
    let mut rss = new_rss(0);
    let a = FeedChannel {
        title: String::new(),
        description: String::new(),
        entries: vec![entry(Some("same"), Some("l1"), None)],
    };
    let b = FeedChannel {
        title: String::new(),
        description: String::new(),
        entries: vec![entry(Some("same"), Some("l1"), None), entry(Some("same"), Some("l2"), None)],
    };
    assert_eq!(rss.apply_fetch(&a, DiffKey::Link, 1), 1);
    assert_eq!(rss.apply_fetch(&b, DiffKey::Link, 2), 1);
    assert_eq!(rss.items[1].link, "l2");
    let mut by_title = new_rss(0);
    by_title.apply_fetch(&a, DiffKey::Title, 1);
    assert_eq!(by_title.apply_fetch(&b, DiffKey::Title, 2), 0);
}

#[test]
fn comprare_matches_titles() {
    let c = candidate_items(&vec![entry(Some("x"), Some("l1"), None), entry(Some("x"), Some("l2"), None)]);
    let d = candidate_items(&vec![entry(Some("y"), Some("l1"), None)]);
    assert!(c[0].comprare(&c[1]));
    assert!(!c[0].comprare(&d[0]));
    assert!(c[0].same_key(&d[0], DiffKey::Link));
}

#[test]
fn info_drops_items_and_resets_status() {
    let mut rss = new_rss(3);
    rss.apply_fetch(&feed(&["A"]), DiffKey::Title, 4);
    let i = rss.info();
    assert!(i.items.is_empty());
    assert!(matches!(i.status, RssStatus::Created));
    assert_eq!(i.title, "Feed");
    assert_eq!(i.update_time, 4);
}

#[test]
fn pending_metadata_lists_items_without_torrent() {
    let mut rss = new_rss(0);
    rss.apply_fetch(&feed(&["A", "B", "C"]), DiffKey::Title, 1);
    rss.items[1].torrent = Some(rss_feeder::subscription::ItemTorrent { files: vec![], update_time: 1 });
    assert_eq!(rss.pending_metadata(0), vec![0, 2]);
    assert_eq!(rss.pending_metadata(2), vec![2]);
    assert_eq!(rss.pending_metadata(9), Vec::<usize>::new());
}

#[test]
fn parse_feed_reads_channel_and_entries() {
    let xml = r#"<?xml version="1.0"?>
<rss version="2.0"><channel><title>Shows</title><link>http://example.com</link><description>New episodes</description>
<item><title>Ep 1</title><description>first</description><enclosure url="http://example.com/1.torrent" length="1" type="application/x-bittorrent"/></item>
<item><title>Ep 2</title></item>
</channel></rss>"#;
    let f = parse_feed(xml.as_bytes()).unwrap();
    assert_eq!(f.title, "Shows");
    assert_eq!(f.description, "New episodes");
    assert_eq!(f.entries.len(), 2);
    assert_eq!(f.entries[0].title.as_deref(), Some("Ep 1"));
    assert_eq!(f.entries[0].link.as_deref(), Some("http://example.com/1.torrent"));
    assert_eq!(f.entries[0].description.as_deref(), Some("first"));
    assert_eq!(f.entries[1].link, None);
    let items: Vec<RssItem> = candidate_items(&f.entries);
    assert_eq!(items.len(), 1);
}

#[test]
fn parse_feed_rejects_other_documents() {
    assert!(parse_feed(b"<html></html>").is_err());
    assert!(parse_feed(b"").is_err());
}

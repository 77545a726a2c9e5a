//! Feed documents: the plain values that the poll pipeline reads from a
//! fetched feed, and the parsing of a document's bytes through the `rss` crate.

use vstd::prelude::*;

verus! {

/// One entry of a fetched feed document; each part may be absent.
pub struct FeedEntry {
    pub title: Option<String>,
    pub link: Option<String>,
    pub description: Option<String>,
}

/// A fetched feed document: the channel's title and description, and its
/// entries in document order.
pub struct FeedChannel {
    pub title: String,
    pub description: String,
    pub entries: Vec<FeedEntry>,
}

/// Mathematical model of a `FeedEntry`.
pub struct FeedEntryView {
    pub title: Option<Seq<char>>,
    pub link: Option<Seq<char>>,
    pub description: Option<Seq<char>>,
}

pub open spec fn opt_str_view(s: Option<String>) -> Option<Seq<char>> {
    match s {
        Some(v) => Some(v@),
        None => None,
    }
}

impl View for FeedEntry {
    type V = FeedEntryView;

    open spec fn view(&self) -> FeedEntryView {
        FeedEntryView {
            title: opt_str_view(self.title),
            link: opt_str_view(self.link),
            description: opt_str_view(self.description),
        }
    }
}

/// Mathematical model of a `FeedChannel`.
pub struct FeedChannelView {
    pub title: Seq<char>,
    pub description: Seq<char>,
    pub entries: Seq<FeedEntryView>,
}

impl FeedChannel {
    /// The entries of the document, as models.
    pub open spec fn entries_view(&self) -> Seq<FeedEntryView> {
        self.entries@.map_values(|e: FeedEntry| e@)
    }
}

impl View for FeedChannel {
    type V = FeedChannelView;

    open spec fn view(&self) -> FeedChannelView {
        FeedChannelView { title: self.title@, description: self.description@, entries: self.entries_view() }
    }
}

/// What an RSS document's bytes parse to: the channel, or the parser's
/// error message.
pub uninterp spec fn rss_document(bytes: Seq<u8>) -> Result<FeedChannelView, Seq<char>>;

pub open spec fn parse_view(r: Result<FeedChannel, String>) -> Result<FeedChannelView, Seq<char>> {
    match r {
        Ok(c) => Ok(c@),
        Err(m) => Err(m@),
    }
}

/// Relies on `rss::Channel::read_from` and the channel's and items'
/// accessors: parses an RSS document from its bytes and copies out the
/// channel's title and description and, for each item in document order, its
/// title, enclosure URL and description. A parse error is handed back as its
/// message.
#[verifier::external_body]
fn read_channel(bytes: &[u8]) -> (r: Result<FeedChannel, String>)
    ensures
        parse_view(r) == rss_document(bytes@),
{
    let c = rss::Channel::read_from(bytes).map_err(|e| e.to_string())?;
    let entries = c.items().iter().map(|i| FeedEntry {
        title: i.title().map(String::from),
        link: i.enclosure().map(|e| e.url().to_string()),
        description: i.description().map(String::from),
    });
    Ok(FeedChannel {
        title: c.title().to_string(),
        description: c.description().to_string(),
        entries: entries.collect(),
    })
}

/// Parses a feed document. On failure the error carries the parser's message.
pub fn parse_feed(bytes: &[u8]) -> (r: Result<FeedChannel, String>)
    ensures
        parse_view(r) == rss_document(bytes@),
{
    read_channel(bytes)
}

} // verus!

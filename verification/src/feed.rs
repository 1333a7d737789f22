use vstd::prelude::*;

use crate::error::FeedError;

verus! {

/// The mathematical value of a [`FeedItem`].
pub ghost struct FeedItemView {
    pub title: Option<Seq<char>>,
    pub enclosure_url: Option<Seq<char>>,
    pub pub_date: Option<Seq<char>>,
    pub content: Option<Seq<char>>,
}

/// One entry of a parsed RSS channel, reduced to the fields the extraction
/// policy reads: an optional title, an optional enclosure (attached media)
/// url, an optional RFC 2822 publish-date string, and an optional body.
#[derive(Debug)]
pub struct FeedItem {
    pub title: Option<String>,
    pub enclosure_url: Option<String>,
    pub pub_date: Option<String>,
    pub content: Option<String>,
}

impl View for FeedItem {
    type V = FeedItemView;

    open spec fn view(&self) -> FeedItemView {
        FeedItemView {
            title: match self.title {
                Some(ref t) => Some(t@),
                None => None,
            },
            enclosure_url: match self.enclosure_url {
                Some(ref u) => Some(u@),
                None => None,
            },
            pub_date: match self.pub_date {
                Some(ref d) => Some(d@),
                None => None,
            },
            content: match self.content {
                Some(ref c) => Some(c@),
                None => None,
            },
        }
    }
}

/// The mathematical value of a [`Feed`].
pub ghost struct FeedView {
    pub title: Seq<char>,
    pub image_url: Option<Seq<char>>,
    pub items: Seq<FeedItemView>,
}

/// A remotely hosted document describing a show, parsed into a channel tree:
/// the channel title, the channel image's url if one is given, and the list
/// of items in document order.
#[derive(Debug)]
pub struct Feed {
    pub title: String,
    pub image_url: Option<String>,
    pub items: Vec<FeedItem>,
}

impl View for Feed {
    type V = FeedView;

    open spec fn view(&self) -> FeedView {
        FeedView {
            title: self.title@,
            image_url: match self.image_url {
                Some(ref u) => Some(u@),
                None => None,
            },
            items: self.items@.map_values(|it: FeedItem| it@),
        }
    }
}

/// The channel tree that the given bytes parse to, or `None` when they are
/// not a well-formed RSS document. RSS parsing is not written out here; the
/// value is pinned only as a function of the bytes alone.
pub uninterp spec fn feed_of(bytes: Seq<u8>) -> Option<FeedView>;

/// Relies on rss's `Channel::read_from`: parsing is a function of the bytes
/// alone; a structurally invalid document yields `Err`, and a parsed channel
/// carries its title, optional image and items, each item with its optional
/// title, enclosure url, publish-date string and content body.
#[verifier::external_body]
fn read_channel(bytes: &Vec<u8>) -> (r: Option<Feed>)
    ensures
        r is Some <==> feed_of(bytes@) is Some,
        r matches Some(f) ==> feed_of(bytes@) == Some(f@),
{
    let channel = match rss::Channel::read_from(&bytes[..]) {
        Ok(c) => c,
        Err(_) => return None,
    };
    let items = channel.items().iter().map(|it| FeedItem {
        title: it.title().map(|s| s.to_string()),
        enclosure_url: it.enclosure().map(|e| e.url().to_string()),
        pub_date: it.pub_date().map(|s| s.to_string()),
        content: it.content().map(|s| s.to_string()),
    }).collect();
    Some(Feed { title: channel.title, image_url: channel.image.map(|i| i.url), items })
}

impl Feed {
    /// Parses a retrieved feed document. A structurally invalid document is
    /// a fatal error for the whole ingestion call: there is no
    /// partial-document recovery.
    pub fn new(bytes: &Vec<u8>) -> (r: Result<Feed, FeedError>)
        ensures
            r is Ok <==> feed_of(bytes@) is Some,
            r matches Ok(f) ==> feed_of(bytes@) == Some(f@),
            r matches Err(e) ==> e is Parse,
    {
        match read_channel(bytes) {
            Some(feed) => Ok(feed),
            None => Err(FeedError::Parse),
        }
    }
}

} // verus!

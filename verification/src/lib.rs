//! Verified core of a podcast-feed aggregator.
//!
//! The library owns the Show/Episode data model, the extraction policy that
//! turns a parsed RSS channel into an ordered episode list, the catalog of
//! shows, and the two-level selection state machine that a terminal host
//! drives with discrete input events. Network transport and rendering stay
//! with the host; the library receives fetched bytes and plain events.

use vstd::prelude::*;

mod dates;
mod episode;
mod error;
mod feed;
mod navigation;
mod show;

pub use episode::Episode;
pub use episode::EpisodeView;
pub use error::FeedError;
pub use feed::Feed;
pub use feed::FeedItem;
pub use feed::FeedItemView;
pub use feed::FeedView;
pub use feed::feed_of;
pub use navigation::Focus;
pub use navigation::NavEvent;
pub use navigation::NavigationController;
pub use navigation::clamped_dec;
pub use navigation::clamped_inc;
pub use navigation::episode_count;
pub use navigation::lemma_show_change_clears_episode_state;
pub use navigation::lemma_step_preserves_wf;
pub use navigation::moved_episode_cursor;
pub use navigation::moved_show_cursor;
pub use navigation::nav_step;
pub use navigation::show_count;
pub use dates::rfc2822_of;
pub use show::Show;
pub use show::date_defect_count;
pub use show::episode_of_item;
pub use show::extracted;
pub use show::item_kept;
pub use show::lemma_extracted_defaults;
pub use show::lemma_extracted_len_le;
pub use show::lemma_extracted_provenance;
pub use show::lemma_missing_enclosure_shrinks;
pub use show::lemma_show_fewer_episodes;
pub use show::show_matches_feed;
pub use show::sorted_by_date;
pub use show::traces_to_kept_item;
pub use show::views_of;

use crate::dates::now_timestamp;

verus! {

/// The mathematical value of a [`FeedSource`].
pub ghost struct FeedSourceView {
    pub url: Seq<char>,
    pub fetched: Result<Seq<u8>, Seq<char>>,
}

/// One feed to add: its url, and the outcome of the transport collaborator's
/// attempt to retrieve the document — the raw bytes on success, or the
/// transport's error message.
#[derive(Debug)]
pub struct FeedSource {
    pub url: String,
    pub fetched: Result<Vec<u8>, String>,
}

impl View for FeedSource {
    type V = FeedSourceView;

    open spec fn view(&self) -> FeedSourceView {
        FeedSourceView {
            url: self.url@,
            fetched: match self.fetched {
                Ok(ref b) => Ok(b@),
                Err(ref m) => Err(m@),
            },
        }
    }
}

/// The views of a sequence of feed sources, element for element.
pub open spec fn source_views(s: Seq<FeedSource>) -> Seq<FeedSourceView> {
    s.map_values(|x: FeedSource| x@)
}

/// Whether ingesting a source is owed success: the transport produced bytes
/// and the bytes parse as an RSS channel.
pub open spec fn source_ok(s: FeedSourceView) -> bool {
    &&& s.fetched is Ok
    &&& feed_of(s.fetched->Ok_0) is Some
}

/// The error that ingesting a failing source must return: the transport's
/// own message when retrieval failed, a parse error when the bytes were not
/// a well-formed channel.
pub open spec fn error_for_source(e: FeedError, s: FeedSourceView) -> bool {
    match s.fetched {
        Ok(bytes) => feed_of(bytes) is None && e is Parse,
        Err(msg) => e matches FeedError::Network(m) && m@ == msg,
    }
}

/// The show appended for a successful source is exactly the one that the
/// source's feed determines.
pub open spec fn show_for_source(s: Show, src: FeedSourceView) -> bool {
    &&& source_ok(src)
    &&& show_matches_feed(s, src.url, feed_of(src.fetched->Ok_0)->0)
}

/// What the catalog looks like after adding the first `k` of `sources` to a
/// catalog that held `pre`: the old shows keep their places, and one new
/// show stands for each of the first `k` sources, in input order.
pub open spec fn added_prefix(
    pre: Seq<Show>,
    post: Seq<Show>,
    sources: Seq<FeedSourceView>,
    k: int,
) -> bool {
    &&& post.len() == pre.len() + k
    &&& forall|i: int| 0 <= i < pre.len() ==> post[i] == pre[i]
    &&& forall|i: int|
        0 <= i < k ==> show_for_source(#[trigger] post[pre.len() + i], sources[i])
}

/// All of a user's shows: the catalog, in the order the shows were added,
/// and the main point of interaction with the library.
///
/// `last_change` is the time of the last successful add, in seconds since
/// the Unix epoch.
#[derive(Debug)]
pub struct Shows {
    pub shows: Vec<Show>,
    pub last_change: i64,
}

impl Default for Shows {
    /// An empty catalog. This should only be made when there is no stored
    /// catalog to start from.
    fn default() -> (r: Shows)
        ensures
            r.shows@.len() == 0,
            r.wf(),
    {
        Shows { shows: Vec::new(), last_change: now_timestamp() }
    }
}

impl Shows {
    /// Integrity of the catalog: every show it holds is well formed.
    pub open spec fn wf(&self) -> bool {
        forall|i: int| 0 <= i < self.shows@.len() ==> (#[trigger] self.shows@[i]).wf()
    }

    /// Runs ingestion for one retrieved feed and appends the resulting show.
    ///
    /// Succeeds exactly when the transport handed over bytes and they parse
    /// as an RSS channel; then the new show stands at the end of the catalog
    /// and every earlier show keeps its place. On failure the catalog is
    /// unchanged — there is no partial insertion — and the error says which
    /// step refused: `Network` carries the transport's message, `Parse`
    /// marks a malformed document.
    pub fn add(&mut self, url: String, fetched: Result<Vec<u8>, String>) -> (r: Result<
        (),
        FeedError,
    >)
        ensures
            r is Ok <==> (fetched matches Ok(b) && feed_of(b@) is Some),
            r is Ok ==> {
                &&& final(self).shows@.len() == old(self).shows@.len() + 1
                &&& forall|i: int|
                    0 <= i < old(self).shows@.len() ==> final(self).shows@[i] == old(
                        self,
                    ).shows@[i]
                &&& show_matches_feed(
                    final(self).shows@.last(),
                    url@,
                    feed_of(fetched->Ok_0@)->0,
                )
                &&& final(self).shows@.last().wf()
            },
            r matches Err(e) ==> {
                &&& *final(self) == *old(self)
                &&& match fetched {
                    Ok(b) => feed_of(b@) is None && e is Parse,
                    Err(m) => e matches FeedError::Network(mm) && mm@ == m@,
                }
            },
            old(self).wf() ==> final(self).wf(),
    {
        match fetched {
            Ok(bytes) => match Feed::new(&bytes) {
                Ok(feed) => {
                    let (show, _date_skips) = Show::new(url, feed);
                    self.shows.push(show);
                    self.last_change = now_timestamp();
                    Ok(())
                },
                Err(e) => Err(e),
            },
            Err(message) => Err(FeedError::Network(message)),
        }
    }

    /// Adds the given sources one at a time, in order, stopping at the
    /// first failure. Shows added before the failing source stay in the
    /// catalog — best effort up to the point of failure, no rollback — and
    /// the returned error identifies the failing source's defect. Sources
    /// after the failing one are not touched.
    pub fn add_multiple(&mut self, sources: Vec<FeedSource>) -> (r: Result<(), FeedError>)
        ensures
            r is Ok <==> (forall|i: int|
                0 <= i < sources@.len() ==> source_ok(#[trigger] source_views(sources@)[i])),
            r is Ok ==> added_prefix(
                old(self).shows@,
                final(self).shows@,
                source_views(sources@),
                sources@.len() as int,
            ),
            r matches Err(e) ==> exists|k: int|
                {
                    &&& 0 <= k < sources@.len()
                    &&& !source_ok(#[trigger] source_views(sources@)[k])
                    &&& forall|i: int|
                        0 <= i < k ==> source_ok(#[trigger] source_views(sources@)[i])
                    &&& added_prefix(old(self).shows@, final(self).shows@, source_views(sources@), k)
                    &&& error_for_source(e, source_views(sources@)[k])
                },
            old(self).wf() ==> final(self).wf(),
    {
        let ghost all = source_views(sources@);
        let ghost pre = self.shows@;
        let mut rest = sources;
        let ghost mut k: int = 0;
        while rest.len() > 0
            invariant
                0 <= k,
                k + rest@.len() == all.len(),
                source_views(rest@) == all.subrange(k, all.len() as int),
                forall|i: int| 0 <= i < k ==> source_ok(#[trigger] all[i]),
                added_prefix(pre, self.shows@, all, k),
                pre == old(self).shows@,
                all == source_views(sources@),
                forall|i: int|
                    pre.len() <= i < self.shows@.len() ==> (#[trigger] self.shows@[i]).wf(),
                old(self).wf() ==> self.wf(),
            decreases rest@.len(),
        {
            let ghost rest0 = rest@;
            proof {
                assert(source_views(rest0)[0] == all[k]);
            }
            let src = rest.remove(0);
            proof {
                assert(src@ == all[k]);
                assert forall|i: int| 0 <= i < rest@.len() implies #[trigger] source_views(
                    rest@,
                )[i] == all[k + 1 + i] by {
                    assert(rest@[i] == rest0[i + 1]);
                    assert(source_views(rest0)[i + 1] == all.subrange(k, all.len() as int)[i
                        + 1]);
                }
                assert(source_views(rest@) =~= all.subrange(k + 1, all.len() as int));
            }
            let FeedSource { url, fetched } = src;
            match self.add(url, fetched) {
                Ok(()) => {
                    proof {
                        assert(self.shows@.last() == self.shows@[pre.len() + k]);
                        assert(show_for_source(self.shows@.last(), all[k]));
                        k = k + 1;
                        assert(added_prefix(pre, self.shows@, all, k));
                    }
                },
                Err(e) => {
                    proof {
                        assert(!source_ok(all[k]));
                        assert(error_for_source(e, all[k]));
                    }
                    return Err(e);
                },
            }
        }
        self.last_change = now_timestamp();
        Ok(())
    }

    /// The display names of all added shows, in catalog order.
    pub fn names(&self) -> (r: Vec<String>)
        ensures
            r@.len() == self.shows@.len(),
            forall|i: int| 0 <= i < r@.len() ==> (#[trigger] r@[i])@ == self.shows@[i].name@,
    {
        let mut names: Vec<String> = Vec::new();
        let mut i: usize = 0;
        while i < self.shows.len()
            invariant
                i <= self.shows@.len(),
                names@.len() == i,
                forall|m: int| 0 <= m < i ==> (#[trigger] names@[m])@ == self.shows@[m].name@,
            decreases self.shows@.len() - i,
        {
            names.push(self.shows[i].name.clone());
            i = i + 1;
        }
        names
    }

    /// All shows, in the order they were added.
    pub fn shows(&self) -> (r: &Vec<Show>)
        ensures
            r == &self.shows,
    {
        &self.shows
    }

    /// The show at `index`, or `None` when the index is out of range;
    /// never fails.
    pub fn get_show_by_index(&self, index: usize) -> (r: Option<&Show>)
        ensures
            match r {
                Some(s) => index < self.shows@.len() && *s == self.shows@[index as int],
                None => index >= self.shows@.len(),
            },
    {
        if index < self.shows.len() {
            Some(&self.shows[index])
        } else {
            None
        }
    }
}

/// Best effort up to the point of failure, seen at the second source: when
/// the first source is good, the second is bad, and an `add_multiple` run
/// over them fails as its contract describes, then exactly one show was
/// appended — the first source's — and the returned error is the second
/// source's defect.
pub proof fn lemma_add_many_stops_at_second(
    pre: Seq<Show>,
    post: Seq<Show>,
    sources: Seq<FeedSourceView>,
    e: FeedError,
    k: int,
)
    requires
        sources.len() >= 2,
        source_ok(sources[0]),
        !source_ok(sources[1]),
        0 <= k < sources.len(),
        forall|i: int| 0 <= i < k ==> source_ok(#[trigger] sources[i]),
        !source_ok(sources[k]),
        added_prefix(pre, post, sources, k),
        error_for_source(e, sources[k]),
    ensures
        k == 1,
        post.len() == pre.len() + 1,
        show_for_source(post[pre.len() as int], sources[0]),
        error_for_source(e, sources[1]),
{
    if k == 0 {
        assert(!source_ok(sources[0]));
    }
    if k > 1 {
        assert(source_ok(sources[1]));
    }
    assert(show_for_source(post[pre.len() as int + 0], sources[0]));
}

} // verus!

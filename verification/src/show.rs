use vstd::prelude::*;

use crate::dates::now_timestamp;
use crate::dates::parse_rfc2822;
use crate::dates::rfc2822_of;
use crate::episode::Episode;
use crate::episode::EpisodeView;
use crate::feed::Feed;
use crate::feed::FeedItemView;
use crate::feed::FeedView;

verus! {

broadcast use vstd::seq_lib::group_to_multiset_ensures;

/// The views of a sequence of episodes, element for element.
pub open spec fn views_of(s: Seq<Episode>) -> Seq<EpisodeView> {
    s.map_values(|e: Episode| e@)
}

/// Non-decreasing by publish time.
pub open spec fn sorted_by_date(s: Seq<EpisodeView>) -> bool {
    forall|i: int, j: int| #![trigger s[i], s[j]] 0 <= i < j < s.len() ==> s[i].date <= s[j].date
}

/// Whether a feed item survives extraction: it must carry an enclosure
/// (an item without one is a soft skip, not an error) and a publish-date
/// string that parses as RFC 2822 (a missing or unparseable date is a
/// per-item defect; the item is skipped and counted).
pub open spec fn item_kept(it: FeedItemView) -> bool {
    &&& it.enclosure_url is Some
    &&& it.pub_date is Some
    &&& rfc2822_of(it.pub_date->0) is Some
}

/// The episode a kept item resolves to. The item's own title is used when
/// present; otherwise the feed url serves as a last-resort label. Duration
/// starts unknown, the resume position at zero, and the episode unfinished.
pub open spec fn episode_of_item(url: Seq<char>, it: FeedItemView) -> EpisodeView
    recommends
        item_kept(it),
{
    EpisodeView {
        media_url: it.enclosure_url->0,
        title: if it.title is Some {
            it.title->0
        } else {
            url
        },
        date: rfc2822_of(it.pub_date->0)->0,
        description: it.content,
        duration: None,
        resume_time: 0,
        finished: false,
    }
}

/// The episodes that per-item extraction yields, in document order,
/// before sorting.
pub open spec fn extracted(url: Seq<char>, items: Seq<FeedItemView>) -> Seq<EpisodeView>
    decreases items.len(),
{
    if items.len() == 0 {
        Seq::empty()
    } else if item_kept(items.last()) {
        extracted(url, items.drop_last()).push(episode_of_item(url, items.last()))
    } else {
        extracted(url, items.drop_last())
    }
}

/// How many items carry an enclosure but no usable publish date. These are
/// the items skipped for a date defect, surfaced to the caller of
/// [`Show::new`].
pub open spec fn date_defect_count(items: Seq<FeedItemView>) -> int
    decreases items.len(),
{
    if items.len() == 0 {
        0
    } else {
        date_defect_count(items.drop_last()) + if items.last().enclosure_url is Some
            && !item_kept(items.last()) {
            1int
        } else {
            0int
        }
    }
}

/// What a freshly built show owes to its feed: the url and channel metadata
/// are carried over, and the episode list is a permutation, sorted by
/// publish time, of exactly the episodes extracted from the feed's items.
pub open spec fn show_matches_feed(s: Show, url: Seq<char>, fv: FeedView) -> bool {
    &&& s.url@ == url
    &&& s.name@ == fv.title
    &&& match s.image {
        Some(u) => fv.image_url == Some(u@),
        None => fv.image_url is None,
    }
    &&& sorted_by_date(views_of(s.episodes@))
    &&& views_of(s.episodes@).to_multiset() == extracted(url, fv.items).to_multiset()
    &&& s.episodes@.len() == extracted(url, fv.items).len()
}

/// One podcast: feed metadata plus an ordered list of episodes.
///
/// `last_checked` and `last_upload` are timestamps in seconds since the
/// Unix epoch, both set to the ingestion time at creation; refresh logic
/// that would update them is a collaborator, not part of this library.
#[derive(Debug)]
pub struct Show {
    pub url: String,
    pub name: String,
    pub episodes: Vec<Episode>,
    pub image: Option<String>,
    pub last_checked: i64,
    pub last_upload: i64,
}

impl Show {
    /// Integrity of a constructed show: episodes stand in non-decreasing
    /// publish-time order and each keeps its playback fields consistent.
    pub open spec fn wf(&self) -> bool {
        &&& sorted_by_date(views_of(self.episodes@))
        &&& forall|k: int|
            0 <= k < self.episodes@.len() ==> (#[trigger] self.episodes@[k]).wf()
    }

    /// Builds a show from its feed url and an already parsed channel tree.
    ///
    /// Per-item policy: an item without an enclosure is silently skipped;
    /// an item with an enclosure but a missing or unparseable publish date
    /// is skipped as well, and the count of such date-defective items is
    /// returned beside the show rather than aborting the whole feed. The
    /// surviving episodes are sorted by publish time, since feeds are not
    /// delivered in any guaranteed order.
    pub fn new(url: String, feed: Feed) -> (r: (Show, usize))
        ensures
            show_matches_feed(r.0, url@, feed@),
            r.0.wf(),
            r.1 == date_defect_count(feed@.items),
    {
        let ghost fitems = feed@.items;
        let Feed { title: name, image_url: image, items } = feed;
        proof {
            assert(fitems =~= items@.map_values(|it: crate::feed::FeedItem| it@));
        }
        let mut episodes: Vec<Episode> = Vec::new();
        let mut skipped: usize = 0;
        let mut idx: usize = 0;
        while idx < items.len()
            invariant
                idx <= items@.len(),
                fitems == items@.map_values(|it: crate::feed::FeedItem| it@),
                views_of(episodes@) == extracted(url@, fitems.take(idx as int)),
                skipped == date_defect_count(fitems.take(idx as int)),
                skipped <= idx,
            decreases items@.len() - idx,
        {
            let item = &items[idx];
            proof {
                assert(fitems[idx as int] == item@);
                assert(fitems.take(idx as int + 1).drop_last() =~= fitems.take(idx as int));
                assert(fitems.take(idx as int + 1).last() == fitems[idx as int]);
            }
            if let Some(enclosure) = &item.enclosure_url {
                let parsed: Option<i64> = match &item.pub_date {
                    Some(d) => parse_rfc2822(d.as_str()),
                    None => None,
                };
                match parsed {
                    Some(date) => {
                        let title = match &item.title {
                            Some(t) => t.clone(),
                            None => url.clone(),
                        };
                        let description = match &item.content {
                            Some(c) => Some(c.clone()),
                            None => None,
                        };
                        let episode = Episode {
                            media_url: enclosure.clone(),
                            title,
                            date,
                            description,
                            duration: None,
                            resume_time: 0,
                            finished: false,
                        };
                        proof {
                            assert(episode@ == episode_of_item(url@, fitems[idx as int]));
                        }
                        episodes.push(episode);
                        proof {
                            assert(views_of(episodes@) =~= extracted(
                                url@,
                                fitems.take(idx as int + 1),
                            ));
                        }
                    },
                    None => {
                        skipped = skipped + 1;
                    },
                }
            }
            proof {
                assert(views_of(episodes@) =~= extracted(url@, fitems.take(idx as int + 1)));
            }
            idx = idx + 1;
        }
        proof {
            assert(fitems.take(items@.len() as int) =~= fitems);
        }
        sort_episodes(&mut episodes);
        proof {
            lemma_extracted_defaults(url@, fitems);
            assert forall|k: int| 0 <= k < episodes@.len() implies (
            #[trigger] episodes@[k]).wf() by {
                assert(views_of(episodes@)[k] == episodes@[k]@);
                assert(views_of(episodes@).contains(episodes@[k]@));
                assert(extracted(url@, fitems).to_multiset().count(episodes@[k]@) > 0);
                assert(extracted(url@, fitems).contains(episodes@[k]@));
                let m = choose|m: int|
                    0 <= m < extracted(url@, fitems).len() && extracted(url@, fitems)[m]
                        == episodes@[k]@;
                assert(extracted(url@, fitems)[m].duration is None);
            }
        }
        let now = now_timestamp();
        (
            Show {
                url,
                name,
                episodes,
                image,
                last_checked: now,
                last_upload: now,
            },
            skipped,
        )
    }

    /// Time the feed was last checked for changes, in seconds since the
    /// Unix epoch.
    pub fn last_check(&self) -> (r: i64)
        ensures
            r == self.last_checked,
    {
        self.last_checked
    }

    /// Time of the last known upload to the feed, in seconds since the
    /// Unix epoch. This does not refresh the feed.
    pub fn last_upload(&self) -> (r: i64)
        ensures
            r == self.last_upload,
    {
        self.last_upload
    }

    /// The feed url of the show.
    pub fn url(&self) -> (r: &str)
        ensures
            r@ == self.url@,
    {
        self.url.as_str()
    }

    /// The title of the show, as the channel gave it.
    pub fn name(&self) -> (r: &str)
        ensures
            r@ == self.name@,
    {
        self.name.as_str()
    }

    /// The url of the channel's artwork, if the feed carried one.
    pub fn image(&self) -> (r: Option<&String>)
        ensures
            match r {
                Some(u) => self.image == Some(*u),
                None => self.image is None,
            },
    {
        self.image.as_ref()
    }

    /// All episodes of the show, in non-decreasing publish-time order.
    pub fn episodes(&self) -> (r: &Vec<Episode>)
        ensures
            r == &self.episodes,
    {
        &self.episodes
    }

    /// The episode at `index`, or `None` when the index is out of range.
    pub fn episode_by_index(&self, index: usize) -> (r: Option<&Episode>)
        ensures
            match r {
                Some(e) => index < self.episodes@.len() && *e == self.episodes@[index as int],
                None => index >= self.episodes@.len(),
            },
    {
        if index < self.episodes.len() {
            Some(&self.episodes[index])
        } else {
            None
        }
    }
}

/// Sorts episodes in place into non-decreasing publish-time order; the
/// result holds exactly the episodes it was given.
fn sort_episodes(v: &mut Vec<Episode>)
    ensures
        sorted_by_date(views_of(final(v)@)),
        views_of(final(v)@).to_multiset() == views_of(old(v)@).to_multiset(),
        final(v)@.len() == old(v)@.len(),
{
    if v.len() <= 1 {
        return;
    }
    let mut i: usize = 1;
    while i < v.len()
        invariant
            1 <= i <= v@.len(),
            v@.len() == old(v)@.len(),
            views_of(v@).to_multiset() == views_of(old(v)@).to_multiset(),
            sorted_by_date(views_of(v@).take(i as int)),
        decreases v@.len() - i,
    {
        let ghost prev = v@;
        let ep = v.remove(i);
        let ghost w = v@;
        proof {
            assert(views_of(w) =~= views_of(prev).remove(i as int));
            assert(views_of(prev)[i as int] == prev[i as int]@);
            assert(views_of(w).to_multiset() == views_of(prev).to_multiset().remove(ep@));
        }
        let mut j: usize = i;
        while j > 0 && v[j - 1].date > ep.date
            invariant
                j <= i,
                i < prev.len(),
                v@ == w,
                w.len() == prev.len() - 1,
                sorted_by_date(views_of(w).take(i as int)),
                forall|k: int| #![trigger w[k]] j <= k < i ==> w[k].date > ep.date,
            decreases j,
        {
            j = j - 1;
        }
        let ghost wv = views_of(w);
        v.insert(j, ep);
        proof {
            assert(views_of(v@) =~= wv.insert(j as int, ep@));
            assert(wv.insert(j as int, ep@).to_multiset() == wv.to_multiset().insert(ep@));
            assert(views_of(prev).to_multiset().remove(ep@).insert(ep@) =~= views_of(
                prev,
            ).to_multiset()) by {
                assert(views_of(prev).contains(ep@));
            }
            let n = views_of(v@);
            assert forall|a: int, b: int| 0 <= a < b < i + 1 implies #[trigger] n[a].date
                <= #[trigger] n[b].date by {
                assert(forall|k: int| 0 <= k < j ==> n[k] == wv[k]);
                assert(n[j as int] == ep@);
                assert(forall|k: int| j < k <= wv.len() ==> n[k] == wv[k - 1]);
                assert(forall|k: int| 0 <= k < i - 1 ==> #[trigger] wv[k].date <= wv[k + 1].date);
                assert(forall|k: int| j <= k < i ==> #[trigger] wv[k].date > ep@.date);
                assert(j > 0 ==> wv[j - 1].date <= ep@.date);
            }
            assert(sorted_by_date(views_of(v@).take(i + 1 as int)));
        }
        i = i + 1;
    }
    proof {
        assert(views_of(v@).take(v@.len() as int) =~= views_of(v@));
    }
}

/// Every episode that extraction yields starts with a zero resume position,
/// is not finished, and has no duration yet: playback state is created
/// blank, never inherited from the feed.
pub proof fn lemma_extracted_defaults(url: Seq<char>, items: Seq<FeedItemView>)
    ensures
        forall|k: int|
            0 <= k < extracted(url, items).len() ==> {
                &&& (#[trigger] extracted(url, items)[k]).resume_time == 0
                &&& !extracted(url, items)[k].finished
                &&& extracted(url, items)[k].duration is None
            },
    decreases items.len(),
{
    if items.len() == 0 {
    } else {
        lemma_extracted_defaults(url, items.drop_last());
    }
}

/// Extraction never invents episodes: at most one per item.
pub proof fn lemma_extracted_len_le(url: Seq<char>, items: Seq<FeedItemView>)
    ensures
        extracted(url, items).len() <= items.len(),
    decreases items.len(),
{
    if items.len() == 0 {
    } else {
        lemma_extracted_len_le(url, items.drop_last());
    }
}

/// A feed in which some item lacks an enclosure yields strictly fewer
/// episodes than the feed has items.
pub proof fn lemma_missing_enclosure_shrinks(url: Seq<char>, items: Seq<FeedItemView>, k: int)
    requires
        0 <= k < items.len(),
        items[k].enclosure_url is None,
    ensures
        extracted(url, items).len() < items.len(),
    decreases items.len(),
{
    if k == items.len() - 1 {
        lemma_extracted_len_le(url, items.drop_last());
    } else {
        lemma_missing_enclosure_shrinks(url, items.drop_last(), k);
    }
}

/// A show built from a feed in which some item lacks an enclosure holds
/// strictly fewer episodes than the feed has items: the item left no trace.
pub proof fn lemma_show_fewer_episodes(s: Show, url: Seq<char>, fv: FeedView, k: int)
    requires
        show_matches_feed(s, url, fv),
        0 <= k < fv.items.len(),
        fv.items[k].enclosure_url is None,
    ensures
        s.episodes@.len() < fv.items.len(),
{
    lemma_missing_enclosure_shrinks(url, fv.items, k);
}

/// Whether an episode can be traced back to some kept item of the feed.
pub open spec fn traces_to_kept_item(
    url: Seq<char>,
    items: Seq<FeedItemView>,
    e: EpisodeView,
) -> bool {
    exists|m: int|
        0 <= m < items.len() && item_kept(#[trigger] items[m]) && e == episode_of_item(
            url,
            items[m],
        )
}

/// Every extracted episode traces back to a kept item, and a kept item
/// always carries an enclosure: no episode in the result comes from an
/// item that lacked one.
pub proof fn lemma_extracted_provenance(url: Seq<char>, items: Seq<FeedItemView>)
    ensures
        forall|k: int|
            0 <= k < extracted(url, items).len() ==> traces_to_kept_item(
                url,
                items,
                #[trigger] extracted(url, items)[k],
            ),
    decreases items.len(),
{
    if items.len() == 0 {
    } else {
        lemma_extracted_provenance(url, items.drop_last());
        assert forall|k: int| 0 <= k < extracted(url, items).len() implies traces_to_kept_item(
            url,
            items,
            #[trigger] extracted(url, items)[k],
        ) by {
            let sub = extracted(url, items.drop_last());
            if k < sub.len() {
                let m = choose|m: int|
                    0 <= m < items.drop_last().len() && item_kept(#[trigger] items.drop_last()[m])
                        && sub[k] == episode_of_item(url, items.drop_last()[m]);
                assert(items.drop_last()[m] == items[m]);
                assert(item_kept(items[m]) && extracted(url, items)[k] == episode_of_item(
                    url,
                    items[m],
                ));
            } else {
                assert(item_kept(items[items.len() - 1]) && extracted(url, items)[k]
                    == episode_of_item(url, items[items.len() - 1]));
            }
        }
    }
}

} // verus!

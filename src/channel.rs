//! Channels and the collection of subscribed channels, with the merge of a
//! freshly fetched feed into a channel.

use itertools::Itertools;
use vstd::prelude::*;
use crate::video::{
    ChannelInfo, Video, WatchProgress, has_id, newest_first, unique_ids, sorted_newest_first,
    lemma_same_videos_same_ids, lemma_same_videos_unique,
};

verus! {

broadcast use vstd::seq_lib::group_to_multiset_ensures;

/// `existing` after taking in each video of `fetched`, in order, whose id it
/// does not hold yet; each such video is appended at the end.
pub open spec fn absorb(existing: Seq<Video>, fetched: Seq<Video>) -> Seq<Video>
    decreases fetched.len(),
{
    if fetched.len() == 0 {
        existing
    } else {
        let before = absorb(existing, fetched.drop_last());
        if has_id(before, fetched.last().id@) {
            before
        } else {
            before.push(fetched.last())
        }
    }
}

/// What a merge of `fetched` into a channel whose videos were `before` may
/// leave behind: the videos of `absorb(before, fetched)`, newest first.
pub open spec fn merge_result(before: Seq<Video>, fetched: Seq<Video>, after: Seq<Video>) -> bool {
    &&& after.to_multiset() == absorb(before, fetched).to_multiset()
    &&& newest_first(after)
}

pub proof fn lemma_absorb_ids(existing: Seq<Video>, fetched: Seq<Video>, id: Seq<char>)
    ensures
        has_id(absorb(existing, fetched), id) == (has_id(existing, id) || has_id(fetched, id)),
    decreases fetched.len(),
{
    if fetched.len() > 0 {
        let init = fetched.drop_last();
        lemma_absorb_ids(existing, init, id);
        let before = absorb(existing, init);
        let last = fetched.last();
        if has_id(fetched, id) {
            let k = choose|k: int| 0 <= k < fetched.len() && #[trigger] fetched[k].id@ == id;
            if k < fetched.len() - 1 {
                assert(init[k].id@ == id);
            }
        }
        if has_id(init, id) {
            let k = choose|k: int| 0 <= k < init.len() && #[trigger] init[k].id@ == id;
            assert(fetched[k].id@ == id);
        }
        if !has_id(before, last.id@) {
            let after = before.push(last);
            assert(after[after.len() - 1].id@ == last.id@);
            if has_id(before, id) {
                let k = choose|k: int| 0 <= k < before.len() && #[trigger] before[k].id@ == id;
                assert(after[k].id@ == id);
            }
            if has_id(after, id) {
                let k = choose|k: int| 0 <= k < after.len() && #[trigger] after[k].id@ == id;
                if k < before.len() {
                    assert(before[k].id@ == id);
                }
            }
        }
        assert(fetched[fetched.len() - 1].id@ == last.id@);
    }
}

pub proof fn lemma_absorb_unique(existing: Seq<Video>, fetched: Seq<Video>)
    requires
        unique_ids(existing),
    ensures
        unique_ids(absorb(existing, fetched)),
    decreases fetched.len(),
{
    if fetched.len() > 0 {
        let init = fetched.drop_last();
        lemma_absorb_unique(existing, init);
        let before = absorb(existing, init);
        let last = fetched.last();
        if !has_id(before, last.id@) {
            let after = before.push(last);
            assert forall|i: int, j: int| 0 <= i < j < after.len() implies #[trigger] after[i].id@ != #[trigger] after[j].id@ by {
                if j == after.len() - 1 {
                    if after[i].id@ == after[j].id@ {
                        assert(before[i].id@ == last.id@);
                    }
                } else {
                    assert(before[i].id@ != before[j].id@);
                }
            }
        }
    }
}

/// Taking in videos whose ids are all held already changes nothing.
pub proof fn lemma_absorb_known(existing: Seq<Video>, fetched: Seq<Video>)
    requires
        forall|k: int| 0 <= k < fetched.len() ==> has_id(existing, #[trigger] fetched[k].id@),
    ensures
        absorb(existing, fetched) == existing,
    decreases fetched.len(),
{
    if fetched.len() > 0 {
        let init = fetched.drop_last();
        assert forall|k: int| 0 <= k < init.len() implies has_id(existing, #[trigger] init[k].id@) by {
            assert(init[k] == fetched[k]);
        }
        lemma_absorb_known(existing, init);
        assert(has_id(existing, fetched[fetched.len() - 1].id@));
    }
}

/// Every video of `absorb(existing, fetched)` is one of `existing` or of
/// `fetched`.
pub proof fn lemma_absorb_from(existing: Seq<Video>, fetched: Seq<Video>, j: int)
    requires
        0 <= j < absorb(existing, fetched).len(),
    ensures
        existing.contains(absorb(existing, fetched)[j]) || fetched.contains(absorb(existing, fetched)[j]),
    decreases fetched.len(),
{
    if fetched.len() > 0 {
        let init = fetched.drop_last();
        let before = absorb(existing, init);
        if j < before.len() {
            lemma_absorb_from(existing, init, j);
            if init.contains(before[j]) {
                let k = choose|k: int| 0 <= k < init.len() && init[k] == before[j];
                assert(fetched[k] == before[j]);
            }
        } else {
            assert(fetched[fetched.len() - 1] == fetched.last());
        }
    }
}

/// Relies on itertools' `Itertools::unique_by`, which yields each item whose
/// key was not seen before, in order; the key is the video id.
#[verifier::external_body]
pub(crate) fn unique_by_id(videos: Vec<Video>) -> (r: Vec<Video>)
    ensures
        r@ == absorb(Seq::empty(), videos@),
{
    videos.into_iter().unique_by(|v| v.id.clone()).collect()
}

/// Whether some video of `videos` has the id `id`.
pub fn contains_id(videos: &Vec<Video>, id: &String) -> (r: bool)
    ensures
        r == has_id(videos@, id@),
{
    let mut i: usize = 0;
    while i < videos.len()
        invariant
            i <= videos@.len(),
            forall|k: int| 0 <= k < i ==> #[trigger] videos@[k].id@ != id@,
        decreases videos@.len() - i,
    {
        if videos[i].id == *id {
            return true;
        }
        i += 1;
    }
    false
}

/// Appends to `target` each video of `fetched`, in order, whose id it does
/// not hold yet.
pub fn absorb_videos(target: &mut Vec<Video>, fetched: &Vec<Video>)
    ensures
        final(target)@ == absorb(old(target)@, fetched@),
{
    let ghost start = target@;
    let mut i: usize = 0;
    while i < fetched.len()
        invariant
            i <= fetched@.len(),
            target@ == absorb(start, fetched@.subrange(0, i as int)),
        decreases fetched@.len() - i,
    {
        let ghost prefix = fetched@.subrange(0, i as int);
        let ghost next = fetched@.subrange(0, i as int + 1);
        assert(next.drop_last() =~= prefix);
        assert(next.last() == fetched@[i as int]);
        if !contains_id(target, &fetched[i].id) {
            target.push(fetched[i].clone());
        }
        i += 1;
    }
    assert(fetched@.subrange(0, fetched@.len() as int) =~= fetched@);
}

/// A subscribed channel and its videos.
#[derive(Debug)]
pub struct Channel {
    pub info: ChannelInfo,
    pub videos: Vec<Video>,
}

impl Clone for Channel {
    fn clone(&self) -> (r: Channel)
        ensures
            r.info == self.info,
            r.videos@ == self.videos@,
    {
        let videos = self.videos.clone();
        assert(videos@ =~= self.videos@);
        Channel { info: self.info.clone(), videos }
    }
}

impl Channel {
    /// Videos newest first, no id twice.
    pub open spec fn wf(&self) -> bool {
        newest_first(self.videos@) && unique_ids(self.videos@)
    }

    /// A channel holding the first video of `videos` for each id, newest
    /// first.
    pub fn new(info: ChannelInfo, videos: Vec<Video>) -> (r: Channel)
        ensures
            r.wf(),
            r.info == info,
            merge_result(Seq::empty(), videos@, r.videos@),
    {
        let kept = unique_by_id(videos);
        proof { lemma_absorb_unique(Seq::empty(), videos@); }
        let sorted = sorted_newest_first(kept);
        proof { lemma_same_videos_unique(kept@, sorted@); }
        Channel { info, videos: sorted }
    }

    pub fn info(&self) -> (r: &ChannelInfo)
        ensures
            *r == self.info,
    {
        &self.info
    }

    /// The video at position `index`, if there is one.
    pub fn video(&self, index: usize) -> (r: Option<&Video>)
        ensures
            r == (if index < self.videos@.len() { Some(&self.videos@[index as int]) } else { None }),
    {
        if index < self.videos.len() {
            Some(&self.videos[index])
        } else {
            None
        }
    }

    /// Records watch progress on the video at position `index`; returns
    /// whether there is such a video.
    pub fn set_progress(&mut self, index: usize, progress: Option<WatchProgress>) -> (r: bool)
        requires
            old(self).wf(),
        ensures
            final(self).wf(),
            final(self).info == old(self).info,
            r == (index < old(self).videos@.len()),
            final(self).videos@.len() == old(self).videos@.len(),
            forall|k: int| 0 <= k < old(self).videos@.len() && k != index ==>
                #[trigger] final(self).videos@[k] == old(self).videos@[k],
            r ==> final(self).videos@[index as int].progress == progress,
            r ==> final(self).videos@[index as int].id == old(self).videos@[index as int].id,
            r ==> final(self).videos@[index as int].upload == old(self).videos@[index as int].upload,
            r ==> final(self).videos@[index as int].title == old(self).videos@[index as int].title,
            !r ==> *final(self) == *old(self),
    {
        if index < self.videos.len() {
            let mut video = self.videos[index].clone();
            video.progress = progress;
            self.videos.set(index, video);
            proof {
                assert forall|i: int, j: int| 0 <= i < j < self.videos@.len() implies
                    #[trigger] self.videos@[i].upload >= #[trigger] self.videos@[j].upload by {
                    assert(old(self).videos@[i].upload >= old(self).videos@[j].upload);
                }
                assert forall|i: int, j: int| 0 <= i < j < self.videos@.len() implies
                    #[trigger] self.videos@[i].id@ != #[trigger] self.videos@[j].id@ by {
                    assert(old(self).videos@[i].id@ != old(self).videos@[j].id@);
                }
            }
            true
        } else {
            false
        }
    }

    /// Takes in every video of `fetched` whose id the channel does not hold
    /// yet, then orders the whole list newest first again.
    pub fn merge_videos(&mut self, fetched: &Vec<Video>)
        requires
            old(self).wf(),
        ensures
            final(self).wf(),
            final(self).info == old(self).info,
            merge_result(old(self).videos@, fetched@, final(self).videos@),
    {
        let mut videos: Vec<Video> = Vec::new();
        std::mem::swap(&mut videos, &mut self.videos);
        absorb_videos(&mut videos, fetched);
        proof { lemma_absorb_unique(old(self).videos@, fetched@); }
        let sorted = sorted_newest_first(videos);
        proof { lemma_same_videos_unique(videos@, sorted@); }
        self.videos = sorted;
    }
}

/// Merging the same fetched list a second time leaves the same videos as
/// merging it once.
pub proof fn lemma_merge_idempotent(
    before: Seq<Video>,
    fetched: Seq<Video>,
    once: Seq<Video>,
    twice: Seq<Video>,
)
    requires
        merge_result(before, fetched, once),
        merge_result(once, fetched, twice),
    ensures
        twice.to_multiset() == once.to_multiset(),
{
    let a = absorb(before, fetched);
    assert forall|k: int| 0 <= k < fetched.len() implies has_id(once, #[trigger] fetched[k].id@) by {
        assert(has_id(fetched, fetched[k].id@));
        lemma_absorb_ids(before, fetched, fetched[k].id@);
        lemma_same_videos_same_ids(a, once, fetched[k].id@);
    }
    lemma_absorb_known(once, fetched);
}

/// After any merge, each video is at least as recent as the one after it.
pub proof fn lemma_merge_sorted(before: Seq<Video>, fetched: Seq<Video>, after: Seq<Video>)
    requires
        merge_result(before, fetched, after),
    ensures
        forall|i: int| 0 <= i < after.len() - 1 ==> #[trigger] after[i].upload >= after[i + 1].upload,
{
    assert forall|i: int| 0 <= i < after.len() - 1 implies #[trigger] after[i].upload >= after[i + 1].upload by {
        assert(after[i].upload >= after[i + 1].upload);
    }
}

} // verus!

verus! {

/// Position of a channel in the subscribed collection.
#[derive(Clone, Copy, Debug, PartialEq, Eq, Structural)]
pub struct ChannelIndex(pub usize);

impl ChannelIndex {
    pub fn index(&self) -> (r: usize)
        ensures
            r == self.0,
    {
        self.0
    }
}

/// Position of a video: its channel, and its place in that channel's list.
#[derive(Clone, Copy, Debug, PartialEq, Eq, Structural)]
pub struct VideoIndex {
    pub channel: ChannelIndex,
    pub video: usize,
}

/// Whether some channel of `cs` has the id `id`.
pub open spec fn has_channel_id(cs: Seq<Channel>, id: Seq<char>) -> bool {
    exists|k: int| 0 <= k < cs.len() && #[trigger] cs[k].info.id@ == id
}

/// The ids of `cs`, in order.
pub open spec fn channel_ids(cs: Seq<Channel>) -> Seq<Seq<char>> {
    cs.map_values(|c: Channel| c.info.id@)
}

/// The subscribed channels.
#[derive(Debug)]
pub struct Channels(pub Vec<Channel>);

impl Channels {
    /// Every channel well formed, no channel id twice.
    pub open spec fn wf(&self) -> bool {
        &&& forall|k: int| 0 <= k < self.0@.len() ==> #[trigger] self.0@[k].wf()
        &&& forall|i: int, j: int| 0 <= i < j < self.0@.len() ==>
                #[trigger] self.0@[i].info.id@ != #[trigger] self.0@[j].info.id@
    }

    pub fn new() -> (r: Channels)
        ensures
            r.wf(),
            r.0@.len() == 0,
    {
        Channels(Vec::new())
    }

    pub fn len(&self) -> (r: usize)
        ensures
            r == self.0@.len(),
    {
        self.0.len()
    }

    pub fn channel(&self, index: ChannelIndex) -> (r: Option<&Channel>)
        ensures
            r == (if index.0 < self.0@.len() { Some(&self.0@[index.0 as int]) } else { None }),
    {
        if index.0 < self.0.len() {
            Some(&self.0[index.0])
        } else {
            None
        }
    }

    pub fn channel_unchecked(&self, index: ChannelIndex) -> (r: &Channel)
        requires
            index.0 < self.0@.len(),
        ensures
            *r == self.0@[index.0 as int],
    {
        &self.0[index.0]
    }

    /// Position of the channel whose id is `id`.
    pub fn position_by_id(&self, id: &str) -> (r: Option<usize>)
        ensures
            r matches Some(k) ==> k < self.0@.len() && self.0@[k as int].info.id@ == id@,
            r is None <==> !has_channel_id(self.0@, id@),
    {
        let wanted = id.to_owned();
        let mut i: usize = 0;
        while i < self.0.len()
            invariant
                i <= self.0@.len(),
                wanted@ == id@,
                forall|k: int| 0 <= k < i ==> #[trigger] self.0@[k].info.id@ != id@,
            decreases self.0@.len() - i,
        {
            if self.0[i].info.id == wanted {
                return Some(i);
            }
            i += 1;
        }
        None
    }

    pub fn channel_by_id(&self, id: &str) -> (r: Option<&Channel>)
        ensures
            r matches Some(c) ==> c.info.id@ == id@ && self.0@.contains(*c),
            r is None <==> !has_channel_id(self.0@, id@),
    {
        match self.position_by_id(id) {
            Some(k) => Some(&self.0[k]),
            None => None,
        }
    }

    pub fn has_channel(&self, id: &str) -> (r: bool)
        ensures
            r == has_channel_id(self.0@, id@),
    {
        self.position_by_id(id).is_some()
    }

    /// The id and name of every channel, in order.
    pub fn infos(&self) -> (r: Vec<ChannelInfo>)
        ensures
            r@.len() == self.0@.len(),
            forall|k: int| 0 <= k < r@.len() ==> #[trigger] r@[k] == self.0@[k].info,
    {
        let mut r: Vec<ChannelInfo> = Vec::new();
        let mut i: usize = 0;
        while i < self.0.len()
            invariant
                i <= self.0@.len(),
                r@.len() == i,
                forall|k: int| 0 <= k < i ==> #[trigger] r@[k] == self.0@[k].info,
            decreases self.0@.len() - i,
        {
            r.push(self.0[i].info.clone());
            i += 1;
        }
        r
    }

    /// The name of every channel, in order.
    pub fn names(&self) -> (r: Vec<String>)
        ensures
            r@.len() == self.0@.len(),
            forall|k: int| 0 <= k < r@.len() ==> #[trigger] r@[k]@ == self.0@[k].info.name@,
    {
        let mut r: Vec<String> = Vec::new();
        let mut i: usize = 0;
        while i < self.0.len()
            invariant
                i <= self.0@.len(),
                r@.len() == i,
                forall|k: int| 0 <= k < i ==> #[trigger] r@[k]@ == self.0@[k].info.name@,
            decreases self.0@.len() - i,
        {
            r.push(self.0[i].info.name.clone());
            i += 1;
        }
        r
    }

    /// Adds `channel` at the end unless a channel with its id is held
    /// already; returns whether it was added.
    pub fn add(&mut self, channel: Channel) -> (r: bool)
        requires
            old(self).wf(),
            channel.wf(),
        ensures
            final(self).wf(),
            r == !has_channel_id(old(self).0@, channel.info.id@),
            r ==> final(self).0@ == old(self).0@.push(channel),
            !r ==> *final(self) == *old(self),
    {
        if self.has_channel(channel.info.id.as_str()) {
            return false;
        }
        let ghost before = self.0@;
        self.0.push(channel);
        proof {
            assert forall|i: int, j: int| 0 <= i < j < self.0@.len() implies
                #[trigger] self.0@[i].info.id@ != #[trigger] self.0@[j].info.id@ by {
                if j == before.len() {
                    assert(before[i].info.id@ != channel.info.id@);
                } else {
                    assert(before[i].info.id@ != before[j].info.id@);
                }
            }
        }
        true
    }

    /// Subscribes to `info` with its fetched `feed`: the channel keeps the
    /// `video_count` newest videos of the feed, one per id. Returns whether
    /// the channel was new.
    pub fn subscribe(&mut self, info: ChannelInfo, feed: Vec<Video>, video_count: usize) -> (r: bool)
        requires
            old(self).wf(),
        ensures
            final(self).wf(),
            r == !has_channel_id(old(self).0@, info.id@),
            !r ==> *final(self) == *old(self),
            r ==> final(self).0@.len() == old(self).0@.len() + 1,
            r ==> final(self).0@.drop_last() == old(self).0@,
            r ==> final(self).0@.last().info == info,
            r ==> final(self).0@.last().videos@.len() <= video_count,
            r ==> exists|full: Seq<Video>| merge_result(Seq::empty(), feed@, full)
                && #[trigger] final(self).0@.last().videos@ == full.take(
                    if video_count < full.len() { video_count as int } else { full.len() as int },
                ),
    {
        let mut channel = Channel::new(info, feed);
        let ghost full = channel.videos@;
        channel.videos.truncate(video_count);
        let ghost kept = channel.videos@;
        proof {
            assert(kept =~= full.take(if video_count < full.len() { video_count as int } else { full.len() as int }));
            assert forall|i: int, j: int| 0 <= i < j < kept.len() implies
                #[trigger] kept[i].upload >= #[trigger] kept[j].upload by {
                assert(full[i].upload >= full[j].upload);
            }
            assert forall|i: int, j: int| 0 <= i < j < kept.len() implies
                #[trigger] kept[i].id@ != #[trigger] kept[j].id@ by {
                assert(full[i].id@ != full[j].id@);
            }
        }
        let ghost added = channel;
        let r = self.add(channel);
        proof {
            if r {
                assert(self.0@.drop_last() =~= old(self).0@);
                assert(self.0@.last() == added);
            }
        }
        r
    }

    /// Merges a fetched channel into the held channel with the same id, if
    /// there is one; returns whether there was.
    pub fn merge_fetched(&mut self, fetched: &Channel) -> (r: bool)
        requires
            old(self).wf(),
        ensures
            final(self).wf(),
            r == has_channel_id(old(self).0@, fetched.info.id@),
            final(self).0@.len() == old(self).0@.len(),
            forall|k: int| 0 <= k < old(self).0@.len() ==>
                #[trigger] final(self).0@[k].info == old(self).0@[k].info,
            forall|k: int| 0 <= k < old(self).0@.len() && old(self).0@[k].info.id@ != fetched.info.id@
                ==> #[trigger] final(self).0@[k] == old(self).0@[k],
            forall|k: int| 0 <= k < old(self).0@.len() && old(self).0@[k].info.id@ == fetched.info.id@
                ==> merge_result(old(self).0@[k].videos@, fetched.videos@, #[trigger] final(self).0@[k].videos@),
    {
        match self.position_by_id(fetched.info.id.as_str()) {
            None => false,
            Some(p) => {
                let ghost before = self.0@;
                let mut channel = self.0.remove(p);
                assert(channel == before[p as int]);
                channel.merge_videos(&fetched.videos);
                self.0.insert(p, channel);
                proof {
                    assert forall|k: int| 0 <= k < before.len() && k != p implies
                        #[trigger] self.0@[k] == before[k] by {
                        if k < p {
                            assert(self.0@[k] == before.remove(p as int)[k]);
                        } else {
                            assert(self.0@[k] == before.remove(p as int)[k - 1]);
                        }
                    }
                    assert forall|k: int| 0 <= k < before.len() && before[k].info.id@ == fetched.info.id@
                        implies k == p by {
                        if k != p {
                            if k < p {
                                assert(before[k].info.id@ != before[p as int].info.id@);
                            } else {
                                assert(before[p as int].info.id@ != before[k].info.id@);
                            }
                        }
                    }
                    assert forall|i: int, j: int| 0 <= i < j < self.0@.len() implies
                        #[trigger] self.0@[i].info.id@ != #[trigger] self.0@[j].info.id@ by {
                        assert(before[i].info.id@ != before[j].info.id@);
                    }
                }
                true
            }
        }
    }
}

} // verus!

verus! {

/// The entries `(upload, channel, video)` of channel `c` at position `ci`.
pub open spec fn channel_entries(c: Channel, ci: int) -> Seq<(i64, usize, usize)> {
    Seq::new(c.videos@.len(), |v: int| (c.videos@[v].upload, ci as usize, v as usize))
}

/// The entries `(upload, channel, video)` of every video of `cs`.
pub open spec fn mixed_entries(cs: Seq<Channel>) -> Seq<(i64, usize, usize)>
    decreases cs.len(),
{
    if cs.len() == 0 {
        Seq::empty()
    } else {
        mixed_entries(cs.drop_last()) + channel_entries(cs.last(), cs.len() - 1)
    }
}

/// Newest upload first over entries.
pub open spec fn entries_newest_first(es: Seq<(i64, usize, usize)>) -> bool {
    forall|i: int, j: int| 0 <= i < j < es.len() ==> #[trigger] es[i].0 >= #[trigger] es[j].0
}

/// Relies on itertools' `Itertools::sorted_by` (a stable sort of the
/// collected items): the same entries come back, newest upload first.
#[verifier::external_body]
fn sorted_entries(entries: Vec<(i64, usize, usize)>) -> (r: Vec<(i64, usize, usize)>)
    ensures
        r@.to_multiset() == entries@.to_multiset(),
        entries_newest_first(r@),
{
    entries.into_iter().sorted_by(|a, b| b.0.cmp(&a.0)).collect()
}

/// Entry `e` names a video of `cs` and carries its upload time.
pub open spec fn entry_valid(cs: Seq<Channel>, e: (i64, usize, usize)) -> bool {
    &&& (e.1 as int) < cs.len()
    &&& (e.2 as int) < cs[e.1 as int].videos@.len()
    &&& cs[e.1 as int].videos@[e.2 as int].upload == e.0
}

impl Channels {
    /// Every video of every channel, newest upload first, by position.
    pub fn mixed_feed(&self) -> (r: Vec<VideoIndex>)
        ensures
            r@.len() == mixed_entries(self.0@).len(),
            forall|i: int| 0 <= i < r@.len() ==> (#[trigger] r@[i]).channel.0 < self.0@.len()
                && r@[i].video < self.0@[r@[i].channel.0 as int].videos@.len(),
            r@.map_values(|x: VideoIndex| (self.0@[x.channel.0 as int].videos@[x.video as int].upload, x.channel.0, x.video)).to_multiset()
                == mixed_entries(self.0@).to_multiset(),
            forall|i: int, j: int| 0 <= i < j < r@.len() ==>
                self.0@[(#[trigger] r@[i]).channel.0 as int].videos@[r@[i].video as int].upload
                >= self.0@[(#[trigger] r@[j]).channel.0 as int].videos@[r@[j].video as int].upload,
    {
        let mut entries: Vec<(i64, usize, usize)> = Vec::new();
        let mut c: usize = 0;
        while c < self.0.len()
            invariant
                c <= self.0@.len(),
                entries@ == mixed_entries(self.0@.subrange(0, c as int)),
                forall|k: int| 0 <= k < entries@.len() ==> entry_valid(self.0@, #[trigger] entries@[k]),
            decreases self.0@.len() - c,
        {
            let ghost start = entries@;
            let videos = &self.0[c].videos;
            let mut v: usize = 0;
            while v < videos.len()
                invariant
                    c < self.0@.len(),
                    *videos == self.0@[c as int].videos,
                    v <= videos@.len(),
                    entries@ == start + channel_entries(self.0@[c as int], c as int).subrange(0, v as int),
                    forall|k: int| 0 <= k < entries@.len() ==> entry_valid(self.0@, #[trigger] entries@[k]),
                decreases videos@.len() - v,
            {
                entries.push((videos[v].upload, c, v));
                proof {
                    assert(entries@ =~= start + channel_entries(self.0@[c as int], c as int).subrange(0, v as int + 1));
                }
                v += 1;
            }
            proof {
                let prefix = self.0@.subrange(0, c as int + 1);
                assert(prefix.drop_last() =~= self.0@.subrange(0, c as int));
                assert(prefix.last() == self.0@[c as int]);
                assert(channel_entries(self.0@[c as int], c as int).subrange(0, v as int)
                    =~= channel_entries(self.0@[c as int], c as int));
            }
            c += 1;
        }
        assert(self.0@.subrange(0, self.0@.len() as int) =~= self.0@);
        let ghost built = entries@;
        let sorted = sorted_entries(entries);
        let ghost all = mixed_entries(self.0@);
        proof {
            assert forall|k: int| 0 <= k < sorted@.len() implies entry_valid(self.0@, #[trigger] sorted@[k]) by {
                assert(sorted@.contains(sorted@[k]));
                vstd::seq_lib::to_multiset_contains(sorted@, sorted@[k]);
                vstd::seq_lib::to_multiset_contains(built, sorted@[k]);
                let m = choose|m: int| 0 <= m < built.len() && built[m] == sorted@[k];
                assert(entry_valid(self.0@, built[m]));
            }
        }
        let mut r: Vec<VideoIndex> = Vec::new();
        let mut i: usize = 0;
        while i < sorted.len()
            invariant
                i <= sorted@.len(),
                sorted@.to_multiset() == all.to_multiset(),
                all == mixed_entries(self.0@),
                r@.len() == i,
                forall|k: int| 0 <= k < i ==> (#[trigger] r@[k]).channel.0 == sorted@[k].1 && r@[k].video == sorted@[k].2,
                forall|k: int| 0 <= k < sorted@.len() ==> entry_valid(self.0@, #[trigger] sorted@[k]),
                entries_newest_first(sorted@),
            decreases sorted@.len() - i,
        {
            r.push(VideoIndex { channel: ChannelIndex(sorted[i].1), video: sorted[i].2 });
            i += 1;
        }
        proof {
            let view = r@.map_values(|x: VideoIndex| (self.0@[x.channel.0 as int].videos@[x.video as int].upload, x.channel.0, x.video));
            assert(view =~= sorted@);
            vstd::seq_lib::to_multiset_len(sorted@);
            vstd::seq_lib::to_multiset_len(all);
        }
        r
    }
}

} // verus!

verus! {

/// With no id twice, taking in every video keeps them all, in order.
pub proof fn lemma_absorb_distinct(videos: Seq<Video>)
    requires
        unique_ids(videos),
    ensures
        absorb(Seq::empty(), videos) == videos,
    decreases videos.len(),
{
    if videos.len() > 0 {
        let init = videos.drop_last();
        assert(unique_ids(init)) by {
            assert forall|i: int, j: int| 0 <= i < j < init.len() implies #[trigger] init[i].id@ != #[trigger] init[j].id@ by {
                assert(videos[i].id@ != videos[j].id@);
            }
        }
        lemma_absorb_distinct(init);
        if has_id(init, videos.last().id@) {
            let k = choose|k: int| 0 <= k < init.len() && #[trigger] init[k].id@ == videos.last().id@;
            assert(videos[k].id@ != videos[videos.len() - 1].id@);
        }
        assert(init.push(videos.last()) =~= videos);
    }
}

/// A channel made from videos with distinct ids holds exactly those videos,
/// each at least as recent as the next.
pub proof fn lemma_new_channel_keeps_all(videos: Seq<Video>, result: Seq<Video>)
    requires
        unique_ids(videos),
        merge_result(Seq::empty(), videos, result),
    ensures
        result.to_multiset() == videos.to_multiset(),
        forall|i: int| 0 <= i < result.len() - 1 ==> #[trigger] result[i].upload >= result[i + 1].upload,
{
    lemma_absorb_distinct(videos);
    lemma_merge_sorted(Seq::empty(), videos, result);
}

/// Subscribing with a fetched feed of distinct ids and at most `count`
/// videos keeps the whole feed.
pub proof fn lemma_subscribe_keeps_feed(feed: Seq<Video>, full: Seq<Video>, count: nat)
    requires
        unique_ids(feed),
        feed.len() <= count,
        merge_result(Seq::empty(), feed, full),
    ensures
        full.take(if count < full.len() { count as int } else { full.len() as int }) == full,
        full.to_multiset() == feed.to_multiset(),
{
    lemma_absorb_distinct(feed);
    assert(full.len() == feed.len()) by {
        vstd::seq_lib::to_multiset_len(full);
        vstd::seq_lib::to_multiset_len(feed);
    }
    assert(full.take(full.len() as int) =~= full);
}

} // verus!

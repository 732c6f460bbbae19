//! Draining refresh results into the subscribed channels: one result per
//! channel fetch, merged as it arrives.

use vstd::prelude::*;
use crate::channel::{Channel, Channels, channel_ids, has_channel_id, merge_result};
use crate::video::{Video, has_id};

verus! {

/// How long a drain of refresh results waits.
#[derive(Clone, Copy, Debug, PartialEq, Eq, Structural)]
pub enum Blocking {
    /// Wait until this many distinct channels have been merged (at most as
    /// many as are subscribed).
    WaitForN(usize),
    /// Merge what is available and return.
    NoWait,
}

/// What became of one refresh result.
#[derive(Clone, Copy, Debug, PartialEq, Eq, Structural)]
pub enum DrainStep {
    /// It was merged into its channel and counted.
    Merged,
    /// Its channel was merged already in this drain, or the drain had reached
    /// its count: it was discarded.
    Stale,
    /// No subscribed channel has its id: it was discarded.
    Unsubscribed,
}

/// The ids counted by a drain after one more result with id `id`.
pub open spec fn drain_step(
    merged: Seq<Seq<char>>,
    target: nat,
    subscribed: Seq<Seq<char>>,
    id: Seq<char>,
) -> Seq<Seq<char>> {
    if merged.len() >= target || merged.contains(id) || !subscribed.contains(id) {
        merged
    } else {
        merged.push(id)
    }
}

/// The ids counted by a drain after results with ids `ids`, in order.
pub open spec fn drain_run(
    merged: Seq<Seq<char>>,
    target: nat,
    subscribed: Seq<Seq<char>>,
    ids: Seq<Seq<char>>,
) -> Seq<Seq<char>>
    decreases ids.len(),
{
    if ids.len() == 0 {
        merged
    } else {
        drain_step(drain_run(merged, target, subscribed, ids.drop_last()), target, subscribed, ids.last())
    }
}

/// The drain target of `WaitForN(n)` over `subscribed` channels.
pub open spec fn wait_target(n: nat, subscribed: nat) -> nat {
    if n < subscribed { n } else { subscribed }
}

/// A blocking drain in progress: how many distinct channels it waits for,
/// and the ids of those merged so far.
#[derive(Debug)]
pub struct RefreshDrain {
    pub target: usize,
    pub merged: Vec<String>,
}

impl RefreshDrain {
    pub open spec fn merged_ids(&self) -> Seq<Seq<char>> {
        self.merged@.map_values(|s: String| s@)
    }

    /// Counted ids are distinct subscribed ids, never more than the target, and
    /// the target never exceeds the subscribed channels.
    pub open spec fn wf(&self, subscribed: Seq<Seq<char>>) -> bool {
        &&& self.target <= subscribed.len()
        &&& self.merged_ids().len() <= self.target
        &&& self.merged_ids().no_duplicates()
        &&& forall|k: int| 0 <= k < self.merged_ids().len() ==> subscribed.contains(#[trigger] self.merged_ids()[k])
    }

    /// A drain for `WaitForN(count)` over the subscribed `channels`.
    pub fn new(count: usize, channels: &Channels) -> (r: RefreshDrain)
        ensures
            r.target == wait_target(count as nat, channels.0@.len() as nat),
            r.merged_ids() == Seq::<Seq<char>>::empty(),
            r.wf(channel_ids(channels.0@)),
    {
        let subscribed = channels.len();
        let target = if count < subscribed { count } else { subscribed };
        let r = RefreshDrain { target, merged: Vec::new() };
        assert(r.merged_ids() =~= Seq::<Seq<char>>::empty());
        r
    }

    /// Whether the drain has counted as many channels as it waits for.
    pub fn is_done(&self) -> (r: bool)
        ensures
            r == (self.merged_ids().len() >= self.target),
    {
        self.merged.len() >= self.target
    }

    fn counted(&self, id: &String) -> (r: bool)
        ensures
            r == self.merged_ids().contains(id@),
    {
        let mut i: usize = 0;
        while i < self.merged.len()
            invariant
                i <= self.merged@.len(),
                forall|k: int| 0 <= k < i ==> #[trigger] self.merged@[k]@ != id@,
            decreases self.merged@.len() - i,
        {
            if self.merged[i] == *id {
                assert(self.merged_ids()[i as int] == id@);
                return true;
            }
            i += 1;
        }
        assert forall|k: int| 0 <= k < self.merged_ids().len() implies #[trigger] self.merged_ids()[k] != id@ by {
            assert(self.merged@[k]@ != id@);
        }
        false
    }

    /// Takes one refresh result: merges it and counts its channel when the
    /// channel is subscribed, not counted yet, and the drain is not done;
    /// discards it otherwise.
    pub fn accept(&mut self, channels: &mut Channels, fetched: &Channel) -> (r: DrainStep)
        requires
            old(channels).wf(),
            old(self).wf(channel_ids(old(channels).0@)),
        ensures
            final(channels).wf(),
            channel_ids(final(channels).0@) == channel_ids(old(channels).0@),
            final(self).wf(channel_ids(final(channels).0@)),
            final(self).target == old(self).target,
            final(self).merged_ids() == drain_step(
                old(self).merged_ids(),
                old(self).target as nat,
                channel_ids(old(channels).0@),
                fetched.info.id@,
            ),
            r == DrainStep::Unsubscribed <==> !has_channel_id(old(channels).0@, fetched.info.id@),
            r == DrainStep::Merged <==> final(self).merged_ids().len() == old(self).merged_ids().len() + 1,
            r != DrainStep::Merged ==> *final(channels) == *old(channels),
            r == DrainStep::Merged ==> forall|k: int| 0 <= k < old(channels).0@.len()
                && old(channels).0@[k].info.id@ == fetched.info.id@ ==> merge_result(
                    old(channels).0@[k].videos@,
                    fetched.videos@,
                    #[trigger] final(channels).0@[k].videos@,
                ),
    {
        let ghost subscribed = channel_ids(channels.0@);
        let ghost id = fetched.info.id@;
        proof {
            assert(subscribed.contains(id) == has_channel_id(channels.0@, id)) by {
                if has_channel_id(channels.0@, id) {
                    let k = choose|k: int| 0 <= k < channels.0@.len() && #[trigger] channels.0@[k].info.id@ == id;
                    assert(subscribed[k] == id);
                }
            }
        }
        if !channels.has_channel(fetched.info.id.as_str()) {
            return DrainStep::Unsubscribed;
        }
        if self.is_done() || self.counted(&fetched.info.id) {
            return DrainStep::Stale;
        }
        let ghost before = *channels;
        let ghost counted_before = self.merged_ids();
        channels.merge_fetched(fetched);
        self.merged.push(fetched.info.id.clone());
        proof {
            assert(channel_ids(channels.0@) =~= channel_ids(before.0@)) by {
                assert forall|k: int| 0 <= k < before.0@.len() implies
                    #[trigger] channel_ids(channels.0@)[k] == channel_ids(before.0@)[k] by {
                    assert(channels.0@[k].info == before.0@[k].info);
                }
            }
            assert(self.merged_ids() =~= counted_before.push(id));
        }
        DrainStep::Merged
    }
}

/// The videos of every result in `results` with channel id `id`, in order.
pub open spec fn results_for(results: Seq<Channel>, id: Seq<char>) -> Seq<Video>
    decreases results.len(),
{
    if results.len() == 0 {
        Seq::empty()
    } else {
        results_for(results.drop_last(), id) + (if results.last().info.id@ == id { results.last().videos@ } else { Seq::empty() })
    }
}

/// Merges every available refresh result, each into the subscribed channel with
/// its id; results of unsubscribed channels are dropped. Each channel ends as
/// one merge of all the videos of its results, in the order they came.
pub fn drain_available(channels: &mut Channels, results: &Vec<Channel>)
    requires
        old(channels).wf(),
    ensures
        final(channels).wf(),
        final(channels).0@.len() == old(channels).0@.len(),
        forall|k: int| 0 <= k < old(channels).0@.len() ==>
            #[trigger] final(channels).0@[k].info == old(channels).0@[k].info,
        forall|k: int| 0 <= k < old(channels).0@.len() ==> merge_result(
            old(channels).0@[k].videos@,
            results_for(results@, old(channels).0@[k].info.id@),
            #[trigger] final(channels).0@[k].videos@,
        ),
        forall|k: int| 0 <= k < old(channels).0@.len()
            && (forall|m: int| 0 <= m < results@.len() ==> #[trigger] results@[m].info.id@ != old(channels).0@[k].info.id@)
            ==> #[trigger] final(channels).0@[k] == old(channels).0@[k],
{
    let ghost start = *channels;
    proof {
        assert forall|k: int| 0 <= k < start.0@.len() implies merge_result(
            start.0@[k].videos@,
            results_for(results@.subrange(0, 0), start.0@[k].info.id@),
            #[trigger] start.0@[k].videos@,
        ) by {
            assert(start.0@[k].wf());
        }
    }
    let mut i: usize = 0;
    while i < results.len()
        invariant
            i <= results@.len(),
            channels.wf(),
            channels.0@.len() == start.0@.len(),
            forall|k: int| 0 <= k < start.0@.len() ==> #[trigger] channels.0@[k].info == start.0@[k].info,
            forall|k: int| 0 <= k < start.0@.len() ==> merge_result(
                start.0@[k].videos@,
                results_for(results@.subrange(0, i as int), start.0@[k].info.id@),
                #[trigger] channels.0@[k].videos@,
            ),
            forall|k: int| 0 <= k < start.0@.len()
                && (forall|m: int| 0 <= m < i ==> #[trigger] results@[m].info.id@ != start.0@[k].info.id@)
                ==> #[trigger] channels.0@[k] == start.0@[k],
        decreases results@.len() - i,
    {
        let ghost before = *channels;
        channels.merge_fetched(&results[i]);
        proof {
            let r = results@[i as int];
            let next = results@.subrange(0, i as int + 1);
            assert(next.drop_last() =~= results@.subrange(0, i as int));
            assert(next.last() == r);
            assert forall|k: int| 0 <= k < start.0@.len() implies merge_result(
                start.0@[k].videos@,
                results_for(next, start.0@[k].info.id@),
                #[trigger] channels.0@[k].videos@,
            ) by {
                let id = start.0@[k].info.id@;
                let earlier = results_for(results@.subrange(0, i as int), id);
                if r.info.id@ == id {
                    lemma_absorb_same_videos(
                        before.0@[k].videos@,
                        crate::channel::absorb(start.0@[k].videos@, earlier),
                        r.videos@,
                    );
                    lemma_absorb_concat(start.0@[k].videos@, earlier, r.videos@);
                } else {
                    assert(results_for(next, id) =~= earlier);
                }
            }
        }
        i += 1;
    }
    assert(results@.subrange(0, results@.len() as int) =~= results@);
}

/// Taking in `a` and then `b` is taking in `a + b`.
pub proof fn lemma_absorb_concat(e: Seq<Video>, a: Seq<Video>, b: Seq<Video>)
    ensures
        crate::channel::absorb(crate::channel::absorb(e, a), b) == crate::channel::absorb(e, a + b),
    decreases b.len(),
{
    if b.len() == 0 {
        assert(a + b =~= a);
    } else {
        lemma_absorb_concat(e, a, b.drop_last());
        assert((a + b).drop_last() =~= a + b.drop_last());
        assert((a + b).last() == b.last());
    }
}

/// What taking in `b` adds depends only on which videos are held, not on
/// their order.
pub proof fn lemma_absorb_same_videos(x: Seq<Video>, y: Seq<Video>, b: Seq<Video>)
    requires
        x.to_multiset() == y.to_multiset(),
    ensures
        crate::channel::absorb(x, b).to_multiset() == crate::channel::absorb(y, b).to_multiset(),
    decreases b.len(),
{
    if b.len() > 0 {
        lemma_absorb_same_videos(x, y, b.drop_last());
        let ax = crate::channel::absorb(x, b.drop_last());
        let ay = crate::channel::absorb(y, b.drop_last());
        crate::video::lemma_same_videos_same_ids(ax, ay, b.last().id@);
        if !has_id(ax, b.last().id@) {
            vstd::seq_lib::to_multiset_build(ax, b.last());
            vstd::seq_lib::to_multiset_build(ay, b.last());
        }
    }
}

/// A merge keeps every id of the channel and of the fetched list.
pub proof fn lemma_merge_keeps_ids(before: Seq<Video>, fetched: Seq<Video>, after: Seq<Video>, id: Seq<char>)
    requires
        merge_result(before, fetched, after),
    ensures
        has_id(after, id) == (has_id(before, id) || has_id(fetched, id)),
{
    crate::channel::lemma_absorb_ids(before, fetched, id);
    crate::video::lemma_same_videos_same_ids(crate::channel::absorb(before, fetched), after, id);
}

/// A drain never counts more channels than its target, which never exceeds
/// the subscribed channels, and counts each at most once.
pub proof fn lemma_drain_bounded(merged: Seq<Seq<char>>, target: nat, subscribed: Seq<Seq<char>>, ids: Seq<Seq<char>>)
    requires
        target <= subscribed.len(),
        merged.len() <= target,
        merged.no_duplicates(),
    ensures
        drain_run(merged, target, subscribed, ids).len() <= target,
        drain_run(merged, target, subscribed, ids).no_duplicates(),
    decreases ids.len(),
{
    if ids.len() > 0 {
        lemma_drain_bounded(merged, target, subscribed, ids.drop_last());
        let m = drain_run(merged, target, subscribed, ids.drop_last());
        let id = ids.last();
        if !(m.len() >= target || m.contains(id) || !subscribed.contains(id)) {
            assert forall|i: int, j: int| 0 <= i < j < m.push(id).len() implies m.push(id)[i] != m.push(id)[j] by {
                if j == m.len() {
                    assert(m.contains(m[i]));
                }
            }
        }
    }
}

proof fn lemma_wait_prefix(subscribed: Seq<Seq<char>>, ids: Seq<Seq<char>>, k: nat)
    requires
        subscribed.no_duplicates(),
        ids.no_duplicates(),
        ids.len() == subscribed.len(),
        forall|m: int| 0 <= m < ids.len() ==> subscribed.contains(#[trigger] ids[m]),
        k <= ids.len(),
    ensures
        drain_run(Seq::empty(), wait_target(subscribed.len(), subscribed.len()), subscribed, ids.take(k as int)) == ids.take(k as int),
    decreases k,
{
    let target = wait_target(subscribed.len(), subscribed.len());
    if k > 0 {
        lemma_wait_prefix(subscribed, ids, (k - 1) as nat);
        let prefix = ids.take(k as int);
        assert(prefix.drop_last() =~= ids.take(k - 1));
        let before = ids.take(k - 1);
        let id = ids[k - 1];
        assert(prefix.last() == id);
        assert(!before.contains(id)) by {
            if before.contains(id) {
                let j = choose|j: int| 0 <= j < before.len() && before[j] == id;
                assert(ids[j] == ids[k - 1]);
            }
        }
        assert(subscribed.contains(id));
        assert(before.push(id) =~= prefix);
    }
}

/// With `n` subscribed channels each giving exactly one result, a drain for
/// `WaitForN(n)` is done after the last result and not before: the first `k`
/// results count exactly `k` channels.
pub proof fn lemma_wait_for_n(subscribed: Seq<Seq<char>>, ids: Seq<Seq<char>>, k: nat)
    requires
        subscribed.no_duplicates(),
        ids.no_duplicates(),
        ids.len() == subscribed.len(),
        forall|m: int| 0 <= m < ids.len() ==> subscribed.contains(#[trigger] ids[m]),
        k <= ids.len(),
    ensures
        drain_run(Seq::empty(), wait_target(subscribed.len(), subscribed.len()), subscribed, ids.take(k as int)) == ids.take(k as int),
        drain_run(Seq::empty(), wait_target(subscribed.len(), subscribed.len()), subscribed, ids).len() == subscribed.len(),
{
    lemma_wait_prefix(subscribed, ids, k);
    lemma_wait_prefix(subscribed, ids, ids.len());
    assert(ids.take(ids.len() as int) =~= ids);
}

} // verus!

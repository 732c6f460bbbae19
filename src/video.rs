//! The channel model: videos, channels and the collection of subscribed
//! channels, with the ordering invariant every channel keeps.

use itertools::Itertools;
use vstd::prelude::*;
use crate::text::push_str;

verus! {

broadcast use vstd::seq_lib::group_to_multiset_ensures;

/// Watch progress of a video, in whole seconds.
#[derive(Clone, Copy, Debug, PartialEq, Eq, Structural)]
pub struct WatchProgress {
    pub current: u32,
    pub duration: u32,
}

impl WatchProgress {
    pub fn new(current: u32, duration: u32) -> (r: WatchProgress)
        ensures
            r == (WatchProgress { current, duration }),
    {
        WatchProgress { current, duration }
    }
}

/// One fetched video. `upload` is the upload time in seconds since the Unix
/// epoch.
#[derive(Debug)]
pub struct Video {
    pub id: String,
    pub title: String,
    pub description: String,
    pub upload: i64,
    pub progress: Option<WatchProgress>,
}

impl Clone for Video {
    fn clone(&self) -> (r: Video)
        ensures
            r == *self,
    {
        Video {
            id: self.id.clone(),
            title: self.title.clone(),
            description: self.description.clone(),
            upload: self.upload,
            progress: self.progress,
        }
    }
}

impl Video {
    pub fn new(title: &str, id: &str, description: &str, upload: i64, progress: Option<WatchProgress>) -> (r: Video)
        ensures
            r.title@ == title@,
            r.id@ == id@,
            r.description@ == description@,
            r.upload == upload,
            r.progress == progress,
    {
        Video {
            title: title.to_owned(),
            id: id.to_owned(),
            description: description.to_owned(),
            upload,
            progress,
        }
    }

    /// The address at which the video can be watched.
    pub fn url(&self) -> (r: String)
        ensures
            r@ == watch_url_prefix() + self.id@,
    {
        let mut r = String::new();
        push_str(&mut r, "https://www.youtube.com/watch?v=");
        push_str(&mut r, self.id.as_str());
        proof { reveal_strlit("https://www.youtube.com/watch?v="); }
        r
    }

    pub fn title(&self) -> (r: &str)
        ensures
            r@ == self.title@,
    {
        self.title.as_str()
    }
}

pub open spec fn watch_url_prefix() -> Seq<char> {
    "https://www.youtube.com/watch?v="@
}

pub open spec fn channel_url_prefix() -> Seq<char> {
    "https://www.youtube.com/channel/"@
}

/// A lightweight reference to a channel: its id and display name.
#[derive(Debug)]
pub struct ChannelInfo {
    pub id: String,
    pub name: String,
}

impl Clone for ChannelInfo {
    fn clone(&self) -> (r: ChannelInfo)
        ensures
            r == *self,
    {
        ChannelInfo { id: self.id.clone(), name: self.name.clone() }
    }
}

impl ChannelInfo {
    pub fn new(id: &str, name: &str) -> (r: ChannelInfo)
        ensures
            r.id@ == id@,
            r.name@ == name@,
    {
        ChannelInfo { id: id.to_owned(), name: name.to_owned() }
    }

    pub fn id(&self) -> (r: &str)
        ensures
            r@ == self.id@,
    {
        self.id.as_str()
    }

    pub fn name(&self) -> (r: &str)
        ensures
            r@ == self.name@,
    {
        self.name.as_str()
    }

    /// The address of the channel's list of videos.
    pub fn url_videos(&self) -> (r: String)
        ensures
            r@ == channel_url_prefix() + self.id@ + "/videos"@,
    {
        let mut r = String::new();
        push_str(&mut r, "https://www.youtube.com/channel/");
        push_str(&mut r, self.id.as_str());
        push_str(&mut r, "/videos");
        proof {
            reveal_strlit("https://www.youtube.com/channel/");
            reveal_strlit("/videos");
        }
        r
    }
}

/// Whether some video of `vs` has the id `id`.
pub open spec fn has_id(vs: Seq<Video>, id: Seq<char>) -> bool {
    exists|i: int| 0 <= i < vs.len() && #[trigger] vs[i].id@ == id
}

/// Newest upload first: every video is at least as recent as the ones after it.
pub open spec fn newest_first(vs: Seq<Video>) -> bool {
    forall|i: int, j: int| 0 <= i < j < vs.len() ==> #[trigger] vs[i].upload >= #[trigger] vs[j].upload
}

/// No two videos of `vs` share an id.
pub open spec fn unique_ids(vs: Seq<Video>) -> bool {
    forall|i: int, j: int| 0 <= i < j < vs.len() ==> #[trigger] vs[i].id@ != #[trigger] vs[j].id@
}

/// Relies on itertools' `Itertools::sorted_by`, which collects into a `Vec`
/// and sorts it with std's `sort_by`: the same videos come back, newest
/// upload first.
#[verifier::external_body]
pub(crate) fn sorted_newest_first(videos: Vec<Video>) -> (r: Vec<Video>)
    ensures
        r@.to_multiset() == videos@.to_multiset(),
        newest_first(r@),
{
    videos.into_iter().sorted_by(|a, b| b.upload.cmp(&a.upload)).collect()
}

/// Two sequences holding the same videos agree on which ids they hold.
pub proof fn lemma_same_videos_same_ids(a: Seq<Video>, b: Seq<Video>, id: Seq<char>)
    requires
        a.to_multiset() == b.to_multiset(),
    ensures
        has_id(a, id) == has_id(b, id),
{
    if has_id(a, id) {
        let i = choose|i: int| 0 <= i < a.len() && #[trigger] a[i].id@ == id;
        assert(a.contains(a[i]));
        vstd::seq_lib::to_multiset_contains(a, a[i]);
        vstd::seq_lib::to_multiset_contains(b, a[i]);
        let j = choose|j: int| 0 <= j < b.len() && b[j] == a[i];
        assert(b[j].id@ == id);
    }
    if has_id(b, id) {
        let i = choose|i: int| 0 <= i < b.len() && #[trigger] b[i].id@ == id;
        assert(b.contains(b[i]));
        vstd::seq_lib::to_multiset_contains(a, b[i]);
        vstd::seq_lib::to_multiset_contains(b, b[i]);
        let j = choose|j: int| 0 <= j < a.len() && a[j] == b[i];
        assert(a[j].id@ == id);
    }
}

/// Unique ids carry over between sequences that hold the same videos.
pub proof fn lemma_same_videos_unique(a: Seq<Video>, b: Seq<Video>)
    requires
        a.to_multiset() == b.to_multiset(),
        unique_ids(a),
    ensures
        unique_ids(b),
{
    assert forall|i: int, j: int| 0 <= i < j < b.len() implies #[trigger] b[i].id@ != #[trigger] b[j].id@ by {
        if b[i].id@ == b[j].id@ {
            assert(b.contains(b[i]));
            assert(b.contains(b[j]));
            vstd::seq_lib::to_multiset_contains(a, b[i]);
            vstd::seq_lib::to_multiset_contains(b, b[i]);
            vstd::seq_lib::to_multiset_contains(a, b[j]);
            vstd::seq_lib::to_multiset_contains(b, b[j]);
            let p = choose|p: int| 0 <= p < a.len() && a[p] == b[i];
            let q = choose|q: int| 0 <= q < a.len() && a[q] == b[j];
            if b[i] != b[j] {
                assert(p != q);
                if p < q {
                    assert(a[p].id@ != a[q].id@);
                } else {
                    assert(a[q].id@ != a[p].id@);
                }
            } else {
                let x = b[i];
                vstd::seq_lib::to_multiset_remove(b, j);
                let br = b.remove(j);
                assert(br[i] == x);
                assert(br.contains(x));
                assert(br.to_multiset().count(x) > 0);
                assert(b.to_multiset().remove(x).count(x) > 0);
                assert(b.to_multiset().count(x) >= 2);
                vstd::seq_lib::to_multiset_remove(a, p);
                let ar = a.remove(p);
                assert(ar.to_multiset() == a.to_multiset().remove(x));
                assert(ar.to_multiset().count(x) > 0);
                assert(ar.contains(x));
                let k = choose|k: int| 0 <= k < ar.len() && ar[k] == x;
                let m = if k < p { k } else { k + 1 };
                assert(a[m] == x);
                assert(m != p);
                if p < m {
                    assert(a[p].id@ != a[m].id@);
                } else {
                    assert(a[m].id@ != a[p].id@);
                }
            }
        }
    }
}

} // verus!

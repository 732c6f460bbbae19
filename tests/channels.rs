use yt_feeds::channel::{Channel, ChannelIndex, Channels};
use yt_feeds::refresh::{drain_available, Blocking, DrainStep, RefreshDrain};
use yt_feeds::video::{ChannelInfo, Video, WatchProgress};

fn video(id: &str, upload: i64) -> Video {
    Video::new(&format!("title {}", id), id, "about", upload, None)
}

fn ids(videos: &[Video]) -> Vec<String> {
    videos.iter().map(|v| v.id.clone()).collect()
}

fn sorted_ids(videos: &[Video]) -> Vec<String> {
    let mut v = ids(videos);
    v.sort();
    v
}

fn newest_first(videos: &[Video]) -> bool {
    videos.windows(2).all(|w| w[0].upload >= w[1].upload)
}

#[test]
fn new_channel_sorts_newest_first_and_drops_repeated_ids() {
    let info = ChannelInfo::new("c1", "Channel One");
    let channel = Channel::new(info, vec![video("a", 10), video("b", 30), video("a", 99), video("c", 20)]);
    assert_eq!(ids(&channel.videos), vec!["b", "c", "a"]);
    assert_eq!(channel.videos[2].upload, 10);
    assert_eq!(channel.info.id, "c1");
}

#[test]
fn merge_appends_only_new_ids_and_resorts() {
    let mut channel = Channel::new(ChannelInfo::new("c", "C"), vec![video("a", 10), video("b", 5)]);
    channel.merge_videos(&vec![video("b", 50), video("d", 7), video("e", 100)]);
    assert_eq!(ids(&channel.videos), vec!["e", "a", "d", "b"]);
    assert_eq!(channel.videos[3].upload, 5);
    assert!(newest_first(&channel.videos));
}

#[test]
fn merging_twice_gives_the_same_videos_as_once() {
    let fetched = vec![video("x", 3), video("a", 1), video("y", 9), video("x", 4)];
    let mut channel = Channel::new(ChannelInfo::new("c", "C"), vec![video("a", 10), video("b", 5)]);
    channel.merge_videos(&fetched);
    let once = sorted_ids(&channel.videos);
    channel.merge_videos(&fetched);
    assert_eq!(sorted_ids(&channel.videos), once);
    assert_eq!(once, vec!["a", "b", "x", "y"]);
}

#[test]
fn every_merge_keeps_adjacent_videos_in_upload_order() {
    let mut channel = Channel::new(ChannelInfo::new("c", "C"), vec![video("a", 3), video("b", 8)]);
    for batch in [vec![video("c", 5)], vec![video("d", 1), video("e", 100)], vec![]] {
        channel.merge_videos(&batch);
        assert!(newest_first(&channel.videos));
    }
    assert_eq!(channel.videos.len(), 5);
}

#[test]
fn merge_of_an_empty_fetch_keeps_the_channel() {
    let mut channel = Channel::new(ChannelInfo::new("c", "C"), vec![video("a", 3)]);
    channel.merge_videos(&vec![]);
    assert_eq!(ids(&channel.videos), vec!["a"]);
}

#[test]
fn set_progress_records_on_the_video() {
    let mut channel = Channel::new(ChannelInfo::new("c", "C"), vec![video("a", 3), video("b", 1)]);
    assert!(channel.set_progress(1, Some(WatchProgress::new(4, 10))));
    assert_eq!(channel.videos[1].progress, Some(WatchProgress { current: 4, duration: 10 }));
    assert!(!channel.set_progress(2, None));
}

fn three_channels() -> Channels {
    let mut channels = Channels::new();
    for (id, up) in [("c1", 1), ("c2", 2), ("c3", 3)] {
        assert!(channels.add(Channel::new(ChannelInfo::new(id, id), vec![video(&format!("{}-old", id), up)])));
    }
    channels
}

#[test]
fn channels_reject_a_second_channel_with_the_same_id() {
    let mut channels = three_channels();
    assert!(!channels.add(Channel::new(ChannelInfo::new("c2", "again"), vec![])));
    assert_eq!(channels.len(), 3);
    assert!(channels.has_channel("c3"));
    assert!(!channels.has_channel("c4"));
    assert_eq!(channels.position_by_id("c2"), Some(1));
    assert_eq!(channels.channel_by_id("c3").unwrap().info.name, "c3");
    assert!(channels.channel(ChannelIndex(3)).is_none());
    assert_eq!(channels.channel_unchecked(ChannelIndex(0)).info.id, "c1");
    assert_eq!(channels.names(), vec!["c1", "c2", "c3"]);
    assert_eq!(channels.infos().len(), 3);
}

#[test]
fn wait_for_n_counts_each_subscribed_channel_once() {
    let mut channels = three_channels();
    let mut drain = RefreshDrain::new(3, &channels);
    assert_eq!(drain.target, 3);
    let results = [
        Channel::new(ChannelInfo::new("c2", "c2"), vec![video("n2", 20)]),
        Channel::new(ChannelInfo::new("c1", "c1"), vec![video("n1", 10)]),
        Channel::new(ChannelInfo::new("c2", "c2"), vec![video("late", 30)]),
        Channel::new(ChannelInfo::new("zz", "zz"), vec![video("n9", 30)]),
        Channel::new(ChannelInfo::new("c3", "c3"), vec![video("n3", 30)]),
    ];
    let steps: Vec<DrainStep> = results
        .iter()
        .map(|r| {
            assert!(!drain.is_done());
            drain.accept(&mut channels, r)
        })
        .collect();
    assert_eq!(
        steps,
        vec![DrainStep::Merged, DrainStep::Merged, DrainStep::Stale, DrainStep::Unsubscribed, DrainStep::Merged]
    );
    assert!(drain.is_done());
    assert_eq!(drain.merged, vec!["c2", "c1", "c3"]);
    assert_eq!(ids(&channels.0[1].videos), vec!["n2", "c2-old"]);
    let extra = Channel::new(ChannelInfo::new("c1", "c1"), vec![video("more", 50)]);
    assert_eq!(drain.accept(&mut channels, &extra), DrainStep::Stale);
    assert_eq!(ids(&channels.0[0].videos), vec!["n1", "c1-old"]);
}

#[test]
fn wait_for_more_than_subscribed_is_bounded() {
    let channels = three_channels();
    let drain = RefreshDrain::new(10, &channels);
    assert_eq!(drain.target, 3);
    let empty = RefreshDrain::new(0, &channels);
    assert!(empty.is_done());
    assert_ne!(Blocking::WaitForN(1), Blocking::NoWait);
}

#[test]
fn no_wait_merges_everything_available() {
    let mut channels = three_channels();
    let results = vec![
        Channel::new(ChannelInfo::new("c3", "c3"), vec![video("x", 9)]),
        Channel::new(ChannelInfo::new("nope", "nope"), vec![video("y", 9)]),
        Channel::new(ChannelInfo::new("c3", "c3"), vec![video("z", 1), video("x", 9)]),
    ];
    drain_available(&mut channels, &results);
    assert_eq!(ids(&channels.0[2].videos), vec!["x", "c3-old", "z"]);
    assert_eq!(ids(&channels.0[0].videos), vec!["c1-old"]);
}

#[test]
fn subscribe_keeps_the_newest_thirty_and_home_lists_the_channel() {
    let mut channels = three_channels();
    let feed: Vec<Video> = (0..31).map(|i| video(&format!("v{}", i), 1000 - i as i64)).collect();
    assert!(channels.subscribe(ChannelInfo::new("new", "New Channel"), feed, 30));
    let added = channels.channel_by_id("new").unwrap();
    assert_eq!(added.videos.len(), 30);
    assert!(newest_first(&added.videos));
    assert_eq!(added.videos[0].id, "v0");
    assert!(channels.names().contains(&"New Channel".to_string()));
    assert!(!channels.subscribe(ChannelInfo::new("new", "again"), vec![], 30));
}

#[test]
fn video_and_channel_addresses() {
    let v = video("abc", 1);
    assert_eq!(v.url(), "https://www.youtube.com/watch?v=abc");
    assert_eq!(v.title(), "title abc");
    let c = ChannelInfo::new("UC1", "Name");
    assert_eq!(c.url_videos(), "https://www.youtube.com/channel/UC1/videos");
    assert_eq!(c.id(), "UC1");
    assert_eq!(c.name(), "Name");
}

#[test]
fn the_mixed_feed_lists_every_video_newest_first() {
    let mut channels = Channels::new();
    channels.add(Channel::new(ChannelInfo::new("c1", "One"), vec![video("a", 5), video("b", 1)]));
    channels.add(Channel::new(ChannelInfo::new("c2", "Two"), vec![video("x", 3), video("y", 9)]));
    channels.add(Channel::new(ChannelInfo::new("c3", "Three"), vec![]));
    let feed = channels.mixed_feed();
    let order: Vec<(usize, usize)> = feed.iter().map(|i| (i.channel.0, i.video)).collect();
    assert_eq!(order, vec![(1, 0), (0, 0), (1, 1), (0, 1)]);
    let uploads: Vec<i64> = feed
        .iter()
        .map(|i| channels.channel(i.channel).unwrap().video(i.video).unwrap().upload)
        .collect();
    assert_eq!(uploads, vec![9, 5, 3, 1]);
    assert!(Channels::new().mixed_feed().is_empty());
}

#[test]
fn no_wait_drain_of_the_same_result_twice_equals_once() {
    let mut channels = three_channels();
    let f = Channel::new(ChannelInfo::new("c2", "c2"), vec![video("p", 40), video("c2-old", 99), video("q", 0)]);
    drain_available(&mut channels, &vec![f.clone()]);
    let once = sorted_ids(&channels.0[1].videos);
    drain_available(&mut channels, &vec![f]);
    assert_eq!(sorted_ids(&channels.0[1].videos), once);
    assert_eq!(once, vec!["c2-old", "p", "q"]);
    assert_eq!(channels.0[1].videos.iter().find(|v| v.id == "c2-old").unwrap().upload, 2);
    assert!(newest_first(&channels.0[1].videos));
}

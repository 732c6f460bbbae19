use yt_feeds::accumulators::{
    feed_from_entries, read_channel_info, read_standalone_video, read_video,
    ChannelInfoAccumulator, FieldValue, StandaloneVideoAccumulator, VideoAccumulator,
};
use yt_feeds::error::Error;

fn text(s: &str) -> FieldValue {
    FieldValue::Text(s.to_string())
}

fn entry(id: &str, ts: i64) -> Vec<(String, FieldValue)> {
    vec![
        ("id".to_string(), text(id)),
        ("title".to_string(), text(&format!("Title {}", id))),
        ("timestamp".to_string(), FieldValue::Integer(ts)),
        ("availability".to_string(), FieldValue::Null),
        ("url".to_string(), text(&format!("https://www.youtube.com/watch?v={}", id))),
        ("ignored".to_string(), FieldValue::Other),
    ]
}

#[test]
fn a_feed_entry_reads_as_a_video() {
    let v = read_video(&entry("abc", 1_700_000_000)).ok().unwrap();
    assert_eq!(v.id, "abc");
    assert_eq!(v.title, "Title abc");
    assert_eq!(v.upload, 1_700_000_000);
    assert_eq!(v.description, "N/A");
    assert_eq!(v.progress, None);
}

#[test]
fn shorts_and_unavailable_videos_are_refused() {
    let mut short = entry("s", 5);
    short.push(("url".to_string(), text("https://www.youtube.com/shorts/s")));
    assert_eq!(read_video(&short).err(), Some(Error::VideoNotAvailable));
    let mut gone = entry("g", 5);
    gone.push(("availability".to_string(), text("needs_auth")));
    assert_eq!(read_video(&gone).err(), Some(Error::VideoNotAvailable));
    let missing: Vec<(String, FieldValue)> = vec![("availability".to_string(), FieldValue::Null)];
    assert_eq!(read_video(&missing).err(), Some(Error::VideoParsing));
}

#[test]
fn field_by_field() {
    let acc = VideoAccumulator::new()
        .accumulate("description", &FieldValue::Integer(3))
        .accumulate("timestamp", &text("not a number"))
        .accumulate("title", &FieldValue::Null);
    assert_eq!(acc.description.as_deref(), Some("N/A"));
    assert_eq!(acc.upload_date, Some(0));
    assert_eq!(acc.video_title, None);
    let acc = acc.accumulate("timestamp", &FieldValue::Integer(i64::MAX));
    assert_eq!(acc.upload_date, None);
    let acc = acc.accumulate("timestamp", &FieldValue::Integer(-86400));
    assert_eq!(acc.upload_date, Some(-86400));
}

#[test]
fn search_entries_read_with_their_channel() {
    let mut fields = entry("v1", 100);
    fields.push(("channel_id".to_string(), text("UC1")));
    fields.push(("channel".to_string(), text("Chan")));
    fields.push(("description".to_string(), text("about")));
    let (v, c) = read_standalone_video(&fields).ok().unwrap();
    assert_eq!(v.id, "v1");
    assert_eq!(v.description, "about");
    assert_eq!(c.id, "UC1");
    assert_eq!(c.name, "Chan");
    assert_eq!(read_standalone_video(&entry("v2", 1)).err(), Some(Error::VideoParsing));
    let acc = StandaloneVideoAccumulator::new().accumulate("channel", &text("N"));
    assert_eq!(acc.channel_name.as_deref(), Some("N"));

    let info = read_channel_info(&vec![("channel_id".to_string(), text("UC2")), ("channel".to_string(), text("Two"))]);
    let info = info.ok().unwrap();
    assert_eq!((info.id.as_str(), info.name.as_str()), ("UC2", "Two"));
    assert_eq!(read_channel_info(&vec![("channel".to_string(), text("Two"))]).err(), Some(Error::ChannelParsing));
    let acc = ChannelInfoAccumulator::new().accumulate("channel_id", &FieldValue::Other);
    assert_eq!(acc.id, None);
}

#[test]
fn a_feed_keeps_one_video_per_id() {
    let entries = vec![entry("a", 3), entry("b", 2), entry("a", 9), vec![]];
    let feed = feed_from_entries(&entries, 30).ok().unwrap();
    let ids: Vec<&str> = feed.iter().map(|v| v.id.as_str()).collect();
    assert_eq!(ids, vec!["a", "b"]);
    assert_eq!(feed[0].upload, 3);
    assert_eq!(feed_from_entries(&vec![vec![]], 30).err(), Some(Error::VideoParsing));
    assert_eq!(feed_from_entries(&vec![], 30).err(), Some(Error::VideoParsing));
    assert_eq!(feed_from_entries(&entries, 0).err(), Some(Error::VideoParsing));
}

#[test]
fn a_feed_keeps_at_most_the_count_asked_for() {
    let entries: Vec<Vec<(String, FieldValue)>> = (0..31).map(|i| entry(&format!("v{}", i), 100 - i)).collect();
    let feed = feed_from_entries(&entries, 30).ok().unwrap();
    assert_eq!(feed.len(), 30);
    assert_eq!(feed[29].id, "v29");
    assert_eq!(feed_from_entries(&entries, 1).ok().unwrap().len(), 1);
}

#[test]
fn upload_times_within_the_date_range() {
    for (ts, ok) in [
        (-8334601228800i64, true),
        (-8334601228801, false),
        (8210266876799, true),
        (8210266876800, false),
        (0, true),
    ] {
        let acc = VideoAccumulator::new().accumulate("timestamp", &FieldValue::Integer(ts));
        assert_eq!(acc.upload_date.is_some(), ok, "timestamp {}", ts);
    }
}

//! Reading the records printed by the feed tool: each record is a list of
//! named fields, folded into a video or a channel reference.

use vstd::prelude::*;
use crate::channel::{lemma_absorb_from, lemma_absorb_ids, lemma_absorb_unique, unique_by_id};
use crate::error::Error;
use crate::text::{contains_seq, str_contains};
use crate::video::{ChannelInfo, Video, has_id, unique_ids};

verus! {

/// The value of one field of a record, as far as the reader cares.
#[derive(Clone, Debug)]
pub enum FieldValue {
    Null,
    Text(String),
    Integer(i64),
    /// Anything else: a float, a list, an object, a boolean.
    Other,
}

pub open spec fn text_of(v: FieldValue) -> Option<Seq<char>> {
    match v {
        FieldValue::Text(s) => Some(s@),
        _ => None,
    }
}

pub open spec fn opt_view(o: Option<String>) -> Option<Seq<char>> {
    match o {
        Some(s) => Some(s@),
        None => None,
    }
}

/// The first second of chrono's dates (January 1 of year -262143).
pub const MIN_TIMESTAMP: i64 = -8334601228800;

/// The last second of chrono's dates (December 31 of year 262142).
pub const MAX_TIMESTAMP: i64 = 8210266876799;

/// Whether chrono can represent the instant `ts` seconds after the epoch:
/// its day must fall within chrono's range of dates.
pub open spec fn valid_timestamp(ts: i64) -> bool {
    MIN_TIMESTAMP <= ts <= MAX_TIMESTAMP
}

/// Relies on chrono's `DateTime::from_timestamp`, which returns `None` exactly
/// when the day of the instant falls outside the years `MIN_YEAR..=MAX_YEAR`
/// (-262143 to 262142).
#[verifier::external_body]
pub(crate) fn timestamp_is_valid(ts: i64) -> (r: bool)
    ensures
        r == valid_timestamp(ts),
{
    chrono::DateTime::from_timestamp(ts, 0).is_some()
}

/// The upload time given by a `timestamp` field: a missing integer reads as
/// zero, an instant chrono cannot represent as none.
pub open spec fn upload_of(v: FieldValue) -> Option<i64> {
    let ts = match v {
        FieldValue::Integer(i) => i,
        _ => 0i64,
    };
    if valid_timestamp(ts) { Some(ts) } else { None }
}

/// Whether a `url` field points at a short.
pub open spec fn is_short_url(v: FieldValue) -> bool {
    match v {
        FieldValue::Text(s) => contains_seq(s@, "/shorts/"@),
        _ => false,
    }
}

/// The description given by a `description` field; a value that is not a
/// text reads as `N/A`.
pub open spec fn description_of(v: FieldValue) -> Seq<char> {
    match v {
        FieldValue::Text(s) => s@,
        _ => "N/A"@,
    }
}

/// What the fields of a video entry have said so far.
pub struct VideoRead {
    pub id: Option<Seq<char>>,
    pub title: Option<Seq<char>>,
    pub description: Option<Seq<char>>,
    pub available: bool,
    pub short: bool,
    pub upload: Option<i64>,
}

/// Nothing said yet.
pub open spec fn video_read_empty() -> VideoRead {
    VideoRead { id: None, title: None, description: None, available: false, short: false, upload: None }
}

/// What one more field says; fields of other names say nothing.
pub open spec fn video_read_step(r: VideoRead, key: Seq<char>, v: FieldValue) -> VideoRead {
    if key == "id"@ {
        VideoRead { id: text_of(v), ..r }
    } else if key == "title"@ {
        VideoRead { title: text_of(v), ..r }
    } else if key == "description"@ {
        VideoRead { description: Some(description_of(v)), ..r }
    } else if key == "availability"@ {
        VideoRead { available: v is Null, ..r }
    } else if key == "url"@ {
        VideoRead { short: is_short_url(v), ..r }
    } else if key == "timestamp"@ {
        VideoRead { upload: upload_of(v), ..r }
    } else {
        r
    }
}

/// What all of `fields`, in order, say.
pub open spec fn video_read_all(fields: Seq<(String, FieldValue)>) -> VideoRead
    decreases fields.len(),
{
    if fields.len() == 0 {
        video_read_empty()
    } else {
        video_read_step(video_read_all(fields.drop_last()), fields.last().0@, fields.last().1)
    }
}

/// Why a read entry is no video, if it is none: not available or a short,
/// or missing its id, title or upload time.
pub open spec fn video_read_error(r: VideoRead) -> Option<Error> {
    if !r.available || r.short {
        Some(Error::VideoNotAvailable)
    } else if r.id is None || r.title is None || r.upload is None {
        Some(Error::VideoParsing)
    } else {
        None
    }
}

/// `v` is the video that the read entry `r` describes; a missing
/// description reads as `N/A`.
pub open spec fn video_of_read(r: VideoRead, v: Video) -> bool {
    &&& r.id == Some(v.id@)
    &&& r.title == Some(v.title@)
    &&& r.upload == Some(v.upload)
    &&& v.description@ == (match r.description { Some(d) => d, None => "N/A"@ })
    &&& v.progress is None
}

/// The channel id and name that the fields of an entry give, in order; a
/// later field of the same name wins.
pub open spec fn channel_read_all(fields: Seq<(String, FieldValue)>) -> (Option<Seq<char>>, Option<Seq<char>>)
    decreases fields.len(),
{
    if fields.len() == 0 {
        (None, None)
    } else {
        let before = channel_read_all(fields.drop_last());
        let key = fields.last().0@;
        let v = fields.last().1;
        if key == "channel_id"@ {
            (text_of(v), before.1)
        } else if key == "channel"@ {
            (before.0, text_of(v))
        } else {
            before
        }
    }
}

/// What the fields of a video search entry say of the video: the channel
/// fields aside, as for a feed entry.
pub open spec fn standalone_read_all(fields: Seq<(String, FieldValue)>) -> VideoRead
    decreases fields.len(),
{
    if fields.len() == 0 {
        video_read_empty()
    } else {
        let before = standalone_read_all(fields.drop_last());
        let key = fields.last().0@;
        if key == "channel_id"@ || key == "channel"@ {
            before
        } else {
            video_read_step(before, key, fields.last().1)
        }
    }
}

/// The field names read are pairwise distinct (their lengths differ).
proof fn lemma_field_names()
    ensures
        "id"@.len() == 2, "url"@.len() == 3, "title"@.len() == 5, "channel"@.len() == 7,
        "timestamp"@.len() == 9, "channel_id"@.len() == 10, "description"@.len() == 11,
        "availability"@.len() == 12,
{
    reveal_strlit("id");
    reveal_strlit("url");
    reveal_strlit("title");
    reveal_strlit("channel");
    reveal_strlit("timestamp");
    reveal_strlit("channel_id");
    reveal_strlit("description");
    reveal_strlit("availability");
}

fn key_is(key: &str, name: &str) -> (r: bool)
    ensures
        r == (key@ == name@),
{
    key.to_owned() == name.to_owned()
}

fn text_field(value: &FieldValue) -> (r: Option<String>)
    ensures
        opt_view(r) == text_of(*value),
{
    match value {
        FieldValue::Text(s) => Some(s.clone()),
        _ => None,
    }
}

fn description_field(value: &FieldValue) -> (r: String)
    ensures
        r@ == description_of(*value),
{
    proof { reveal_strlit("N/A"); }
    match value {
        FieldValue::Text(s) => s.clone(),
        _ => "N/A".to_owned(),
    }
}

fn short_field(value: &FieldValue) -> (r: bool)
    ensures
        r == is_short_url(*value),
{
    match value {
        FieldValue::Text(s) => str_contains(s.as_str(), "/shorts/"),
        _ => false,
    }
}

fn upload_field(value: &FieldValue) -> (r: Option<i64>)
    ensures
        r == upload_of(*value),
{
    let ts = match value {
        FieldValue::Integer(i) => *i,
        _ => 0,
    };
    if timestamp_is_valid(ts) { Some(ts) } else { None }
}

/// The fields of a channel's feed entry read so far.
#[derive(Debug)]
pub struct VideoAccumulator {
    pub video_id: Option<String>,
    pub video_title: Option<String>,
    pub upload_date: Option<i64>,
    pub is_available: bool,
    pub is_short: bool,
    pub description: Option<String>,
}

impl VideoAccumulator {
    pub open spec fn read(&self) -> VideoRead {
        VideoRead {
            id: opt_view(self.video_id),
            title: opt_view(self.video_title),
            description: opt_view(self.description),
            available: self.is_available,
            short: self.is_short,
            upload: self.upload_date,
        }
    }

    /// Nothing read yet.
    pub fn new() -> (r: VideoAccumulator)
        ensures
            r.read() == video_read_empty(),
    {
        VideoAccumulator {
            video_id: None,
            video_title: None,
            upload_date: None,
            is_available: false,
            is_short: false,
            description: None,
        }
    }

    /// Takes in one field; fields of other names are ignored.
    pub fn accumulate(self, key: &str, value: &FieldValue) -> (r: VideoAccumulator)
        ensures
            r.read() == video_read_step(self.read(), key@, *value),
    {
        proof { lemma_field_names(); }
        let mut acc = self;
        if key_is(key, "id") {
            acc.video_id = text_field(value);
        } else if key_is(key, "title") {
            acc.video_title = text_field(value);
        } else if key_is(key, "description") {
            acc.description = Some(description_field(value));
        } else if key_is(key, "availability") {
            acc.is_available = matches!(value, FieldValue::Null);
        } else if key_is(key, "url") {
            acc.is_short = short_field(value);
        } else if key_is(key, "timestamp") {
            acc.upload_date = upload_field(value);
        }
        acc
    }

    /// The video read, if it is available, not a short, and has an id, a
    /// title and an upload time; a missing description reads as `N/A`.
    pub fn into_video(self) -> (r: Result<Video, Error>)
        ensures
            video_read_error(self.read()) matches Some(e) ==> r == Err::<Video, Error>(e),
            video_read_error(self.read()) is None ==> (r matches Ok(v) && video_of_read(self.read(), v)),
    {
        proof { reveal_strlit("N/A"); }
        if !self.is_available || self.is_short {
            return Err(Error::VideoNotAvailable);
        }
        match (self.video_title, self.video_id, self.upload_date) {
            (Some(title), Some(id), Some(upload)) => {
                let description = match self.description {
                    Some(d) => d,
                    None => "N/A".to_owned(),
                };
                Ok(Video { id, title, description, upload, progress: None })
            },
            _ => Err(Error::VideoParsing),
        }
    }
}

/// The fields of a video search entry read so far: the video and its channel.
#[derive(Debug)]
pub struct StandaloneVideoAccumulator {
    pub video: VideoAccumulator,
    pub channel_id: Option<String>,
    pub channel_name: Option<String>,
}

impl StandaloneVideoAccumulator {
    pub fn new() -> (r: StandaloneVideoAccumulator)
        ensures
            r.video.read() == video_read_empty(),
            r.channel_id is None && r.channel_name is None,
    {
        StandaloneVideoAccumulator { video: VideoAccumulator::new(), channel_id: None, channel_name: None }
    }

    /// Takes in one field: `channel_id` and `channel` name the channel, the
    /// others are read as for a feed entry.
    pub fn accumulate(self, key: &str, value: &FieldValue) -> (r: StandaloneVideoAccumulator)
        ensures
            opt_view(r.channel_id) == (if key@ == "channel_id"@ { text_of(*value) } else { opt_view(self.channel_id) }),
            opt_view(r.channel_name) == (if key@ == "channel"@ { text_of(*value) } else { opt_view(self.channel_name) }),
            r.video.read() == (if key@ == "channel_id"@ || key@ == "channel"@ { self.video.read() } else {
                video_read_step(self.video.read(), key@, *value)
            }),
    {
        proof { lemma_field_names(); }
        let StandaloneVideoAccumulator { video, channel_id, channel_name } = self;
        if key_is(key, "channel_id") {
            StandaloneVideoAccumulator { video, channel_id: text_field(value), channel_name }
        } else if key_is(key, "channel") {
            StandaloneVideoAccumulator { video, channel_id, channel_name: text_field(value) }
        } else {
            StandaloneVideoAccumulator { video: video.accumulate(key, value), channel_id, channel_name }
        }
    }

    /// The video and its channel, when the video reads as for a feed entry
    /// and the channel has an id and a name.
    pub fn into_video(self) -> (r: Result<(Video, ChannelInfo), Error>)
        ensures
            video_read_error(self.video.read()) matches Some(e) ==> r == Err::<(Video, ChannelInfo), Error>(e),
            video_read_error(self.video.read()) is None && (self.channel_id is None || self.channel_name is None)
                ==> r == Err::<(Video, ChannelInfo), Error>(Error::VideoParsing),
            r matches Ok(p) ==> video_of_read(self.video.read(), p.0)
                && Some(p.1.id@) == opt_view(self.channel_id) && Some(p.1.name@) == opt_view(self.channel_name),
            r is Ok <==> video_read_error(self.video.read()) is None && self.channel_id is Some && self.channel_name is Some,
    {
        let StandaloneVideoAccumulator { video, channel_id, channel_name } = self;
        match video.into_video() {
            Err(e) => Err(e),
            Ok(v) => match (channel_id, channel_name) {
                (Some(id), Some(name)) => Ok((v, ChannelInfo { id, name })),
                _ => Err(Error::VideoParsing),
            },
        }
    }
}

/// The fields of a channel search entry read so far.
#[derive(Debug)]
pub struct ChannelInfoAccumulator {
    pub id: Option<String>,
    pub name: Option<String>,
}

impl ChannelInfoAccumulator {
    pub fn new() -> (r: ChannelInfoAccumulator)
        ensures
            r.id is None && r.name is None,
    {
        ChannelInfoAccumulator { id: None, name: None }
    }

    /// Takes in one field: `channel_id` and `channel` (the name).
    pub fn accumulate(self, key: &str, value: &FieldValue) -> (r: ChannelInfoAccumulator)
        ensures
            opt_view(r.id) == (if key@ == "channel_id"@ { text_of(*value) } else { opt_view(self.id) }),
            opt_view(r.name) == (if key@ == "channel"@ { text_of(*value) } else { opt_view(self.name) }),
    {
        proof { lemma_field_names(); }
        let ChannelInfoAccumulator { id, name } = self;
        if key_is(key, "channel_id") {
            ChannelInfoAccumulator { id: text_field(value), name }
        } else if key_is(key, "channel") {
            ChannelInfoAccumulator { id, name: text_field(value) }
        } else {
            ChannelInfoAccumulator { id, name }
        }
    }

    /// The channel read, if it has an id and a name.
    pub fn into_info(self) -> (r: Result<ChannelInfo, Error>)
        ensures
            r is Ok <==> self.id is Some && self.name is Some,
            r is Err ==> r == Err::<ChannelInfo, Error>(Error::ChannelParsing),
            r matches Ok(c) ==> Some(c.id@) == opt_view(self.id) && Some(c.name@) == opt_view(self.name),
    {
        match (self.id, self.name) {
            (Some(id), Some(name)) => Ok(ChannelInfo { id, name }),
            _ => Err(Error::ChannelParsing),
        }
    }
}

/// Reads one feed entry: its fields in order, then the video.
pub fn read_video(fields: &Vec<(String, FieldValue)>) -> (r: Result<Video, Error>)
    ensures
        video_read_error(video_read_all(fields@)) matches Some(e) ==> r == Err::<Video, Error>(e),
        video_read_error(video_read_all(fields@)) is None ==> (r matches Ok(v) && video_of_read(video_read_all(fields@), v)),
{
    let mut acc = VideoAccumulator::new();
    let mut i: usize = 0;
    while i < fields.len()
        invariant
            i <= fields@.len(),
            acc.read() == video_read_all(fields@.subrange(0, i as int)),
        decreases fields@.len() - i,
    {
        proof {
            lemma_field_names();
            let next = fields@.subrange(0, i as int + 1);
            assert(next.drop_last() =~= fields@.subrange(0, i as int));
        }
        acc = acc.accumulate(fields[i].0.as_str(), &fields[i].1);
        i += 1;
    }
    assert(fields@.subrange(0, fields@.len() as int) =~= fields@);
    acc.into_video()
}

/// Reads one video search entry.
pub fn read_standalone_video(fields: &Vec<(String, FieldValue)>) -> (r: Result<(Video, ChannelInfo), Error>)
    ensures
        video_read_error(standalone_read_all(fields@)) matches Some(e) ==> r == Err::<(Video, ChannelInfo), Error>(e),
        r is Ok <==> video_read_error(standalone_read_all(fields@)) is None
            && channel_read_all(fields@).0 is Some && channel_read_all(fields@).1 is Some,
        r matches Ok(p) ==> video_of_read(standalone_read_all(fields@), p.0)
            && channel_read_all(fields@) == (Some(p.1.id@), Some(p.1.name@)),
        r is Err && video_read_error(standalone_read_all(fields@)) is None ==> r == Err::<(Video, ChannelInfo), Error>(Error::VideoParsing),
{
    let mut acc = StandaloneVideoAccumulator::new();
    let mut i: usize = 0;
    while i < fields.len()
        invariant
            i <= fields@.len(),
            acc.video.read() == standalone_read_all(fields@.subrange(0, i as int)),
            (opt_view(acc.channel_id), opt_view(acc.channel_name)) == channel_read_all(fields@.subrange(0, i as int)),
        decreases fields@.len() - i,
    {
        proof {
            lemma_field_names();
            let next = fields@.subrange(0, i as int + 1);
            assert(next.drop_last() =~= fields@.subrange(0, i as int));
        }
        acc = acc.accumulate(fields[i].0.as_str(), &fields[i].1);
        i += 1;
    }
    assert(fields@.subrange(0, fields@.len() as int) =~= fields@);
    acc.into_video()
}

/// Reads one channel search entry.
pub fn read_channel_info(fields: &Vec<(String, FieldValue)>) -> (r: Result<ChannelInfo, Error>)
    ensures
        r is Ok <==> channel_read_all(fields@).0 is Some && channel_read_all(fields@).1 is Some,
        r is Err ==> r == Err::<ChannelInfo, Error>(Error::ChannelParsing),
        r matches Ok(c) ==> channel_read_all(fields@) == (Some(c.id@), Some(c.name@)),
{
    let mut acc = ChannelInfoAccumulator::new();
    let mut i: usize = 0;
    while i < fields.len()
        invariant
            i <= fields@.len(),
            (opt_view(acc.id), opt_view(acc.name)) == channel_read_all(fields@.subrange(0, i as int)),
        decreases fields@.len() - i,
    {
        proof {
            lemma_field_names();
            let next = fields@.subrange(0, i as int + 1);
            assert(next.drop_last() =~= fields@.subrange(0, i as int));
        }
        acc = acc.accumulate(fields[i].0.as_str(), &fields[i].1);
        i += 1;
    }
    assert(fields@.subrange(0, fields@.len() as int) =~= fields@);
    acc.into_info()
}

/// Whether entry `fields` reads as a video.
pub open spec fn reads_as_video(fields: Seq<(String, FieldValue)>) -> bool {
    video_read_error(video_read_all(fields)) is None
}

/// A channel's feed from its entries: the videos that read, one per id (the
/// first entry of an id wins), in the order printed, at most `count` of them;
/// no video at all is an error.
pub fn feed_from_entries(entries: &Vec<Vec<(String, FieldValue)>>, count: usize) -> (r: Result<Vec<Video>, Error>)
    ensures
        r is Err <==> count == 0 || forall|k: int| 0 <= k < entries@.len() ==> !reads_as_video(#[trigger] entries@[k]@),
        r is Err ==> r == Err::<Vec<Video>, Error>(Error::VideoParsing),
        r matches Ok(vs) ==> 0 < vs@.len() <= count && unique_ids(vs@)
            && (forall|i: int| #![trigger vs@[i]] 0 <= i < vs@.len() ==> exists|k: int| #![trigger entries@[k]] 0 <= k < entries@.len()
                && video_of_read(video_read_all(entries@[k]@), vs@[i]))
            && (vs@.len() < count ==> forall|k: int| 0 <= k < entries@.len() && #[trigger] reads_as_video(entries@[k]@)
                ==> has_id(vs@, video_read_all(entries@[k]@).id->Some_0)),
{
    let mut read: Vec<Video> = Vec::new();
    let mut i: usize = 0;
    while i < entries.len()
        invariant
            i <= entries@.len(),
            read@.len() == 0 <==> forall|k: int| 0 <= k < i ==> !reads_as_video(#[trigger] entries@[k]@),
            forall|j: int| #![trigger read@[j]] 0 <= j < read@.len() ==> exists|k: int| #![trigger entries@[k]] 0 <= k < i
                && video_of_read(video_read_all(entries@[k]@), read@[j]),
            forall|k: int| 0 <= k < i && #[trigger] reads_as_video(entries@[k]@)
                ==> has_id(read@, video_read_all(entries@[k]@).id->Some_0),
        decreases entries@.len() - i,
    {
        let ghost before = read@;
        match read_video(&entries[i]) {
            Ok(v) => {
                read.push(v);
                proof {
                    assert(reads_as_video(entries@[i as int]@));
                    assert(read@[before.len() as int] == v);
                    assert forall|k: int| 0 <= k < i + 1 && #[trigger] reads_as_video(entries@[k]@)
                        implies has_id(read@, video_read_all(entries@[k]@).id->Some_0) by {
                        if k < i {
                            let id = video_read_all(entries@[k]@).id->Some_0;
                            let j = choose|j: int| 0 <= j < before.len() && #[trigger] before[j].id@ == id;
                            assert(read@[j] == before[j]);
                        } else {
                            assert(read@[before.len() as int].id@ == v.id@);
                        }
                    }
                    assert forall|j: int| #![trigger read@[j]] 0 <= j < read@.len() implies exists|k: int| #![trigger entries@[k]] 0 <= k < i + 1
                        && video_of_read(video_read_all(entries@[k]@), read@[j]) by {
                        if j < before.len() {
                            assert(read@[j] == before[j]);
                            let k = choose|k: int| #![trigger entries@[k]] 0 <= k < i && video_of_read(video_read_all(entries@[k]@), before[j]);
                            assert(0 <= k < i + 1 && video_of_read(video_read_all(entries@[k]@), read@[j]));
                            assert(entries@[k] == entries@[k]);
                        } else {
                            assert(video_of_read(video_read_all(entries@[i as int]@), read@[j]));
                            assert(entries@[i as int] == entries@[i as int]);
                        }
                    }
                }
            },
            Err(_) => {
                proof {
                    assert(!reads_as_video(entries@[i as int]@));
                    assert forall|j: int| #![trigger read@[j]] 0 <= j < read@.len() implies exists|k: int| #![trigger entries@[k]] 0 <= k < i + 1
                        && video_of_read(video_read_all(entries@[k]@), read@[j]) by {
                        let k = choose|k: int| #![trigger entries@[k]] 0 <= k < i && video_of_read(video_read_all(entries@[k]@), read@[j]);
                        assert(0 <= k < i + 1 && video_of_read(video_read_all(entries@[k]@), read@[j]));
                        assert(entries@[k] == entries@[k]);
                    }
                }
            },
        }
        i += 1;
    }
    let ghost all = read@;
    let mut videos = unique_by_id(read);
    let ghost distinct = videos@;
    proof {
        lemma_absorb_unique(Seq::empty(), all);
        if all.len() > 0 {
            assert(has_id(all, all[0].id@));
            lemma_absorb_ids(Seq::empty(), all, all[0].id@);
        }
        assert forall|j: int| #![trigger distinct[j]] 0 <= j < distinct.len() implies exists|k: int| #![trigger entries@[k]] 0 <= k < entries@.len()
            && video_of_read(video_read_all(entries@[k]@), distinct[j]) by {
            lemma_absorb_from(Seq::empty(), all, j);
            let m = choose|m: int| 0 <= m < all.len() && all[m] == distinct[j];
            assert(all[m] == all[m]);
        }
        assert forall|k: int| 0 <= k < entries@.len() && #[trigger] reads_as_video(entries@[k]@)
            implies has_id(distinct, video_read_all(entries@[k]@).id->Some_0) by {
            lemma_absorb_ids(Seq::empty(), all, video_read_all(entries@[k]@).id->Some_0);
        }
    }
    videos.truncate(count);
    proof {
        assert forall|a: int, b: int| 0 <= a < b < videos@.len() implies #[trigger] videos@[a].id@ != #[trigger] videos@[b].id@ by {
            assert(distinct[a].id@ != distinct[b].id@);
        }
        assert forall|j: int| #![trigger videos@[j]] 0 <= j < videos@.len() implies exists|k: int| #![trigger entries@[k]] 0 <= k < entries@.len()
            && video_of_read(video_read_all(entries@[k]@), videos@[j]) by {
            assert(videos@[j] == distinct[j]);
        }
        if videos@.len() < count {
            assert(videos@ =~= distinct);
        }
    }
    if videos.len() == 0 {
        Err(Error::VideoParsing)
    } else {
        Ok(videos)
    }
}

} // verus!

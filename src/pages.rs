//! The page variants: where the user is, each carrying only the state it
//! needs.

use vstd::prelude::*;
use crate::channel::{ChannelIndex, VideoIndex};
use crate::finder::FinderData;
use crate::search::Search;
use crate::video::{ChannelInfo, Video};

verus! {

/// Where a playing video came from; decides where "back" leads by default.
#[derive(Debug)]
pub enum PlaySource {
    /// Found by a search, from a channel that is not subscribed.
    Standalone(Video, ChannelInfo),
    /// A video of the aggregated feed of all channels.
    Mixed(VideoIndex),
    /// A video of one channel's feed.
    Channel(VideoIndex),
}

impl Clone for PlaySource {
    fn clone(&self) -> (r: PlaySource)
        ensures
            r == *self,
    {
        match self {
            PlaySource::Standalone(v, c) => PlaySource::Standalone(v.clone(), c.clone()),
            PlaySource::Mixed(i) => PlaySource::Mixed(*i),
            PlaySource::Channel(i) => PlaySource::Channel(*i),
        }
    }
}

#[derive(Clone, Copy, Debug, PartialEq, Eq, Structural)]
pub struct PageHome;

#[derive(Clone, Copy, Debug, PartialEq, Eq, Structural)]
pub struct PageFeedMixed;

#[derive(Clone, Copy, Debug, PartialEq, Eq, Structural)]
pub struct PageWatchLater;

#[derive(Clone, Debug)]
pub struct PageFeedChannel {
    pub channel: ChannelIndex,
    pub finder: FinderData,
}

impl PageFeedChannel {
    pub fn new(channel: ChannelIndex) -> (r: PageFeedChannel)
        ensures
            r.channel == channel,
            r.finder.query is None,
    {
        PageFeedChannel { channel, finder: FinderData { query: None } }
    }
}

#[derive(Clone, Debug)]
pub struct PageSearchVideoTyping {
    pub search: Search,
}

impl PageSearchVideoTyping {
    pub fn new(search: Search) -> (r: PageSearchVideoTyping)
        ensures
            r.search == search,
    {
        PageSearchVideoTyping { search }
    }
}

#[derive(Clone, Debug)]
pub struct PageSearchVideo {
    pub search: Search,
    pub finder: FinderData,
}

impl PageSearchVideo {
    pub fn new(search: Search, finder: FinderData) -> (r: PageSearchVideo)
        ensures
            r.search == search,
            r.finder == finder,
    {
        PageSearchVideo { search, finder }
    }

    pub fn search(&self) -> (r: &Search)
        ensures
            *r == self.search,
    {
        &self.search
    }

    pub fn finder(&self) -> (r: &FinderData)
        ensures
            *r == self.finder,
    {
        &self.finder
    }
}

#[derive(Clone, Debug)]
pub struct PageSearchChannel {
    pub search: Search,
    pub finder: FinderData,
    pub channel: ChannelInfo,
}

#[derive(Clone, Debug)]
pub struct PageSearchChannelTyping {
    pub search: Search,
    pub channel: ChannelIndex,
}

/// What a refresh covers.
#[derive(Clone, Copy, Debug, PartialEq, Eq, Structural)]
pub enum RefreshType {
    Channel,
    All,
}

/// The page shown while a refresh runs; the page to return to is the last
/// entry of the history.
#[derive(Clone, Copy, Debug, PartialEq, Eq, Structural)]
pub struct PageRefresh {
    pub refresh_type: RefreshType,
}

#[derive(Debug)]
pub struct PageVideo {
    pub source: PlaySource,
}

impl PageVideo {
    pub fn new(source: PlaySource) -> (r: PageVideo)
        ensures
            r.source == source,
    {
        PageVideo { source }
    }
}

#[derive(Debug)]
pub struct PagePlaying {
    pub source: PlaySource,
}

/// Where the user is.
#[derive(Debug)]
pub enum Page {
    Home(PageHome),
    FeedMixed(PageFeedMixed),
    FeedChannel(PageFeedChannel),
    SearchVideoTyping(PageSearchVideoTyping),
    SearchVideo(PageSearchVideo),
    SearchChannel(PageSearchChannel),
    SearchChannelTyping(PageSearchChannelTyping),
    WatchLater(PageWatchLater),
    Refresh(PageRefresh),
    Video(PageVideo),
    Playing(PagePlaying),
}

/// The page "back" leads to when the history is empty.
pub open spec fn default_predecessor(page: Page) -> Page {
    match page {
        Page::Video(p) => match p.source {
            PlaySource::Standalone(_, _) => Page::Home(PageHome),
            PlaySource::Mixed(_) => Page::FeedMixed(PageFeedMixed),
            PlaySource::Channel(v) => Page::FeedChannel(PageFeedChannel { channel: v.channel, finder: FinderData { query: None } }),
        },
        Page::Playing(p) => Page::Video(PageVideo { source: p.source }),
        _ => Page::Home(PageHome),
    }
}

impl Page {
    /// The page "back" leads to when the history is empty: the feed a video
    /// was opened from, the video a playing page shows, and home otherwise.
    pub fn previous_default(&self) -> (r: Page)
        ensures
            r == default_predecessor(*self),
    {
        match self {
            Page::Home(_) => Page::Home(PageHome),
            Page::FeedMixed(_) => Page::Home(PageHome),
            Page::FeedChannel(_) => Page::Home(PageHome),
            Page::SearchVideo(_) => Page::Home(PageHome),
            Page::SearchChannel(_) => Page::Home(PageHome),
            Page::SearchVideoTyping(_) => Page::Home(PageHome),
            Page::SearchChannelTyping(_) => Page::Home(PageHome),
            Page::WatchLater(_) => Page::Home(PageHome),
            Page::Refresh(_) => Page::Home(PageHome),
            Page::Video(page) => match &page.source {
                PlaySource::Standalone(_, _) => Page::Home(PageHome),
                PlaySource::Mixed(_) => Page::FeedMixed(PageFeedMixed),
                PlaySource::Channel(video) => Page::FeedChannel(PageFeedChannel::new(video.channel)),
            },
            Page::Playing(page) => Page::Video(PageVideo::new(page.source.clone())),
        }
    }

    /// Whether typed characters may go to a text field on this page.
    pub fn text_input_capable(&self) -> (r: bool)
        ensures
            r == !(self is Refresh || self is Video),
    {
        !matches!(self, Page::Refresh(_) | Page::Video(_))
    }

    /// Whether two pages are the same variant, whatever they carry.
    pub fn same_variant(&self, other: &Page) -> (r: bool)
        ensures
            r == (
                (self is Home && other is Home) || (self is FeedMixed && other is FeedMixed)
                || (self is FeedChannel && other is FeedChannel)
                || (self is SearchVideoTyping && other is SearchVideoTyping)
                || (self is SearchVideo && other is SearchVideo)
                || (self is SearchChannel && other is SearchChannel)
                || (self is SearchChannelTyping && other is SearchChannelTyping)
                || (self is WatchLater && other is WatchLater) || (self is Refresh && other is Refresh)
                || (self is Video && other is Video) || (self is Playing && other is Playing)
            ),
    {
        match (self, other) {
            (Page::Home(_), Page::Home(_)) => true,
            (Page::FeedMixed(_), Page::FeedMixed(_)) => true,
            (Page::FeedChannel(_), Page::FeedChannel(_)) => true,
            (Page::SearchVideoTyping(_), Page::SearchVideoTyping(_)) => true,
            (Page::SearchVideo(_), Page::SearchVideo(_)) => true,
            (Page::SearchChannel(_), Page::SearchChannel(_)) => true,
            (Page::SearchChannelTyping(_), Page::SearchChannelTyping(_)) => true,
            (Page::WatchLater(_), Page::WatchLater(_)) => true,
            (Page::Refresh(_), Page::Refresh(_)) => true,
            (Page::Video(_), Page::Video(_)) => true,
            (Page::Playing(_), Page::Playing(_)) => true,
            _ => false,
        }
    }
}

} // verus!

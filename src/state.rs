//! The page state machine: the current page, the history behind it, and the
//! dispatch of each message to the capability of the current page.
//!
//! Every capability has an inert default: a page that does not provide it
//! answers `InvalidInput` and changes nothing.

use vstd::prelude::*;
use vstd::view::View as _;
use crate::channel::{ChannelIndex, Channels, VideoIndex, merge_result, mixed_entries};
use crate::finder::{FinderData, finder_accepts};
use crate::input::{Key, Message, TextInputType, key_message, message_for_key};
use crate::pages::{
    Page, PageFeedChannel, PageRefresh, PageSearchVideo, PageVideo, PlaySource, RefreshType,
    default_predecessor,
};
use crate::search::{Search, SearchData, edited_query};
use crate::video::{ChannelInfo, Video, WatchProgress};
use crate::view::View;

verus! {

/// How many pages the history keeps; the oldest is dropped beyond that.
pub const HISTORY_LIMIT: usize = 64;

/// What to do with a video that is to be played.
#[derive(Clone, Copy, Debug, PartialEq, Eq, Structural)]
pub enum PlayMode {
    /// Play it and wait, harvesting the progress.
    Watch,
    /// Start the player and leave it running on its own.
    Detached,
    /// Play it and save it at the same time.
    WatchAndSave,
    /// Save it only.
    Save,
}

/// Longer work that the caller carries out before the next message.
#[derive(Debug)]
pub enum Job {
    /// Search for videos matching the query.
    SearchVideos(String),
    /// Play or save a video.
    Play(PlaySource, PlayMode),
    /// Fetch the feed of a channel and subscribe to it.
    Subscribe(ChannelInfo),
    /// Refresh the feeds, then go back to the page before the refresh.
    Refresh(RefreshType),
    /// Fetch older videos of a channel, starting after the ones it holds.
    MoreVideos(ChannelIndex, usize),
}

/// The answer to one message.
#[derive(Debug)]
pub enum UIMessage {
    /// Redraw the current page.
    Display,
    /// The current page cannot do what was asked.
    InvalidInput,
    /// Go to this page.
    Move(Page),
    Quit,
    /// Run this job.
    Job(Job),
}

/// Whether `m` asks for a capability of the current page (rather than for
/// navigation, paging or leaving).
pub open spec fn is_capability(m: Message) -> bool {
    match m {
        Message::Page(_) | Message::Back | Message::Quit | Message::InvalidInput
        | Message::ListPrevious | Message::ListNext | Message::Resize => false,
        _ => true,
    }
}

/// Whether `page` provides the capability that `m` asks for.
pub open spec fn overrides(page: Page, m: Message) -> bool {
    match m {
        Message::FinderStart | Message::FinderEscape | Message::FinderInput(_) => page is FeedChannel,
        Message::TextInput(_) => page is SearchVideoTyping,
        Message::Refresh => page is Home || page is FeedMixed || page is FeedChannel,
        Message::Select(_) => page is Home || page is FeedChannel || page is FeedMixed,
        Message::Play | Message::PlayDetached | Message::PlaySave | Message::Save => page is Video,
        Message::Subscribe(_) => page is SearchChannel,
        Message::More => page is FeedChannel,
        _ => false,
    }
}

pub open spec fn refresh_reply(page: Page) -> UIMessage {
    match page {
        Page::Home(_) | Page::FeedMixed(_) => UIMessage::Move(Page::Refresh(PageRefresh { refresh_type: RefreshType::All })),
        Page::FeedChannel(_) => UIMessage::Move(Page::Refresh(PageRefresh { refresh_type: RefreshType::Channel })),
        _ => UIMessage::InvalidInput,
    }
}

/// The answer to selecting entry `index` (counted from the start of the list).
pub open spec fn select_reply(page: Page, channels: Channels, index: int) -> UIMessage {
    match page {
        Page::Home(_) => if 0 <= index < channels.0@.len() {
            UIMessage::Move(Page::FeedChannel(PageFeedChannel { channel: ChannelIndex(index as usize), finder: FinderData { query: None } }))
        } else {
            UIMessage::InvalidInput
        },
        Page::FeedChannel(p) => if p.channel.0 < channels.0@.len()
            && 0 <= index < matching_positions(channels.0@[p.channel.0 as int].videos@, p.finder.query_view()).len() {
            UIMessage::Move(Page::Video(PageVideo { source: PlaySource::Channel(VideoIndex {
                channel: p.channel,
                video: matching_positions(channels.0@[p.channel.0 as int].videos@, p.finder.query_view())[index] as usize,
            }) }))
        } else {
            UIMessage::InvalidInput
        },
        _ => UIMessage::InvalidInput,
    }
}

/// The positions of the videos of `vs` whose titles pass a finder with query
/// `query`, in order: the entries a filtered feed shows.
pub open spec fn matching_positions(vs: Seq<Video>, query: Option<Seq<char>>) -> Seq<int>
    decreases vs.len(),
{
    if vs.len() == 0 {
        Seq::empty()
    } else {
        let before = matching_positions(vs.drop_last(), query);
        if finder_accepts(query, vs.last().title@) { before.push(vs.len() - 1) } else { before }
    }
}

/// The matching positions of a prefix of `vs` begin the matching positions of
/// `vs`.
proof fn lemma_matching_prefix(vs: Seq<Video>, query: Option<Seq<char>>, n: int)
    requires
        0 <= n <= vs.len(),
    ensures
        matching_positions(vs.subrange(0, n), query).len() <= matching_positions(vs, query).len(),
        forall|j: int| 0 <= j < matching_positions(vs.subrange(0, n), query).len() ==>
            #[trigger] matching_positions(vs.subrange(0, n), query)[j] == matching_positions(vs, query)[j],
    decreases vs.len(),
{
    if n == vs.len() {
        assert(vs.subrange(0, n) =~= vs);
    } else {
        let init = vs.drop_last();
        assert(init.subrange(0, n) =~= vs.subrange(0, n));
        lemma_matching_prefix(init, query, n);
    }
}

/// `r` answers selecting entry `index`: on the mixed feed it opens a video
/// of the aggregated feed, elsewhere it is `select_reply`.
pub open spec fn select_ok(page: Page, channels: Channels, index: int, r: UIMessage) -> bool {
    match page {
        Page::FeedMixed(_) => if 0 <= index < mixed_entries(channels.0@).len() {
            r matches UIMessage::Move(Page::Video(p)) && (p.source matches PlaySource::Mixed(i)
                && i.channel.0 < channels.0@.len() && i.video < channels.0@[i.channel.0 as int].videos@.len())
        } else {
            r == UIMessage::InvalidInput
        },
        _ => r == select_reply(page, channels, index),
    }
}

/// The answer to asking for more videos: a channel feed asks for those after
/// the ones its channel holds.
pub open spec fn more_reply(page: Page, channels: Channels) -> UIMessage {
    match page {
        Page::FeedChannel(p) => if p.channel.0 < channels.0@.len() {
            UIMessage::Job(Job::MoreVideos(p.channel, channels.0@[p.channel.0 as int].videos@.len() as usize))
        } else {
            UIMessage::InvalidInput
        },
        _ => UIMessage::InvalidInput,
    }
}

/// The play mode that a message asks for.
pub open spec fn play_mode(m: Message) -> PlayMode {
    match m {
        Message::PlayDetached => PlayMode::Detached,
        Message::PlaySave => PlayMode::WatchAndSave,
        Message::Save => PlayMode::Save,
        _ => PlayMode::Watch,
    }
}

/// The query of the search that `page` is typing, if any.
pub open spec fn typed_query(page: Page) -> Option<Seq<char>> {
    match page {
        Page::SearchVideoTyping(p) => p.search.query_view(),
        _ => None,
    }
}

/// `after` is `before` with one text edit applied: only a video search that
/// is being typed changes, and only its query.
pub open spec fn text_edited(before: Page, t: TextInputType, after: Page) -> bool {
    match before {
        Page::SearchVideoTyping(p) => match p.search {
            Search::Video(Some(d)) => after matches Page::SearchVideoTyping(p2) && (p2.search matches Search::Video(Some(d2))
                && d2.query@ == edited_query(d.query@, t) && d2.results@ == d.results@),
            _ => after == before,
        },
        _ => after == before,
    }
}

/// The finder query after one finder message.
pub open spec fn finder_after(query: Option<Seq<char>>, m: Message) -> Option<Seq<char>> {
    match m {
        Message::FinderStart => Some(match query { Some(q) => q, None => Seq::empty() }),
        Message::FinderEscape => None,
        Message::FinderInput(t) => Some(edited_query(match query { Some(q) => q, None => Seq::empty() }, t)),
        _ => query,
    }
}

/// `after` is the channel feed `before` with its finder updated by `m`.
pub open spec fn finder_updated(before: Page, m: Message, after: Page) -> bool {
    match before {
        Page::FeedChannel(p) => after matches Page::FeedChannel(p2) && (p2.channel == p.channel
            && p2.finder.query_view() == finder_after(p.finder.query_view(), m)),
        _ => after == before,
    }
}

/// The answer of the page's lifecycle hook on entry.
pub open spec fn init_reply(page: Page) -> UIMessage {
    match page {
        Page::Refresh(p) => UIMessage::Job(Job::Refresh(p.refresh_type)),
        _ => UIMessage::Display,
    }
}

/// `after` is `before` once its lifecycle hook on entry has run: a video
/// search starts with an empty query and no results; other pages stay.
pub open spec fn entered(before: Page, after: Page) -> bool {
    match before {
        Page::SearchVideoTyping(_) => after matches Page::SearchVideoTyping(p2) && (p2.search matches Search::Video(Some(d))
            && d.query@.len() == 0 && d.results@.len() == 0),
        _ => after == before,
    }
}

/// A page left for another one, with the position its list was scrolled to.
#[derive(Debug)]
pub struct HistoryEntry {
    pub page: Page,
    pub selection: usize,
}

/// The history after `entry` is left for another page.
pub open spec fn pushed_history(history: Seq<HistoryEntry>, entry: HistoryEntry) -> Seq<HistoryEntry> {
    if history.len() >= HISTORY_LIMIT { history.drop_first().push(entry) } else { history.push(entry) }
}

/// The page "back" leads to from `page` with `history` behind it.
pub open spec fn back_target(page: Page, history: Seq<HistoryEntry>) -> Page {
    if history.len() == 0 { default_predecessor(page) } else { history.last().page }
}

/// The list position "back" restores: the one the page was left with, or
/// the top for a default predecessor.
pub open spec fn back_selection(history: Seq<HistoryEntry>) -> usize {
    if history.len() == 0 { 0 } else { history.last().selection }
}

} // verus!

verus! {

impl Page {
    /// Refresh capability: the feeds and home refresh everything, a channel
    /// feed its channel.
    pub fn refresh(&self) -> (r: UIMessage)
        ensures
            r == refresh_reply(*self),
    {
        match self {
            Page::Home(_) | Page::FeedMixed(_) => UIMessage::Move(Page::Refresh(PageRefresh { refresh_type: RefreshType::All })),
            Page::FeedChannel(_) => UIMessage::Move(Page::Refresh(PageRefresh { refresh_type: RefreshType::Channel })),
            _ => UIMessage::InvalidInput,
        }
    }

    /// Selection capability: home opens a channel's feed, a channel feed
    /// opens one of its videos.
    pub fn select(&self, channels: &Channels, index: usize) -> (r: UIMessage)
        ensures
            select_ok(*self, *channels, index as int, r),
    {
        match self {
            Page::FeedMixed(_) => {
                let feed = channels.mixed_feed();
                if index < feed.len() {
                    let i = feed[index];
                    UIMessage::Move(Page::Video(PageVideo::new(PlaySource::Mixed(i))))
                } else {
                    UIMessage::InvalidInput
                }
            },
            Page::Home(_) => {
                if index < channels.len() {
                    UIMessage::Move(Page::FeedChannel(PageFeedChannel::new(ChannelIndex(index))))
                } else {
                    UIMessage::InvalidInput
                }
            },
            Page::FeedChannel(p) => {
                match channels.channel(p.channel) {
                    Some(channel) => {
                        let ghost vs = channel.videos@;
                        let ghost q = p.finder.query_view();
                        let mut seen: usize = 0;
                        let mut v: usize = 0;
                        assert(*channel == channels.0@[p.channel.0 as int]);
                        while v < channel.videos.len()
                            invariant
                                *self == Page::FeedChannel(*p),
                                p.channel.0 < channels.0@.len(),
                                *channel == channels.0@[p.channel.0 as int],
                                vs == channel.videos@,
                                q == p.finder.query_view(),
                                v <= vs.len(),
                                seen <= index,
                                seen as int == matching_positions(vs.subrange(0, v as int), q).len(),
                            decreases vs.len() - v,
                        {
                            let ghost next = vs.subrange(0, v as int + 1);
                            proof {
                                assert(next.drop_last() =~= vs.subrange(0, v as int));
                                assert(next.last() == vs[v as int]);
                            }
                            if p.finder.matches(channel.videos[v].title.as_str()) {
                                if seen == index {
                                    proof {
                                        assert(finder_accepts(q, vs[v as int].title@));
                                        assert(matching_positions(next, q) == matching_positions(vs.subrange(0, v as int), q).push(v as int));
                                        lemma_matching_prefix(vs, q, v as int + 1);
                                        assert(matching_positions(next, q)[index as int] == v as int);
                                        assert(matching_positions(vs, q)[index as int] == v as int);
                                        assert(index < matching_positions(vs, q).len());
                                    }
                                    return UIMessage::Move(Page::Video(PageVideo::new(PlaySource::Channel(VideoIndex { channel: p.channel, video: v }))));
                                }
                                seen += 1;
                            }
                            v += 1;
                        }
                        proof {
                            assert(vs.subrange(0, vs.len() as int) =~= vs);
                        }
                        UIMessage::InvalidInput
                    },
                    None => UIMessage::InvalidInput,
                }
            },
            _ => UIMessage::InvalidInput,
        }
    }

    /// Paging capability: a channel feed asks for older videos.
    pub fn more(&self, channels: &Channels) -> (r: UIMessage)
        ensures
            r == more_reply(*self, *channels),
    {
        match self {
            Page::FeedChannel(p) => match channels.channel(p.channel) {
                Some(channel) => UIMessage::Job(Job::MoreVideos(p.channel, channel.videos.len())),
                None => UIMessage::InvalidInput,
            },
            _ => UIMessage::InvalidInput,
        }
    }

    /// Play capability: a video page hands its video over to be played or
    /// saved.
    pub fn play(&self, mode: PlayMode) -> (r: UIMessage)
        ensures
            self matches Page::Video(p) ==> r == UIMessage::Job(Job::Play(p.source, mode)),
            !(self is Video) ==> r == UIMessage::InvalidInput,
    {
        match self {
            Page::Video(p) => UIMessage::Job(Job::Play(p.source.clone(), mode)),
            _ => UIMessage::InvalidInput,
        }
    }

    /// Subscribe capability: a channel search result can be subscribed to.
    pub fn subscribe(&self, info: ChannelInfo) -> (r: UIMessage)
        ensures
            self is SearchChannel ==> r == UIMessage::Job(Job::Subscribe(info)),
            !(self is SearchChannel) ==> r == UIMessage::InvalidInput,
    {
        match self {
            Page::SearchChannel(_) => UIMessage::Job(Job::Subscribe(info)),
            _ => UIMessage::InvalidInput,
        }
    }

    /// Text submission: a video search being typed is handed over to run.
    pub fn text_input_submit(&self) -> (r: UIMessage)
        ensures
            self is SearchVideoTyping && typed_query(*self) is Some ==> (r matches UIMessage::Job(Job::SearchVideos(q))
                && Some(q@) == typed_query(*self)),
            !(self is SearchVideoTyping && typed_query(*self) is Some) ==> r == UIMessage::InvalidInput,
    {
        match self {
            Page::SearchVideoTyping(p) => match p.search.query() {
                Some(q) => UIMessage::Job(Job::SearchVideos(q.to_owned())),
                None => UIMessage::InvalidInput,
            },
            _ => UIMessage::InvalidInput,
        }
    }

    /// Text editing: applies to a video search being typed.
    pub fn text_input(&mut self, t: TextInputType) -> (r: UIMessage)
        ensures
            text_edited(*old(self), t, *final(self)),
            r == (if *old(self) is SearchVideoTyping { UIMessage::Display } else { UIMessage::InvalidInput }),
    {
        match self {
            Page::SearchVideoTyping(p) => {
                match &mut p.search {
                    Search::Video(Some(data)) => {
                        data.input(t);
                    },
                    _ => {},
                }
                UIMessage::Display
            },
            _ => UIMessage::InvalidInput,
        }
    }

    /// The text being typed on this page, if any.
    pub fn text(&self) -> (r: Option<&str>)
        ensures
            r matches Some(q) ==> typed_query(*self) == Some(q@),
            r is None <==> typed_query(*self) is None,
    {
        match self {
            Page::SearchVideoTyping(p) => p.search.query(),
            _ => None,
        }
    }

    pub fn text_is_active(&self) -> (r: bool)
        ensures
            r == typed_query(*self) is Some,
    {
        self.text().is_some()
    }

    /// Finder capability: a channel feed filters its videos by a query.
    pub fn finder(&mut self, m: &Message) -> (r: UIMessage)
        requires
            *m is FinderStart || *m is FinderEscape || *m is FinderInput,
        ensures
            finder_updated(*old(self), *m, *final(self)),
            r == (if *old(self) is FeedChannel { UIMessage::Display } else { UIMessage::InvalidInput }),
    {
        match self {
            Page::FeedChannel(p) => {
                match m {
                    Message::FinderStart => {
                        if p.finder.query.is_none() {
                            p.finder.query = Some(String::new());
                        }
                    },
                    Message::FinderEscape => {
                        p.finder.query = None;
                    },
                    Message::FinderInput(t) => match t {
                        TextInputType::Init => {
                            p.finder.query = Some(String::new());
                        },
                        TextInputType::Char(c) => {
                            p.finder.add(*c);
                        },
                        TextInputType::Backspace => {
                            p.finder.delete();
                        },
                        TextInputType::Submit => {
                            if p.finder.query.is_none() {
                                p.finder.query = Some(String::new());
                            }
                        },
                    },
                    _ => {},
                }
                UIMessage::Display
            },
            _ => UIMessage::InvalidInput,
        }
    }

    pub fn finder_active(&self) -> (r: bool)
        ensures
            r == (finder_query(*self) matches Some(Some(_))),
    {
        match self {
            Page::FeedChannel(p) => p.finder.is_active(),
            _ => false,
        }
    }

    /// Lifecycle hook on entry: a video search starts afresh, a refresh page
    /// asks for its refresh.
    pub fn init(&mut self) -> (r: UIMessage)
        ensures
            entered(*old(self), *final(self)),
            r == init_reply(*old(self)),
    {
        match self {
            Page::SearchVideoTyping(p) => {
                p.search = Search::Video(Some(SearchData::new()));
                UIMessage::Display
            },
            Page::Refresh(p) => UIMessage::Job(Job::Refresh(p.refresh_type)),
            _ => UIMessage::Display,
        }
    }
}

/// The finder query of `page`, if it has a finder.
pub open spec fn finder_query(page: Page) -> Option<Option<Seq<char>>> {
    match page {
        Page::FeedChannel(p) => Some(p.finder.query_view()),
        _ => None,
    }
}

} // verus!

verus! {

/// The whole interactive state: the subscribed channels, the current page,
/// the pages behind it and what the screen shows.
#[derive(Debug)]
pub struct State {
    pub channels: Channels,
    pub page: Page,
    pub history: Vec<HistoryEntry>,
    pub view: View,
}

impl State {
    pub open spec fn wf(&self) -> bool {
        self.channels.wf() && self.history@.len() <= HISTORY_LIMIT
    }

    /// Starts on the home page with no history.
    pub fn new(channels: Channels) -> (r: State)
        requires
            channels.wf(),
        ensures
            r.wf(),
            r.channels == channels,
            r.page == Page::Home(crate::pages::PageHome),
            r.history@.len() == 0,
    {
        State { channels, page: Page::Home(crate::pages::PageHome), history: Vec::new(), view: View::empty() }
    }

    pub fn page(&self) -> (r: &Page)
        ensures
            *r == self.page,
    {
        &self.page
    }

    /// Goes to `page`: the current page goes onto the history with its list
    /// position, the list starts at its top again, and the new page's entry
    /// hook runs.
    pub fn move_to(&mut self, page: Page) -> (r: UIMessage)
        requires
            old(self).wf(),
        ensures
            final(self).wf(),
            final(self).channels == old(self).channels,
            final(self).history@ == pushed_history(
                old(self).history@,
                HistoryEntry { page: old(self).page, selection: old(self).view.selection_start },
            ),
            entered(page, final(self).page),
            final(self).view == (View { selection_start: 0, ..old(self).view }),
            r == init_reply(page),
    {
        let mut previous = page;
        std::mem::swap(&mut self.page, &mut previous);
        if self.history.len() >= HISTORY_LIMIT {
            self.history.remove(0);
        }
        let entry = HistoryEntry { page: previous, selection: self.view.selection() };
        self.history.push(entry);
        proof {
            if old(self).history@.len() >= HISTORY_LIMIT {
                assert(self.history@ =~= old(self).history@.drop_first().push(entry));
            }
        }
        self.view.page_reset();
        self.page.init()
    }

    /// Goes back to the last page of the history at the list position it was
    /// left with, or to the top of the current page's default predecessor
    /// when the history is empty.
    pub fn move_back(&mut self) -> (r: UIMessage)
        requires
            old(self).wf(),
        ensures
            final(self).wf(),
            final(self).channels == old(self).channels,
            final(self).view == (View { selection_start: back_selection(old(self).history@), ..old(self).view }),
            final(self).history@ == (if old(self).history@.len() == 0 { old(self).history@ } else { old(self).history@.drop_last() }),
            entered(back_target(old(self).page, old(self).history@), final(self).page),
            r == init_reply(back_target(old(self).page, old(self).history@)),
    {
        let (target, selection) = match self.history.pop() {
            Some(entry) => (entry.page, entry.selection),
            None => (self.page.previous_default(), 0),
        };
        self.page = target;
        self.view.selection_start = selection;
        self.page.init()
    }

    /// The message that `key` stands for here: typed text goes to a field
    /// only when the page has an active one and takes text.
    pub fn message_for_key(&self, key: Key) -> (r: Option<Message>)
        ensures
            r == key_message(key, (typed_query(self.page) is Some || finder_query(self.page) matches Some(Some(_)))
                && !(self.page is Refresh || self.page is Video), self.page),
    {
        let typing = self.typing_enabled() && self.page.text_input_capable();
        message_for_key(key, typing, &self.page)
    }

    /// Whether typed characters go to a text field or a finder.
    pub fn typing_enabled(&self) -> (r: bool)
        ensures
            r == (typed_query(self.page) is Some || finder_query(self.page) matches Some(Some(_))),
    {
        self.page.text_is_active() || self.page.finder_active()
    }

    pub fn set_view(&mut self, view: View)
        ensures
            *final(self) == (State { view, ..*old(self) }),
    {
        self.view = view;
    }

    pub fn set_error(&mut self, error: Option<String>)
        ensures
            *final(self) == (State { view: View { error, ..old(self).view }, ..*old(self) }),
    {
        self.view.set_error(error);
    }

    /// Hands one message to the current page and answers it. A capability
    /// that the page does not provide is answered with `InvalidInput` and
    /// changes nothing.
    pub fn handle_message(&mut self, message: Message) -> (r: UIMessage)
        requires
            old(self).wf(),
        ensures
            final(self).wf(),
            final(self).channels == old(self).channels,
            is_capability(message) && !overrides(old(self).page, message) ==> r == UIMessage::InvalidInput
                && *final(self) == *old(self),
            message is Quit ==> r == UIMessage::Quit && *final(self) == *old(self),
            message is InvalidInput ==> r == UIMessage::InvalidInput && *final(self) == *old(self),
            message is Resize ==> r == UIMessage::Display
                && *final(self) == (State { view: View { selection_start: 0, ..old(self).view }, ..*old(self) }),
            message is ListNext || message is ListPrevious ==> r == UIMessage::Display
                && final(self).page == old(self).page && final(self).history == old(self).history,
            message matches Message::Page(p) ==> r == init_reply(p) && entered(p, final(self).page)
                && final(self).history@ == pushed_history(
                    old(self).history@,
                    HistoryEntry { page: old(self).page, selection: old(self).view.selection_start },
                ),
            message is Back ==> r == init_reply(back_target(old(self).page, old(self).history@))
                && entered(back_target(old(self).page, old(self).history@), final(self).page)
                && final(self).view.selection_start == back_selection(old(self).history@),
            message is Refresh ==> r == refresh_reply(old(self).page) && *final(self) == *old(self),
            message is More ==> r == more_reply(old(self).page, old(self).channels) && *final(self) == *old(self),
            message matches Message::Select(n) ==> *final(self) == *old(self) && (
                if old(self).view.selection_start + n <= usize::MAX {
                    select_ok(old(self).page, old(self).channels, old(self).view.selection_start + n, r)
                } else {
                    r == UIMessage::InvalidInput
                }),
            (message is Play || message is PlayDetached || message is PlaySave || message is Save)
                && old(self).page is Video ==> *final(self) == *old(self)
                && r == UIMessage::Job(Job::Play(old(self).page->Video_0.source, play_mode(message))),
            message matches Message::Subscribe(info) ==> (old(self).page is SearchChannel ==> *final(self) == *old(self)
                && r == UIMessage::Job(Job::Subscribe(info))),
            message matches Message::TextInput(t) ==> (t != TextInputType::Submit ==> text_edited(old(self).page, t, final(self).page)
                && final(self).history == old(self).history && final(self).view == old(self).view),
            message == Message::TextInput(TextInputType::Submit) && typed_query(old(self).page) is Some
                ==> *final(self) == *old(self) && (r matches UIMessage::Job(Job::SearchVideos(q))
                && Some(q@) == typed_query(old(self).page)),
            (message is FinderStart || message is FinderEscape || message is FinderInput) ==> finder_updated(
                old(self).page, message, final(self).page)
                && final(self).history == old(self).history && final(self).view == old(self).view,
    {
        match message {
            Message::Page(page) => self.move_to(page),
            Message::Back => self.move_back(),
            Message::FinderStart | Message::FinderEscape | Message::FinderInput(_) => self.page.finder(&message),
            Message::TextInput(t) => {
                if let TextInputType::Submit = t {
                    self.page.text_input_submit()
                } else {
                    self.page.text_input(t)
                }
            },
            Message::Refresh => self.page.refresh(),
            Message::Select(n) => {
                let start = self.view.selection();
                if n <= usize::MAX - start {
                    self.page.select(&self.channels, start + n)
                } else {
                    UIMessage::InvalidInput
                }
            },
            Message::ListPrevious => {
                self.view.page_previous();
                UIMessage::Display
            },
            Message::ListNext => {
                self.view.page_next();
                UIMessage::Display
            },
            Message::Play => self.page.play(PlayMode::Watch),
            Message::PlayDetached => self.page.play(PlayMode::Detached),
            Message::PlaySave => self.page.play(PlayMode::WatchAndSave),
            Message::Save => self.page.play(PlayMode::Save),
            Message::More => self.page.more(&self.channels),
            Message::WatchLaterAdd(_) => UIMessage::InvalidInput,
            Message::Information => UIMessage::InvalidInput,
            Message::Subscribe(info) => self.page.subscribe(info),
            Message::InvalidInput => UIMessage::InvalidInput,
            Message::Quit => UIMessage::Quit,
            Message::Resize => {
                self.view.page_reset();
                UIMessage::Display
            },
        }
    }
}

} // verus!

verus! {

/// The channel and position that a played video came from, if it is one of
/// the subscribed videos.
pub open spec fn source_index(source: PlaySource) -> Option<VideoIndex> {
    match source {
        PlaySource::Mixed(i) => Some(i),
        PlaySource::Channel(i) => Some(i),
        PlaySource::Standalone(_, _) => None,
    }
}

impl State {
    /// Takes the outcome of a supervised play of the video from `source`:
    /// progress harvested during the run is recorded on a subscribed video;
    /// with nothing harvested (e.g. after a detach) nothing is recorded. The
    /// page stays where it was.
    pub fn finish_play(&mut self, source: &PlaySource, harvested: Option<WatchProgress>) -> (r: UIMessage)
        requires
            old(self).wf(),
        ensures
            final(self).wf(),
            r == UIMessage::Display,
            final(self).page == old(self).page,
            final(self).history == old(self).history,
            final(self).view == old(self).view,
            harvested is None || source_index(*source) is None ==> final(self).channels == old(self).channels,
            harvested matches Some(p) ==> (source_index(*source) matches Some(i) ==> ({
                let c = i.channel.0 as int;
                let v = i.video as int;
                if c < old(self).channels.0@.len() && v < old(self).channels.0@[c].videos@.len() {
                    &&& final(self).channels.0@.len() == old(self).channels.0@.len()
                    &&& final(self).channels.0@[c].videos@[v].progress == Some(p)
                    &&& final(self).channels.0@[c].videos@[v].id == old(self).channels.0@[c].videos@[v].id
                    &&& forall|k: int| 0 <= k < old(self).channels.0@.len() && k != c ==> #[trigger] final(self).channels.0@[k] == old(self).channels.0@[k]
                } else {
                    final(self).channels == old(self).channels
                }
            })),
    {
        let index = match source {
            PlaySource::Mixed(i) => *i,
            PlaySource::Channel(i) => *i,
            PlaySource::Standalone(_, _) => {
                return UIMessage::Display;
            },
        };
        if harvested.is_none() {
            return UIMessage::Display;
        }
        let c = index.channel.0;
        if c >= self.channels.len() || index.video >= self.channels.0[c].videos.len() {
            return UIMessage::Display;
        }
        let ghost before = self.channels;
        let mut channel = self.channels.0.remove(c);
        assert(channel == before.0@[c as int]);
        let changed = channel.set_progress(index.video, harvested);
        let ghost updated = channel;
        self.channels.0.insert(c, channel);
        proof {
            assert forall|k: int| 0 <= k < before.0@.len() && k != c implies
                #[trigger] self.channels.0@[k] == before.0@[k] by {
                if k < c {
                    assert(self.channels.0@[k] == before.0@.remove(c as int)[k]);
                } else {
                    assert(self.channels.0@[k] == before.0@.remove(c as int)[k - 1]);
                }
            }
            assert(self.channels.0@[c as int] == updated);
            assert forall|i: int, j: int| 0 <= i < j < self.channels.0@.len() implies
                #[trigger] self.channels.0@[i].info.id@ != #[trigger] self.channels.0@[j].info.id@ by {
                assert(before.0@[i].info.id@ != before.0@[j].info.id@);
            }
            assert(self.channels.0@.len() == before.0@.len());
            if changed {
                assert(self.channels.0@[c as int].videos@[index.video as int].progress == harvested);
            }
        }
        UIMessage::Display
    }

    /// Takes the older videos fetched for the channel at `index`: they are
    /// merged into it, and the page is drawn again.
    pub fn finish_more(&mut self, index: ChannelIndex, feed: Vec<Video>) -> (r: UIMessage)
        requires
            old(self).wf(),
        ensures
            final(self).wf(),
            r == UIMessage::Display,
            final(self).page == old(self).page,
            final(self).history == old(self).history,
            final(self).view == old(self).view,
            final(self).channels.0@.len() == old(self).channels.0@.len(),
            forall|k: int| 0 <= k < old(self).channels.0@.len() && k != index.0 ==>
                #[trigger] final(self).channels.0@[k] == old(self).channels.0@[k],
            index.0 < old(self).channels.0@.len() ==> final(self).channels.0@[index.0 as int].info == old(self).channels.0@[index.0 as int].info
                && merge_result(old(self).channels.0@[index.0 as int].videos@, feed@, final(self).channels.0@[index.0 as int].videos@),
            index.0 >= old(self).channels.0@.len() ==> final(self).channels == old(self).channels,
    {
        let c = index.0;
        if c >= self.channels.len() {
            return UIMessage::Display;
        }
        let ghost before = self.channels;
        let mut channel = self.channels.0.remove(c);
        assert(channel == before.0@[c as int]);
        channel.merge_videos(&feed);
        let ghost updated = channel;
        self.channels.0.insert(c, channel);
        proof {
            assert forall|k: int| 0 <= k < before.0@.len() && k != c implies
                #[trigger] self.channels.0@[k] == before.0@[k] by {
                if k < c {
                    assert(self.channels.0@[k] == before.0@.remove(c as int)[k]);
                } else {
                    assert(self.channels.0@[k] == before.0@.remove(c as int)[k - 1]);
                }
            }
            assert(self.channels.0@[c as int] == updated);
            assert forall|i: int, j: int| 0 <= i < j < self.channels.0@.len() implies
                #[trigger] self.channels.0@[i].info.id@ != #[trigger] self.channels.0@[j].info.id@ by {
                assert(before.0@[i].info.id@ != before.0@[j].info.id@);
            }
        }
        UIMessage::Display
    }

    /// Takes the results of the video search typed on the current page and
    /// moves to a page listing them.
    pub fn finish_search(&mut self, results: Vec<(Video, ChannelInfo)>) -> (r: UIMessage)
        ensures
            *final(self) == *old(self),
            typed_video_query(old(self).page) is None ==> r == UIMessage::InvalidInput,
            typed_video_query(old(self).page) matches Some(q) ==> (r matches UIMessage::Move(Page::SearchVideo(p)) && (p.search matches Search::Video(Some(d))
                && d.query@ == q && d.results@ == results@ && p.finder.query is None)),
    {
        match &self.page {
            Page::SearchVideoTyping(p) => match &p.search {
                Search::Video(Some(data)) => UIMessage::Move(Page::SearchVideo(PageSearchVideo::new(
                    Search::Video(Some(data.with_results(results))),
                    FinderData { query: None },
                ))),
                _ => UIMessage::InvalidInput,
            },
            _ => UIMessage::InvalidInput,
        }
    }

    /// Takes the fetched feed of a channel to subscribe to: the channel is
    /// added with its `video_count` newest videos, and home is shown.
    pub fn finish_subscribe(&mut self, info: ChannelInfo, feed: Vec<Video>, video_count: usize) -> (r: UIMessage)
        requires
            old(self).wf(),
        ensures
            final(self).wf(),
            r == UIMessage::Move(Page::Home(crate::pages::PageHome)),
            final(self).page == old(self).page,
            final(self).history == old(self).history,
            has_channel_id_of(final(self).channels, info.id@),
            final(self).channels.0@.len() == old(self).channels.0@.len() + (if has_channel_id_of(old(self).channels, info.id@) { 0int } else { 1int }),
            !has_channel_id_of(old(self).channels, info.id@) ==> final(self).channels.0@.last().info == info
                && final(self).channels.0@.last().videos@.len() <= video_count
                && crate::video::newest_first(final(self).channels.0@.last().videos@),
            has_channel_id_of(old(self).channels, info.id@) ==> final(self).channels == old(self).channels,
            !has_channel_id_of(old(self).channels, info.id@) ==> final(self).channels.0@.drop_last() == old(self).channels.0@
                && exists|full: Seq<Video>| merge_result(Seq::empty(), feed@, full)
                    && #[trigger] final(self).channels.0@.last().videos@ == full.take(
                        if video_count < full.len() { video_count as int } else { full.len() as int },
                    ),
    {
        let ghost id = info.id@;
        let fresh = self.channels.subscribe(info, feed, video_count);
        proof {
            if fresh {
                let last = self.channels.0@.len() - 1;
                assert(self.channels.0@[last].info.id@ == id);
                assert(self.channels.0@[last].wf());
            }
        }
        UIMessage::Move(Page::Home(crate::pages::PageHome))
    }
}

/// The query of the video search that `page` is typing, if any.
pub open spec fn typed_video_query(page: Page) -> Option<Seq<char>> {
    match page {
        Page::SearchVideoTyping(p) => match p.search {
            Search::Video(Some(d)) => Some(d.query@),
            _ => None,
        },
        _ => None,
    }
}

/// Whether a channel with id `id` is subscribed.
pub open spec fn has_channel_id_of(channels: Channels, id: Seq<char>) -> bool {
    crate::channel::has_channel_id(channels.0@, id)
}

} // verus!

verus! {

/// Leaving a page for another one (a refresh page, say) and going back
/// returns to that page at the list position it was left with.
pub proof fn lemma_back_returns(history: Seq<HistoryEntry>, left: Page, selection: usize, next: Page)
    ensures
        back_target(next, pushed_history(history, HistoryEntry { page: left, selection })) == left,
        back_selection(pushed_history(history, HistoryEntry { page: left, selection })) == selection,
{
}

} // verus!

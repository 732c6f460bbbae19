use yt_feeds::channel::{Channel, ChannelIndex, Channels, VideoIndex};
use yt_feeds::finder::FinderData;
use yt_feeds::input::{message_for_key, Key, Message, TextInputType};
use yt_feeds::pages::{
    Page, PageFeedChannel, PageFeedMixed, PageHome, PagePlaying, PageRefresh, PageSearchChannel,
    PageSearchVideoTyping, PageVideo, PageWatchLater, PlaySource, RefreshType,
};
use yt_feeds::search::Search;
use yt_feeds::state::{Job, PlayMode, State, UIMessage, HISTORY_LIMIT};
use yt_feeds::supervisor::{Flags, SupervisorEvent, WatchAction};
use yt_feeds::video::{ChannelInfo, Video, WatchProgress};

fn video(id: &str, upload: i64) -> Video {
    Video::new(id, id, "", upload, None)
}

fn state_with_one_channel() -> State {
    let mut channels = Channels::new();
    channels.add(Channel::new(ChannelInfo::new("c1", "One"), vec![video("a", 2), video("b", 1)]));
    State::new(channels)
}

fn is_invalid(m: &UIMessage) -> bool {
    matches!(m, UIMessage::InvalidInput)
}

fn video_page(index: usize) -> Page {
    Page::Video(PageVideo::new(PlaySource::Channel(VideoIndex { channel: ChannelIndex(0), video: index })))
}

#[test]
fn capabilities_a_page_lacks_answer_invalid_input_and_change_nothing() {
    let mut state = state_with_one_channel();
    state.move_to(Page::WatchLater(PageWatchLater));
    let history = state.history.len();
    for m in [
        Message::Refresh,
        Message::Play,
        Message::PlayDetached,
        Message::PlaySave,
        Message::Save,
        Message::More,
        Message::Information,
        Message::Select(0),
        Message::FinderStart,
        Message::FinderEscape,
        Message::FinderInput(TextInputType::Char('x')),
        Message::TextInput(TextInputType::Char('x')),
        Message::TextInput(TextInputType::Submit),
        Message::Subscribe(ChannelInfo::new("z", "z")),
        Message::WatchLaterAdd(PlaySource::Mixed(VideoIndex { channel: ChannelIndex(0), video: 0 })),
    ] {
        let r = state.handle_message(m);
        assert!(is_invalid(&r));
        assert!(matches!(state.page, Page::WatchLater(_)));
        assert_eq!(state.history.len(), history);
        assert_eq!(state.channels.len(), 1);
        assert_eq!(state.channels.0[0].videos.len(), 2);
    }
}

#[test]
fn home_selects_a_channel_and_back_returns() {
    let mut state = state_with_one_channel();
    let r = state.handle_message(Message::Select(0));
    let UIMessage::Move(page) = r else { panic!("expected a move") };
    assert!(matches!(page, Page::FeedChannel(ref p) if p.channel == ChannelIndex(0)));
    assert!(matches!(state.handle_message(Message::Page(page)), UIMessage::Display));
    assert_eq!(state.history.len(), 1);
    assert!(is_invalid(&state.handle_message(Message::Select(2))));
    let UIMessage::Move(page) = state.handle_message(Message::Select(1)) else { panic!("expected a move") };
    assert!(matches!(page, Page::Video(_)));
    state.move_to(page);
    assert!(matches!(state.handle_message(Message::Back), UIMessage::Display));
    assert!(matches!(state.page, Page::FeedChannel(_)));
    state.move_back();
    assert!(matches!(state.page, Page::Home(_)));
    assert!(is_invalid(&state.handle_message(Message::Select(5))));
}

#[test]
fn back_without_history_uses_the_default_predecessor() {
    let mut state = state_with_one_channel();
    state.page = video_page(0);
    state.move_back();
    assert!(matches!(state.page, Page::FeedChannel(ref p) if p.channel == ChannelIndex(0)));
    state.page = Page::Video(PageVideo::new(PlaySource::Mixed(VideoIndex { channel: ChannelIndex(0), video: 1 })));
    state.move_back();
    assert!(matches!(state.page, Page::FeedMixed(_)));
    state.page = Page::Video(PageVideo::new(PlaySource::Standalone(video("s", 1), ChannelInfo::new("x", "X"))));
    state.move_back();
    assert!(matches!(state.page, Page::Home(_)));
    state.page = Page::Playing(PagePlaying { source: PlaySource::Mixed(VideoIndex { channel: ChannelIndex(0), video: 1 }) });
    state.move_back();
    assert!(matches!(state.page, Page::Video(_)));
    for page in [Page::FeedMixed(PageFeedMixed), Page::WatchLater(PageWatchLater), Page::Refresh(PageRefresh { refresh_type: RefreshType::All })] {
        assert!(matches!(page.previous_default(), Page::Home(_)));
    }
}

#[test]
fn history_is_bounded() {
    let mut state = state_with_one_channel();
    for _ in 0..(HISTORY_LIMIT + 10) {
        state.move_to(Page::FeedMixed(PageFeedMixed));
    }
    assert_eq!(state.history.len(), HISTORY_LIMIT);
}

#[test]
fn refresh_wraps_the_current_page_and_returns_there() {
    let mut state = state_with_one_channel();
    let UIMessage::Move(page) = state.handle_message(Message::Refresh) else { panic!("expected a move") };
    let r = state.handle_message(Message::Page(page));
    assert!(matches!(r, UIMessage::Job(Job::Refresh(RefreshType::All))));
    assert!(matches!(state.page, Page::Refresh(_)));
    state.move_back();
    assert!(matches!(state.page, Page::Home(_)));
    state.page = Page::FeedChannel(PageFeedChannel::new(ChannelIndex(0)));
    assert!(matches!(
        state.handle_message(Message::Refresh),
        UIMessage::Move(Page::Refresh(PageRefresh { refresh_type: RefreshType::Channel }))
    ));
}

#[test]
fn play_then_detach_records_no_progress_and_stays_on_the_page() {
    let mut state = state_with_one_channel();
    state.page = video_page(0);
    let UIMessage::Job(Job::Play(source, mode)) = state.handle_message(Message::Play) else { panic!("expected play") };
    assert_eq!(mode, PlayMode::Watch);
    let mut flags: Flags<WatchProgress> = Flags::atomic();
    flags.handle(SupervisorEvent::Key('d'));
    assert_eq!(flags.watch(false), WatchAction::Release);
    let harvested = flags.outcome().unwrap();
    assert!(matches!(state.finish_play(&source, harvested), UIMessage::Display));
    assert!(matches!(state.page, Page::Video(_)));
    assert_eq!(state.channels.0[0].videos[0].progress, None);
}

#[test]
fn harvested_progress_is_recorded() {
    let mut state = state_with_one_channel();
    let source = PlaySource::Channel(VideoIndex { channel: ChannelIndex(0), video: 1 });
    state.finish_play(&source, Some(WatchProgress::new(30, 60)));
    assert_eq!(state.channels.0[0].videos[1].progress, Some(WatchProgress::new(30, 60)));
    assert_eq!(state.channels.0[0].videos[0].progress, None);
    let missing = PlaySource::Channel(VideoIndex { channel: ChannelIndex(4), video: 0 });
    state.finish_play(&missing, Some(WatchProgress::new(1, 2)));
    assert_eq!(state.channels.len(), 1);
}

#[test]
fn play_modes_of_a_video_page() {
    let mut state = state_with_one_channel();
    state.page = video_page(1);
    for (m, mode) in [
        (Message::PlayDetached, PlayMode::Detached),
        (Message::PlaySave, PlayMode::WatchAndSave),
        (Message::Save, PlayMode::Save),
    ] {
        let UIMessage::Job(Job::Play(_, got)) = state.handle_message(m) else { panic!("expected play") };
        assert_eq!(got, mode);
    }
}

#[test]
fn video_search_typing_and_submission() {
    let mut state = state_with_one_channel();
    let page = Page::SearchVideoTyping(PageSearchVideoTyping::new(Search::Video(None)));
    assert!(matches!(state.handle_message(Message::Page(page)), UIMessage::Display));
    assert!(state.typing_enabled());
    for c in "rust".chars() {
        state.handle_message(Message::TextInput(TextInputType::Char(c)));
    }
    state.handle_message(Message::TextInput(TextInputType::Backspace));
    assert_eq!(state.page.text(), Some("rus"));
    let UIMessage::Job(Job::SearchVideos(q)) = state.handle_message(Message::TextInput(TextInputType::Submit)) else {
        panic!("expected a search")
    };
    assert_eq!(q, "rus");
    let results = vec![(video("found", 5), ChannelInfo::new("ch", "Ch"))];
    let UIMessage::Move(Page::SearchVideo(p)) = state.finish_search(results) else { panic!("expected results") };
    let Search::Video(Some(data)) = p.search() else { panic!("expected video results") };
    assert_eq!(data.query(), "rus");
    assert_eq!(data.results().len(), 1);
    assert!(!p.finder().is_active());
}

#[test]
fn channel_feed_finder() {
    let mut state = state_with_one_channel();
    state.page = Page::FeedChannel(PageFeedChannel::new(ChannelIndex(0)));
    assert!(!state.typing_enabled());
    state.handle_message(Message::FinderStart);
    assert!(state.typing_enabled());
    state.handle_message(Message::FinderInput(TextInputType::Char('a')));
    state.handle_message(Message::FinderInput(TextInputType::Char('b')));
    state.handle_message(Message::FinderInput(TextInputType::Backspace));
    let Page::FeedChannel(p) = &state.page else { panic!("expected the feed") };
    assert_eq!(p.finder.query.as_deref(), Some("a"));
    state.handle_message(Message::FinderEscape);
    assert!(!state.typing_enabled());
}

#[test]
fn subscribing_from_a_channel_search() {
    let mut state = state_with_one_channel();
    state.page = Page::SearchChannel(PageSearchChannel {
        search: Search::Channel(None),
        finder: FinderData::default(),
        channel: ChannelInfo::new("c9", "Nine"),
    });
    let msg = state.message_for_key(Key::Char('s', false)).unwrap();
    let UIMessage::Job(Job::Subscribe(info)) = state.handle_message(msg) else { panic!("expected subscribe") };
    assert_eq!(info.id, "c9");
    let feed: Vec<Video> = (0..31).map(|i| video(&format!("v{}", i), i)).collect();
    let r = state.finish_subscribe(info, feed, 30);
    assert!(matches!(r, UIMessage::Move(Page::Home(_))));
    assert_eq!(state.channels.names(), vec!["One", "Nine"]);
    let added = state.channels.channel_by_id("c9").unwrap();
    assert_eq!(added.videos.len(), 30);
    assert!(added.videos.windows(2).all(|w| w[0].upload >= w[1].upload));
    assert_eq!(added.videos[0].id, "v30");
}

#[test]
fn list_paging_and_resize_keep_the_page() {
    let mut state = state_with_one_channel();
    assert!(matches!(state.handle_message(Message::ListNext), UIMessage::Display));
    assert!(matches!(state.handle_message(Message::ListPrevious), UIMessage::Display));
    assert!(matches!(state.handle_message(Message::Resize), UIMessage::Display));
    assert!(matches!(state.handle_message(Message::Quit), UIMessage::Quit));
    assert!(matches!(state.handle_message(Message::InvalidInput), UIMessage::InvalidInput));
    state.set_error(Some("e".to_string()));
    assert_eq!(state.view.error.as_deref(), Some("e"));
    assert!(matches!(state.page(), Page::Home(_)));
}

#[test]
fn keys_map_to_messages() {
    let home = Page::Home(PageHome);
    let video = video_page(0);
    let typing = Page::SearchVideoTyping(PageSearchVideoTyping::new(Search::Video(None)));
    assert!(matches!(message_for_key(Key::Char('c', true), true, &typing), Some(Message::Quit)));
    assert!(matches!(message_for_key(Key::Char('c', false), false, &video), Some(Message::Save)));
    assert!(matches!(message_for_key(Key::Char('c', false), false, &home), Some(Message::Page(Page::SearchVideoTyping(_)))));
    assert!(matches!(message_for_key(Key::Char('7', false), false, &home), Some(Message::Select(7))));
    assert!(matches!(message_for_key(Key::Char('7', false), true, &typing), Some(Message::TextInput(TextInputType::Char('7')))));
    assert!(matches!(message_for_key(Key::Char('x', false), true, &home), Some(Message::FinderInput(TextInputType::Char('x')))));
    assert!(matches!(message_for_key(Key::Enter, true, &typing), Some(Message::TextInput(TextInputType::Submit))));
    assert!(message_for_key(Key::Enter, false, &home).is_none());
    assert!(matches!(message_for_key(Key::Backspace, true, &home), Some(Message::FinderInput(TextInputType::Backspace))));
    assert!(matches!(message_for_key(Key::Esc, false, &typing), Some(Message::Back)));
    assert!(matches!(message_for_key(Key::Esc, false, &home), Some(Message::FinderEscape)));
    assert!(matches!(message_for_key(Key::Resize, false, &home), Some(Message::Resize)));
    assert!(message_for_key(Key::Other, false, &home).is_none());
    assert!(matches!(message_for_key(Key::Char('p', false), false, &video), Some(Message::Play)));
    assert!(matches!(message_for_key(Key::Char('p', false), false, &home), Some(Message::ListPrevious)));
    assert!(matches!(message_for_key(Key::Char('w', false), false, &video), Some(Message::WatchLaterAdd(_))));
    assert!(matches!(message_for_key(Key::Char('w', false), false, &home), Some(Message::Page(Page::WatchLater(_)))));
    assert!(matches!(message_for_key(Key::Char('s', false), false, &home), Some(Message::InvalidInput)));
    assert!(matches!(message_for_key(Key::Char('q', false), false, &home), Some(Message::Quit)));
    assert!(matches!(message_for_key(Key::Char('r', false), false, &home), Some(Message::Refresh)));
    assert!(matches!(message_for_key(Key::Char('d', false), false, &home), Some(Message::PlayDetached)));
    assert!(matches!(message_for_key(Key::Char('~', false), false, &home), Some(Message::InvalidInput)));
}

#[test]
fn pages_compare_by_variant() {
    let a = Page::Home(PageHome);
    let b = Page::FeedChannel(PageFeedChannel::new(ChannelIndex(3)));
    let c = Page::FeedChannel(PageFeedChannel::new(ChannelIndex(1)));
    assert!(b.same_variant(&c));
    assert!(!a.same_variant(&b));
    assert!(a.text_input_capable());
    assert!(!video_page(0).text_input_capable());
}

#[test]
fn a_channel_feed_asks_for_more_and_merges_them() {
    let mut state = state_with_one_channel();
    state.page = Page::FeedChannel(PageFeedChannel::new(ChannelIndex(0)));
    let UIMessage::Job(Job::MoreVideos(index, start)) = state.handle_message(Message::More) else { panic!("expected more") };
    assert_eq!((index, start), (ChannelIndex(0), 2));
    state.finish_more(index, vec![video("c", 0), video("a", 2), video("d", 5)]);
    let ids: Vec<&str> = state.channels.0[0].videos.iter().map(|v| v.id.as_str()).collect();
    assert_eq!(ids, vec!["d", "a", "b", "c"]);
    state.page = Page::FeedChannel(PageFeedChannel::new(ChannelIndex(9)));
    assert!(is_invalid(&state.handle_message(Message::More)));
}

#[test]
fn the_mixed_feed_opens_its_videos() {
    let mut state = state_with_one_channel();
    state.channels.add(Channel::new(ChannelInfo::new("c2", "Two"), vec![video("new", 10)]));
    state.page = Page::FeedMixed(PageFeedMixed);
    let UIMessage::Move(page) = state.handle_message(Message::Select(0)) else { panic!("expected a move") };
    let Page::Video(video_page) = &page else { panic!("expected a video") };
    assert!(matches!(video_page.source, PlaySource::Mixed(VideoIndex { channel: ChannelIndex(1), video: 0 })));
    assert!(is_invalid(&state.handle_message(Message::Select(3))));
    state.move_to(page);
    state.history.clear();
    state.move_back();
    assert!(matches!(state.page, Page::FeedMixed(_)));
}

#[test]
fn refresh_returns_to_the_scroll_position() {
    let mut state = state_with_one_channel();
    state.page = Page::FeedChannel(PageFeedChannel::new(ChannelIndex(0)));
    state.view.selection_start = 6;
    let UIMessage::Move(page) = state.handle_message(Message::Refresh) else { panic!("expected a move") };
    let r = state.handle_message(Message::Page(page));
    assert!(matches!(r, UIMessage::Job(Job::Refresh(RefreshType::Channel))));
    assert_eq!(state.view.selection(), 0);
    state.move_back();
    assert!(matches!(state.page, Page::FeedChannel(_)));
    assert_eq!(state.view.selection(), 6);
    state.move_back();
    assert_eq!(state.view.selection(), 0);
}

#[test]
fn a_filtered_feed_selects_among_the_matching_videos() {
    let mut channels = Channels::new();
    channels.add(Channel::new(
        ChannelInfo::new("c1", "One"),
        vec![video("Rust news", 9), video("Python", 8), video("More RUST", 7)],
    ));
    let mut state = State::new(channels);
    state.page = Page::FeedChannel(PageFeedChannel::new(ChannelIndex(0)));
    state.handle_message(Message::FinderStart);
    for c in "rust".chars() {
        state.handle_message(Message::FinderInput(TextInputType::Char(c)));
    }
    let UIMessage::Move(Page::Video(p)) = state.handle_message(Message::Select(1)) else { panic!("expected a video") };
    assert!(matches!(p.source, PlaySource::Channel(VideoIndex { channel: ChannelIndex(0), video: 2 })));
    assert!(is_invalid(&state.handle_message(Message::Select(2))));
    state.handle_message(Message::FinderEscape);
    let UIMessage::Move(Page::Video(p)) = state.handle_message(Message::Select(1)) else { panic!("expected a video") };
    assert!(matches!(p.source, PlaySource::Channel(VideoIndex { channel: ChannelIndex(0), video: 1 })));
}

#[test]
fn a_failed_subscription_is_a_no_op_for_a_known_channel() {
    let mut state = state_with_one_channel();
    let r = state.finish_subscribe(ChannelInfo::new("c1", "again"), vec![video("z", 1)], 30);
    assert!(matches!(r, UIMessage::Move(Page::Home(_))));
    assert_eq!(state.channels.len(), 1);
    assert_eq!(state.channels.0[0].videos.len(), 2);
}

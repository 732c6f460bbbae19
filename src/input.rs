//! Messages derived from user input, and the mapping from keys to them.

use vstd::prelude::*;
use crate::pages::{Page, PageFeedMixed, PageHome, PageSearchVideoTyping, PageWatchLater, PlaySource};
use crate::search::Search;
use crate::video::ChannelInfo;

verus! {

/// One edit of a text field.
#[derive(Clone, Copy, Debug, PartialEq, Eq, Structural)]
pub enum TextInputType {
    Init,
    Char(char),
    Backspace,
    Submit,
}

/// An intent of the user, handed to the current page.
#[derive(Debug)]
pub enum Message {
    Page(Page),
    Select(usize),
    Back,
    Quit,
    TextInput(TextInputType),
    FinderStart,
    FinderInput(TextInputType),
    FinderEscape,
    InvalidInput,
    Refresh,
    Play,
    PlayDetached,
    PlaySave,
    Save,
    More,
    WatchLaterAdd(PlaySource),
    ListPrevious,
    ListNext,
    Information,
    Subscribe(ChannelInfo),
    /// Nothing to do but redraw, e.g. after the terminal was resized.
    Resize,
}

} // verus!

verus! {

/// A key event, as far as the mapping to messages cares.
#[derive(Clone, Copy, Debug, PartialEq, Eq, Structural)]
pub enum Key {
    /// A character, and whether Control was held.
    Char(char, bool),
    Enter,
    Backspace,
    Esc,
    /// The terminal was resized.
    Resize,
    /// Any other key.
    Other,
}

/// Whether typed text on `page` goes to its search field (rather than to its
/// finder).
pub open spec fn types_search(page: Page) -> bool {
    page is SearchVideoTyping || page is SearchChannelTyping
}

/// The message a typed edit becomes on `page`.
pub open spec fn typed(page: Page, t: TextInputType) -> Message {
    if types_search(page) { Message::TextInput(t) } else { Message::FinderInput(t) }
}

/// The value of `c` as a decimal digit, if it is one.
pub open spec fn digit_of(c: char) -> Option<usize> {
    if '0' <= c && c <= '9' { Some((c as u32 - '0' as u32) as usize) } else { None }
}

/// The command that a plain character stands for while nothing is typed.
pub open spec fn command_message(c: char, page: Page) -> Message {
    if c == 'q' { Message::Quit }
    else if c == 'r' { Message::Refresh }
    else if c == '/' { Message::FinderStart }
    else if c == 'b' { Message::Back }
    else if c == 'h' { Message::Page(Page::Home(PageHome)) }
    else if c == 'a' { Message::Page(Page::FeedMixed(PageFeedMixed)) }
    else if c == 'v' { Message::Page(Page::SearchVideoTyping(PageSearchVideoTyping { search: Search::Channel(None) })) }
    else if c == 's' {
        match page {
            Page::SearchChannel(p) => Message::Subscribe(p.channel),
            Page::Video(_) => Message::Save,
            _ => Message::InvalidInput,
        }
    }
    else if c == 'p' { if page is Video { Message::Play } else { Message::ListPrevious } }
    else if c == 'n' { Message::ListNext }
    else if c == 'P' { Message::PlaySave }
    else if c == 'd' { Message::PlayDetached }
    else if c == 'm' { Message::More }
    else if c == 'w' {
        match page {
            Page::Video(v) => Message::WatchLaterAdd(v.source),
            _ => Message::Page(Page::WatchLater(PageWatchLater)),
        }
    }
    else if c == 'i' { Message::Information }
    else { Message::InvalidInput }
}

/// The message that `key` becomes on `page`; `typing` tells whether typed
/// text goes to a field. `None`: the key is ignored.
pub open spec fn key_message(key: Key, typing: bool, page: Page) -> Option<Message> {
    match key {
        Key::Resize => Some(Message::Resize),
        Key::Enter => if typing { Some(typed(page, TextInputType::Submit)) } else { None },
        Key::Backspace => if typing { Some(typed(page, TextInputType::Backspace)) } else { None },
        Key::Esc => if types_search(page) { Some(Message::Back) } else { Some(Message::FinderEscape) },
        Key::Other => None,
        Key::Char(c, control) => {
            if c == 'c' && control {
                Some(Message::Quit)
            } else if typing {
                Some(typed(page, TextInputType::Char(c)))
            } else if c == 'c' {
                if page is Video {
                    Some(Message::Save)
                } else {
                    Some(Message::Page(Page::SearchVideoTyping(PageSearchVideoTyping { search: Search::Video(None) })))
                }
            } else if digit_of(c) is Some {
                Some(Message::Select(digit_of(c)->Some_0))
            } else {
                Some(command_message(c, page))
            }
        },
    }
}

fn typed_message(page: &Page, t: TextInputType) -> (r: Message)
    ensures
        r == typed(*page, t),
{
    match page {
        Page::SearchVideoTyping(_) | Page::SearchChannelTyping(_) => Message::TextInput(t),
        _ => Message::FinderInput(t),
    }
}

fn command(c: char, page: &Page) -> (r: Message)
    ensures
        r == command_message(c, *page),
{
    if c == 'q' { Message::Quit }
    else if c == 'r' { Message::Refresh }
    else if c == '/' { Message::FinderStart }
    else if c == 'b' { Message::Back }
    else if c == 'h' { Message::Page(Page::Home(PageHome)) }
    else if c == 'a' { Message::Page(Page::FeedMixed(PageFeedMixed)) }
    else if c == 'v' { Message::Page(Page::SearchVideoTyping(PageSearchVideoTyping::new(Search::Channel(None)))) }
    else if c == 's' {
        match page {
            Page::SearchChannel(p) => Message::Subscribe(p.channel.clone()),
            Page::Video(_) => Message::Save,
            _ => Message::InvalidInput,
        }
    }
    else if c == 'p' {
        match page {
            Page::Video(_) => Message::Play,
            _ => Message::ListPrevious,
        }
    }
    else if c == 'n' { Message::ListNext }
    else if c == 'P' { Message::PlaySave }
    else if c == 'd' { Message::PlayDetached }
    else if c == 'm' { Message::More }
    else if c == 'w' {
        match page {
            Page::Video(v) => Message::WatchLaterAdd(v.source.clone()),
            _ => Message::Page(Page::WatchLater(PageWatchLater)),
        }
    }
    else if c == 'i' { Message::Information }
    else { Message::InvalidInput }
}

/// Maps one key to the message it stands for on `page`. It does not check
/// what the page can do: that is the dispatch's part.
pub fn message_for_key(key: Key, typing: bool, page: &Page) -> (r: Option<Message>)
    ensures
        r == key_message(key, typing, *page),
{
    match key {
        Key::Resize => Some(Message::Resize),
        Key::Enter => if typing { Some(typed_message(page, TextInputType::Submit)) } else { None },
        Key::Backspace => if typing { Some(typed_message(page, TextInputType::Backspace)) } else { None },
        Key::Esc => match page {
            Page::SearchVideoTyping(_) | Page::SearchChannelTyping(_) => Some(Message::Back),
            _ => Some(Message::FinderEscape),
        },
        Key::Other => None,
        Key::Char(c, control) => {
            if c == 'c' && control {
                Some(Message::Quit)
            } else if typing {
                Some(typed_message(page, TextInputType::Char(c)))
            } else if c == 'c' {
                match page {
                    Page::Video(_) => Some(Message::Save),
                    _ => Some(Message::Page(Page::SearchVideoTyping(PageSearchVideoTyping::new(Search::Video(None))))),
                }
            } else if '0' <= c && c <= '9' {
                Some(Message::Select(((c as u32) - ('0' as u32)) as usize))
            } else {
                Some(command(c, page))
            }
        },
    }
}

} // verus!

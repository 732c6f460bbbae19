//! Search queries typed by the user and the results they brought.

use vstd::prelude::*;
use crate::input::TextInputType;
use crate::text::{pop_char, push_char};
use crate::video::{ChannelInfo, Video};

verus! {

/// A query being typed and the results of the last search for it.
#[derive(Clone, Debug)]
pub struct SearchData<T> {
    pub query: String,
    pub results: Vec<T>,
}

/// The query after one edit.
pub open spec fn edited_query(query: Seq<char>, input: TextInputType) -> Seq<char> {
    match input {
        TextInputType::Init => Seq::empty(),
        TextInputType::Char(c) => query.push(c),
        TextInputType::Backspace => if query.len() == 0 { query } else { query.drop_last() },
        TextInputType::Submit => query,
    }
}

impl<T> SearchData<T> {
    pub fn new() -> (r: SearchData<T>)
        ensures
            r.query@ == Seq::<char>::empty(),
            r.results@ == Seq::<T>::empty(),
    {
        SearchData { query: String::new(), results: Vec::new() }
    }

    /// The same query with `data` as its results.
    pub fn with_results(&self, data: Vec<T>) -> (r: SearchData<T>)
        ensures
            r.query@ == self.query@,
            r.results@ == data@,
    {
        SearchData { query: self.query.clone(), results: data }
    }

    /// Applies one edit to the query.
    pub fn input(&mut self, input: TextInputType)
        ensures
            final(self).query@ == edited_query(old(self).query@, input),
            final(self).results@ == old(self).results@,
    {
        match input {
            TextInputType::Init => {
                self.query = String::new();
            },
            TextInputType::Char(c) => {
                push_char(&mut self.query, c);
            },
            TextInputType::Backspace => {
                pop_char(&mut self.query);
            },
            TextInputType::Submit => {},
        }
    }

    pub fn results(&self) -> (r: &Vec<T>)
        ensures
            r@ == self.results@,
    {
        &self.results
    }

    pub fn query(&self) -> (r: &str)
        ensures
            r@ == self.query@,
    {
        self.query.as_str()
    }
}

/// A search for videos or for channels; `None` when no query is being typed.
#[derive(Clone, Debug)]
pub enum Search {
    Video(Option<SearchData<(Video, ChannelInfo)>>),
    Channel(Option<SearchData<ChannelInfo>>),
}

impl Search {
    pub open spec fn query_view(&self) -> Option<Seq<char>> {
        match self {
            Search::Video(Some(d)) => Some(d.query@),
            Search::Channel(Some(d)) => Some(d.query@),
            _ => None,
        }
    }

    /// The query being typed, if any.
    pub fn query(&self) -> (r: Option<&str>)
        ensures
            r matches Some(q) ==> self.query_view() == Some(q@),
            r is None <==> self.query_view() is None,
    {
        match self {
            Search::Video(Some(data)) => Some(data.query()),
            Search::Channel(Some(data)) => Some(data.query()),
            _ => None,
        }
    }
}

} // verus!

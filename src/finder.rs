//! The in-page finder: an optional filter query typed by the user.

use vstd::prelude::*;
use crate::text::{contains_seq, lower_of, lowercase, pop_char, push_char, str_contains};

verus! {

/// Whether `given` passes a finder whose query is `query`, both compared in
/// lower case; with no query everything passes.
pub open spec fn finder_accepts(query: Option<Seq<char>>, given: Seq<char>) -> bool {
    match query {
        None => true,
        Some(q) => contains_seq(lower_of(given), lower_of(q)),
    }
}

/// Whether `given_lower` passes the lower-cased query `query_lower`.
pub fn folded_matches(query_lower: &str, given_lower: &str) -> (r: bool)
    ensures
        r == contains_seq(given_lower@, query_lower@),
{
    str_contains(given_lower, query_lower)
}

#[derive(Clone, Debug, Default)]
pub struct FinderData {
    pub query: Option<String>,
}

impl FinderData {
    pub open spec fn query_view(&self) -> Option<Seq<char>> {
        match self.query {
            Some(q) => Some(q@),
            None => None,
        }
    }

    pub fn is_active(&self) -> (r: bool)
        ensures
            r == self.query is Some,
    {
        self.query.is_some()
    }

    /// Appends `added` to the query, starting one if there is none.
    pub fn add(&mut self, added: char)
        ensures
            final(self).query_view() == Some(
                match old(self).query_view() {
                    Some(q) => q.push(added),
                    None => seq![added],
                },
            ),
    {
        match self.query.take() {
            Some(q) => {
                let mut q = q;
                push_char(&mut q, added);
                self.query = Some(q);
            },
            None => {
                let mut q = String::new();
                push_char(&mut q, added);
                self.query = Some(q);
            },
        }
    }

    /// Removes the last character of the query; with no query, starts an
    /// empty one.
    pub fn delete(&mut self)
        ensures
            final(self).query_view() == Some(
                match old(self).query_view() {
                    Some(q) => if q.len() == 0 { q } else { q.drop_last() },
                    None => Seq::<char>::empty(),
                },
            ),
    {
        match self.query.take() {
            Some(q) => {
                let mut q = q;
                pop_char(&mut q);
                self.query = Some(q);
            },
            None => {
                self.query = Some(String::new());
            },
        }
    }

    /// Whether `given` passes the finder.
    pub fn matches(&self, given: &str) -> (r: bool)
        ensures
            r == finder_accepts(self.query_view(), given@),
    {
        match &self.query {
            None => true,
            Some(q) => {
                let given_lower = lowercase(given);
                let query_lower = lowercase(q.as_str());
                folded_matches(query_lower.as_str(), given_lower.as_str())
            },
        }
    }
}

} // verus!

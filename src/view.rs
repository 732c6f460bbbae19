//! The content of one screen: header, options, lines and a paged list of
//! selectable entries.

use vstd::prelude::*;
use vstd::view::View as _;

verus! {

/// `a / s` rounded up.
pub open spec fn ceil_div(a: nat, s: nat) -> nat
    recommends
        s > 0,
{
    if a % s == 0 { a / s } else { a / s + 1 }
}

/// The page size used for paging: at least one.
pub open spec fn page_size(per_page: nat) -> nat {
    if per_page == 0 { 1 } else { per_page }
}

#[derive(Debug)]
pub struct View {
    pub header: String,
    pub options: Vec<String>,
    pub lines: Vec<String>,
    pub selections: Vec<String>,
    pub selection_start: usize,
    pub selections_per_page: usize,
    pub error: Option<String>,
}

proof fn lemma_ceil_bound(a: nat, s: nat)
    requires
        s > 0,
    ensures
        ceil_div(a, s) * s >= a,
        a > 0 ==> (ceil_div(a, s) - 1) * s < a,
        ceil_div(a, s) <= a,
{
    assert(a == (a / s) * s + a % s) by (nonlinear_arith) requires s > 0;
    assert(a / s <= a) by (nonlinear_arith) requires s > 0;
    if a % s == 0 {
        if a > 0 {
            assert((a / s) >= 1) by (nonlinear_arith) requires s > 0, a > 0, a == (a / s) * s + a % s, a % s == 0;
            assert(((a / s) - 1) * s == (a / s) * s - s) by (nonlinear_arith) requires a / s >= 1;
        }
    } else {
        assert((a / s + 1) * s == (a / s) * s + s) by (nonlinear_arith);
        assert(a / s < a) by (nonlinear_arith) requires s > 0, a % s != 0, a == (a / s) * s + a % s, a % s < s;
    }
}

impl View {
    pub fn new(title: &str, selection_start: usize, options: Vec<String>) -> (r: View)
        ensures
            r.header@ == title@,
            r.options@ == options@,
            r.lines@.len() == 0,
            r.selections@.len() == 0,
            r.selection_start == selection_start,
            r.selections_per_page == 0,
            r.error is None,
    {
        View {
            header: title.to_owned(),
            options,
            lines: Vec::new(),
            selections: Vec::new(),
            selection_start,
            selections_per_page: 0,
            error: None,
        }
    }

    /// An empty view.
    pub fn empty() -> (r: View)
        ensures
            r.header@.len() == 0,
            r.options@.len() == 0,
            r.lines@.len() == 0,
            r.selections@.len() == 0,
            r.selection_start == 0,
            r.selections_per_page == 0,
            r.error is None,
    {
        proof { reveal_strlit(""); }
        View::new("", 0, Vec::new())
    }

    fn size(&self) -> (r: usize)
        ensures
            r == page_size(self.selections_per_page as nat),
    {
        if self.selections_per_page == 0 { 1 } else { self.selections_per_page }
    }

    /// The page that the first shown selection falls on, rounded up.
    pub fn page_current(&self) -> (r: usize)
        ensures
            r == ceil_div(self.selection_start as nat, page_size(self.selections_per_page as nat)),
    {
        let s = self.size();
        let a = self.selection_start;
        proof { lemma_ceil_bound(a as nat, s as nat); }
        if a % s == 0 { a / s } else { a / s + 1 }
    }

    /// How many pages the selections fill.
    pub fn pages(&self) -> (r: usize)
        ensures
            r == ceil_div(self.selections@.len(), page_size(self.selections_per_page as nat)),
    {
        let s = self.size();
        let a = self.selections.len();
        proof { lemma_ceil_bound(a as nat, s as nat); }
        if a % s == 0 { a / s } else { a / s + 1 }
    }

    pub fn page_reset(&mut self)
        ensures
            *final(self) == (View { selection_start: 0, ..*old(self) }),
    {
        self.selection_start = 0;
    }

    /// Moves to the next page, staying on the last one; with no selections
    /// at all the list goes back to its start.
    pub fn page_next(&mut self)
        ensures
            *final(self) == (View {
                selection_start: ({
                    let s = page_size(old(self).selections_per_page as nat);
                    let pages = ceil_div(old(self).selections@.len(), s);
                    let next = ceil_div(old(self).selection_start as nat, s) + 1;
                    if pages == 0 { 0 } else if next < pages { (next * s) as usize } else { ((pages - 1) * s) as usize }
                }),
                ..*old(self)
            }),
    {
        let s = self.size();
        let pages = self.pages();
        let current = self.page_current();
        let count = self.selections.len();
        proof {
            lemma_ceil_bound(self.selections@.len(), s as nat);
            lemma_ceil_bound(self.selection_start as nat, s as nat);
        }
        if pages == 0 {
            self.selection_start = 0;
        } else {
            let page = if current < pages - 1 { current + 1 } else { pages - 1 };
            proof {
                assert(count > 0) by {
                    if count == 0 {
                        assert(0nat % (s as nat) == 0) by (nonlinear_arith) requires s > 0;
                        assert(0nat / (s as nat) == 0) by (nonlinear_arith) requires s > 0;
                    }
                }
                assert(page <= pages - 1);
                assert(page * s <= (pages - 1) * s) by (nonlinear_arith) requires page <= pages - 1;
            }
            self.selection_start = page * s;
        }
    }

    /// Moves to the previous page, staying on the first one.
    pub fn page_previous(&mut self)
        ensures
            *final(self) == (View {
                selection_start: ({
                    let s = page_size(old(self).selections_per_page as nat);
                    let current = ceil_div(old(self).selection_start as nat, s);
                    if current == 0 { 0 } else { ((current - 1) * s) as usize }
                }),
                ..*old(self)
            }),
    {
        let s = self.size();
        let current = self.page_current();
        proof { lemma_ceil_bound(self.selection_start as nat, s as nat); }
        if current == 0 {
            self.selection_start = 0;
        } else {
            proof {
                assert(self.selection_start > 0) by {
                    if self.selection_start == 0 {
                        assert(0nat % (s as nat) == 0) by (nonlinear_arith) requires s > 0;
                        assert(0nat / (s as nat) == 0) by (nonlinear_arith) requires s > 0;
                    }
                }
            }
            self.selection_start = (current - 1) * s;
        }
    }

    /// Index of the first selection shown.
    pub fn selection(&self) -> (r: usize)
        ensures
            r == self.selection_start,
    {
        self.selection_start
    }

    pub fn set_error(&mut self, error: Option<String>)
        ensures
            *final(self) == (View { error, ..*old(self) }),
    {
        self.error = error;
    }

    pub fn add_line_info(&mut self, line: String)
        ensures
            final(self).lines@ == old(self).lines@.push(line),
            final(self).selections == old(self).selections,
            final(self).selection_start == old(self).selection_start,
            final(self).selections_per_page == old(self).selections_per_page,
            final(self).header == old(self).header,
            final(self).options == old(self).options,
            final(self).error == old(self).error,
    {
        self.lines.push(line);
    }

    pub fn add_line_selection(&mut self, line: String)
        ensures
            final(self).selections@ == old(self).selections@.push(line),
            final(self).lines == old(self).lines,
            final(self).selection_start == old(self).selection_start,
            final(self).selections_per_page == old(self).selections_per_page,
            final(self).header == old(self).header,
            final(self).options == old(self).options,
            final(self).error == old(self).error,
    {
        self.selections.push(line);
    }
}

} // verus!

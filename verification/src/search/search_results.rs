//! One page of search results, with its place among the pages and the
//! selection within it.

use vstd::prelude::*;

use crate::search::cargo_crate::{crates_view, Crate, CrateView};
use crate::search::list_state::{next_index, previous_index, ListState};

verus! {

/// The number of pages that `total` records fill at `per_page` records a
/// page: `total / per_page`, rounded up.
pub open spec fn pages_for(total: int, per_page: int) -> int {
    if total % per_page == 0 {
        total / per_page
    } else {
        total / per_page + 1
    }
}

/// `pages_for` is the ceiling of the quotient: the least number of pages
/// that hold `total` records.
pub proof fn lemma_pages_for_is_ceiling(total: int, per_page: int)
    requires
        total >= 0,
        per_page > 0,
    ensures
        pages_for(total, per_page) >= 0,
        pages_for(total, per_page) * per_page >= total,
        (pages_for(total, per_page) - 1) * per_page < total || total == 0,
        total == 0 <==> pages_for(total, per_page) == 0,
        pages_for(total, per_page) <= total,
{
    let q = total / per_page;
    let r = total % per_page;
    assert(total == q * per_page + r && 0 <= r < per_page && 0 <= q && q <= total) by (nonlinear_arith)
        requires
            q == total / per_page,
            r == total % per_page,
            total >= 0,
            per_page > 0,
    ;
    assert((q + 1) * per_page == q * per_page + per_page) by (nonlinear_arith);
    assert((q - 1) * per_page == q * per_page - per_page) by (nonlinear_arith);
    assert(q == 0 ==> q * per_page == 0) by (nonlinear_arith);
    if r != 0 && q == total {
        assert(q * per_page >= q) by (nonlinear_arith)
            requires
                q >= 0,
                per_page > 0,
        ;
    }
}

/// A page lies before the last one exactly when the pages up to it hold
/// fewer records than there are.
pub proof fn lemma_next_page(page: int, total: int, per_page: int)
    requires
        page >= 0,
        total >= 0,
        per_page > 0,
    ensures
        (page * per_page < total) <==> (page < pages_for(total, per_page)),
{
    lemma_pages_for_is_ceiling(total, per_page);
    let pc = pages_for(total, per_page);
    if page < pc {
        assert(page * per_page <= (pc - 1) * per_page) by (nonlinear_arith)
            requires
                page <= pc - 1,
                per_page > 0,
        ;
    } else {
        assert(page * per_page >= pc * per_page) by (nonlinear_arith)
            requires
                page >= pc,
                per_page > 0,
        ;
    }
}

/// `page` brought into the range of pages that exist: at least 1, at most
/// the number of pages, and 1 where there is no page at all.
pub open spec fn clamp_page(page: int, page_count: int) -> int {
    if page < 1 || page_count < 1 {
        1
    } else if page > page_count {
        page_count
    } else {
        page
    }
}

/// The results of one search: the records of the current page, the number
/// of matches over all pages, and the selection.
#[derive(Debug, Clone, PartialEq, Eq)]
pub struct SearchResults {
    pub crates: Vec<Crate>,
    pub total_count: usize,
    pub list_state: ListState,
    pub current_page: usize,
    pub per_page: usize,
}

/// Mathematical value of a [`SearchResults`].
pub struct SearchResultsView {
    pub crates: Seq<CrateView>,
    pub total_count: usize,
    pub list_state: ListState,
    pub current_page: usize,
    pub per_page: usize,
}

impl SearchResultsView {
    /// The number of pages.
    pub open spec fn page_count(self) -> int {
        pages_for(self.total_count as int, self.per_page as int)
    }

    /// Whether a page follows the current one.
    pub open spec fn has_next_page(self) -> bool {
        self.current_page * self.per_page < self.total_count
    }

    /// Whether a page precedes the current one.
    pub open spec fn has_prev_page(self) -> bool {
        self.current_page > 1
    }

    /// The selected index as a reader sees it: the stored index, with the
    /// index that stands for the last item resolved to the last record's.
    /// Nothing is selected where that index is stored and there is no
    /// record.
    pub open spec fn selected_index(self) -> Option<usize> {
        match self.list_state.selected {
            None => None,
            Some(ix) => if ix == usize::MAX {
                if self.crates.len() > 0 {
                    Some((self.crates.len() - 1) as usize)
                } else {
                    None
                }
            } else {
                Some(ix)
            },
        }
    }

    /// The selected record: the one at the selected index, where that
    /// index lies within the records.
    pub open spec fn selected(self) -> Option<CrateView> {
        match self.selected_index() {
            Some(ix) => if ix < self.crates.len() {
                Some(self.crates[ix as int])
            } else {
                None
            },
            None => None,
        }
    }

    /// The page that a request for `page` leads to, or `None` where that
    /// is the current page.
    pub open spec fn go_to_page(self, page: int) -> Option<int> {
        let target = clamp_page(page, self.page_count());
        if target == self.current_page {
            None
        } else {
            Some(target)
        }
    }

    /// The page `pages` before the current one, not before the first.
    pub open spec fn page_back(self, pages: int) -> int {
        if pages >= self.current_page {
            1
        } else {
            self.current_page - pages
        }
    }

    /// The page `pages` after the current one.
    pub open spec fn page_forward(self, pages: int) -> int {
        self.current_page + pages
    }

    /// These results with the selection state replaced.
    pub open spec fn with_list_state(self, list_state: ListState) -> SearchResultsView {
        SearchResultsView { list_state, ..self }
    }
}

impl View for SearchResults {
    type V = SearchResultsView;

    open spec fn view(&self) -> SearchResultsView {
        SearchResultsView {
            crates: crates_view(self.crates@),
            total_count: self.total_count,
            list_state: self.list_state,
            current_page: self.current_page,
            per_page: self.per_page,
        }
    }
}

impl SearchResults {
    /// The selected record: the one at the selected index, where that
    /// index lies within the records.
    pub open spec fn spec_selected(&self) -> Option<Crate> {
        match self@.selected_index() {
            Some(ix) => if ix < self.crates@.len() {
                Some(self.crates@[ix as int])
            } else {
                None
            },
            None => None,
        }
    }

    /// Whether `r` is the position of the first record that matches the
    /// term exactly, or `None` where no record does.
    pub open spec fn is_exact_match_index(&self, r: Option<usize>) -> bool {
        match r {
            Some(i) => i < self.crates@.len() && self.crates@[i as int].exact_match
                && forall|j: int| 0 <= j < i ==> !(#[trigger] self.crates@[j]).exact_match,
            None => forall|j: int|
                0 <= j < self.crates@.len() ==> !(#[trigger] self.crates@[j]).exact_match,
        }
    }

    /// Well-formed results have a positive page size.
    pub open spec fn wf(&self) -> bool {
        self.per_page > 0
    }

    /// Whether the results are well-formed.
    pub fn is_wf(&self) -> (r: bool)
        ensures
            r == self.wf(),
    {
        self.per_page > 0
    }

    /// Empty results for page `page`, at 100 records a page.
    pub fn new(page: usize) -> (r: SearchResults)
        ensures
            r.wf(),
            r@.crates.len() == 0,
            r.crates@.len() == 0,
            r@.total_count == 0,
            r@.current_page == page,
            r@.per_page == 100,
            r@.list_state.selected.is_none(),
            r@.list_state.offset == 0,
    {
        SearchResults {
            crates: Vec::new(),
            total_count: 0,
            current_page: page,
            per_page: 100,
            list_state: ListState { offset: 0, selected: None },
        }
    }

    /// Empty results for page `page`, at `per_page` records a page.
    pub fn with_page_size(page: usize, per_page: usize) -> (r: SearchResults)
        requires
            per_page > 0,
        ensures
            r.wf(),
            r@.crates.len() == 0,
            r.crates@.len() == 0,
            r@.total_count == 0,
            r@.current_page == page,
            r@.per_page == per_page,
            r@.list_state.selected.is_none(),
            r@.list_state.offset == 0,
    {
        SearchResults {
            crates: Vec::new(),
            total_count: 0,
            current_page: page,
            per_page,
            list_state: ListState { offset: 0, selected: None },
        }
    }

    /// The number of pages: the total number of matches divided by the
    /// page size, rounded up.
    pub fn page_count(&self) -> (r: usize)
        requires
            self.wf(),
        ensures
            r == self@.page_count(),
    {
        proof {
            lemma_pages_for_is_ceiling(self.total_count as int, self.per_page as int);
        }
        let q: usize = self.total_count / self.per_page;
        if self.total_count % self.per_page == 0 {
            q
        } else {
            q + 1
        }
    }

    /// The page these results are of.
    pub fn current_page(&self) -> (r: usize)
        ensures
            r == self@.current_page,
    {
        self.current_page
    }

    /// The number of records on the current page.
    pub fn current_page_count(&self) -> (r: usize)
        ensures
            r == self@.crates.len(),
    {
        self.crates.len()
    }

    /// The number of records a page holds at most.
    pub fn per_page(&self) -> (r: usize)
        ensures
            r == self@.per_page,
    {
        self.per_page
    }

    /// Whether a page follows the current one.
    pub fn has_next_page(&self) -> (r: bool)
        requires
            self.wf(),
        ensures
            r == self@.has_next_page(),
    {
        proof {
            lemma_next_page(
                self.current_page as int,
                self.total_count as int,
                self.per_page as int,
            );
        }
        self.current_page < self.page_count()
    }

    /// Whether a page precedes the current one.
    pub fn has_prev_page(&self) -> (r: bool)
        ensures
            r == self@.has_prev_page(),
    {
        self.current_page > 1
    }

    /// The selected index, with the index that stands for the last item
    /// resolved to that of the last record.
    pub fn selected_index(&self) -> (r: Option<usize>)
        ensures
            r == self@.selected_index(),
    {
        match self.list_state.selected {
            None => None,
            Some(ix) => {
                if ix == usize::MAX {
                    if self.crates.len() > 0 {
                        Some(self.crates.len() - 1)
                    } else {
                        None
                    }
                } else {
                    Some(ix)
                }
            },
        }
    }

    /// The selected record, if the selection points at one.
    pub fn selected(&self) -> (r: Option<&Crate>)
        ensures
            match r {
                Some(c) => self@.selected() == Some(c@) && self.spec_selected() == Some(*c)
                    && self@.selected_index().is_some() && self@.selected_index().unwrap()
                    < self.crates@.len(),
                None => self@.selected().is_none() && self.spec_selected().is_none(),
            },
    {
        match self.selected_index() {
            Some(ix) => {
                if ix < self.crates.len() {
                    Some(&self.crates[ix])
                } else {
                    None
                }
            },
            None => None,
        }
    }

    /// Selects the record at `index`, or nothing, and returns the selected
    /// record.
    pub fn select_index(&mut self, index: Option<usize>) -> (r: Option<&Crate>)
        ensures
            final(self)@ == old(self)@.with_list_state(final(self).list_state),
            final(self).crates == old(self).crates,
            final(self).list_state.selected == index,
            final(self).list_state.offset == if index.is_none() {
                0
            } else {
                old(self).list_state.offset
            },
            final(self).total_count == old(self).total_count,
            final(self).current_page == old(self).current_page,
            final(self).per_page == old(self).per_page,
            match r {
                Some(c) => final(self)@.selected() == Some(c@) && final(self).spec_selected()
                    == Some(*c),
                None => final(self)@.selected().is_none() && final(self).spec_selected().is_none(),
            },
    {
        self.list_state.select(index);
        self.selected()
    }

    /// Selects the record after the selected one and returns the selected
    /// record.
    pub fn select_next(&mut self) -> (r: Option<&Crate>)
        ensures
            final(self)@ == old(self)@.with_list_state(final(self).list_state),
            final(self).crates == old(self).crates,
            final(self).list_state.selected == Some(next_index(old(self).list_state.selected)),
            final(self).list_state.offset == old(self).list_state.offset,
            final(self).total_count == old(self).total_count,
            final(self).current_page == old(self).current_page,
            final(self).per_page == old(self).per_page,
            match r {
                Some(c) => final(self)@.selected() == Some(c@) && final(self).spec_selected()
                    == Some(*c),
                None => final(self)@.selected().is_none() && final(self).spec_selected().is_none(),
            },
    {
        self.list_state.select_next();
        self.selected()
    }

    /// Selects the record before the selected one and returns the selected
    /// record.
    pub fn select_previous(&mut self) -> (r: Option<&Crate>)
        ensures
            final(self)@ == old(self)@.with_list_state(final(self).list_state),
            final(self).crates == old(self).crates,
            final(self).list_state.selected == Some(
                previous_index(old(self).list_state.selected),
            ),
            final(self).list_state.offset == old(self).list_state.offset,
            final(self).total_count == old(self).total_count,
            final(self).current_page == old(self).current_page,
            final(self).per_page == old(self).per_page,
            match r {
                Some(c) => final(self)@.selected() == Some(c@) && final(self).spec_selected()
                    == Some(*c),
                None => final(self)@.selected().is_none() && final(self).spec_selected().is_none(),
            },
    {
        self.list_state.select_previous();
        self.selected()
    }

    /// Selects the first record and returns the selected record.
    pub fn select_first(&mut self) -> (r: Option<&Crate>)
        ensures
            final(self)@ == old(self)@.with_list_state(final(self).list_state),
            final(self).crates == old(self).crates,
            final(self).list_state.selected == Some(0usize),
            final(self).list_state.offset == old(self).list_state.offset,
            final(self).total_count == old(self).total_count,
            final(self).current_page == old(self).current_page,
            final(self).per_page == old(self).per_page,
            match r {
                Some(c) => final(self)@.selected() == Some(c@) && final(self).spec_selected()
                    == Some(*c),
                None => final(self)@.selected().is_none() && final(self).spec_selected().is_none(),
            },
    {
        self.list_state.select_first();
        self.selected()
    }

    /// Selects the last record, whatever their number, and returns the
    /// selected record.
    pub fn select_last(&mut self) -> (r: Option<&Crate>)
        ensures
            final(self)@ == old(self)@.with_list_state(final(self).list_state),
            final(self).crates == old(self).crates,
            final(self).list_state.selected == Some(usize::MAX),
            final(self).list_state.offset == old(self).list_state.offset,
            final(self).total_count == old(self).total_count,
            final(self).current_page == old(self).current_page,
            final(self).per_page == old(self).per_page,
            match r {
                Some(c) => final(self)@.selected() == Some(c@) && final(self).spec_selected()
                    == Some(*c),
                None => final(self)@.selected().is_none() && final(self).spec_selected().is_none(),
            },
    {
        self.list_state.select_last();
        self.selected()
    }

    /// The position of the first record that matches the term exactly, if
    /// there is one.
    pub fn exact_match_index(&self) -> (r: Option<usize>)
        ensures
            self.is_exact_match_index(r),
    {
        let mut i: usize = 0;
        while i < self.crates.len()
            invariant
                i <= self.crates.len(),
                forall|j: int| 0 <= j < i ==> !(#[trigger] self.crates@[j]).exact_match,
            decreases self.crates.len() - i,
        {
            if self.crates[i].exact_match {
                return Some(i);
            }
            i += 1;
        }
        None
    }

    /// The page to ask for in order to go to `page`: `page` brought into
    /// the range of pages that exist, or `None` where that is the current
    /// page.
    pub fn go_to_page(&self, page: usize) -> (r: Option<usize>)
        requires
            self.wf(),
        ensures
            match r {
                Some(p) => self@.go_to_page(page as int) == Some(p as int),
                None => self@.go_to_page(page as int).is_none(),
            },
            r.is_some() ==> 1 <= r.unwrap() && r.unwrap() != self@.current_page && (r.unwrap()
                <= self@.page_count() || r.unwrap() == 1),
    {
        let page_count: usize = self.page_count();
        let target: usize = if page < 1 || page_count < 1 {
            1
        } else if page > page_count {
            page_count
        } else {
            page
        };
        if target == self.current_page {
            None
        } else {
            Some(target)
        }
    }

    /// The page to ask for in order to go `pages` pages back, or `None`
    /// where that is the current page.
    pub fn go_pages_back(&self, pages: usize) -> (r: Option<usize>)
        requires
            self.wf(),
        ensures
            match r {
                Some(p) => self@.go_to_page(self@.page_back(pages as int)) == Some(p as int),
                None => self@.go_to_page(self@.page_back(pages as int)).is_none(),
            },
            r.is_some() ==> 1 <= r.unwrap() && r.unwrap() != self@.current_page && (r.unwrap()
                <= self@.page_count() || r.unwrap() == 1),
    {
        let requested: usize = if pages >= self.current_page {
            1
        } else {
            self.current_page - pages
        };
        self.go_to_page(requested)
    }

    /// The page to ask for in order to go `pages` pages forward, or `None`
    /// where that is the current page.
    pub fn go_pages_forward(&self, pages: usize) -> (r: Option<usize>)
        requires
            self.wf(),
        ensures
            match r {
                Some(p) => self@.go_to_page(self@.page_forward(pages as int)) == Some(p as int),
                None => self@.go_to_page(self@.page_forward(pages as int)).is_none(),
            },
            r.is_some() ==> 1 <= r.unwrap() && r.unwrap() != self@.current_page && (r.unwrap()
                <= self@.page_count() || r.unwrap() == 1),
    {
        proof {
            lemma_pages_for_is_ceiling(self.total_count as int, self.per_page as int);
        }
        let requested: usize = if pages > usize::MAX - self.current_page {
            usize::MAX
        } else {
            self.current_page + pages
        };
        self.go_to_page(requested)
    }
}

} // verus!

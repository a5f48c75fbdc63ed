//! Case-insensitive substring search over item content, with circular
//! navigation through the match list.  Match indices are positions into
//! the document and go stale on mutation; mutating callers must clear
//! them.

use vstd::prelude::*;
use crate::models::{ListItem, content_of};
use crate::text::{contains_chars, is_substring_of, lower_of, lowercase, push_char};

verus! {

/// Whether an item's content contains the query, both sides lowered.
pub open spec fn matches_query(it: ListItem, q: Seq<char>) -> bool {
    is_substring_of(lower_of(q), lower_of(content_of(it)))
}

/// The indices of the matching items among the first `n`, in document
/// order.
pub open spec fn match_indices(items: Seq<ListItem>, q: Seq<char>, n: int) -> Seq<usize>
    decreases n,
{
    if n <= 0 {
        Seq::empty()
    } else {
        match_indices(items, q, n - 1) + (if matches_query(items[n - 1], q) {
            seq![(n - 1) as usize]
        } else {
            Seq::empty()
        })
    }
}

/// Every match index points at an item of the searched document.
pub proof fn lemma_match_indices_bounds(items: Seq<ListItem>, q: Seq<char>, n: int)
    requires
        n <= items.len(),
    ensures
        forall|k: int|
            0 <= k < match_indices(items, q, n).len() ==> (
            #[trigger] match_indices(items, q, n)[k] as int) < items.len(),
    decreases n,
{
    if n > 0 {
        lemma_match_indices_bounds(items, q, n - 1);
        let prev = match_indices(items, q, n - 1);
        let cur = match_indices(items, q, n);
        assert forall|k: int| 0 <= k < cur.len() implies (cur[k] as int) < items.len() by {
            if k < prev.len() {
                assert(cur[k] == prev[k]);
            } else {
                assert(cur[k] == (n - 1) as usize);
            }
        }
    }
}

/// The in-progress query, the matching positions, and the pointer into
/// them that `next`/`previous` cycle.
pub struct SearchState {
    pub search_mode: bool,
    pub search_query: String,
    pub search_matches: Vec<usize>,
    pub current_match_index: Option<usize>,
}

impl SearchState {
    /// The match pointer, when set, points into the match list.
    pub open spec fn wf(&self) -> bool {
        self.current_match_index is Some ==> (self.current_match_index->0 as int)
            < self.search_matches@.len()
    }

    pub fn new() -> (r: Self)
        ensures
            !r.search_mode,
            r.search_query@ =~= Seq::<char>::empty(),
            r.search_matches@ =~= Seq::<usize>::empty(),
            r.current_match_index is None,
            r.wf(),
    {
        Self {
            search_mode: false,
            search_query: String::new(),
            search_matches: Vec::new(),
            current_match_index: None,
        }
    }

    pub fn enter_search_mode(&mut self)
        ensures
            final(self).search_mode,
            final(self).search_query@ =~= Seq::<char>::empty(),
            final(self).search_matches@ =~= Seq::<usize>::empty(),
            final(self).current_match_index is None,
            final(self).wf(),
    {
        self.search_mode = true;
        self.search_query = String::new();
        self.search_matches = Vec::new();
        self.current_match_index = None;
    }

    pub fn cancel_search(&mut self)
        ensures
            !final(self).search_mode,
            final(self).search_query@ =~= Seq::<char>::empty(),
            final(self).search_matches@ =~= Seq::<usize>::empty(),
            final(self).current_match_index is None,
            final(self).wf(),
    {
        self.search_mode = false;
        self.search_query = String::new();
        self.search_matches = Vec::new();
        self.current_match_index = None;
    }

    /// Leave search mode keeping the matches; the first match becomes
    /// current and is returned, or nothing when there is none.
    pub fn confirm_search(&mut self) -> (r: Option<usize>)
        requires
            old(self).wf(),
        ensures
            !final(self).search_mode,
            final(self).search_query == old(self).search_query,
            final(self).search_matches == old(self).search_matches,
            old(self).search_matches@.len() > 0 ==> r == Some(old(self).search_matches@[0])
                && final(self).current_match_index == Some(0usize),
            old(self).search_matches@.len() == 0 ==> r is None && final(self).current_match_index
                == old(self).current_match_index,
            final(self).wf(),
    {
        self.search_mode = false;
        if self.search_matches.len() > 0 {
            self.current_match_index = Some(0);
            Some(self.search_matches[0])
        } else {
            None
        }
    }

    /// Append one character to the query and recompute the matches.
    pub fn insert_char(&mut self, c: char, items: &Vec<ListItem>)
        ensures
            final(self).search_query@ == old(self).search_query@.push(c),
            final(self).search_matches@ == match_indices(
                items@,
                old(self).search_query@.push(c),
                items@.len() as int,
            ),
            final(self).current_match_index is None,
            final(self).search_mode == old(self).search_mode,
            final(self).wf(),
    {
        push_char(&mut self.search_query, c);
        self.update_search_matches(items);
    }

    /// Drop the last character of the query and recompute the matches;
    /// a no-op on an empty query.
    pub fn backspace(&mut self, items: &Vec<ListItem>)
        ensures
            old(self).search_query@.len() == 0 ==> *final(self) == *old(self),
            old(self).search_query@.len() > 0 ==> {
                &&& final(self).search_query@ == old(self).search_query@.drop_last()
                &&& final(self).search_matches@ == (if old(self).search_query@.len() == 1 {
                    Seq::<usize>::empty()
                } else {
                    match_indices(
                        items@,
                        old(self).search_query@.drop_last(),
                        items@.len() as int,
                    )
                })
                &&& final(self).current_match_index is None
                &&& final(self).search_mode == old(self).search_mode
            },
            old(self).wf() ==> final(self).wf(),
    {
        let n = self.search_query.as_str().unicode_len();
        if n > 0 {
            let shorter = self.search_query.as_str().substring_char(0, n - 1).to_owned();
            proof {
                assert(shorter@ =~= self.search_query@.drop_last());
            }
            self.search_query = shorter;
            self.update_search_matches(items);
        }
    }

    /// Recompute the match list for the current query over the given
    /// document: every position whose lowered content contains the
    /// lowered query, in document order; an empty query matches
    /// nothing.  The match pointer is reset.
    pub fn update_search_matches(&mut self, items: &Vec<ListItem>)
        ensures
            final(self).search_matches@ == (if old(self).search_query@.len() == 0 {
                Seq::<usize>::empty()
            } else {
                match_indices(items@, old(self).search_query@, items@.len() as int)
            }),
            final(self).current_match_index is None,
            final(self).search_query == old(self).search_query,
            final(self).search_mode == old(self).search_mode,
            final(self).wf(),
    {
        self.search_matches = Vec::new();
        self.current_match_index = None;
        if self.search_query.as_str().is_empty() {
            return;
        }
        let query_lower = lowercase(self.search_query.as_str());
        let mut i: usize = 0;
        while i < items.len()
            invariant
                i <= items@.len(),
                query_lower@ == lower_of(self.search_query@),
                self.search_matches@ == match_indices(items@, self.search_query@, i as int),
                self.current_match_index is None,
                self.search_query == old(self).search_query,
                self.search_mode == old(self).search_mode,
            decreases items@.len() - i,
        {
            let content_lower = lowercase(items[i].content());
            if contains_chars(content_lower.as_str(), query_lower.as_str()) {
                self.search_matches.push(i);
                proof {
                    assert(self.search_matches@ =~= match_indices(
                        items@,
                        self.search_query@,
                        i + 1,
                    ));
                }
            } else {
                proof {
                    assert(self.search_matches@ =~= match_indices(
                        items@,
                        self.search_query@,
                        i + 1,
                    ));
                }
            }
            i = i + 1;
        }
    }

    /// Step to the next match, wrapping around; with no current match
    /// the first match becomes current.  Nothing when there are no
    /// matches.
    pub fn next_match(&mut self) -> (r: Option<usize>)
        requires
            old(self).wf(),
        ensures
            final(self).search_matches == old(self).search_matches,
            final(self).search_query == old(self).search_query,
            final(self).search_mode == old(self).search_mode,
            old(self).search_matches@.len() == 0 ==> r is None && *final(self) == *old(self),
            old(self).search_matches@.len() > 0 && old(self).current_match_index is Some ==> {
                let next = ((old(self).current_match_index->0 + 1) as int) % (
                old(self).search_matches@.len() as int);
                &&& final(self).current_match_index == Some(next as usize)
                &&& r == Some(old(self).search_matches@[next])
            },
            old(self).search_matches@.len() > 0 && old(self).current_match_index is None ==> {
                &&& final(self).current_match_index == Some(0usize)
                &&& r == Some(old(self).search_matches@[0])
            },
            final(self).wf(),
    {
        if self.search_matches.len() == 0 {
            return None;
        }
        match self.current_match_index {
            Some(current) => {
                let next = (current + 1) % self.search_matches.len();
                self.current_match_index = Some(next);
                Some(self.search_matches[next])
            },
            None => {
                self.current_match_index = Some(0);
                Some(self.search_matches[0])
            },
        }
    }

    /// Step to the previous match, wrapping around; with no current
    /// match the last match becomes current.  Nothing when there are no
    /// matches.
    pub fn previous_match(&mut self) -> (r: Option<usize>)
        requires
            old(self).wf(),
        ensures
            final(self).search_matches == old(self).search_matches,
            final(self).search_query == old(self).search_query,
            final(self).search_mode == old(self).search_mode,
            old(self).search_matches@.len() == 0 ==> r is None && *final(self) == *old(self),
            old(self).search_matches@.len() > 0 && old(self).current_match_index is Some ==> {
                let prev = if old(self).current_match_index->0 == 0 {
                    old(self).search_matches@.len() - 1
                } else {
                    old(self).current_match_index->0 - 1
                };
                &&& final(self).current_match_index == Some(prev as usize)
                &&& r == Some(old(self).search_matches@[prev as int])
            },
            old(self).search_matches@.len() > 0 && old(self).current_match_index is None ==> {
                &&& final(self).current_match_index == Some(
                    (old(self).search_matches@.len() - 1) as usize,
                )
                &&& r == Some(old(self).search_matches@.last())
            },
            final(self).wf(),
    {
        if self.search_matches.len() == 0 {
            return None;
        }
        match self.current_match_index {
            Some(current) => {
                let prev = if current == 0 {
                    self.search_matches.len() - 1
                } else {
                    current - 1
                };
                self.current_match_index = Some(prev);
                Some(self.search_matches[prev])
            },
            None => {
                let last = self.search_matches.len() - 1;
                self.current_match_index = Some(last);
                Some(self.search_matches[last])
            },
        }
    }

    /// Forget the match list; callers that mutate the document must
    /// invoke this, since match indices are position-based.
    pub fn clear_results(&mut self)
        ensures
            final(self).search_matches@ =~= Seq::<usize>::empty(),
            final(self).current_match_index is None,
            final(self).search_query == old(self).search_query,
            final(self).search_mode == old(self).search_mode,
            final(self).wf(),
    {
        self.search_matches = Vec::new();
        self.current_match_index = None;
    }
}

} // verus!

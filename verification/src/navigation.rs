//! Cursor and multi-selection state, and the block/structure queries
//! that derive subtree ranges and insertion points from indentation.

use vstd::prelude::*;
use std::collections::HashSet;
use crate::models::{ListItem, depth_of, is_heading};

verus! {

broadcast use vstd::std_specs::hash::group_hash_axioms;

/// How many rows the display window is assumed to show at once.
pub const VISIBLE_ITEMS: usize = 20;

/// The scroll offset that keeps `sel` inside the window of
/// `VISIBLE_ITEMS` rows starting at `scroll`.
pub open spec fn spec_scroll(sel: nat, scroll: nat) -> nat {
    if sel < scroll {
        sel
    } else if sel >= scroll + VISIBLE_ITEMS {
        (sel - (VISIBLE_ITEMS - 1)) as nat
    } else {
        scroll
    }
}

/// The focused position, the window offset, and the set of positions
/// marked for a bulk operation.
pub struct NavigationState {
    pub selected_index: usize,
    pub scroll_offset: usize,
    pub selected_items: HashSet<usize>,
}

impl NavigationState {
    pub fn new() -> (r: Self)
        ensures
            r.selected_index == 0,
            r.scroll_offset == 0,
            r.selected_items@ =~= Set::<usize>::empty(),
    {
        Self { selected_index: 0, scroll_offset: 0, selected_items: HashSet::new() }
    }

    /// Move the focus one row up; a no-op at the first row.
    pub fn move_selection_up(&mut self)
        ensures
            final(self).selected_index == if old(self).selected_index > 0 {
                (old(self).selected_index - 1) as usize
            } else {
                0usize
            },
            old(self).selected_index > 0 ==> final(self).scroll_offset as nat == spec_scroll(
                final(self).selected_index as nat,
                old(self).scroll_offset as nat,
            ),
            old(self).selected_index == 0 ==> final(self).scroll_offset == old(self).scroll_offset,
            final(self).selected_items@ == old(self).selected_items@,
    {
        if self.selected_index > 0 {
            self.selected_index = self.selected_index - 1;
            self.update_scroll();
        }
    }

    /// Move the focus one row down, staying short of `max_items`.
    pub fn move_selection_down(&mut self, max_items: usize)
        ensures
            final(self).selected_index == if old(self).selected_index + 1 < max_items {
                (old(self).selected_index + 1) as usize
            } else {
                old(self).selected_index
            },
            old(self).selected_index + 1 < max_items ==> final(self).scroll_offset as nat
                == spec_scroll(final(self).selected_index as nat, old(self).scroll_offset as nat),
            !(old(self).selected_index + 1 < max_items) ==> final(self).scroll_offset == old(
                self,
            ).scroll_offset,
            final(self).selected_items@ == old(self).selected_items@,
    {
        if self.selected_index < max_items.saturating_sub(1) {
            self.selected_index = self.selected_index + 1;
            self.update_scroll();
        }
    }

    /// Pull the window offset so the focused row stays visible.
    pub fn update_scroll(&mut self)
        ensures
            final(self).scroll_offset as nat == spec_scroll(
                old(self).selected_index as nat,
                old(self).scroll_offset as nat,
            ),
            final(self).selected_index == old(self).selected_index,
            final(self).selected_items@ == old(self).selected_items@,
    {
        if self.selected_index < self.scroll_offset {
            self.scroll_offset = self.selected_index;
        } else if self.selected_index - self.scroll_offset >= VISIBLE_ITEMS {
            self.scroll_offset = self.selected_index.saturating_sub(VISIBLE_ITEMS - 1);
        }
    }

    /// Add the focused row to the bulk selection, or remove it if it is
    /// already there; out-of-range rows are ignored.
    pub fn toggle_item_selection(&mut self, max_items: usize)
        ensures
            final(self).selected_items@ == if old(self).selected_index < max_items {
                if old(self).selected_items@.contains(old(self).selected_index) {
                    old(self).selected_items@.remove(old(self).selected_index)
                } else {
                    old(self).selected_items@.insert(old(self).selected_index)
                }
            } else {
                old(self).selected_items@
            },
            final(self).selected_index == old(self).selected_index,
            final(self).scroll_offset == old(self).scroll_offset,
    {
        if self.selected_index < max_items {
            if self.selected_items.contains(&self.selected_index) {
                self.selected_items.remove(&self.selected_index);
            } else {
                self.selected_items.insert(self.selected_index);
            }
        }
    }

    pub fn clear_selection(&mut self)
        ensures
            final(self).selected_items@ =~= Set::<usize>::empty(),
            final(self).selected_index == old(self).selected_index,
            final(self).scroll_offset == old(self).scroll_offset,
    {
        self.selected_items.clear();
    }

    pub fn has_selection(&self) -> (r: bool)
        ensures
            r == !self.selected_items@.is_empty(),
    {
        !self.selected_items.is_empty()
    }

    pub fn selection_count(&self) -> (r: usize)
        ensures
            r == self.selected_items@.len(),
    {
        self.selected_items.len()
    }

    pub fn is_item_selected(&self, index: usize) -> (r: bool)
        ensures
            r == self.selected_items@.contains(index),
    {
        self.selected_items.contains(&index)
    }
}

/// The block of the item at a position: scanning forward from `j`, the
/// last position whose item is a non-heading strictly deeper than
/// `base`; the scan stops at the first heading or at the first item no
/// deeper than `base`.
pub open spec fn block_end_from(s: Seq<ListItem>, base: nat, j: int) -> int
    recommends
        0 <= j <= s.len(),
    decreases s.len() - j,
{
    if j < 0 || j >= s.len() || is_heading(s[j]) || depth_of(s[j]) <= base {
        j - 1
    } else {
        block_end_from(s, base, j + 1)
    }
}

/// The inclusive end of the subtree rooted at `i`; `i` itself when the
/// position is out of range, when the root is a heading (a heading has
/// no subtree), or when no deeper run follows.
pub open spec fn spec_block_end(s: Seq<ListItem>, i: int) -> int {
    if 0 <= i < s.len() && !is_heading(s[i]) {
        block_end_from(s, depth_of(s[i]), i + 1)
    } else {
        i
    }
}

pub proof fn lemma_block_end_from_props(s: Seq<ListItem>, base: nat, j: int)
    requires
        0 <= j <= s.len(),
    ensures
        j - 1 <= block_end_from(s, base, j) < s.len(),
        forall|k: int|
            j <= k <= block_end_from(s, base, j) ==> !is_heading(#[trigger] s[k]) && depth_of(s[k])
                > base,
        block_end_from(s, base, j) + 1 < s.len() && block_end_from(s, base, j) + 1 > j - 1
            ==> is_heading(s[block_end_from(s, base, j) + 1]) || depth_of(
            s[block_end_from(s, base, j) + 1],
        ) <= base,
    decreases s.len() - j,
{
    if j < s.len() && !is_heading(s[j]) && depth_of(s[j]) > base {
        lemma_block_end_from_props(s, base, j + 1);
    }
}

/// A block starts at its own root and never crosses a heading: every
/// further position inside the range holds a non-heading item strictly
/// deeper than the root.
pub proof fn lemma_block_range_no_heading(s: Seq<ListItem>, i: int)
    requires
        0 <= i < s.len(),
    ensures
        i <= spec_block_end(s, i) < s.len(),
        forall|k: int|
            i < k <= spec_block_end(s, i) ==> !is_heading(#[trigger] s[k]) && depth_of(s[k])
                > depth_of(s[i]),
{
    if !is_heading(s[i]) {
        lemma_block_end_from_props(s, depth_of(s[i]), i + 1);
    }
}

/// The nearest insertion slot after a heading at or before `i`: one
/// past that heading, or the very top when no heading precedes `i`.
pub open spec fn spec_heading_context(s: Seq<ListItem>, i: int) -> int
    decreases i + 1,
{
    if i < 0 {
        0
    } else if i < s.len() && is_heading(s[i]) {
        i + 1
    } else {
        spec_heading_context(s, i - 1)
    }
}

/// Creation-side structure queries: subtree ranges and the slot and
/// depth a freshly inserted item should take.
pub struct ItemCreator;

impl ItemCreator {
    /// Scan backward from `selected_index` (inclusive) for the nearest
    /// heading; the answer is one past it, or zero when none is found.
    #[verifier::loop_isolation(true)]
    pub fn find_current_heading_context(items: &Vec<ListItem>, selected_index: usize) -> (r: usize)
        ensures
            r == spec_heading_context(items@, selected_index as int),
            r <= items@.len(),
            r <= selected_index + 1,
    {
        if items.len() == 0 {
            proof {
                lemma_heading_context_bounds(items@, selected_index as int);
            }
            return 0;
        }
        let mut i = selected_index;
        loop
            invariant
                0 <= i <= selected_index,
                spec_heading_context(items@, selected_index as int) == spec_heading_context(
                    items@,
                    i as int,
                ),
            ensures
                i < items@.len(),
                is_heading(items@[i as int]),
                spec_heading_context(items@, selected_index as int) == i + 1,
            decreases i,
        {
            if i < items.len() && items[i].is_heading_item() {
                break;
            }
            if i == 0 {
                proof {
                    assert(spec_heading_context(items@, 0) == spec_heading_context(items@, -1));
                    assert(spec_heading_context(items@, -1) == 0);
                }
                return 0;
            }
            i = i - 1;
        }
        i + 1
    }

    /// The inclusive index range of the subtree rooted at
    /// `start_index`; a heading root and out-of-range positions yield
    /// the empty range `(start_index, start_index)`.
    #[verifier::loop_isolation(true)]
    pub fn get_block_range(items: &Vec<ListItem>, start_index: usize) -> (r: (usize, usize))
        ensures
            r.0 == start_index,
            r.1 == spec_block_end(items@, start_index as int),
            start_index < items@.len() ==> start_index <= r.1 < items@.len(),
            start_index < items@.len() && is_heading(items@[start_index as int]) ==> r.1
                == start_index,
            start_index >= items@.len() ==> r.1 == start_index,
    {
        let n = items.len();
        if start_index >= n {
            return (start_index, start_index);
        }
        if items[start_index].is_heading_item() {
            return (start_index, start_index);
        }
        let base = items[start_index].depth();
        proof {
            lemma_block_end_from_props(items@, base as nat, start_index + 1);
        }
        let mut end = start_index;
        let mut j = start_index + 1;
        while j < n
            invariant_except_break
                start_index < j <= n,
                n == items@.len(),
                base as nat == depth_of(items@[start_index as int]),
                end == j - 1,
                block_end_from(items@, base as nat, start_index as int + 1) == block_end_from(
                    items@,
                    base as nat,
                    j as int,
                ),
            ensures
                end == block_end_from(items@, base as nat, start_index as int + 1),
            decreases n - j,
        {
            if items[j].is_heading_item() || items[j].depth() <= base {
                proof {
                    assert(block_end_from(items@, base as nat, j as int) == j - 1);
                }
                break;
            }
            end = j;
            j = j + 1;
        }
        (start_index, end)
    }

    pub fn create_new_todo(content: String, completed: bool, indent_level: usize) -> (r: ListItem)
        ensures
            r == (ListItem::Todo { content, completed, indent_level, line_number: 0usize }),
    {
        ListItem::new_todo(content, completed, indent_level, 0)
    }

    pub fn create_new_note(content: String, indent_level: usize) -> (r: ListItem)
        ensures
            r == (ListItem::Note { content, indent_level, line_number: 0usize }),
    {
        ListItem::new_note(content, indent_level, 0)
    }

    /// Where a fresh item belongs relative to the focused one, and at
    /// what depth: as the last child when the focused item has a
    /// subtree, as a sibling otherwise, and at depth zero after a
    /// heading or past the end of the document.
    pub fn determine_insert_position_for_new_todo(
        items: &Vec<ListItem>,
        selected_index: usize,
    ) -> (r: (usize, usize))
        ensures
            r == spec_insert_position(items@, selected_index as int),
            r.0 <= items@.len(),
    {
        if items.len() == 0 {
            return (0, 0);
        }
        if selected_index >= items.len() {
            return (items.len(), 0);
        }
        let current = &items[selected_index];
        match current {
            ListItem::Todo { indent_level, .. } | ListItem::Note { indent_level, .. } => {
                let current_indent = *indent_level;
                let (_, block_end) = Self::get_block_range(items, selected_index);
                if block_end > selected_index {
                    let child_indent = if current_indent < usize::MAX {
                        current_indent + 1
                    } else {
                        current_indent
                    };
                    (block_end + 1, child_indent)
                } else {
                    (selected_index + 1, current_indent)
                }
            },
            ListItem::Heading { .. } => (selected_index + 1, 0),
        }
    }

    /// The slot a fresh item takes when inserted "at the top": just
    /// below the nearest heading above the focus, or the very top.
    pub fn determine_insert_position_for_new_todo_at_top(
        items: &Vec<ListItem>,
        selected_index: usize,
    ) -> (r: usize)
        ensures
            r == spec_heading_context(items@, selected_index as int),
            r <= items@.len(),
    {
        Self::find_current_heading_context(items, selected_index)
    }
}

/// What a session exposes of its navigation: the state itself and how
/// many items there are to navigate.
pub trait Navigable {
    fn get_navigation_state(&self) -> &NavigationState;

    fn get_navigation_state_mut(&mut self) -> &mut NavigationState;

    fn get_item_count(&self) -> usize;
}

/// A depth one past `d`, capped at the machine maximum.
pub open spec fn depth_plus_one(d: nat) -> nat {
    if d < usize::MAX {
        d + 1
    } else {
        d
    }
}

/// The insertion slot and depth for a fresh item under the focused
/// position: past the focused item's subtree and one level deeper when
/// the subtree is non-empty, directly below it at the same depth when
/// it is empty, and at depth zero below a heading; positions past the
/// end append at depth zero.
pub open spec fn spec_insert_position(s: Seq<ListItem>, i: int) -> (usize, usize) {
    if s.len() == 0 {
        (0usize, 0usize)
    } else if i >= s.len() || i < 0 {
        (s.len() as usize, 0usize)
    } else if is_heading(s[i]) {
        ((i + 1) as usize, 0usize)
    } else if spec_block_end(s, i) > i {
        ((spec_block_end(s, i) + 1) as usize, depth_plus_one(depth_of(s[i])) as usize)
    } else {
        ((i + 1) as usize, depth_of(s[i]) as usize)
    }
}

proof fn lemma_heading_context_bounds(s: Seq<ListItem>, i: int)
    ensures
        0 <= spec_heading_context(s, i) <= s.len(),
        i >= -1 ==> spec_heading_context(s, i) <= i + 1,
    decreases i + 1,
{
    if i >= 0 && !(i < s.len() && is_heading(s[i])) {
        lemma_heading_context_bounds(s, i - 1);
    }
}

} // verus!

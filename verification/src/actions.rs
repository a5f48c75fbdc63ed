//! Structural mutations over the ordered item sequence: completion
//! toggling, single-slot reordering, block indentation, bulk
//! relocation and deletion.

use vstd::prelude::*;
use vstd::pervasive::VecAdditionalExecFns;
use std::collections::HashSet;
use crate::models::ListItem;
use crate::models::{depth_of, is_heading};
use crate::navigation::{
    ItemCreator, block_end_from, lemma_block_end_from_props, lemma_block_range_no_heading,
    spec_block_end,
};

verus! {

broadcast use vstd::std_specs::hash::group_hash_axioms;

/// The item one indentation level deeper; headings are untouched and a
/// depth at the machine maximum stays there.
pub open spec fn indent_item(it: ListItem) -> ListItem {
    match it {
        ListItem::Todo { content, completed, indent_level, line_number } => ListItem::Todo {
            content,
            completed,
            indent_level: (if indent_level < usize::MAX {
                indent_level + 1
            } else {
                indent_level as int
            }) as usize,
            line_number,
        },
        ListItem::Note { content, indent_level, line_number } => ListItem::Note {
            content,
            indent_level: (if indent_level < usize::MAX {
                indent_level + 1
            } else {
                indent_level as int
            }) as usize,
            line_number,
        },
        ListItem::Heading { .. } => it,
    }
}

/// The item one indentation level shallower, floored at depth zero;
/// headings are untouched.
pub open spec fn outdent_item(it: ListItem) -> ListItem {
    match it {
        ListItem::Todo { content, completed, indent_level, line_number } => ListItem::Todo {
            content,
            completed,
            indent_level: (if indent_level > 0 {
                indent_level - 1
            } else {
                0int
            }) as usize,
            line_number,
        },
        ListItem::Note { content, indent_level, line_number } => ListItem::Note {
            content,
            indent_level: (if indent_level > 0 {
                indent_level - 1
            } else {
                0int
            }) as usize,
            line_number,
        },
        ListItem::Heading { .. } => it,
    }
}

/// The same task with its completion flag flipped.
pub open spec fn toggle_item(it: ListItem) -> ListItem {
    match it {
        ListItem::Todo { content, completed, indent_level, line_number } => ListItem::Todo {
            content,
            completed: !completed,
            indent_level,
            line_number,
        },
        _ => it,
    }
}

/// The whole document after indenting the block rooted at `i`: every
/// position inside the block one level deeper, everything else as it
/// was.
pub open spec fn indent_transform(s: Seq<ListItem>, i: int) -> Seq<ListItem> {
    Seq::new(
        s.len(),
        |k: int|
            if i <= k <= spec_block_end(s, i) {
                indent_item(s[k])
            } else {
                s[k]
            },
    )
}

/// The whole document after unindenting the block rooted at `i`.
pub open spec fn outdent_transform(s: Seq<ListItem>, i: int) -> Seq<ListItem> {
    Seq::new(
        s.len(),
        |k: int|
            if i <= k <= spec_block_end(s, i) {
                outdent_item(s[k])
            } else {
                s[k]
            },
    )
}

/// The deepest depth the block rooted at `i` may sit at: one past the
/// depth of the item just above it, or one when that item is a heading;
/// the first item of the document has ceiling zero and can never nest.
pub open spec fn indent_ceiling(s: Seq<ListItem>, i: int) -> int {
    if i <= 0 {
        0
    } else if is_heading(s[i - 1]) {
        1
    } else {
        depth_of(s[i - 1]) as int + 1
    }
}

/// When `indent_block` succeeds: the root exists, is not a heading, and
/// sits strictly above its ceiling.
pub open spec fn can_indent(s: Seq<ListItem>, i: int) -> bool {
    &&& 0 <= i < s.len()
    &&& !is_heading(s[i])
    &&& depth_of(s[i]) < indent_ceiling(s, i)
}

/// When `unindent_block` succeeds: the root exists, is not a heading,
/// and has a depth to give up.
pub open spec fn can_unindent(s: Seq<ListItem>, i: int) -> bool {
    &&& 0 <= i < s.len()
    &&& !is_heading(s[i])
    &&& depth_of(s[i]) > 0
}

/// The selected items of the first `n` positions, in document order.
pub open spec fn picked_items(s: Seq<ListItem>, sel: Set<usize>, n: int) -> Seq<ListItem>
    decreases n,
{
    if n <= 0 {
        Seq::empty()
    } else {
        picked_items(s, sel, n - 1) + (if sel.contains((n - 1) as usize) {
            seq![s[n - 1]]
        } else {
            Seq::empty()
        })
    }
}

/// The unselected items of the first `n` positions, in document order.
pub open spec fn kept_items(s: Seq<ListItem>, sel: Set<usize>, n: int) -> Seq<ListItem>
    decreases n,
{
    if n <= 0 {
        Seq::empty()
    } else {
        kept_items(s, sel, n - 1) + (if sel.contains((n - 1) as usize) {
            Seq::empty()
        } else {
            seq![s[n - 1]]
        })
    }
}

/// How many of the positions below `n` are selected.
pub open spec fn count_selected(sel: Set<usize>, n: int) -> nat
    decreases n,
{
    if n <= 0 {
        0
    } else {
        count_selected(sel, n - 1) + (if sel.contains((n - 1) as usize) {
            1nat
        } else {
            0nat
        })
    }
}

/// The items surviving a bulk delete of the first `n` positions:
/// headings always stay, and so does anything unselected.
pub open spec fn surviving_items(s: Seq<ListItem>, sel: Set<usize>, n: int) -> Seq<ListItem>
    decreases n,
{
    if n <= 0 {
        Seq::empty()
    } else {
        surviving_items(s, sel, n - 1) + (if sel.contains((n - 1) as usize) && !is_heading(
            s[n - 1],
        ) {
            Seq::empty()
        } else {
            seq![s[n - 1]]
        })
    }
}

/// How many of the first `n` positions a bulk delete removes: selected
/// tasks and notes, never headings.
pub open spec fn bulk_deleted_count(s: Seq<ListItem>, sel: Set<usize>, n: int) -> nat
    decreases n,
{
    if n <= 0 {
        0
    } else {
        bulk_deleted_count(s, sel, n - 1) + (if sel.contains((n - 1) as usize) && !is_heading(
            s[n - 1],
        ) {
            1nat
        } else {
            0nat
        })
    }
}

pub proof fn lemma_count_selected_bounds(sel: Set<usize>, a: int, b: int)
    requires
        a <= b,
    ensures
        count_selected(sel, a) <= count_selected(sel, b),
        count_selected(sel, b) - count_selected(sel, a) <= b - a,
    decreases b - a,
{
    if a < b {
        lemma_count_selected_bounds(sel, a, b - 1);
    }
}

/// Whether `indent_block` would succeed at this position, without
/// mutating anything.
pub fn indent_allowed(items: &Vec<ListItem>, index: usize) -> (r: bool)
    ensures
        r == can_indent(items@, index as int),
{
    if index == 0 || index >= items.len() || items[index].is_heading_item() {
        return false;
    }
    let d = items[index].depth();
    if items[index - 1].is_heading_item() {
        d == 0
    } else {
        d <= items[index - 1].depth()
    }
}

/// Whether `unindent_block` would succeed at this position, without
/// mutating anything.
pub fn unindent_allowed(items: &Vec<ListItem>, index: usize) -> (r: bool)
    ensures
        r == can_unindent(items@, index as int),
{
    index < items.len() && !items[index].is_heading_item() && items[index].depth() > 0
}

/// A selected position below `n` makes the count below `n` positive.
pub proof fn lemma_count_selected_positive(sel: Set<usize>, e: usize, n: int)
    requires
        sel.contains(e),
        (e as int) < n,
    ensures
        count_selected(sel, n) > 0,
    decreases n,
{
    if (e as int) < n - 1 {
        lemma_count_selected_positive(sel, e, n - 1);
    }
}

pub proof fn lemma_partition_lengths(s: Seq<ListItem>, sel: Set<usize>, n: int)
    requires
        0 <= n,
    ensures
        picked_items(s, sel, n).len() == count_selected(sel, n),
        kept_items(s, sel, n).len() == n - count_selected(sel, n),
    decreases n,
{
    if n > 0 {
        lemma_partition_lengths(s, sel, n - 1);
        lemma_count_selected_bounds(sel, n - 1, n);
    }
}

/// The structural mutation operations.  Every operation is index-based
/// over the flat sequence, treats out-of-range positions as a no-op,
/// and leaves headings in place.
pub struct ItemActions;

impl ItemActions {
    /// Flip the completion flag of the task at `index`; fails without
    /// mutating on notes, headings and out-of-range positions.
    pub fn toggle_todo_completion(items: &mut Vec<ListItem>, index: usize) -> (r: bool)
        ensures
            r == (index < old(items)@.len() && old(items)@[index as int] is Todo),
            r ==> final(items)@ == old(items)@.update(
                index as int,
                toggle_item(old(items)@[index as int]),
            ),
            !r ==> final(items)@ == old(items)@,
    {
        if index < items.len() {
            match &items[index] {
                ListItem::Todo { content, completed, indent_level, line_number } => {
                    let flipped = ListItem::Todo {
                        content: content.clone(),
                        completed: !*completed,
                        indent_level: *indent_level,
                        line_number: *line_number,
                    };
                    items.set(index, flipped);
                    true
                },
                _ => false,
            }
        } else {
            false
        }
    }

    /// Swap the one item at `index` with its upper neighbour; the
    /// neighbour's subtree is deliberately not carried along.  Fails at
    /// the first position and out of range.
    pub fn move_single_item_up(items: &mut Vec<ListItem>, index: usize) -> (r: Option<usize>)
        ensures
            r is Some <==> 0 < index < old(items)@.len(),
            r is Some ==> r->0 == index - 1 && final(items)@ == old(items)@.update(
                index - 1,
                old(items)@[index as int],
            ).update(index as int, old(items)@[index - 1]),
            r is None ==> final(items)@ == old(items)@,
    {
        if index > 0 && index < items.len() {
            let it = items.remove(index);
            items.insert(index - 1, it);
            proof {
                assert(final(items)@ =~= old(items)@.update(
                    index - 1,
                    old(items)@[index as int],
                ).update(index as int, old(items)@[index - 1]));
            }
            Some(index - 1)
        } else {
            None
        }
    }

    /// Swap the one item at `index` with its lower neighbour; fails at
    /// the last position and out of range.
    pub fn move_single_item_down(items: &mut Vec<ListItem>, index: usize) -> (r: Option<usize>)
        ensures
            r is Some <==> index + 1 < old(items)@.len(),
            r is Some ==> r->0 == index + 1 && final(items)@ == old(items)@.update(
                index as int,
                old(items)@[index + 1],
            ).update(index + 1, old(items)@[index as int]),
            r is None ==> final(items)@ == old(items)@,
    {
        if index < items.len().saturating_sub(1) {
            let it = items.remove(index);
            items.insert(index + 1, it);
            proof {
                assert(final(items)@ =~= old(items)@.update(
                    index as int,
                    old(items)@[index + 1],
                ).update(index + 1, old(items)@[index as int]));
            }
            Some(index + 1)
        } else {
            None
        }
    }

    /// Indent the whole subtree rooted at `start_index` one level
    /// deeper.  Fails without mutating when the root is a heading, is
    /// the first item, or already sits at its ceiling.
    pub fn indent_block(items: &mut Vec<ListItem>, start_index: usize) -> (r: bool)
        ensures
            r == can_indent(old(items)@, start_index as int),
            r ==> final(items)@ == indent_transform(old(items)@, start_index as int),
            !r ==> final(items)@ == old(items)@,
    {
        if start_index >= items.len() {
            return false;
        }
        let (block_start, block_end) = ItemCreator::get_block_range(items, start_index);
        if items[block_start].is_heading_item() {
            return false;
        }
        let parent_indent = items[block_start].depth();
        let allowed = if block_start > 0 {
            if items[block_start - 1].is_heading_item() {
                parent_indent == 0
            } else {
                parent_indent <= items[block_start - 1].depth()
            }
        } else {
            false
        };
        if !allowed {
            return false;
        }
        let mut k = block_start;
        while k <= block_end
            invariant
                block_start <= k <= block_end + 1,
                block_end < items@.len(),
                items@.len() == old(items)@.len(),
                forall|j: int|
                    0 <= j < items@.len() ==> items@[j] == (if block_start <= j < k {
                        indent_item(old(items)@[j])
                    } else {
                        old(items)@[j]
                    }),
            decreases block_end + 1 - k,
        {
            let bumped = indent_item_exec(&items[k]);
            items.set(k, bumped);
            k = k + 1;
        }
        proof {
            assert(items@ =~= indent_transform(old(items)@, start_index as int));
        }
        true
    }

    /// Unindent the whole subtree rooted at `start_index` one level,
    /// flooring every depth at zero.  Fails without mutating when the
    /// root is a heading or already at depth zero.
    pub fn unindent_block(items: &mut Vec<ListItem>, start_index: usize) -> (r: bool)
        ensures
            r == can_unindent(old(items)@, start_index as int),
            r ==> final(items)@ == outdent_transform(old(items)@, start_index as int),
            !r ==> final(items)@ == old(items)@,
    {
        if start_index >= items.len() {
            return false;
        }
        let (block_start, block_end) = ItemCreator::get_block_range(items, start_index);
        if items[block_start].is_heading_item() {
            return false;
        }
        if items[block_start].depth() == 0 {
            return false;
        }
        let mut k = block_start;
        while k <= block_end
            invariant
                block_start <= k <= block_end + 1,
                block_end < items@.len(),
                items@.len() == old(items)@.len(),
                forall|j: int|
                    0 <= j < items@.len() ==> items@[j] == (if block_start <= j < k {
                        outdent_item(old(items)@[j])
                    } else {
                        old(items)@[j]
                    }),
            decreases block_end + 1 - k,
        {
            let dropped = outdent_item_exec(&items[k]);
            items.set(k, dropped);
            k = k + 1;
        }
        proof {
            assert(items@ =~= outdent_transform(old(items)@, start_index as int));
        }
        true
    }

    /// Pull the selected items out of the sequence and reinsert them as
    /// one run just below `target_position`, keeping their document
    /// order and the order of everything else.  Returns the index where
    /// the run begins, or nothing when the selection is empty or the
    /// target is out of range.
    #[verifier::rlimit(50)]
    pub fn move_selected_items_to_position(
        items: &mut Vec<ListItem>,
        selected_indices: &HashSet<usize>,
        target_position: usize,
    ) -> (r: Option<usize>)
        ensures
            r is Some <==> !selected_indices@.is_empty() && target_position < old(items)@.len(),
            r is None ==> final(items)@ == old(items)@,
            r is Some ==> {
                let s = old(items)@;
                let sel = selected_indices@;
                let n = s.len() as int;
                let p = target_position + 1 - count_selected(sel, target_position + 1);
                &&& r->0 == p
                &&& final(items)@ == kept_items(s, sel, n).take(p as int) + picked_items(
                    s,
                    sel,
                    n,
                ) + kept_items(s, sel, n).skip(p as int)
                &&& final(items)@.len() == old(items)@.len()
                &&& count_selected(sel, n) > 0 ==> r->0 < old(items)@.len()
            },
    {
        if selected_indices.is_empty() {
            return None;
        }
        let n = items.len();
        if target_position >= n {
            return None;
        }
        let ghost s = items@;
        let ghost sel = selected_indices@;

        // How many selected positions sit at or before the target: the
        // insertion point shifts left by one for each of them.
        let mut cnt: usize = 0;
        let mut i: usize = 0;
        while i <= target_position
            invariant
                i <= target_position + 1 <= n,
                cnt == count_selected(sel, i as int),
                cnt <= i,
                sel == selected_indices@,
            decreases target_position + 1 - i,
        {
            if selected_indices.contains(&i) {
                cnt = cnt + 1;
            }
            i = i + 1;
        }
        let p = target_position + 1 - cnt;

        // Partition the document into the selected run and the rest,
        // both in document order.
        let mut moved: Vec<ListItem> = Vec::new();
        let mut rest: Vec<ListItem> = Vec::new();
        let mut idx: usize = 0;
        while items.len() > 0
            invariant
                idx + items@.len() == n,
                n == s.len(),
                items@ =~= s.skip(idx as int),
                moved@ == picked_items(s, sel, idx as int),
                rest@ == kept_items(s, sel, idx as int),
                moved@.len() == count_selected(sel, idx as int),
                sel == selected_indices@,
            decreases items@.len(),
        {
            let it = items.remove(0);
            proof {
                assert(s.skip(idx as int).remove(0) =~= s.skip(idx + 1));
                assert(it == s[idx as int]);
            }
            if selected_indices.contains(&idx) {
                moved.push(it);
                proof {
                    assert(moved@ =~= picked_items(s, sel, idx + 1));
                }
            } else {
                rest.push(it);
                proof {
                    assert(rest@ =~= kept_items(s, sel, idx + 1));
                }
            }
            idx = idx + 1;
        }
        proof {
            lemma_partition_lengths(s, sel, n as int);
            lemma_count_selected_bounds(sel, target_position + 1, n as int);
        }

        // Reassemble: the unselected prefix, the moved run, the rest.
        let ghost all_kept = rest@;
        let ghost all_moved = moved@;
        let mut k: usize = 0;
        while k < p
            invariant
                k <= p,
                p <= all_kept.len(),
                rest@ =~= all_kept.skip(k as int),
                items@ =~= all_kept.take(k as int),
            decreases p - k,
        {
            let it = rest.remove(0);
            proof {
                assert(all_kept.skip(k as int).remove(0) =~= all_kept.skip(k + 1));
                assert(it == all_kept[k as int]);
                assert(all_kept.take(k as int).push(all_kept[k as int]) =~= all_kept.take(k + 1));
            }
            items.push(it);
            k = k + 1;
        }
        let mut m: usize = 0;
        while moved.len() > 0
            invariant
                m + moved@.len() == all_moved.len(),
                moved@ =~= all_moved.skip(m as int),
                items@ =~= all_kept.take(p as int) + all_moved.take(m as int),
            decreases moved@.len(),
        {
            let it = moved.remove(0);
            proof {
                assert(all_moved.skip(m as int).remove(0) =~= all_moved.skip(m + 1));
                assert(it == all_moved[m as int]);
                assert((all_kept.take(p as int) + all_moved.take(m as int)).push(
                    all_moved[m as int],
                ) =~= all_kept.take(p as int) + all_moved.take(m + 1));
            }
            items.push(it);
            m = m + 1;
        }
        let ghost placed = items@;
        let mut q: usize = 0;
        while rest.len() > 0
            invariant
                p + q <= all_kept.len(),
                rest@ =~= all_kept.skip(p + q),
                items@ =~= placed + all_kept.subrange(p as int, p + q),
                placed =~= all_kept.take(p as int) + all_moved,
            decreases rest@.len(),
        {
            let it = rest.remove(0);
            proof {
                assert(all_kept.skip(p + q).remove(0) =~= all_kept.skip(p + q + 1));
                assert(it == all_kept[p + q]);
                assert((placed + all_kept.subrange(p as int, p + q)).push(all_kept[p + q])
                    =~= placed + all_kept.subrange(p as int, p + q + 1));
            }
            items.push(it);
            q = q + 1;
        }
        proof {
            assert(all_kept.subrange(p as int, all_kept.len() as int) =~= all_kept.skip(p as int));
            assert(items@ =~= kept_items(s, sel, n as int).take(p as int) + picked_items(
                s,
                sel,
                n as int,
            ) + kept_items(s, sel, n as int).skip(p as int));
        }
        Some(p)
    }

    /// Remove the task or note at `index`; headings and out-of-range
    /// positions are left alone.
    pub fn delete_item(items: &mut Vec<ListItem>, index: usize) -> (r: bool)
        ensures
            r == (index < old(items)@.len() && !is_heading(old(items)@[index as int])),
            r ==> final(items)@ == old(items)@.remove(index as int),
            !r ==> final(items)@ == old(items)@,
    {
        if index < items.len() {
            if items[index].is_heading_item() {
                false
            } else {
                items.remove(index);
                true
            }
        } else {
            false
        }
    }

    /// Remove every selected task and note, skipping headings silently;
    /// the count of removed items is returned.
    pub fn delete_selected_items(
        items: &mut Vec<ListItem>,
        selected_indices: &HashSet<usize>,
    ) -> (r: usize)
        ensures
            final(items)@ == surviving_items(old(items)@, selected_indices@, old(items)@.len() as int),
            r == bulk_deleted_count(old(items)@, selected_indices@, old(items)@.len() as int),
    {
        let ghost s = items@;
        let ghost sel = selected_indices@;
        let total = items.len();
        let ghost n = items@.len();
        let mut out: Vec<ListItem> = Vec::new();
        let mut removed: usize = 0;
        let mut idx: usize = 0;
        while items.len() > 0
            invariant
                idx + items@.len() == n,
                n == s.len(),
                n == total,
                items@ =~= s.skip(idx as int),
                out@ == surviving_items(s, sel, idx as int),
                out@.len() <= idx,
                removed == bulk_deleted_count(s, sel, idx as int),
                removed <= idx,
                sel == selected_indices@,
            decreases items@.len(),
        {
            let it = items.remove(0);
            proof {
                assert(s.skip(idx as int).remove(0) =~= s.skip(idx + 1));
                assert(it == s[idx as int]);
            }
            if selected_indices.contains(&idx) && !it.is_heading_item() {
                removed = removed + 1;
                proof {
                    assert(out@ =~= surviving_items(s, sel, idx + 1));
                }
            } else {
                out.push(it);
                proof {
                    assert(out@ =~= surviving_items(s, sel, idx + 1));
                }
            }
            idx = idx + 1;
        }
        let mut j: usize = 0;
        let ghost survivors = out@;
        while out.len() > 0
            invariant
                j + out@.len() == survivors.len(),
                survivors.len() <= total,
                out@ =~= survivors.skip(j as int),
                items@ =~= survivors.take(j as int),
            decreases out@.len(),
        {
            let it = out.remove(0);
            proof {
                assert(survivors.skip(j as int).remove(0) =~= survivors.skip(j + 1));
                assert(it == survivors[j as int]);
                assert(survivors.take(j as int).push(survivors[j as int]) =~= survivors.take(
                    j + 1,
                ));
            }
            items.push(it);
            j = j + 1;
        }
        proof {
            assert(items@ =~= survivors);
        }
        removed
    }
}

/// Exec mirror of `indent_item`.
fn indent_item_exec(it: &ListItem) -> (r: ListItem)
    ensures
        r == indent_item(*it),
{
    match it {
        ListItem::Todo { content, completed, indent_level, line_number } => ListItem::Todo {
            content: content.clone(),
            completed: *completed,
            indent_level: if *indent_level < usize::MAX {
                *indent_level + 1
            } else {
                *indent_level
            },
            line_number: *line_number,
        },
        ListItem::Note { content, indent_level, line_number } => ListItem::Note {
            content: content.clone(),
            indent_level: if *indent_level < usize::MAX {
                *indent_level + 1
            } else {
                *indent_level
            },
            line_number: *line_number,
        },
        ListItem::Heading { content, level, line_number } => ListItem::Heading {
            content: content.clone(),
            level: *level,
            line_number: *line_number,
        },
    }
}

/// Exec mirror of `outdent_item`.
fn outdent_item_exec(it: &ListItem) -> (r: ListItem)
    ensures
        r == outdent_item(*it),
{
    match it {
        ListItem::Todo { content, completed, indent_level, line_number } => ListItem::Todo {
            content: content.clone(),
            completed: *completed,
            indent_level: if *indent_level > 0 {
                *indent_level - 1
            } else {
                0
            },
            line_number: *line_number,
        },
        ListItem::Note { content, indent_level, line_number } => ListItem::Note {
            content: content.clone(),
            indent_level: if *indent_level > 0 {
                *indent_level - 1
            } else {
                0
            },
            line_number: *line_number,
        },
        ListItem::Heading { content, level, line_number } => ListItem::Heading {
            content: content.clone(),
            level: *level,
            line_number: *line_number,
        },
    }
}

/// How many headings a document holds.
pub open spec fn count_headings(s: Seq<ListItem>) -> nat
    decreases s.len(),
{
    if s.len() == 0 {
        0
    } else {
        count_headings(s.drop_last()) + (if is_heading(s.last()) {
            1nat
        } else {
            0nat
        })
    }
}

proof fn lemma_indent_block_end_stable(s: Seq<ListItem>, i: int, j: int)
    requires
        can_indent(s, i),
        forall|k: int| i <= k <= spec_block_end(s, i) ==> depth_of(#[trigger] s[k]) < usize::MAX,
        i + 1 <= j <= spec_block_end(s, i) + 1,
    ensures
        block_end_from(indent_transform(s, i), depth_of(s[i]) + 1, j) == block_end_from(
            s,
            depth_of(s[i]),
            j,
        ),
    decreases s.len() - j,
{
    let t = indent_transform(s, i);
    let d = depth_of(s[i]);
    let e = spec_block_end(s, i);
    lemma_block_range_no_heading(s, i);
    lemma_block_end_from_props(s, d, i + 1);
    if j == e + 1 {
        if j < s.len() {
            assert(t[j] == s[j]);
            assert(is_heading(s[j]) || depth_of(s[j]) <= d);
        }
    } else {
        assert(!is_heading(s[j]) && depth_of(s[j]) > d);
        assert(t[j] == indent_item(s[j]));
        assert(depth_of(t[j]) == depth_of(s[j]) + 1);
        lemma_indent_block_end_stable(s, i, j + 1);
    }
}

/// Indenting a block and then unindenting at the same root restores
/// every item exactly, depths included.  The depth bound keeps the
/// indent step away from the machine maximum, where a depth could not
/// grow in the first place.
pub proof fn lemma_indent_then_unindent(s: Seq<ListItem>, i: int)
    requires
        can_indent(s, i),
        forall|k: int| i <= k <= spec_block_end(s, i) ==> depth_of(#[trigger] s[k]) < usize::MAX,
    ensures
        can_unindent(indent_transform(s, i), i),
        outdent_transform(indent_transform(s, i), i) == s,
{
    let t = indent_transform(s, i);
    let d = depth_of(s[i]);
    let e = spec_block_end(s, i);
    lemma_block_range_no_heading(s, i);
    assert(t[i] == indent_item(s[i]));
    assert(depth_of(t[i]) == d + 1);
    assert(can_unindent(t, i));
    lemma_indent_block_end_stable(s, i, i + 1);
    assert(spec_block_end(t, i) == e);
    assert forall|k: int| 0 <= k < s.len() implies outdent_transform(t, i)[k] == s[k] by {
        if i <= k <= e {
            assert(t[k] == indent_item(s[k]));
            assert(!is_heading(s[k]));
            assert(outdent_item(indent_item(s[k])) == s[k]);
        } else {
            assert(t[k] == s[k]);
        }
    }
    assert(outdent_transform(t, i) =~= s);
}

/// Moving an item one slot up and then moving the item now at the
/// upper slot one slot down restores the original order: the two
/// single-slot swaps are inverses away from the extremities.
pub proof fn lemma_move_up_then_down(s: Seq<ListItem>, i: int)
    requires
        0 < i < s.len(),
    ensures
        ({
            let up = s.update(i - 1, s[i]).update(i, s[i - 1]);
            up.update(i - 1, up[i]).update(i, up[i - 1]) == s
        }),
{
    let up = s.update(i - 1, s[i]).update(i, s[i - 1]);
    assert(up.update(i - 1, up[i]).update(i, up[i - 1]) =~= s);
}

/// A bulk delete never removes a heading: the surviving document holds
/// exactly as many headings as the original.
pub proof fn lemma_bulk_delete_keeps_headings(s: Seq<ListItem>, sel: Set<usize>, n: int)
    requires
        0 <= n <= s.len(),
    ensures
        count_headings(surviving_items(s, sel, n)) == count_headings(s.take(n)),
    decreases n,
{
    if n > 0 {
        lemma_bulk_delete_keeps_headings(s, sel, n - 1);
        assert(s.take(n).drop_last() =~= s.take(n - 1));
        assert(s.take(n).last() == s[n - 1]);
        if sel.contains((n - 1) as usize) && !is_heading(s[n - 1]) {
            assert(surviving_items(s, sel, n) =~= surviving_items(s, sel, n - 1));
        } else {
            assert(surviving_items(s, sel, n).drop_last() =~= surviving_items(s, sel, n - 1));
            assert(surviving_items(s, sel, n).last() == s[n - 1]);
        }
    } else {
        assert(surviving_items(s, sel, 0) =~= s.take(0));
    }
}

/// What routes a mode's abstract actions into concrete mutations of a
/// session's document.
pub trait ActionPerformer {
    fn perform_toggle_completion(&mut self, index: usize) -> bool;

    fn perform_move_item_up(&mut self, index: usize) -> Option<usize>;

    fn perform_move_item_down(&mut self, index: usize) -> Option<usize>;

    fn perform_indent_item(&mut self, index: usize) -> bool;

    fn perform_unindent_item(&mut self, index: usize) -> bool;

    fn perform_bulk_move(&mut self, selected_indices: &HashSet<usize>, target_index: usize) -> Option<usize>;

    fn perform_delete_item(&mut self, index: usize) -> bool;

    fn perform_bulk_delete(&mut self, selected_indices: &HashSet<usize>) -> usize;
}

} // verus!

//! The session: the document together with navigation, rename, search
//! and undo state, and the action semantics of every mode.  Each
//! mutating action snapshots the session before mutating (an action
//! that turns out to be a no-op pushes nothing) and reports whether
//! the document changed, so the caller knows when to persist; every
//! action that changes the document also drops the position-based
//! search results.

use vstd::prelude::*;
use std::collections::HashSet;
use crate::actions::{
    ItemActions, bulk_deleted_count, can_indent, can_unindent, count_selected, indent_allowed,
    indent_transform, kept_items, lemma_count_selected_positive, outdent_transform, picked_items,
    surviving_items, toggle_item, unindent_allowed,
};
use crate::edit::{
    EditState, char_erased_at, char_erased_before, char_inserted, cursor_at_end, cursor_at_home,
    cursor_at_next_word, cursor_at_previous_word, cursor_stepped_left, cursor_stepped_right,
    word_erased_before,
};
use crate::handlers::{
    EditModeAction, HelpModeAction, KeyHandler, KeyInput, NormalModeAction, SearchModeAction,
    spec_edit_action, spec_help_action, spec_normal_action, spec_search_action,
};
use crate::models::{
    ItemModel, ListItem, TodoList, content_of, count_completed, count_todos, is_heading, model_of,
};
use crate::navigation::{
    ItemCreator, NavigationState, spec_heading_context, spec_insert_position, spec_scroll,
};
use crate::search::{SearchState, lemma_match_indices_bounds, match_indices};
use crate::state::{AppState, clone_index_set};
use crate::text::{trim_spec, trim_str};
use crate::undo::{UNDO_LIMIT, UndoManager, push_snapshot};

verus! {

/// The item with its text replaced and every other field kept.
pub open spec fn with_content(it: ListItem, c: String) -> ListItem {
    match it {
        ListItem::Todo { completed, indent_level, line_number, .. } => ListItem::Todo {
            content: c,
            completed,
            indent_level,
            line_number,
        },
        ListItem::Note { indent_level, line_number, .. } => ListItem::Note {
            content: c,
            indent_level,
            line_number,
        },
        ListItem::Heading { level, line_number, .. } => ListItem::Heading {
            content: c,
            level,
            line_number,
        },
    }
}

fn replace_content(it: &ListItem, c: String) -> (r: ListItem)
    ensures
        r == with_content(*it, c),
{
    match it {
        ListItem::Todo { completed, indent_level, line_number, .. } => ListItem::Todo {
            content: c,
            completed: *completed,
            indent_level: *indent_level,
            line_number: *line_number,
        },
        ListItem::Note { indent_level, line_number, .. } => ListItem::Note {
            content: c,
            indent_level: *indent_level,
            line_number: *line_number,
        },
        ListItem::Heading { level, line_number, .. } => ListItem::Heading {
            content: c,
            level: *level,
            line_number: *line_number,
        },
    }
}

/// The focus after items were removed: unchanged while it still points
/// inside, otherwise pulled to the last item, or to zero when nothing
/// is left.
pub open spec fn spec_clamped(idx: int, len: int) -> int {
    if idx < len {
        idx
    } else if len > 0 {
        len - 1
    } else {
        0
    }
}

/// One running session.
pub struct App {
    pub todo_list: TodoList,
    pub should_quit: bool,
    pub help_mode: bool,
    pub navigation: NavigationState,
    pub edit_state: EditState,
    pub search_state: SearchState,
    pub undo_manager: UndoManager,
}

/// Exactly one snapshot of the pre-state went onto the undo stack.
pub open spec fn snapshot_pushed(pre: App, post: App) -> bool {
    &&& post.undo_manager.undo_stack@.len() > 0
    &&& post.undo_manager.undo_stack@ == push_snapshot(
        pre.undo_manager.undo_stack@,
        post.undo_manager.undo_stack@.last(),
    )
    &&& post.undo_manager.undo_stack@.last().todo_list.items@ == pre.todo_list.items@
    &&& post.undo_manager.undo_stack@.last().selected_index == pre.navigation.selected_index
    &&& post.undo_manager.undo_stack@.last().selected_items@ == pre.navigation.selected_items@
}

/// The position-based search results were dropped.
pub open spec fn results_cleared(post: App) -> bool {
    &&& post.search_state.search_matches@.len() == 0
    &&& post.search_state.current_match_index is None
}

/// What a document mutation leaves alone: every part of the session
/// other than the document, the undo stack and the match list.
pub open spec fn doc_op_frame(pre: App, post: App) -> bool {
    &&& post.navigation == pre.navigation
    &&& post.edit_state == pre.edit_state
    &&& post.should_quit == pre.should_quit
    &&& post.help_mode == pre.help_mode
    &&& post.search_state.search_mode == pre.search_state.search_mode
    &&& post.search_state.search_query == pre.search_state.search_query
    &&& post.todo_list.file_path == pre.todo_list.file_path
}


/// A buffer-only edit action: everything outside the rename buffer is
/// untouched.
pub open spec fn only_edit_changed(pre: App, post: App) -> bool {
    &&& post.todo_list == pre.todo_list
    &&& post.navigation == pre.navigation
    &&& post.search_state == pre.search_state
    &&& post.undo_manager == pre.undo_manager
    &&& post.should_quit == pre.should_quit
    &&& post.help_mode == pre.help_mode
}

/// What abandoning a rename does: the buffer is discarded, and a task
/// whose content was already blank is removed (selection dropped, focus
/// clamped, matches cleared); the undo stack is untouched.
pub open spec fn rename_cancelled(pre: App, post: App) -> bool {
    let items = pre.todo_list.items@;
    let idx = pre.navigation.selected_index as int;
    let dropped = idx < items.len() && items[idx] is Todo && trim_spec(
        content_of(items[idx]),
    ).len() == 0;
    &&& !post.edit_state.edit_mode
    &&& post.edit_state.edit_buffer@.len() == 0
    &&& post.edit_state.edit_cursor_position == 0
    &&& !post.edit_state.adding_new_todo
    &&& post.undo_manager == pre.undo_manager
    &&& post.should_quit == pre.should_quit
    &&& post.help_mode == pre.help_mode
    &&& dropped ==> post.todo_list.items@ == items.remove(idx)
        && post.navigation.selected_items@.is_empty() && results_cleared(post)
        && post.navigation.selected_index == spec_clamped(idx, items.len() - 1)
    &&& !dropped ==> post.todo_list.items@ == items && post.navigation == pre.navigation
        && post.search_state == pre.search_state
}

/// What confirming a rename does: the buffer becomes the focused item's
/// content; a task or note left blank is removed instead (selection
/// dropped, focus clamped), headings stay.  A snapshot of the pre-state
/// goes onto the undo stack unless the rename confirms a just-inserted
/// item, whose insertion already snapshotted.  The matches are cleared
/// and the buffer discarded.
pub open spec fn rename_confirmed(pre: App, post: App) -> bool {
    let items = pre.todo_list.items@;
    let idx = pre.navigation.selected_index as int;
    let buffer = pre.edit_state.edit_buffer;
    let removes = idx < items.len() && trim_spec(buffer@).len() == 0 && !is_heading(items[idx]);
    &&& !post.edit_state.edit_mode
    &&& post.edit_state.edit_buffer@.len() == 0
    &&& post.edit_state.edit_cursor_position == 0
    &&& !post.edit_state.adding_new_todo
    &&& results_cleared(post)
    &&& post.should_quit == pre.should_quit
    &&& post.help_mode == pre.help_mode
    &&& removes ==> post.todo_list.items@ == items.remove(idx)
        && post.navigation.selected_items@.is_empty() && post.navigation.selected_index
        == spec_clamped(idx, items.len() - 1)
    &&& idx < items.len() && !removes ==> post.todo_list.items@ == items.update(
        idx,
        with_content(items[idx], buffer),
    ) && post.navigation == pre.navigation
    &&& idx >= items.len() ==> post.todo_list.items@ == items && post.navigation
        == pre.navigation
    &&& idx < items.len() && !pre.edit_state.adding_new_todo ==> snapshot_pushed(pre, post)
    &&& !(idx < items.len() && !pre.edit_state.adding_new_todo) ==> post.undo_manager
        == pre.undo_manager
}

/// What inserting a blank item and entering its rename does, given the
/// slot and depth the insertion rules picked and the model of the fresh
/// item.
pub open spec fn blank_item_added(
    pre: App,
    post: App,
    slot: int,
    fresh: ItemModel,
) -> bool {
    &&& snapshot_pushed(pre, post)
    &&& results_cleared(post)
    &&& post.edit_state.adding_new_todo
    &&& post.edit_state.edit_mode
    &&& post.edit_state.edit_buffer@.len() == 0
    &&& post.should_quit == pre.should_quit
    &&& post.help_mode == pre.help_mode
    &&& post.navigation.selected_items@ == pre.navigation.selected_items@
    &&& post.todo_list.items@.len() == pre.todo_list.items@.len() + 1
    &&& 0 <= slot <= pre.todo_list.items@.len()
    &&& post.todo_list.items@ == pre.todo_list.items@.insert(slot, post.todo_list.items@[slot])
    &&& model_of(post.todo_list.items@[slot]) == fresh
    &&& post.navigation.selected_index == slot
}

/// A blank note enters below the focus, per the insertion rules.
pub open spec fn blank_note_added(pre: App, post: App) -> bool {
    let s = pre.todo_list.items@;
    let idx = pre.navigation.selected_index as int;
    if s.len() == 0 {
        blank_item_added(pre, post, 0, ItemModel::Note { content: Seq::empty(), depth: 0, line: 0 })
    } else {
        blank_item_added(
            pre,
            post,
            spec_insert_position(s, idx).0 as int,
            ItemModel::Note {
                content: Seq::empty(),
                depth: spec_insert_position(s, idx).1 as nat,
                line: 0,
            },
        )
    }
}

/// A blank task enters below the focus, per the insertion rules.
pub open spec fn blank_todo_added(pre: App, post: App) -> bool {
    let s = pre.todo_list.items@;
    let idx = pre.navigation.selected_index as int;
    if s.len() == 0 {
        blank_item_added(
            pre,
            post,
            0,
            ItemModel::Todo { content: Seq::empty(), completed: false, depth: 0, line: 0 },
        )
    } else {
        blank_item_added(
            pre,
            post,
            spec_insert_position(s, idx).0 as int,
            ItemModel::Todo {
                content: Seq::empty(),
                completed: false,
                depth: spec_insert_position(s, idx).1 as nat,
                line: 0,
            },
        )
    }
}

/// A blank note enters right below the nearest heading above the focus.
pub open spec fn blank_note_added_at_top(pre: App, post: App) -> bool {
    blank_item_added(
        pre,
        post,
        spec_heading_context(pre.todo_list.items@, pre.navigation.selected_index as int),
        ItemModel::Note { content: Seq::empty(), depth: 0, line: 0 },
    )
}

/// A blank task enters right below the nearest heading above the focus.
pub open spec fn blank_todo_added_at_top(pre: App, post: App) -> bool {
    blank_item_added(
        pre,
        post,
        spec_heading_context(pre.todo_list.items@, pre.navigation.selected_index as int),
        ItemModel::Todo { content: Seq::empty(), completed: false, depth: 0, line: 0 },
    )
}

/// The focus jumped to the next search match, wrapping around; the
/// match pointer follows and nothing else moves.
pub open spec fn next_match_followed(pre: App, post: App) -> bool {
    let matches = pre.search_state.search_matches@;
    let cur = pre.search_state.current_match_index;
    let next = ((cur->0 + 1) as int) % (matches.len() as int);
    &&& post.navigation.selected_index == matches[next]
    &&& post.navigation.scroll_offset as nat == spec_scroll(
        matches[next] as nat,
        pre.navigation.scroll_offset as nat,
    )
    &&& post.navigation.selected_items@ == pre.navigation.selected_items@
    &&& post.search_state.current_match_index == Some(next as usize)
    &&& post.search_state.search_matches == pre.search_state.search_matches
    &&& post.search_state.search_query == pre.search_state.search_query
    &&& post.search_state.search_mode == pre.search_state.search_mode
    &&& post.todo_list == pre.todo_list
    &&& post.undo_manager == pre.undo_manager
    &&& post.edit_state == pre.edit_state
    &&& post.should_quit == pre.should_quit
    &&& post.help_mode == pre.help_mode
}

/// The focus jumped to the previous search match, wrapping around.
pub open spec fn previous_match_followed(pre: App, post: App) -> bool {
    let matches = pre.search_state.search_matches@;
    let cur = pre.search_state.current_match_index;
    let prev = if cur->0 == 0 {
        matches.len() - 1
    } else {
        cur->0 - 1
    };
    &&& post.navigation.selected_index == matches[prev as int]
    &&& post.navigation.scroll_offset as nat == spec_scroll(
        matches[prev as int] as nat,
        pre.navigation.scroll_offset as nat,
    )
    &&& post.navigation.selected_items@ == pre.navigation.selected_items@
    &&& post.search_state.current_match_index == Some(prev as usize)
    &&& post.search_state.search_matches == pre.search_state.search_matches
    &&& post.search_state.search_query == pre.search_state.search_query
    &&& post.search_state.search_mode == pre.search_state.search_mode
    &&& post.todo_list == pre.todo_list
    &&& post.undo_manager == pre.undo_manager
    &&& post.edit_state == pre.edit_state
    &&& post.should_quit == pre.should_quit
    &&& post.help_mode == pre.help_mode
}

impl App {
    /// The session invariant: the focus sits inside the document (or at
    /// zero when it is empty), every selected position and every search
    /// match points at an item, the rename cursor sits on a character
    /// boundary, the match pointer points into the match list, and the
    /// undo stack respects its bound and holds only states that satisfy
    /// the same position rules.
    pub open spec fn wf(&self) -> bool {
        &&& self.navigation.selected_index < self.todo_list.items@.len() || (
        self.todo_list.items@.len() == 0 && self.navigation.selected_index == 0)
        &&& forall|i: usize|
            self.navigation.selected_items@.contains(i) ==> (i as int)
                < self.todo_list.items@.len()
        &&& forall|k: int|
            0 <= k < self.search_state.search_matches@.len() ==> (
            #[trigger] self.search_state.search_matches@[k] as int) < self.todo_list.items@.len()
        &&& self.search_state.wf()
        &&& self.edit_state.wf()
        &&& self.undo_manager.undo_stack@.len() <= UNDO_LIMIT
        &&& forall|k: int|
            0 <= k < self.undo_manager.undo_stack@.len()
                ==> (#[trigger] self.undo_manager.undo_stack@[k]).wf()
    }

    pub fn new(todo_list: TodoList) -> (r: Self)
        ensures
            r.todo_list == todo_list,
            !r.should_quit,
            !r.help_mode,
            r.navigation.selected_index == 0,
            r.navigation.selected_items@ =~= Set::<usize>::empty(),
            r.undo_manager.undo_stack@ =~= Seq::<AppState>::empty(),
            r.wf(),
    {
        Self {
            todo_list,
            should_quit: false,
            help_mode: false,
            navigation: NavigationState::new(),
            edit_state: EditState::new(),
            search_state: SearchState::new(),
            undo_manager: UndoManager::new(),
        }
    }

    /// Number of tasks in the document.
    pub fn total_items(&self) -> (r: usize)
        ensures
            r == count_todos(self.todo_list.items@, self.todo_list.items@.len() as int),
    {
        self.todo_list.total_items()
    }

    /// Number of completed tasks in the document.
    pub fn completed_items(&self) -> (r: usize)
        ensures
            r == count_completed(self.todo_list.items@, self.todo_list.items@.len() as int),
    {
        self.todo_list.completed_items()
    }

    pub fn selected_index(&self) -> (r: usize)
        ensures
            r == self.navigation.selected_index,
    {
        self.navigation.selected_index
    }

    pub fn scroll_offset(&self) -> (r: usize)
        ensures
            r == self.navigation.scroll_offset,
    {
        self.navigation.scroll_offset
    }

    pub fn selected_items(&self) -> (r: &HashSet<usize>)
        ensures
            r@ == self.navigation.selected_items@,
    {
        &self.navigation.selected_items
    }

    pub fn edit_mode(&self) -> (r: bool)
        ensures
            r == self.edit_state.edit_mode,
    {
        self.edit_state.edit_mode
    }

    pub fn edit_buffer(&self) -> (r: &str)
        ensures
            r@ == self.edit_state.edit_buffer@,
    {
        self.edit_state.edit_buffer.as_str()
    }

    pub fn edit_cursor_position(&self) -> (r: usize)
        ensures
            r == self.edit_state.edit_cursor_position,
    {
        self.edit_state.edit_cursor_position
    }

    pub fn search_mode(&self) -> (r: bool)
        ensures
            r == self.search_state.search_mode,
    {
        self.search_state.search_mode
    }

    pub fn search_query(&self) -> (r: &str)
        ensures
            r@ == self.search_state.search_query@,
    {
        self.search_state.search_query.as_str()
    }

    pub fn search_matches(&self) -> (r: &[usize])
        ensures
            r@ == self.search_state.search_matches@,
    {
        self.search_state.search_matches.as_slice()
    }

    pub fn current_match_index(&self) -> (r: Option<usize>)
        ensures
            r == self.search_state.current_match_index,
    {
        self.search_state.current_match_index
    }

    /// Escape in normal mode: drop search results when there are any,
    /// otherwise drop the bulk selection.
    fn handle_escape(&mut self)
        requires
            old(self).wf(),
        ensures
            final(self).wf(),
            final(self).todo_list == old(self).todo_list,
            final(self).edit_state == old(self).edit_state,
            final(self).undo_manager == old(self).undo_manager,
            final(self).should_quit == old(self).should_quit,
            final(self).help_mode == old(self).help_mode,
            old(self).search_state.search_matches@.len() > 0 ==> results_cleared(*final(self))
                && final(self).navigation == old(self).navigation && final(self).search_state.search_query == old(self).search_state.search_query && final(self).search_state.search_mode == old(self).search_state.search_mode,
            old(self).search_state.search_matches@.len() == 0 ==> final(self).search_state == old(self).search_state && final(self).navigation.selected_items@.is_empty() && final(self).navigation.selected_index == old(self).navigation.selected_index && final(self).navigation.scroll_offset == old(self).navigation.scroll_offset,
    {
        if !self.search_state.search_matches.is_empty() {
            self.search_state.clear_results();
        } else {
            self.navigation.clear_selection();
        }
    }

    /// `n` in normal mode: jump to the next search match while a match
    /// is current, otherwise start a new note below the focus.
    fn handle_n(&mut self)
        requires
            old(self).wf(),
        ensures
            final(self).wf(),
            old(self).search_state.search_matches@.len() > 0 && old(self).search_state.current_match_index is Some ==> next_match_followed(
                *old(self),
                *final(self),
            ),
            !(old(self).search_state.search_matches@.len() > 0 && old(self).search_state.current_match_index is Some) ==> blank_note_added(
                *old(self),
                *final(self),
            ),
    {
        if !self.search_state.search_matches.is_empty()
            && self.search_state.current_match_index.is_some() {
            match self.search_state.next_match() {
                Some(index) => {
                    self.navigation.selected_index = index;
                    self.navigation.update_scroll();
                },
                None => {},
            }
        } else {
            self.add_new_note();
        }
    }

    /// `N` in normal mode: jump to the previous search match while a
    /// match is current, otherwise start a new note at the top of the
    /// current section.
    fn handle_shift_n(&mut self)
        requires
            old(self).wf(),
        ensures
            final(self).wf(),
            old(self).search_state.search_matches@.len() > 0 && old(self).search_state.current_match_index is Some ==> previous_match_followed(
                *old(self),
                *final(self),
            ),
            !(old(self).search_state.search_matches@.len() > 0 && old(self).search_state.current_match_index is Some) ==> blank_note_added_at_top(
                *old(self),
                *final(self),
            ),
    {
        if !self.search_state.search_matches.is_empty()
            && self.search_state.current_match_index.is_some() {
            match self.search_state.previous_match() {
                Some(index) => {
                    self.navigation.selected_index = index;
                    self.navigation.update_scroll();
                },
                None => {},
            }
        } else {
            self.add_new_note_at_top();
        }
    }

    /// Insert an empty note below the focus (as sibling or child per
    /// the insertion rules) and start renaming it.
    fn add_new_note(&mut self)
        requires
            old(self).wf(),
        ensures
            final(self).wf(),
            blank_note_added(*old(self), *final(self)),
    {
        self.save_current_state();
        self.edit_state.adding_new_todo = true;
        if self.todo_list.items.len() == 0 {
            let new_note = ItemCreator::create_new_note(String::new(), 0);
            self.todo_list.add_item(new_note);
            proof {
                assert(self.todo_list.items@ =~= old(self).todo_list.items@.insert(
                    0,
                    self.todo_list.items@[0],
                ));
            }
            self.navigation.selected_index = 0;
            self.search_state.clear_results();
            self.enter_edit_mode_for_item(0);
        } else if self.navigation.selected_index < self.todo_list.items.len() {
            let (position, indent) = ItemCreator::determine_insert_position_for_new_todo(
                &self.todo_list.items,
                self.navigation.selected_index,
            );
            let new_note = ItemCreator::create_new_note(String::new(), indent);
            self.todo_list.items.insert(position, new_note);
            self.navigation.selected_index = position;
            self.search_state.clear_results();
            self.enter_edit_mode_for_item(position);
        }
    }

    /// Insert an empty note right below the nearest heading above the
    /// focus (or at the very top) and start renaming it.
    fn add_new_note_at_top(&mut self)
        requires
            old(self).wf(),
        ensures
            final(self).wf(),
            blank_note_added_at_top(*old(self), *final(self)),
    {
        self.save_current_state();
        self.edit_state.adding_new_todo = true;
        let new_note = ItemCreator::create_new_note(String::new(), 0);
        let insert_position = ItemCreator::determine_insert_position_for_new_todo_at_top(
            &self.todo_list.items,
            self.navigation.selected_index,
        );
        self.todo_list.items.insert(insert_position, new_note);
        self.navigation.selected_index = insert_position;
        self.search_state.clear_results();
        self.enter_edit_mode_for_item(insert_position);
    }

    /// Insert an empty task below the focus and start renaming it.
    fn add_new_todo(&mut self)
        requires
            old(self).wf(),
        ensures
            final(self).wf(),
            blank_todo_added(*old(self), *final(self)),
    {
        self.save_current_state();
        self.edit_state.adding_new_todo = true;
        if self.todo_list.items.len() == 0 {
            let new_todo = ItemCreator::create_new_todo(String::new(), false, 0);
            self.todo_list.add_item(new_todo);
            proof {
                assert(self.todo_list.items@ =~= old(self).todo_list.items@.insert(
                    0,
                    self.todo_list.items@[0],
                ));
            }
            self.navigation.selected_index = 0;
            self.search_state.clear_results();
            self.enter_edit_mode_for_item(0);
        } else if self.navigation.selected_index < self.todo_list.items.len() {
            let (position, indent) = ItemCreator::determine_insert_position_for_new_todo(
                &self.todo_list.items,
                self.navigation.selected_index,
            );
            let new_todo = ItemCreator::create_new_todo(String::new(), false, indent);
            self.todo_list.items.insert(position, new_todo);
            self.navigation.selected_index = position;
            self.search_state.clear_results();
            self.enter_edit_mode_for_item(position);
        }
    }

    /// Insert an empty task right below the nearest heading above the
    /// focus (or at the very top) and start renaming it.
    fn add_new_todo_at_top(&mut self)
        requires
            old(self).wf(),
        ensures
            final(self).wf(),
            blank_todo_added_at_top(*old(self), *final(self)),
    {
        self.save_current_state();
        self.edit_state.adding_new_todo = true;
        let new_todo = ItemCreator::create_new_todo(String::new(), false, 0);
        let insert_position = ItemCreator::determine_insert_position_for_new_todo_at_top(
            &self.todo_list.items,
            self.navigation.selected_index,
        );
        self.todo_list.items.insert(insert_position, new_todo);
        self.navigation.selected_index = insert_position;
        self.search_state.clear_results();
        self.enter_edit_mode_for_item(insert_position);
    }

    /// Keep the focus inside the document after items were removed.
    fn clamp_selected_index(&mut self)
        ensures
            final(self).navigation.selected_index < final(self).todo_list.items@.len() || (final(self).todo_list.items@.len() == 0 && final(self).navigation.selected_index == 0),
            final(self).navigation.selected_index == spec_clamped(
                old(self).navigation.selected_index as int,
                old(self).todo_list.items@.len() as int,
            ),
            final(self).todo_list == old(self).todo_list,
            final(self).navigation.selected_items@ == old(self).navigation.selected_items@,
            final(self).navigation.scroll_offset == old(self).navigation.scroll_offset,
            final(self).edit_state == old(self).edit_state,
            final(self).search_state == old(self).search_state,
            final(self).undo_manager == old(self).undo_manager,
            final(self).should_quit == old(self).should_quit,
            final(self).help_mode == old(self).help_mode,
            old(self).navigation.selected_index < old(self).todo_list.items@.len() ==> final(self).navigation.selected_index == old(self).navigation.selected_index,
    {
        if self.navigation.selected_index >= self.todo_list.items.len() {
            if self.todo_list.items.len() > 0 {
                self.navigation.selected_index = self.todo_list.items.len() - 1;
            } else {
                self.navigation.selected_index = 0;
            }
        }
    }
}

// The action, rename and undo entry points live directly on `App`:
// Verus does not let a trait impl add `requires`, and these need the
// session invariant.
impl App {
    /// Toggle the task under `index`, snapshotting the pre-state first;
    /// notes, headings and out-of-range positions change nothing and
    /// push no snapshot.
    pub fn perform_toggle_completion(&mut self, index: usize) -> (r: bool)
        requires
            old(self).wf(),
        ensures
            final(self).wf(),
            r == (index < old(self).todo_list.items@.len() && old(self).todo_list.items@[
                index as int] is Todo),
            r ==> final(self).todo_list.items@ == old(self).todo_list.items@.update(
                index as int,
                toggle_item(old(self).todo_list.items@[index as int]),
            ) && snapshot_pushed(*old(self), *final(self)) && results_cleared(*final(self))
                && doc_op_frame(*old(self), *final(self)),
            !r ==> *final(self) == *old(self),
    {
        let is_todo_there = index < self.todo_list.items.len() && matches!(
            &self.todo_list.items[index],
            ListItem::Todo { .. }
        );
        if is_todo_there {
            self.save_current_state();
            let result = ItemActions::toggle_todo_completion(&mut self.todo_list.items, index);
            self.search_state.clear_results();
            result
        } else {
            false
        }
    }

    /// Swap the item at `index` with its upper neighbour, snapshotting
    /// the pre-state first; the returned index follows the item.  At
    /// the first position and out of range nothing changes and no
    /// snapshot is pushed.
    pub fn perform_move_item_up(&mut self, index: usize) -> (r: Option<usize>)
        requires
            old(self).wf(),
        ensures
            final(self).wf(),
            r is Some <==> 0 < index < old(self).todo_list.items@.len(),
            r is Some ==> r->0 == index - 1 && final(self).todo_list.items@ == old(self).todo_list.items@.update(index - 1, old(self).todo_list.items@[index as int]).update(
                index as int,
                old(self).todo_list.items@[index - 1],
            ) && snapshot_pushed(*old(self), *final(self)) && results_cleared(*final(self))
                && doc_op_frame(*old(self), *final(self)),
            r is None ==> *final(self) == *old(self),
    {
        if index > 0 && index < self.todo_list.items.len() {
            self.save_current_state();
            let result = ItemActions::move_single_item_up(&mut self.todo_list.items, index);
            self.search_state.clear_results();
            result
        } else {
            None
        }
    }

    /// Swap the item at `index` with its lower neighbour, snapshotting
    /// the pre-state first; the returned index follows the item.  At
    /// the last position and out of range nothing changes and no
    /// snapshot is pushed.
    pub fn perform_move_item_down(&mut self, index: usize) -> (r: Option<usize>)
        requires
            old(self).wf(),
        ensures
            final(self).wf(),
            r is Some <==> index + 1 < old(self).todo_list.items@.len(),
            r is Some ==> r->0 == index + 1 && final(self).todo_list.items@ == old(self).todo_list.items@.update(index as int, old(self).todo_list.items@[index + 1]).update(
                index + 1,
                old(self).todo_list.items@[index as int],
            ) && snapshot_pushed(*old(self), *final(self)) && results_cleared(*final(self))
                && doc_op_frame(*old(self), *final(self)),
            r is None ==> *final(self) == *old(self),
    {
        if index < self.todo_list.items.len() && index + 1 < self.todo_list.items.len() {
            self.save_current_state();
            let result = ItemActions::move_single_item_down(&mut self.todo_list.items, index);
            self.search_state.clear_results();
            result
        } else {
            None
        }
    }

    /// Indent the block rooted at `index`, snapshotting the pre-state
    /// first; when indentation is not possible nothing changes and no
    /// snapshot is pushed.
    pub fn perform_indent_item(&mut self, index: usize) -> (r: bool)
        requires
            old(self).wf(),
        ensures
            final(self).wf(),
            r == can_indent(old(self).todo_list.items@, index as int),
            r ==> final(self).todo_list.items@ == indent_transform(
                old(self).todo_list.items@,
                index as int,
            ) && snapshot_pushed(*old(self), *final(self)) && results_cleared(*final(self))
                && doc_op_frame(*old(self), *final(self)),
            !r ==> *final(self) == *old(self),
    {
        if indent_allowed(&self.todo_list.items, index) {
            self.save_current_state();
            let result = ItemActions::indent_block(&mut self.todo_list.items, index);
            self.search_state.clear_results();
            result
        } else {
            false
        }
    }

    /// Unindent the block rooted at `index`, snapshotting the pre-state
    /// first; when there is no depth to give up nothing changes and no
    /// snapshot is pushed.
    pub fn perform_unindent_item(&mut self, index: usize) -> (r: bool)
        requires
            old(self).wf(),
        ensures
            final(self).wf(),
            r == can_unindent(old(self).todo_list.items@, index as int),
            r ==> final(self).todo_list.items@ == outdent_transform(
                old(self).todo_list.items@,
                index as int,
            ) && snapshot_pushed(*old(self), *final(self)) && results_cleared(*final(self))
                && doc_op_frame(*old(self), *final(self)),
            !r ==> *final(self) == *old(self),
    {
        if unindent_allowed(&self.todo_list.items, index) {
            self.save_current_state();
            let result = ItemActions::unindent_block(&mut self.todo_list.items, index);
            self.search_state.clear_results();
            result
        } else {
            false
        }
    }

    /// Relocate the selected items below `target_index`, snapshotting
    /// the pre-state first; the returned index is where the moved run
    /// begins.  An empty selection or an out-of-range target changes
    /// nothing and pushes no snapshot.
    pub fn perform_bulk_move(&mut self, selected_indices: &HashSet<usize>, target_index: usize) -> (r:
        Option<usize>)
        requires
            old(self).wf(),
        ensures
            final(self).wf(),
            r is Some <==> !selected_indices@.is_empty() && target_index < old(self).todo_list.items@.len(),
            r is Some ==> final(self).todo_list.items@.len() == old(self).todo_list.items@.len()
                && r->0 == target_index + 1 - count_selected(selected_indices@, target_index + 1)
                && final(self).todo_list.items@ == kept_items(
                old(self).todo_list.items@,
                selected_indices@,
                old(self).todo_list.items@.len() as int,
            ).take(r->0 as int) + picked_items(
                old(self).todo_list.items@,
                selected_indices@,
                old(self).todo_list.items@.len() as int,
            ) + kept_items(
                old(self).todo_list.items@,
                selected_indices@,
                old(self).todo_list.items@.len() as int,
            ).skip(r->0 as int) && snapshot_pushed(*old(self), *final(self)) && results_cleared(
                *final(self),
            ) && doc_op_frame(*old(self), *final(self)),
            r is Some && count_selected(selected_indices@, old(self).todo_list.items@.len() as int)
                > 0 ==> (r->0 as int) < old(self).todo_list.items@.len(),
            r is None ==> *final(self) == *old(self),
    {
        if selected_indices.is_empty() {
            return None;
        }
        if target_index >= self.todo_list.items.len() {
            return None;
        }
        self.save_current_state();
        let result = ItemActions::move_selected_items_to_position(
            &mut self.todo_list.items,
            selected_indices,
            target_index,
        );
        self.search_state.clear_results();
        result
    }

    /// Remove the task or note at `index`, snapshotting the pre-state
    /// first; the bulk selection is dropped because positions shift,
    /// and the focus is pulled back inside the document.  Headings and
    /// out-of-range positions change nothing and push no snapshot.
    pub fn perform_delete_item(&mut self, index: usize) -> (r: bool)
        requires
            old(self).wf(),
        ensures
            final(self).wf(),
            r == (index < old(self).todo_list.items@.len() && !is_heading(
                old(self).todo_list.items@[index as int],
            )),
            r ==> final(self).todo_list.items@ == old(self).todo_list.items@.remove(index as int)
                && snapshot_pushed(*old(self), *final(self)) && results_cleared(*final(self))
                && final(self).navigation.selected_items@.is_empty() && final(self).navigation.selected_index == spec_clamped(
                old(self).navigation.selected_index as int,
                old(self).todo_list.items@.len() - 1,
            ) && final(self).edit_state == old(self).edit_state && final(self).should_quit == old(self).should_quit && final(self).help_mode == old(self).help_mode,
            !r ==> *final(self) == *old(self),
    {
        let deletable = index < self.todo_list.items.len() && !self.todo_list.items[
            index].is_heading_item();
        if deletable {
            self.save_current_state();
            let result = ItemActions::delete_item(&mut self.todo_list.items, index);
            self.navigation.clear_selection();
            self.search_state.clear_results();
            self.clamp_selected_index();
            result
        } else {
            false
        }
    }

    /// Remove every selected task and note, snapshotting the pre-state
    /// first; the bulk selection is dropped, the focus pulled back
    /// inside the document, and the count of removed items returned.
    /// An empty selection changes nothing and pushes no snapshot.
    pub fn perform_bulk_delete(&mut self, selected_indices: &HashSet<usize>) -> (r: usize)
        requires
            old(self).wf(),
        ensures
            final(self).wf(),
            selected_indices@.is_empty() ==> r == 0 && *final(self) == *old(self),
            !selected_indices@.is_empty() ==> final(self).todo_list.items@ == surviving_items(
                old(self).todo_list.items@,
                selected_indices@,
                old(self).todo_list.items@.len() as int,
            ) && r == bulk_deleted_count(
                old(self).todo_list.items@,
                selected_indices@,
                old(self).todo_list.items@.len() as int,
            ) && final(self).navigation.selected_items@.is_empty() && snapshot_pushed(
                *old(self),
                *final(self),
            ) && results_cleared(*final(self)) && final(self).navigation.selected_index
                == spec_clamped(
                old(self).navigation.selected_index as int,
                final(self).todo_list.items@.len() as int,
            ) && final(self).edit_state == old(self).edit_state && final(self).should_quit == old(self).should_quit && final(self).help_mode == old(self).help_mode,
    {
        if selected_indices.is_empty() {
            return 0;
        }
        self.save_current_state();
        let count = ItemActions::delete_selected_items(&mut self.todo_list.items, selected_indices);
        self.navigation.clear_selection();
        self.search_state.clear_results();
        self.clamp_selected_index();
        count
    }
}

impl App {
    /// Load the item's content into the rename buffer and enter rename
    /// mode; out-of-range positions do nothing.
    pub fn enter_edit_mode_for_item(&mut self, item_index: usize)
        requires
            old(self).edit_state.wf(),
        ensures
            final(self).edit_state.wf(),
            item_index < old(self).todo_list.items@.len() ==> final(self).edit_state.edit_mode
                && final(self).edit_state.edit_buffer@ == content_of(
                old(self).todo_list.items@[item_index as int],
            ),
            !(item_index < old(self).todo_list.items@.len()) ==> *final(self) == *old(self),
            final(self).todo_list == old(self).todo_list,
            final(self).navigation == old(self).navigation,
            final(self).search_state == old(self).search_state,
            final(self).undo_manager == old(self).undo_manager,
            final(self).should_quit == old(self).should_quit,
            final(self).help_mode == old(self).help_mode,
            final(self).edit_state.adding_new_todo == old(self).edit_state.adding_new_todo,
    {
        if item_index < self.todo_list.items.len() {
            let content = match &self.todo_list.items[item_index] {
                ListItem::Todo { content, .. } => content.clone(),
                ListItem::Note { content, .. } => content.clone(),
                ListItem::Heading { content, .. } => content.clone(),
            };
            self.edit_state.enter_edit_mode(content);
        }
    }

    /// Abandon the rename; a task left empty by the abandoned rename is
    /// removed (the bulk selection is then dropped).  The document is
    /// persisted either way, so the result is always true.
    pub fn cancel_edit(&mut self) -> (r: bool)
        requires
            old(self).wf(),
        ensures
            final(self).wf(),
            r,
            rename_cancelled(*old(self), *final(self)),
    {
        if self.navigation.selected_index < self.todo_list.items.len() {
            let idx = self.navigation.selected_index;
            let is_empty_todo = match &self.todo_list.items[idx] {
                ListItem::Todo { content, .. } => trim_str(content.as_str()).is_empty(),
                _ => false,
            };
            if is_empty_todo {
                self.todo_list.items.remove(idx);
                self.navigation.clear_selection();
                self.search_state.clear_results();
                self.clamp_selected_index();
            }
        }
        self.edit_state.exit_edit_mode();
        true
    }

    /// Confirm the rename: the buffer becomes the item's content; a
    /// task or note left empty is removed instead (headings stay).  A
    /// snapshot is pushed first unless the rename confirms a freshly
    /// inserted item, whose insertion already snapshotted.  The
    /// document is persisted either way, so the result is always true.
    pub fn confirm_edit(&mut self) -> (r: bool)
        requires
            old(self).wf(),
        ensures
            final(self).wf(),
            r,
            rename_confirmed(*old(self), *final(self)),
    {
        if self.navigation.selected_index < self.todo_list.items.len() {
            if !self.edit_state.adding_new_todo {
                self.save_current_state();
            }
            let idx = self.navigation.selected_index;
            let new_content = self.edit_state.edit_buffer.clone();
            let updated = replace_content(&self.todo_list.items[idx], new_content);
            let should_remove = !self.todo_list.items[idx].is_heading_item() && trim_str(
                self.edit_state.edit_buffer.as_str(),
            ).is_empty();
            self.todo_list.items.set(idx, updated);
            if should_remove {
                self.todo_list.items.remove(idx);
                self.navigation.clear_selection();
                self.clamp_selected_index();
                proof {
                    assert(old(self).todo_list.items@.update(
                        idx as int,
                        with_content(old(self).todo_list.items@[idx as int], old(self).edit_state.edit_buffer),
                    ).remove(idx as int) =~= old(self).todo_list.items@.remove(idx as int));
                }
            }
        }
        self.edit_state.exit_edit_mode();
        self.search_state.clear_results();
        true
    }
}

impl App {
    /// Deep-copy the document, focus and selection onto the undo stack.
    pub fn save_current_state(&mut self)
        requires
            old(self).wf(),
        ensures
            final(self).wf(),
            final(self).undo_manager.undo_stack@ == push_snapshot(
                old(self).undo_manager.undo_stack@,
                final(self).undo_manager.undo_stack@.last(),
            ),
            final(self).undo_manager.undo_stack@.len() > 0,
            ({
                let st = final(self).undo_manager.undo_stack@.last();
                &&& st.todo_list.items@ == old(self).todo_list.items@
                &&& st.selected_index == old(self).navigation.selected_index
                &&& st.selected_items@ == old(self).navigation.selected_items@
            }),
            final(self).todo_list == old(self).todo_list,
            final(self).navigation == old(self).navigation,
            final(self).edit_state == old(self).edit_state,
            final(self).search_state == old(self).search_state,
            final(self).should_quit == old(self).should_quit,
            final(self).help_mode == old(self).help_mode,
    {
        let snapshot = AppState::new(
            self.todo_list.clone(),
            self.navigation.selected_index,
            clone_index_set(&self.navigation.selected_items),
        );
        self.undo_manager.save_state(snapshot);
    }

    /// Write a snapshot back as the live document, focus and selection;
    /// stale search results are dropped.
    pub fn restore_state(&mut self, state: AppState) -> (r: bool)
        requires
            old(self).wf(),
            state.wf(),
        ensures
            final(self).wf(),
            r,
            final(self).todo_list == state.todo_list,
            final(self).navigation.selected_index == state.selected_index,
            final(self).navigation.selected_items@ == state.selected_items@,
            final(self).navigation.scroll_offset as nat == crate::navigation::spec_scroll(
                state.selected_index as nat,
                old(self).navigation.scroll_offset as nat,
            ),
            results_cleared(*final(self)),
            final(self).undo_manager == old(self).undo_manager,
            final(self).edit_state == old(self).edit_state,
            final(self).should_quit == old(self).should_quit,
            final(self).help_mode == old(self).help_mode,
    {
        self.todo_list = state.todo_list;
        self.navigation.selected_index = state.selected_index;
        self.navigation.selected_items = state.selected_items;
        self.search_state.clear_results();
        self.navigation.update_scroll();
        true
    }

    /// Pop the most recent snapshot and make it the live state; the
    /// result says whether there was one (and the document should be
    /// persisted).
    pub fn perform_undo(&mut self) -> (r: bool)
        requires
            old(self).wf(),
        ensures
            final(self).wf(),
            r == (old(self).undo_manager.undo_stack@.len() > 0),
            r ==> ({
                let restored = old(self).undo_manager.undo_stack@.last();
                &&& final(self).undo_manager.undo_stack@ == old(self).undo_manager.undo_stack@.drop_last()
                &&& final(self).todo_list == restored.todo_list
                &&& final(self).navigation.selected_index == restored.selected_index
                &&& final(self).navigation.selected_items@ == restored.selected_items@
                &&& results_cleared(*final(self))
                &&& final(self).edit_state == old(self).edit_state
                &&& final(self).should_quit == old(self).should_quit
                &&& final(self).help_mode == old(self).help_mode
            }),
            !r ==> final(self).todo_list == old(self).todo_list && final(self).undo_manager.undo_stack@ == old(self).undo_manager.undo_stack@ && final(self).navigation == old(self).navigation && final(self).search_state == old(self).search_state && final(self).edit_state == old(self).edit_state && final(self).should_quit == old(self).should_quit && final(self).help_mode == old(self).help_mode,
    {
        match self.undo_manager.undo() {
            Some(state) => {
                self.restore_state(state);
                true
            },
            None => false,
        }
    }
}

impl crate::navigation::Navigable for App {
    fn get_navigation_state(&self) -> &NavigationState {
        &self.navigation
    }

    fn get_navigation_state_mut(&mut self) -> &mut NavigationState {
        &mut self.navigation
    }

    fn get_item_count(&self) -> (r: usize)
        ensures
            r == self.todo_list.items@.len(),
    {
        self.todo_list.items.len()
    }
}

/// What one keystroke does in help mode: the closing keys leave help,
/// anything else does nothing; the session is otherwise untouched and
/// nothing asks to be persisted.
pub open spec fn help_mode_step(pre: App, post: App, action: HelpModeAction, r: bool) -> bool {
    &&& !r
    &&& post.help_mode == !(action is ExitHelpMode)
    &&& post.todo_list == pre.todo_list
    &&& post.navigation == pre.navigation
    &&& post.edit_state == pre.edit_state
    &&& post.search_state == pre.search_state
    &&& post.undo_manager == pre.undo_manager
    &&& post.should_quit == pre.should_quit
}

/// What one keystroke does in rename mode: cancel and confirm end the
/// rename (and ask to persist), every other action edits only the
/// buffer.
pub open spec fn edit_mode_step(pre: App, post: App, action: EditModeAction, r: bool) -> bool {
    match action {
        EditModeAction::CancelEdit => r && rename_cancelled(pre, post),
        EditModeAction::ConfirmEdit => r && rename_confirmed(pre, post),
        EditModeAction::Backspace => !r && char_erased_before(pre.edit_state, post.edit_state)
            && only_edit_changed(pre, post),
        EditModeAction::Delete => !r && char_erased_at(pre.edit_state, post.edit_state)
            && only_edit_changed(pre, post),
        EditModeAction::MoveCursorLeft => !r && cursor_stepped_left(
            pre.edit_state,
            post.edit_state,
        ) && only_edit_changed(pre, post),
        EditModeAction::MoveCursorRight => !r && cursor_stepped_right(
            pre.edit_state,
            post.edit_state,
        ) && only_edit_changed(pre, post),
        EditModeAction::MoveCursorHome => !r && cursor_at_home(pre.edit_state, post.edit_state)
            && only_edit_changed(pre, post),
        EditModeAction::MoveCursorEnd => !r && cursor_at_end(pre.edit_state, post.edit_state)
            && only_edit_changed(pre, post),
        EditModeAction::InsertChar(c) => !r && char_inserted(pre.edit_state, post.edit_state, c)
            && only_edit_changed(pre, post),
        EditModeAction::NoOp => !r && post == pre,
    }
}

/// What one keystroke does in search mode: the query grows or shrinks
/// with the matches recomputed, confirm leaves search mode on the first
/// match, cancel discards everything; the document never changes and
/// nothing asks to be persisted.
pub open spec fn search_mode_step(pre: App, post: App, action: SearchModeAction, r: bool) -> bool {
    let items = pre.todo_list.items@;
    &&& !r
    &&& post.todo_list == pre.todo_list
    &&& post.undo_manager == pre.undo_manager
    &&& post.edit_state == pre.edit_state
    &&& post.should_quit == pre.should_quit
    &&& post.help_mode == pre.help_mode
    &&& match action {
        SearchModeAction::CancelSearch => {
            &&& !post.search_state.search_mode
            &&& post.search_state.search_query@.len() == 0
            &&& results_cleared(post)
            &&& post.navigation == pre.navigation
        },
        SearchModeAction::ConfirmSearch => {
            &&& !post.search_state.search_mode
            &&& post.search_state.search_matches == pre.search_state.search_matches
            &&& post.search_state.search_query == pre.search_state.search_query
            &&& pre.search_state.search_matches@.len() > 0 ==> post.navigation.selected_index
                == pre.search_state.search_matches@[0] && post.search_state.current_match_index
                == Some(0usize) && post.navigation.selected_items@
                == pre.navigation.selected_items@
            &&& pre.search_state.search_matches@.len() == 0 ==> post.navigation == pre.navigation
                && post.search_state.current_match_index == pre.search_state.current_match_index
        },
        SearchModeAction::Backspace => {
            &&& post.navigation == pre.navigation
            &&& pre.search_state.search_query@.len() == 0 ==> post.search_state
                == pre.search_state
            &&& pre.search_state.search_query@.len() > 0 ==> {
                &&& post.search_state.search_query@ == pre.search_state.search_query@.drop_last()
                &&& post.search_state.search_matches@ == (
                if pre.search_state.search_query@.len() == 1 {
                    Seq::<usize>::empty()
                } else {
                    match_indices(
                        items,
                        pre.search_state.search_query@.drop_last(),
                        items.len() as int,
                    )
                })
                &&& post.search_state.current_match_index is None
                &&& post.search_state.search_mode == pre.search_state.search_mode
            }
        },
        SearchModeAction::InsertChar(c) => {
            &&& post.navigation == pre.navigation
            &&& post.search_state.search_query@ == pre.search_state.search_query@.push(c)
            &&& post.search_state.search_matches@ == match_indices(
                items,
                pre.search_state.search_query@.push(c),
                items.len() as int,
            )
            &&& post.search_state.current_match_index is None
            &&& post.search_state.search_mode == pre.search_state.search_mode
        },
        SearchModeAction::NoOp => post == pre,
    }
}

/// What one keystroke does in normal mode, action by action: the
/// structural operations mutate the document exactly as their engine
/// contracts say (snapshotting first and clearing the matches), the
/// navigation actions move only the focus and selection, and the result
/// is true exactly when the document changed and should be persisted.
pub open spec fn normal_mode_step(pre: App, post: App, action: NormalModeAction, r: bool) -> bool {
    let items = pre.todo_list.items@;
    let idx = pre.navigation.selected_index;
    match action {
        NormalModeAction::NoOp => !r && post == pre,
        NormalModeAction::Quit => {
            &&& !r
            &&& post.should_quit
            &&& post.todo_list == pre.todo_list
            &&& post.navigation == pre.navigation
            &&& post.edit_state == pre.edit_state
            &&& post.search_state == pre.search_state
            &&& post.undo_manager == pre.undo_manager
            &&& post.help_mode == pre.help_mode
        },
        NormalModeAction::HandleEscape => {
            &&& !r
            &&& post.todo_list == pre.todo_list
            &&& post.edit_state == pre.edit_state
            &&& post.undo_manager == pre.undo_manager
            &&& post.should_quit == pre.should_quit
            &&& post.help_mode == pre.help_mode
            &&& pre.search_state.search_matches@.len() > 0 ==> results_cleared(post)
                && post.navigation == pre.navigation
            &&& pre.search_state.search_matches@.len() == 0 ==> post.search_state
                == pre.search_state && post.navigation.selected_items@.is_empty()
                && post.navigation.selected_index == idx
        },
        NormalModeAction::MoveSelectionUp => {
            &&& !r
            &&& post.todo_list == pre.todo_list
            &&& post.edit_state == pre.edit_state
            &&& post.search_state == pre.search_state
            &&& post.undo_manager == pre.undo_manager
            &&& post.should_quit == pre.should_quit
            &&& post.help_mode == pre.help_mode
            &&& post.navigation.selected_index == (if idx > 0 {
                (idx - 1) as usize
            } else {
                0usize
            })
            &&& post.navigation.selected_items@ == pre.navigation.selected_items@
        },
        NormalModeAction::MoveSelectionDown => {
            &&& !r
            &&& post.todo_list == pre.todo_list
            &&& post.edit_state == pre.edit_state
            &&& post.search_state == pre.search_state
            &&& post.undo_manager == pre.undo_manager
            &&& post.should_quit == pre.should_quit
            &&& post.help_mode == pre.help_mode
            &&& post.navigation.selected_index == (if idx + 1 < items.len() {
                (idx + 1) as usize
            } else {
                idx
            })
            &&& post.navigation.selected_items@ == pre.navigation.selected_items@
        },
        NormalModeAction::MoveItemUp => {
            if 0 < idx < items.len() {
                &&& r
                &&& post.todo_list.items@ == items.update(idx - 1, items[idx as int]).update(
                    idx as int,
                    items[idx - 1],
                )
                &&& post.navigation.selected_index == idx - 1
                &&& post.navigation.selected_items@ == pre.navigation.selected_items@
                &&& snapshot_pushed(pre, post)
                &&& results_cleared(post)
                &&& post.edit_state == pre.edit_state
                &&& post.should_quit == pre.should_quit
                &&& post.help_mode == pre.help_mode
            } else {
                !r && post == pre
            }
        },
        NormalModeAction::MoveItemDown => {
            if idx + 1 < items.len() {
                &&& r
                &&& post.todo_list.items@ == items.update(idx as int, items[idx + 1]).update(
                    idx + 1,
                    items[idx as int],
                )
                &&& post.navigation.selected_index == idx + 1
                &&& post.navigation.selected_items@ == pre.navigation.selected_items@
                &&& snapshot_pushed(pre, post)
                &&& results_cleared(post)
                &&& post.edit_state == pre.edit_state
                &&& post.should_quit == pre.should_quit
                &&& post.help_mode == pre.help_mode
            } else {
                !r && post == pre
            }
        },
        NormalModeAction::IndentItem => {
            if can_indent(items, idx as int) {
                &&& r
                &&& post.todo_list.items@ == indent_transform(items, idx as int)
                &&& snapshot_pushed(pre, post)
                &&& results_cleared(post)
                &&& doc_op_frame(pre, post)
            } else {
                !r && post == pre
            }
        },
        NormalModeAction::UnindentItem => {
            if can_unindent(items, idx as int) {
                &&& r
                &&& post.todo_list.items@ == outdent_transform(items, idx as int)
                &&& snapshot_pushed(pre, post)
                &&& results_cleared(post)
                &&& doc_op_frame(pre, post)
            } else {
                !r && post == pre
            }
        },
        NormalModeAction::ToggleSelectedItem => {
            if (idx as int) < items.len() && items[idx as int] is Todo {
                &&& r
                &&& post.todo_list.items@ == items.update(
                    idx as int,
                    toggle_item(items[idx as int]),
                )
                &&& snapshot_pushed(pre, post)
                &&& results_cleared(post)
                &&& doc_op_frame(pre, post)
            } else {
                !r && post == pre
            }
        },
        NormalModeAction::EnterEditMode => {
            &&& !r
            &&& post.todo_list == pre.todo_list
            &&& post.navigation == pre.navigation
            &&& post.search_state == pre.search_state
            &&& post.undo_manager == pre.undo_manager
            &&& post.should_quit == pre.should_quit
            &&& post.help_mode == pre.help_mode
            &&& (idx as int) < items.len() ==> post.edit_state.edit_mode
                && post.edit_state.edit_buffer@ == content_of(items[idx as int])
            &&& (idx as int) >= items.len() ==> post.edit_state == pre.edit_state
        },
        NormalModeAction::AddNewTodo => !r && blank_todo_added(pre, post),
        NormalModeAction::AddNewTodoAtTop => !r && blank_todo_added_at_top(pre, post),
        NormalModeAction::HandleN => {
            &&& !r
            &&& pre.search_state.search_matches@.len() > 0
                && pre.search_state.current_match_index is Some ==> next_match_followed(pre, post)
            &&& !(pre.search_state.search_matches@.len() > 0
                && pre.search_state.current_match_index is Some) ==> blank_note_added(pre, post)
        },
        NormalModeAction::HandleShiftN => {
            &&& !r
            &&& pre.search_state.search_matches@.len() > 0
                && pre.search_state.current_match_index is Some ==> previous_match_followed(
                pre,
                post,
            )
            &&& !(pre.search_state.search_matches@.len() > 0
                && pre.search_state.current_match_index is Some) ==> blank_note_added_at_top(
                pre,
                post,
            )
        },
        NormalModeAction::ToggleItemSelection => {
            &&& !r
            &&& post.todo_list == pre.todo_list
            &&& post.edit_state == pre.edit_state
            &&& post.search_state == pre.search_state
            &&& post.undo_manager == pre.undo_manager
            &&& post.should_quit == pre.should_quit
            &&& post.help_mode == pre.help_mode
            &&& post.navigation.selected_index == idx
            &&& post.navigation.scroll_offset == pre.navigation.scroll_offset
            &&& post.navigation.selected_items@ == (if (idx as int) < items.len() {
                if pre.navigation.selected_items@.contains(idx) {
                    pre.navigation.selected_items@.remove(idx)
                } else {
                    pre.navigation.selected_items@.insert(idx)
                }
            } else {
                pre.navigation.selected_items@
            })
        },
        NormalModeAction::MoveSelectedItemsToCursor => {
            let sel = pre.navigation.selected_items@;
            if !sel.is_empty() && (idx as int) < items.len() {
                let p = idx + 1 - count_selected(sel, idx + 1);
                &&& r
                &&& post.todo_list.items@ == kept_items(items, sel, items.len() as int).take(
                    p as int,
                ) + picked_items(items, sel, items.len() as int) + kept_items(
                    items,
                    sel,
                    items.len() as int,
                ).skip(p as int)
                &&& post.navigation.selected_index == p
                &&& post.navigation.selected_items@.is_empty()
                &&& snapshot_pushed(pre, post)
                &&& results_cleared(post)
                &&& post.edit_state == pre.edit_state
                &&& post.should_quit == pre.should_quit
                &&& post.help_mode == pre.help_mode
            } else {
                !r && post == pre
            }
        },
        NormalModeAction::ToggleHelpMode => {
            &&& !r
            &&& post.help_mode
            &&& post.todo_list == pre.todo_list
            &&& post.navigation == pre.navigation
            &&& post.edit_state == pre.edit_state
            &&& post.search_state == pre.search_state
            &&& post.undo_manager == pre.undo_manager
            &&& post.should_quit == pre.should_quit
        },
        NormalModeAction::Undo => {
            if pre.undo_manager.undo_stack@.len() > 0 {
                let restored = pre.undo_manager.undo_stack@.last();
                &&& r
                &&& post.undo_manager.undo_stack@ == pre.undo_manager.undo_stack@.drop_last()
                &&& post.todo_list == restored.todo_list
                &&& post.navigation.selected_index == restored.selected_index
                &&& post.navigation.selected_items@ == restored.selected_items@
                &&& results_cleared(post)
                &&& post.edit_state == pre.edit_state
                &&& post.should_quit == pre.should_quit
                &&& post.help_mode == pre.help_mode
            } else {
                &&& !r
                &&& post.todo_list == pre.todo_list
                &&& post.undo_manager.undo_stack@ == pre.undo_manager.undo_stack@
                &&& post.navigation == pre.navigation
                &&& post.search_state == pre.search_state
                &&& post.edit_state == pre.edit_state
                &&& post.should_quit == pre.should_quit
                &&& post.help_mode == pre.help_mode
            }
        },
        NormalModeAction::EnterSearchMode => {
            &&& !r
            &&& post.search_state.search_mode
            &&& post.search_state.search_query@.len() == 0
            &&& results_cleared(post)
            &&& post.todo_list == pre.todo_list
            &&& post.navigation == pre.navigation
            &&& post.edit_state == pre.edit_state
            &&& post.undo_manager == pre.undo_manager
            &&& post.should_quit == pre.should_quit
            &&& post.help_mode == pre.help_mode
        },
        NormalModeAction::DeleteItem => {
            let sel = pre.navigation.selected_items@;
            if !sel.is_empty() {
                &&& r == (bulk_deleted_count(items, sel, items.len() as int) > 0)
                &&& post.todo_list.items@ == surviving_items(items, sel, items.len() as int)
                &&& post.navigation.selected_items@.is_empty()
                &&& snapshot_pushed(pre, post)
                &&& results_cleared(post)
                &&& post.navigation.selected_index == spec_clamped(
                    idx as int,
                    post.todo_list.items@.len() as int,
                )
                &&& post.edit_state == pre.edit_state
                &&& post.should_quit == pre.should_quit
                &&& post.help_mode == pre.help_mode
            } else {
                if (idx as int) < items.len() && !is_heading(items[idx as int]) {
                    &&& r
                    &&& post.todo_list.items@ == items.remove(idx as int)
                    &&& post.navigation.selected_items@.is_empty()
                    &&& snapshot_pushed(pre, post)
                    &&& results_cleared(post)
                    &&& post.navigation.selected_index == spec_clamped(
                        idx as int,
                        items.len() - 1,
                    )
                    &&& post.edit_state == pre.edit_state
                    &&& post.should_quit == pre.should_quit
                    &&& post.help_mode == pre.help_mode
                } else {
                    !r && post == pre
                }
            }
        },
    }
}

impl App {
    /// Apply one rename-mode action; the result asks for persistence
    /// exactly on cancel and confirm.
    fn handle_edit_action(&mut self, action: EditModeAction) -> (r: bool)
        requires
            old(self).wf(),
        ensures
            final(self).wf(),
            edit_mode_step(*old(self), *final(self), action, r),
    {
        match action {
            EditModeAction::CancelEdit => self.cancel_edit(),
            EditModeAction::ConfirmEdit => self.confirm_edit(),
            EditModeAction::Backspace => {
                self.edit_state.backspace();
                false
            },
            EditModeAction::Delete => {
                self.edit_state.delete();
                false
            },
            EditModeAction::MoveCursorLeft => {
                self.edit_state.move_cursor_left();
                false
            },
            EditModeAction::MoveCursorRight => {
                self.edit_state.move_cursor_right();
                false
            },
            EditModeAction::MoveCursorHome => {
                self.edit_state.move_cursor_home();
                false
            },
            EditModeAction::MoveCursorEnd => {
                self.edit_state.move_cursor_end();
                false
            },
            EditModeAction::InsertChar(c) => {
                self.edit_state.insert_char(c);
                false
            },
            EditModeAction::NoOp => false,
        }
    }

    /// Apply one search-mode action; the document never changes, so
    /// nothing asks for persistence.
    fn handle_search_action(&mut self, action: SearchModeAction) -> (r: bool)
        requires
            old(self).wf(),
        ensures
            final(self).wf(),
            search_mode_step(*old(self), *final(self), action, r),
    {
        match action {
            SearchModeAction::CancelSearch => {
                self.search_state.cancel_search();
            },
            SearchModeAction::ConfirmSearch => {
                proof {
                    lemma_match_indices_bounds(
                        self.todo_list.items@,
                        self.search_state.search_query@,
                        self.todo_list.items@.len() as int,
                    );
                }
                match self.search_state.confirm_search() {
                    Some(index) => {
                        self.navigation.selected_index = index;
                        self.navigation.update_scroll();
                    },
                    None => {},
                }
            },
            SearchModeAction::Backspace => {
                proof {
                    lemma_match_indices_bounds(
                        self.todo_list.items@,
                        self.search_state.search_query@.drop_last(),
                        self.todo_list.items@.len() as int,
                    );
                }
                self.search_state.backspace(&self.todo_list.items);
            },
            SearchModeAction::InsertChar(c) => {
                proof {
                    lemma_match_indices_bounds(
                        self.todo_list.items@,
                        self.search_state.search_query@.push(c),
                        self.todo_list.items@.len() as int,
                    );
                }
                self.search_state.insert_char(c, &self.todo_list.items);
            },
            SearchModeAction::NoOp => {},
        }
        false
    }

    /// Apply one normal-mode action; the result asks for persistence
    /// exactly when the document changed.
    fn handle_normal_action(&mut self, action: NormalModeAction) -> (r: bool)
        requires
            old(self).wf(),
        ensures
            final(self).wf(),
            normal_mode_step(*old(self), *final(self), action, r),
    {
        match action {
            NormalModeAction::Quit => {
                self.should_quit = true;
                false
            },
            NormalModeAction::HandleEscape => {
                self.handle_escape();
                false
            },
            NormalModeAction::MoveSelectionUp => {
                self.navigation.move_selection_up();
                false
            },
            NormalModeAction::MoveSelectionDown => {
                let count = self.todo_list.items.len();
                self.navigation.move_selection_down(count);
                false
            },
            NormalModeAction::MoveItemUp => {
                let idx = self.navigation.selected_index;
                match self.perform_move_item_up(idx) {
                    Some(new_index) => {
                        self.navigation.selected_index = new_index;
                        self.navigation.update_scroll();
                        true
                    },
                    None => false,
                }
            },
            NormalModeAction::MoveItemDown => {
                let idx = self.navigation.selected_index;
                match self.perform_move_item_down(idx) {
                    Some(new_index) => {
                        self.navigation.selected_index = new_index;
                        self.navigation.update_scroll();
                        true
                    },
                    None => false,
                }
            },
            NormalModeAction::IndentItem => {
                let idx = self.navigation.selected_index;
                self.perform_indent_item(idx)
            },
            NormalModeAction::UnindentItem => {
                let idx = self.navigation.selected_index;
                self.perform_unindent_item(idx)
            },
            NormalModeAction::ToggleSelectedItem => {
                let idx = self.navigation.selected_index;
                self.perform_toggle_completion(idx)
            },
            NormalModeAction::EnterEditMode => {
                let idx = self.navigation.selected_index;
                self.enter_edit_mode_for_item(idx);
                false
            },
            NormalModeAction::AddNewTodo => {
                self.add_new_todo();
                false
            },
            NormalModeAction::AddNewTodoAtTop => {
                self.add_new_todo_at_top();
                false
            },
            NormalModeAction::HandleN => {
                self.handle_n();
                false
            },
            NormalModeAction::HandleShiftN => {
                self.handle_shift_n();
                false
            },
            NormalModeAction::ToggleItemSelection => {
                let count = self.todo_list.items.len();
                self.navigation.toggle_item_selection(count);
                false
            },
            NormalModeAction::MoveSelectedItemsToCursor => {
                let selection = clone_index_set(&self.navigation.selected_items);
                let target = self.navigation.selected_index;
                let ghost pre = *self;
                match self.perform_bulk_move(&selection, target) {
                    Some(new_index) => {
                        proof {
                            let e = selection@.choose();
                            assert(selection@.contains(e));
                            lemma_count_selected_positive(
                                selection@,
                                e,
                                pre.todo_list.items@.len() as int,
                            );
                        }
                        self.navigation.selected_index = new_index;
                        self.navigation.clear_selection();
                        self.navigation.update_scroll();
                        true
                    },
                    None => false,
                }
            },
            NormalModeAction::ToggleHelpMode => {
                self.help_mode = true;
                false
            },
            NormalModeAction::Undo => self.perform_undo(),
            NormalModeAction::EnterSearchMode => {
                self.search_state.enter_search_mode();
                false
            },
            NormalModeAction::DeleteItem => {
                if self.navigation.has_selection() {
                    let selection = clone_index_set(&self.navigation.selected_items);
                    let count = self.perform_bulk_delete(&selection);
                    count > 0
                } else {
                    let idx = self.navigation.selected_index;
                    self.perform_delete_item(idx)
                }
            },
            NormalModeAction::NoOp => false,
        }
    }

    /// Route one keystroke through the active mode's binding table and
    /// apply the action; each mode's step relation pins what happened,
    /// and the result says whether the document changed and should be
    /// persisted.
    pub fn handle_key_event(&mut self, key_event: KeyInput) -> (r: bool)
        requires
            old(self).wf(),
        ensures
            final(self).wf(),
            old(self).help_mode ==> help_mode_step(
                *old(self),
                *final(self),
                spec_help_action(key_event),
                r,
            ),
            !old(self).help_mode && old(self).edit_state.edit_mode ==> edit_mode_step(
                *old(self),
                *final(self),
                spec_edit_action(key_event),
                r,
            ),
            !old(self).help_mode && !old(self).edit_state.edit_mode && old(
                self,
            ).search_state.search_mode ==> search_mode_step(
                *old(self),
                *final(self),
                spec_search_action(key_event),
                r,
            ),
            !old(self).help_mode && !old(self).edit_state.edit_mode && !old(
                self,
            ).search_state.search_mode ==> normal_mode_step(
                *old(self),
                *final(self),
                spec_normal_action(key_event),
                r,
            ),
    {
        if self.help_mode {
            match KeyHandler::handle_help_mode_key(key_event) {
                HelpModeAction::ExitHelpMode => {
                    self.help_mode = false;
                },
                HelpModeAction::NoOp => {},
            }
            false
        } else if self.edit_state.edit_mode {
            let action = KeyHandler::handle_edit_mode_key(key_event);
            self.handle_edit_action(action)
        } else if self.search_state.search_mode {
            let action = KeyHandler::handle_search_mode_key(key_event);
            self.handle_search_action(action)
        } else {
            let action = KeyHandler::handle_normal_mode_key(key_event);
            self.handle_normal_action(action)
        }
    }
}

} // verus!

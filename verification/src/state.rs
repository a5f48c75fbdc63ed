//! A saved session state: the document together with the focus and the
//! bulk selection, as one value that the undo stack can hold.

use vstd::prelude::*;
use std::collections::HashSet;
use crate::models::TodoList;

verus! {

/// Relies on HashSet::clone: the copy holds the same keys.
#[verifier::external_body]
pub fn clone_index_set(s: &HashSet<usize>) -> (r: HashSet<usize>)
    ensures
        r@ == s@,
{
    s.clone()
}

/// An immutable deep copy of {document, focused index, selection},
/// pushed before a mutation and written back on undo.
#[derive(Debug)]
pub struct AppState {
    pub todo_list: TodoList,
    pub selected_index: usize,
    pub selected_items: HashSet<usize>,
}

impl AppState {
    /// The focus sits inside the document (or at zero when the
    /// document is empty) and every selected position exists.
    pub open spec fn wf(&self) -> bool {
        &&& self.selected_index < self.todo_list.items@.len() || (self.todo_list.items@.len() == 0
            && self.selected_index == 0)
        &&& forall|i: usize|
            self.selected_items@.contains(i) ==> (i as int) < self.todo_list.items@.len()
    }

    pub fn new(todo_list: TodoList, selected_index: usize, selected_items: HashSet<usize>) -> (r:
        Self)
        ensures
            r.todo_list == todo_list,
            r.selected_index == selected_index,
            r.selected_items == selected_items,
    {
        Self { todo_list, selected_index, selected_items }
    }
}

} // verus!

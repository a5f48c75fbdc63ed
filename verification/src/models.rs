//! The item model: tasks, notes and headings, and the ordered document
//! that owns them.

use vstd::prelude::*;

verus! {

/// One entry of a document.  Order inside the owning `TodoList` is the
/// sole source of structure; a task's or note's children are the
/// contiguous run of deeper items that follows it.
#[derive(Debug)]
pub enum ListItem {
    Todo { content: String, completed: bool, indent_level: usize, line_number: usize },
    Note { content: String, indent_level: usize, line_number: usize },
    Heading { content: String, level: usize, line_number: usize },
}

/// Indentation depth used by the block rules: headings always act as
/// depth zero.
pub open spec fn depth_of(it: ListItem) -> nat {
    match it {
        ListItem::Todo { indent_level, .. } => indent_level as nat,
        ListItem::Note { indent_level, .. } => indent_level as nat,
        ListItem::Heading { .. } => 0,
    }
}

pub open spec fn is_heading(it: ListItem) -> bool {
    it is Heading
}

pub open spec fn is_todo(it: ListItem) -> bool {
    it is Todo
}

/// The text carried by an item, whatever its kind.
pub open spec fn content_of(it: ListItem) -> Seq<char> {
    match it {
        ListItem::Todo { content, .. } => content@,
        ListItem::Note { content, .. } => content@,
        ListItem::Heading { content, .. } => content@,
    }
}

impl ListItem {
    pub fn new_todo(content: String, completed: bool, indent_level: usize, line_number: usize) -> (r: Self)
        ensures
            r == (ListItem::Todo { content, completed, indent_level, line_number }),
    {
        Self::Todo { content, completed, indent_level, line_number }
    }

    pub fn new_note(content: String, indent_level: usize, line_number: usize) -> (r: Self)
        ensures
            r == (ListItem::Note { content, indent_level, line_number }),
    {
        Self::Note { content, indent_level, line_number }
    }

    pub fn new_heading(content: String, level: usize, line_number: usize) -> (r: Self)
        ensures
            r == (ListItem::Heading { content, level, line_number }),
    {
        Self::Heading { content, level, line_number }
    }

    pub fn is_completed(&self) -> (r: bool)
        ensures
            r == self.spec_completed(),
    {
        match self {
            Self::Todo { completed, .. } => *completed,
            Self::Note { .. } => false,
            Self::Heading { .. } => false,
        }
    }

    /// Whether the item is a task marked done; notes and headings never are.
    pub open spec fn spec_completed(&self) -> bool {
        match self {
            ListItem::Todo { completed, .. } => *completed,
            _ => false,
        }
    }

    /// Indentation depth as the block rules see it: headings count as zero.
    pub fn depth(&self) -> (r: usize)
        ensures
            r as nat == depth_of(*self),
    {
        match self {
            Self::Todo { indent_level, .. } => *indent_level,
            Self::Note { indent_level, .. } => *indent_level,
            Self::Heading { .. } => 0,
        }
    }

    pub fn is_heading_item(&self) -> (r: bool)
        ensures
            r == is_heading(*self),
    {
        matches!(self, Self::Heading { .. })
    }

    pub fn content(&self) -> (r: &str)
        ensures
            r@ == content_of(*self),
    {
        match self {
            Self::Todo { content, .. } => content.as_str(),
            Self::Note { content, .. } => content.as_str(),
            Self::Heading { content, .. } => content.as_str(),
        }
    }
}

impl Clone for ListItem {
    fn clone(&self) -> (r: Self)
        ensures
            r == *self,
    {
        match self {
            Self::Todo { content, completed, indent_level, line_number } => Self::Todo {
                content: content.clone(),
                completed: *completed,
                indent_level: *indent_level,
                line_number: *line_number,
            },
            Self::Note { content, indent_level, line_number } => Self::Note {
                content: content.clone(),
                indent_level: *indent_level,
                line_number: *line_number,
            },
            Self::Heading { content, level, line_number } => Self::Heading {
                content: content.clone(),
                level: *level,
                line_number: *line_number,
            },
        }
    }
}

/// The mathematical shape of an item: its fields over character
/// sequences and unbounded numbers, for use in specifications.
pub enum ItemModel {
    Todo { content: Seq<char>, completed: bool, depth: nat, line: nat },
    Note { content: Seq<char>, depth: nat, line: nat },
    Heading { content: Seq<char>, level: nat, line: nat },
}

/// The mathematical shape of an item.
pub open spec fn model_of(it: ListItem) -> ItemModel {
    match it {
        ListItem::Todo { content, completed, indent_level, line_number } => ItemModel::Todo {
            content: content@,
            completed,
            depth: indent_level as nat,
            line: line_number as nat,
        },
        ListItem::Note { content, indent_level, line_number } => ItemModel::Note {
            content: content@,
            depth: indent_level as nat,
            line: line_number as nat,
        },
        ListItem::Heading { content, level, line_number } => ItemModel::Heading {
            content: content@,
            level: level as nat,
            line: line_number as nat,
        },
    }
}

/// How many of the first `n` items satisfy `is_todo`.
pub open spec fn count_todos(s: Seq<ListItem>, n: int) -> nat
    decreases n,
{
    if n <= 0 {
        0
    } else {
        count_todos(s, n - 1) + (if is_todo(s[n - 1]) { 1nat } else { 0nat })
    }
}

/// How many of the first `n` items are completed tasks.
pub open spec fn count_completed(s: Seq<ListItem>, n: int) -> nat
    decreases n,
{
    if n <= 0 {
        0
    } else {
        count_completed(s, n - 1) + (if s[n - 1].spec_completed() { 1nat } else { 0nat })
    }
}

/// The ordered document: a flat item sequence plus the path it came
/// from (opaque to the engine, used only by the persistence layer).
#[derive(Debug)]
pub struct TodoList {
    pub items: Vec<ListItem>,
    pub file_path: String,
}

impl TodoList {
    pub fn new(file_path: String) -> (r: Self)
        ensures
            r.items@ =~= Seq::<ListItem>::empty(),
            r.file_path == file_path,
    {
        Self { items: Vec::new(), file_path }
    }

    pub fn add_item(&mut self, item: ListItem)
        ensures
            final(self).items@ == old(self).items@.push(item),
            final(self).file_path == old(self).file_path,
    {
        self.items.push(item);
    }

    /// Number of tasks in the document (notes and headings not counted).
    pub fn total_items(&self) -> (r: usize)
        ensures
            r == count_todos(self.items@, self.items@.len() as int),
    {
        let mut n: usize = 0;
        let mut i: usize = 0;
        while i < self.items.len()
            invariant
                i <= self.items@.len(),
                n == count_todos(self.items@, i as int),
                n <= i,
            decreases self.items@.len() - i,
        {
            if matches!(&self.items[i], ListItem::Todo { .. }) {
                n = n + 1;
            }
            i = i + 1;
        }
        n
    }

    /// Number of completed tasks in the document.
    pub fn completed_items(&self) -> (r: usize)
        ensures
            r == count_completed(self.items@, self.items@.len() as int),
    {
        let mut n: usize = 0;
        let mut i: usize = 0;
        while i < self.items.len()
            invariant
                i <= self.items@.len(),
                n == count_completed(self.items@, i as int),
                n <= i,
            decreases self.items@.len() - i,
        {
            if self.items[i].is_completed() {
                n = n + 1;
            }
            i = i + 1;
        }
        n
    }
}

impl Clone for TodoList {
    fn clone(&self) -> (r: Self)
        ensures
            r.items@ == self.items@,
            r.file_path == self.file_path,
    {
        let mut copy: Vec<ListItem> = Vec::new();
        let mut i: usize = 0;
        while i < self.items.len()
            invariant
                i <= self.items@.len(),
                copy@ =~= self.items@.take(i as int),
            decreases self.items@.len() - i,
        {
            copy.push(self.items[i].clone());
            i = i + 1;
        }
        proof {
            assert(copy@ =~= self.items@);
        }
        Self { items: copy, file_path: self.file_path.clone() }
    }
}

} // verus!

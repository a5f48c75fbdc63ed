//! Serialization of the document back to its line-oriented text shape:
//! one line per item, two spaces per indentation level, checkbox
//! markers for tasks, dashes for notes and hash runs for headings.

use vstd::prelude::*;
use crate::models::{ListItem, TodoList};

verus! {

/// Two spaces for every indentation level.
pub open spec fn indent_text(n: nat) -> Seq<char>
    decreases n,
{
    if n == 0 {
        Seq::empty()
    } else {
        indent_text((n - 1) as nat) + "  "@
    }
}

/// A run of `n` hash marks.
pub open spec fn hashes_text(n: nat) -> Seq<char>
    decreases n,
{
    if n == 0 {
        Seq::empty()
    } else {
        hashes_text((n - 1) as nat) + "#"@
    }
}

/// The text line of one item, without its newline.
pub open spec fn render_item(it: ListItem) -> Seq<char> {
    match it {
        ListItem::Todo { content, completed, indent_level, .. } => indent_text(indent_level as nat)
            + (if completed {
            "- [x] "@
        } else {
            "- [ ] "@
        }) + content@,
        ListItem::Note { content, indent_level, .. } => indent_text(indent_level as nat) + "- "@
            + content@,
        ListItem::Heading { content, level, .. } => hashes_text(level as nat) + " "@ + content@,
    }
}

/// All item lines, each followed by a newline.
pub open spec fn render_items(s: Seq<ListItem>) -> Seq<char>
    decreases s.len(),
{
    if s.len() == 0 {
        Seq::empty()
    } else {
        render_items(s.drop_last()) + render_item(s.last()) + "\n"@
    }
}

/// The serialized document: every line newline-terminated, and a bare
/// newline for the empty document.
pub open spec fn render_doc(s: Seq<ListItem>) -> Seq<char> {
    if s.len() == 0 {
        "\n"@
    } else {
        render_items(s)
    }
}

/// Two spaces per level, built as text.
fn indent_string(n: usize) -> (r: String)
    ensures
        r@ == indent_text(n as nat),
{
    let mut out = String::new();
    let mut i: usize = 0;
    while i < n
        invariant
            i <= n,
            out@ == indent_text(i as nat),
        decreases n - i,
    {
        out.append("  ");
        i = i + 1;
    }
    out
}

/// A run of hash marks, built as text.
fn hashes_string(n: usize) -> (r: String)
    ensures
        r@ == hashes_text(n as nat),
{
    let mut out = String::new();
    let mut i: usize = 0;
    while i < n
        invariant
            i <= n,
            out@ == hashes_text(i as nat),
        decreases n - i,
    {
        out.append("#");
        i = i + 1;
    }
    out
}

/// One item's text line, without its newline.
fn render_item_string(it: &ListItem) -> (r: String)
    ensures
        r@ == render_item(*it),
{
    match it {
        ListItem::Todo { content, completed, indent_level, .. } => {
            let mut out = indent_string(*indent_level);
            if *completed {
                out.append("- [x] ");
            } else {
                out.append("- [ ] ");
            }
            out.append(content.as_str());
            out
        },
        ListItem::Note { content, indent_level, .. } => {
            let mut out = indent_string(*indent_level);
            out.append("- ");
            out.append(content.as_str());
            out
        },
        ListItem::Heading { content, level, .. } => {
            let mut out = hashes_string(*level);
            out.append(" ");
            out.append(content.as_str());
            out
        },
    }
}

/// Serialize the whole document, one newline-terminated line per item;
/// an empty document serializes to a single newline.
pub fn serialize_todo_list(todo_list: &TodoList) -> (r: String)
    ensures
        r@ == render_doc(todo_list.items@),
{
    if todo_list.items.len() == 0 {
        return String::from_str("\n");
    }
    let mut out = String::new();
    let mut i: usize = 0;
    while i < todo_list.items.len()
        invariant
            i <= todo_list.items@.len(),
            out@ == render_items(todo_list.items@.take(i as int)),
        decreases todo_list.items@.len() - i,
    {
        let line = render_item_string(&todo_list.items[i]);
        out.append(line.as_str());
        out.append("\n");
        proof {
            assert(todo_list.items@.take(i + 1).drop_last() =~= todo_list.items@.take(i as int));
            assert(todo_list.items@.take(i + 1).last() == todo_list.items@[i as int]);
        }
        i = i + 1;
    }
    proof {
        assert(todo_list.items@.take(todo_list.items@.len() as int) =~= todo_list.items@);
    }
    out
}

/// What a document offers its persistence layer: write yourself to
/// your backing store, reporting success.
pub trait Persistence {
    fn save_to_file(&self) -> bool;
}

} // verus!

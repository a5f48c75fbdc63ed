//! Parsing the line-oriented text shape into items: checkbox lines
//! become tasks, plain bullet lines become notes, hash-prefixed lines
//! become headings, and YAML front matter between `---` delimiters is
//! skipped.

use vstd::prelude::*;
use crate::models::{ItemModel, ListItem, TodoList, model_of};
use crate::text::{
    byte_len, char_w, char_width, is_space, is_whitespace_char, lemma_width_prefix_mono, total_w,
    trim_spec, trim_start_spec, trim_start_str, trim_str,
};

verus! {

/// The length of the run of spaces starting at `i`.
pub open spec fn count_spaces_from(s: Seq<char>, i: int) -> nat
    decreases s.len() - i,
{
    if i < 0 || i >= s.len() || s[i] != ' ' {
        0
    } else {
        1 + count_spaces_from(s, i + 1)
    }
}

/// The indentation scan: every leading tab counts one level; on the
/// first space the level is instead the line's leading space count
/// halved (two spaces per level); any other character ends the scan.
pub open spec fn indent_scan(s: Seq<char>, i: int, acc: nat) -> nat
    decreases s.len() - i,
{
    if i < 0 || i >= s.len() {
        acc
    } else if s[i] == '\t' {
        indent_scan(s, i + 1, acc + 1)
    } else if s[i] == ' ' {
        count_spaces_from(s, 0) / 2
    } else {
        acc
    }
}

/// The indentation level a raw line encodes.
pub open spec fn spec_indent_level(s: Seq<char>) -> nat {
    indent_scan(s, 0, 0)
}

/// The length of the run of hash marks starting at `i`.
pub open spec fn count_hashes_from(s: Seq<char>, i: int) -> nat
    decreases s.len() - i,
{
    if i < 0 || i >= s.len() || s[i] != '#' {
        0
    } else {
        1 + count_hashes_from(s, i + 1)
    }
}

/// A heading line: leading hash marks give the level, the rest (leading
/// whitespace dropped) must be non-empty content.
pub open spec fn spec_heading(s: Seq<char>) -> Option<(nat, Seq<char>)> {
    if s.len() == 0 || s[0] != '#' {
        None
    } else {
        let level = count_hashes_from(s, 0);
        if s.len() > level {
            let content = trim_start_spec(s.skip(level as int));
            if content.len() > 0 {
                Some((level, content))
            } else {
                None
            }
        } else {
            None
        }
    }
}

/// A checkbox line `- [.] content`: the bracketed state character must
/// be a single byte wide (a wider one would shift the closing bracket
/// out of its expected byte position), and the trimmed content must be
/// non-empty.
pub open spec fn spec_checkbox(s: Seq<char>) -> Option<Seq<char>> {
    if s.len() > 5 && s[0] == '-' && s[1] == ' ' && s[2] == '[' && s[3] != ']' && char_w(s[3]) == 1
        && s[4] == ']' {
        let start: int = if s[5] == ' ' {
            6
        } else {
            5
        };
        let content = trim_spec(s.skip(start));
        if s.len() > start && content.len() > 0 {
            Some(content)
        } else {
            None
        }
    } else {
        None
    }
}

/// Whether a checkbox line is marked done: an `x` or `X` in the
/// bracket, on a line longer than the bare `- [.]` prefix in bytes.
pub open spec fn spec_checkbox_completed(s: Seq<char>) -> bool {
    s.len() >= 4 && total_w(s) > 4 && (s[3] == 'x' || s[3] == 'X')
}

/// A plain bullet line `- content` that is not a checkbox, with
/// non-empty trimmed content.
pub open spec fn spec_bullet(s: Seq<char>) -> Option<Seq<char>> {
    if s.len() > 2 && s[0] == '-' && s[1] == ' ' {
        if s[2] == '[' && total_w(s) > 4 {
            None
        } else {
            let content = trim_spec(s.skip(2));
            if content.len() > 0 {
                Some(content)
            } else {
                None
            }
        }
    } else {
        None
    }
}

/// What one raw line parses to: nothing for blank or unrecognized
/// lines, otherwise a heading, a task or a note carrying the line
/// number.
pub open spec fn spec_parse_line(s: Seq<char>, ln: nat) -> Option<ItemModel> {
    let t = trim_spec(s);
    if t.len() == 0 {
        None
    } else if spec_heading(t) is Some {
        let h = spec_heading(t)->0;
        Some(ItemModel::Heading { content: h.1, level: h.0, line: ln })
    } else {
        let ts = trim_start_spec(s);
        let depth = spec_indent_level(s);
        if spec_checkbox(ts) is Some {
            Some(
                ItemModel::Todo {
                    content: spec_checkbox(ts)->0,
                    completed: spec_checkbox_completed(ts),
                    depth,
                    line: ln,
                },
            )
        } else if spec_bullet(ts) is Some {
            Some(ItemModel::Note { content: spec_bullet(ts)->0, depth, line: ln })
        } else {
            None
        }
    }
}

/// The indentation level a raw line encodes: tabs count one level
/// each, and a leading-space line counts two spaces per level.
pub fn calculate_indent_level(line: &str) -> (r: usize)
    ensures
        r == spec_indent_level(line@),
{
    let n = line.unicode_len();
    let mut i: usize = 0;
    let mut acc: usize = 0;
    while i < n
        invariant
            i <= n,
            n == line@.len(),
            acc == i,
            indent_scan(line@, 0, 0) == indent_scan(line@, i as int, acc as nat),
            forall|k: int| 0 <= k < i ==> line@[k] == '\t',
        decreases n - i,
    {
        let c = line.get_char(i);
        if c == '\t' {
            acc = acc + 1;
            i = i + 1;
        } else if c == ' ' {
            let mut spaces: usize = 0;
            while spaces < n && line.get_char(spaces) == ' '
                invariant
                    spaces <= n,
                    n == line@.len(),
                    count_spaces_from(line@, 0) == spaces + count_spaces_from(
                        line@,
                        spaces as int,
                    ),
                    forall|k: int| 0 <= k < spaces ==> line@[k] == ' ',
                decreases n - spaces,
            {
                spaces = spaces + 1;
            }
            return spaces / 2;
        } else {
            return acc;
        }
    }
    acc
}

/// Recognize a heading line, returning its level and content.
pub fn extract_heading_content(line: &str) -> (r: Option<(usize, String)>)
    ensures
        r is Some <==> spec_heading(line@) is Some,
        r is Some ==> (r->0).0 == (spec_heading(line@)->0).0 && ((r->0).1)@ == (spec_heading(
            line@,
        )->0).1,
{
    let n = line.unicode_len();
    if n == 0 || line.get_char(0) != '#' {
        return None;
    }
    let mut level: usize = 0;
    while level < n && line.get_char(level) == '#'
        invariant
            level <= n,
            n == line@.len(),
            count_hashes_from(line@, 0) == level + count_hashes_from(line@, level as int),
        decreases n - level,
    {
        level = level + 1;
    }
    if n > level {
        let content = trim_start_str(line.substring_char(level, n));
        proof {
            assert(line@.subrange(level as int, n as int) =~= line@.skip(level as int));
        }
        if !content.is_empty() {
            return Some((level, content.to_owned()));
        }
    }
    None
}

/// Recognize a checkbox line, returning its trimmed content.
pub fn extract_checkbox_content(line: &str) -> (r: Option<String>)
    ensures
        r is Some <==> spec_checkbox(line@) is Some,
        r is Some ==> r->0@ == spec_checkbox(line@)->0,
{
    let n = line.unicode_len();
    if n > 5 && line.get_char(0) == '-' && line.get_char(1) == ' ' && line.get_char(2) == '['
        && line.get_char(3) != ']' && char_width(line.get_char(3)) == 1 && line.get_char(4)
        == ']' {
        let start: usize = if line.get_char(5) == ' ' {
            6
        } else {
            5
        };
        if n > start {
            let content = trim_str(line.substring_char(start, n));
            proof {
                assert(line@.subrange(start as int, n as int) =~= line@.skip(start as int));
            }
            if !content.is_empty() {
                return Some(content.to_owned());
            }
        }
    }
    None
}

/// Whether a checkbox line is marked done.
pub fn is_checkbox_completed(line: &str) -> (r: bool)
    ensures
        r == spec_checkbox_completed(line@),
{
    let n = line.unicode_len();
    if n < 4 {
        return false;
    }
    if byte_len(line) <= 4 {
        return false;
    }
    let c = line.get_char(3);
    c == 'x' || c == 'X'
}

/// Recognize a plain bullet line, returning its trimmed content.
pub fn extract_bullet_content(line: &str) -> (r: Option<String>)
    ensures
        r is Some <==> spec_bullet(line@) is Some,
        r is Some ==> r->0@ == spec_bullet(line@)->0,
{
    let n = line.unicode_len();
    if n > 2 && line.get_char(0) == '-' && line.get_char(1) == ' ' {
        if line.get_char(2) == '[' && byte_len(line) > 4 {
            return None;
        }
        let content = trim_str(line.substring_char(2, n));
        proof {
            assert(line@.subrange(2, n as int) =~= line@.skip(2));
        }
        if !content.is_empty() {
            return Some(content.to_owned());
        }
    }
    None
}

/// Parse one raw line into an item, or nothing for blank and
/// unrecognized lines.
pub fn parse_line(line: &str, line_number: usize) -> (r: Option<ListItem>)
    ensures
        r is Some <==> spec_parse_line(line@, line_number as nat) is Some,
        r is Some ==> model_of(r->0) == spec_parse_line(line@, line_number as nat)->0,
{
    let trimmed = trim_str(line);
    if trimmed.is_empty() {
        return None;
    }
    match extract_heading_content(trimmed) {
        Some((level, content)) => {
            return Some(ListItem::new_heading(content, level, line_number));
        },
        None => {},
    }
    let trimmed_start = trim_start_str(line);
    let indent_level = calculate_indent_level(line);
    match extract_checkbox_content(trimmed_start) {
        Some(content) => {
            let completed = is_checkbox_completed(trimmed_start);
            return Some(ListItem::new_todo(content, completed, indent_level, line_number));
        },
        None => {},
    }
    match extract_bullet_content(trimmed_start) {
        Some(content) => {
            return Some(ListItem::new_note(content, indent_level, line_number));
        },
        None => {},
    }
    None
}

/// The position of the first newline at or after `i`; the length when
/// there is none.
pub open spec fn find_nl(s: Seq<char>, i: int) -> int
    decreases s.len() - i,
{
    if i < 0 || i >= s.len() {
        s.len() as int
    } else if s[i] == '\n' {
        i
    } else {
        find_nl(s, i + 1)
    }
}

/// A line with one trailing carriage return removed.
pub open spec fn strip_cr(l: Seq<char>) -> Seq<char> {
    if l.len() > 0 && l.last() == '\r' {
        l.drop_last()
    } else {
        l
    }
}

proof fn lemma_find_nl_bounds(s: Seq<char>, i: int)
    requires
        0 <= i <= s.len(),
    ensures
        i <= find_nl(s, i) <= s.len(),
    decreases s.len() - i,
{
    if i < s.len() && s[i] != '\n' {
        lemma_find_nl_bounds(s, i + 1);
    }
}

/// The lines of the text from position `pos` on: newline-separated,
/// each with a trailing carriage return stripped, and no empty line
/// after a trailing newline.
pub open spec fn spec_lines_from(s: Seq<char>, pos: int) -> Seq<Seq<char>>
    decreases s.len() - pos + 1,
        via spec_lines_from_decreases
{
    if pos < 0 || pos >= s.len() {
        Seq::empty()
    } else {
        let j = find_nl(s, pos);
        seq![strip_cr(s.subrange(pos, j))] + spec_lines_from(s, j + 1)
    }
}

#[via_fn]
proof fn spec_lines_from_decreases(s: Seq<char>, pos: int) {
    if 0 <= pos < s.len() {
        lemma_find_nl_bounds(s, pos);
    }
}

/// What a whole text parses to, one item per recognized line outside
/// the front matter; a `---` line toggles front-matter mode and both
/// delimiter and enclosed lines yield nothing.
pub open spec fn spec_parse_doc(lines: Seq<Seq<char>>, i: int, in_fm: bool) -> Seq<ItemModel>
    decreases lines.len() - i,
{
    if i < 0 || i >= lines.len() {
        Seq::empty()
    } else if trim_spec(lines[i]) == seq!['-', '-', '-'] {
        spec_parse_doc(lines, i + 1, !in_fm)
    } else if in_fm {
        spec_parse_doc(lines, i + 1, in_fm)
    } else {
        (match spec_parse_line(lines[i], i as nat) {
            Some(m) => seq![m],
            None => Seq::empty(),
        }) + spec_parse_doc(lines, i + 1, in_fm)
    }
}

/// Split a text into its lines, as iterating them would yield them.
fn split_lines(content: &str) -> (r: Vec<String>)
    ensures
        r@.map_values(|l: String| l@) == spec_lines_from(content@, 0),
{
    let n = content.unicode_len();
    let mut out: Vec<String> = Vec::new();
    let mut pos: usize = 0;
    while pos < n
        invariant
            pos <= n + 1,
            n == content@.len(),
            spec_lines_from(content@, 0) == out@.map_values(|l: String| l@) + spec_lines_from(
                content@,
                pos as int,
            ),
        decreases n + 1 - pos,
    {
        let mut j = pos;
        while j < n && content.get_char(j) != '\n'
            invariant
                pos <= j <= n,
                n == content@.len(),
                find_nl(content@, pos as int) == find_nl(content@, j as int),
            decreases n - j,
        {
            j = j + 1;
        }
        let line_end = if j > pos && content.get_char(j - 1) == '\r' {
            j - 1
        } else {
            j
        };
        let line = content.substring_char(pos, line_end).to_owned();
        proof {
            assert(find_nl(content@, pos as int) == j);
            if j > pos && content@[j as int - 1] == '\r' {
                assert(line@ =~= strip_cr(content@.subrange(pos as int, j as int)));
            } else {
                assert(line@ =~= strip_cr(content@.subrange(pos as int, j as int)));
            }
        }
        out.push(line);
        proof {
            assert(out@.map_values(|l: String| l@) =~= out@.drop_last().map_values(
                |l: String| l@,
            ).push(line@));
            assert(spec_lines_from(content@, pos as int) == seq![
                strip_cr(content@.subrange(pos as int, j as int)),
            ] + spec_lines_from(content@, j + 1));
            if j == n {
                assert(spec_lines_from(content@, j + 1) =~= spec_lines_from(
                    content@,
                    n as int,
                ));
            }
        }
        pos = if j == n {
            n
        } else {
            j + 1
        };
    }
    out
}

/// Parse a whole text into a document: each recognized line becomes an
/// item carrying its line number, YAML front matter between `---`
/// delimiters is skipped, and the given path is kept as the document's
/// handle.
pub fn parse_todo_content(file_path: String, content: &str) -> (r: TodoList)
    ensures
        r.file_path == file_path,
        r.items@.map_values(|it: ListItem| model_of(it)) == spec_parse_doc(
            spec_lines_from(content@, 0),
            0,
            false,
        ),
{
    let lines = split_lines(content);
    let ghost glines = spec_lines_from(content@, 0);
    let mut todo_list = TodoList::new(file_path);
    let mut in_fm = false;
    let mut i: usize = 0;
    while i < lines.len()
        invariant
            i <= lines@.len(),
            lines@.map_values(|l: String| l@) == glines,
            glines.len() == lines@.len(),
            spec_parse_doc(glines, 0, false) == todo_list.items@.map_values(
                |it: ListItem| model_of(it),
            ) + spec_parse_doc(glines, i as int, in_fm),
            todo_list.file_path == file_path,
        decreases lines@.len() - i,
    {
        let line = &lines[i];
        proof {
            assert(glines[i as int] == line@);
        }
        if is_front_matter_delimiter(line.as_str()) {
            in_fm = !in_fm;
        } else if in_fm {
            // front-matter lines carry no items
        } else {
            match parse_line(line.as_str(), i) {
                Some(item) => {
                    todo_list.add_item(item);
                    proof {
                        assert(todo_list.items@.map_values(|it: ListItem| model_of(it))
                            =~= todo_list.items@.drop_last().map_values(
                            |it: ListItem| model_of(it),
                        ).push(model_of(item)));
                    }
                },
                None => {},
            }
        }
        i = i + 1;
    }
    todo_list
}

/// Whether the trimmed line is the front-matter delimiter `---`.
fn is_front_matter_delimiter(line: &str) -> (r: bool)
    ensures
        r == (trim_spec(line@) == seq!['-', '-', '-']),
{
    let t = trim_str(line);
    let n = t.unicode_len();
    if n == 3 && t.get_char(0) == '-' && t.get_char(1) == '-' && t.get_char(2) == '-' {
        proof {
            assert(trim_spec(line@) =~= seq!['-', '-', '-']);
        }
        true
    } else {
        proof {
            if trim_spec(line@) == seq!['-', '-', '-'] {
                assert(false);
            }
        }
        false
    }
}

} // verus!

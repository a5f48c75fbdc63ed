//! The rename buffer: a text string with a byte-offset cursor that
//! always sits on a character boundary, whatever sequence of edits and
//! cursor moves is applied, multi-byte characters included.  All
//! operations are no-ops at the buffer extremities.

use vstd::prelude::*;
use crate::text::{
    byte_len, char_w, char_width, is_space, is_whitespace_char, lemma_width_prefix_agree,
    lemma_width_prefix_mono, lemma_width_prefix_unique, push_char, total_w, width_prefix,
};

verus! {

/// A byte offset that coincides with the encoded width of some prefix
/// of the characters: a valid character boundary.
pub open spec fn is_boundary(s: Seq<char>, off: nat) -> bool {
    exists|k: int| 0 <= k <= s.len() && width_prefix(s, k) == off
}

/// The character count whose encoded width is the given boundary
/// offset; unique because widths grow strictly.
pub open spec fn idx_at(s: Seq<char>, off: nat) -> int {
    choose|k: int| 0 <= k <= s.len() && width_prefix(s, k) == off
}

/// Where a backward word-scan from position `i` lands: the start of
/// the latest maximal run of non-whitespace seen so far (`cur` when
/// none has been entered), stopping at the first whitespace after the
/// run.
pub open spec fn word_start_back(s: Seq<char>, i: int, in_word: bool, cur: int) -> int
    decreases i + 1,
{
    if i < 0 {
        cur
    } else if is_space(s[i]) {
        if in_word {
            cur
        } else {
            word_start_back(s, i - 1, in_word, cur)
        }
    } else {
        word_start_back(s, i - 1, true, i)
    }
}

/// The first position at or after `i` holding whitespace; the length
/// when there is none.
pub open spec fn skip_word(s: Seq<char>, i: int) -> int
    decreases s.len() - i,
{
    if i < 0 || i >= s.len() || is_space(s[i]) {
        i
    } else {
        skip_word(s, i + 1)
    }
}

/// The first position at or after `i` holding non-whitespace; the
/// length when there is none.
pub open spec fn skip_spaces(s: Seq<char>, i: int) -> int
    decreases s.len() - i,
{
    if i < 0 || i >= s.len() || !is_space(s[i]) {
        i
    } else {
        skip_spaces(s, i + 1)
    }
}

/// Where the cursor lands moving one word forward from character `k`:
/// past the current run of non-whitespace, then past the whitespace
/// after it.
pub open spec fn next_word_index(s: Seq<char>, k: int) -> int {
    skip_spaces(s, skip_word(s, k))
}

proof fn lemma_word_start_back_bound(s: Seq<char>, i: int, in_word: bool, cur: int, bound: int)
    requires
        cur <= bound,
        i < bound,
    ensures
        word_start_back(s, i, in_word, cur) <= bound,
    decreases i + 1,
{
    if i >= 0 {
        if is_space(s[i]) {
            if !in_word {
                lemma_word_start_back_bound(s, i - 1, in_word, cur, bound);
            }
        } else {
            lemma_word_start_back_bound(s, i - 1, true, i, bound);
        }
    }
}

proof fn lemma_word_start_back_nonneg(s: Seq<char>, i: int, in_word: bool, cur: int)
    requires
        cur >= 0,
    ensures
        word_start_back(s, i, in_word, cur) >= 0,
    decreases i + 1,
{
    if i >= 0 {
        if is_space(s[i]) {
            if !in_word {
                lemma_word_start_back_nonneg(s, i - 1, in_word, cur);
            }
        } else {
            lemma_word_start_back_nonneg(s, i - 1, true, i);
        }
    }
}


/// What inserting a character at the cursor does: the character enters
/// at the cursor's character index and the cursor advances past it by
/// its encoded width.
pub open spec fn char_inserted(pre: EditState, post: EditState, c: char) -> bool {
    let b = pre.edit_buffer@;
    let k = idx_at(b, pre.edit_cursor_position as nat);
    &&& post.edit_buffer@ == b.insert(k, c)
    &&& post.edit_cursor_position == pre.edit_cursor_position + char_w(c)
    &&& post.edit_mode == pre.edit_mode
    &&& post.adding_new_todo == pre.adding_new_todo
}

/// What backspace does: the character just before the cursor leaves and
/// the cursor retreats by its width; a no-op at the start.
pub open spec fn char_erased_before(pre: EditState, post: EditState) -> bool {
    if pre.edit_cursor_position == 0 {
        post == pre
    } else {
        let b = pre.edit_buffer@;
        let k = idx_at(b, pre.edit_cursor_position as nat);
        &&& post.edit_buffer@ == b.remove(k - 1)
        &&& post.edit_cursor_position == pre.edit_cursor_position - char_w(b[k - 1])
        &&& post.edit_mode == pre.edit_mode
        &&& post.adding_new_todo == pre.adding_new_todo
    }
}

/// What delete-forward does: the character at the cursor leaves and the
/// cursor stays; a no-op at the end.
pub open spec fn char_erased_at(pre: EditState, post: EditState) -> bool {
    let b = pre.edit_buffer@;
    let k = idx_at(b, pre.edit_cursor_position as nat);
    if k < b.len() {
        &&& post.edit_buffer@ == b.remove(k)
        &&& post.edit_cursor_position == pre.edit_cursor_position
        &&& post.edit_mode == pre.edit_mode
        &&& post.adding_new_todo == pre.adding_new_todo
    } else {
        post == pre
    }
}

/// What one step left does: the cursor lands on the boundary before the
/// previous character; a no-op at the start.
pub open spec fn cursor_stepped_left(pre: EditState, post: EditState) -> bool {
    if pre.edit_cursor_position == 0 {
        post == pre
    } else {
        let b = pre.edit_buffer@;
        let k = idx_at(b, pre.edit_cursor_position as nat);
        &&& post.edit_cursor_position == width_prefix(b, k - 1)
        &&& post.edit_buffer == pre.edit_buffer
        &&& post.edit_mode == pre.edit_mode
        &&& post.adding_new_todo == pre.adding_new_todo
    }
}

/// What one step right does: the cursor lands past the character under
/// it; a no-op at the end.
pub open spec fn cursor_stepped_right(pre: EditState, post: EditState) -> bool {
    let b = pre.edit_buffer@;
    let k = idx_at(b, pre.edit_cursor_position as nat);
    if k < b.len() {
        &&& post.edit_cursor_position == width_prefix(b, k + 1)
        &&& post.edit_buffer == pre.edit_buffer
        &&& post.edit_mode == pre.edit_mode
        &&& post.adding_new_todo == pre.adding_new_todo
    } else {
        post == pre
    }
}

/// What jumping to the line start does.
pub open spec fn cursor_at_home(pre: EditState, post: EditState) -> bool {
    &&& post.edit_cursor_position == 0
    &&& post.edit_buffer == pre.edit_buffer
    &&& post.edit_mode == pre.edit_mode
    &&& post.adding_new_todo == pre.adding_new_todo
}

/// What jumping to the line end does.
pub open spec fn cursor_at_end(pre: EditState, post: EditState) -> bool {
    &&& post.edit_cursor_position == total_w(pre.edit_buffer@)
    &&& post.edit_buffer == pre.edit_buffer
    &&& post.edit_mode == pre.edit_mode
    &&& post.adding_new_todo == pre.adding_new_todo
}

/// What deleting the word before the cursor does: everything from the
/// start of that word up to the cursor leaves; a no-op at the start.
pub open spec fn word_erased_before(pre: EditState, post: EditState) -> bool {
    if pre.edit_cursor_position == 0 {
        post == pre
    } else {
        let b = pre.edit_buffer@;
        let k = idx_at(b, pre.edit_cursor_position as nat);
        let t = word_start_back(b, k - 1, false, k);
        &&& post.edit_buffer@ == b.take(t) + b.skip(k)
        &&& post.edit_cursor_position == width_prefix(b, t)
        &&& post.edit_mode == pre.edit_mode
        &&& post.adding_new_todo == pre.adding_new_todo
    }
}

/// What moving to the previous word does; a no-op at the start.
pub open spec fn cursor_at_previous_word(pre: EditState, post: EditState) -> bool {
    if pre.edit_cursor_position == 0 {
        post == pre
    } else {
        let b = pre.edit_buffer@;
        let k = idx_at(b, pre.edit_cursor_position as nat);
        &&& post.edit_cursor_position == width_prefix(b, word_start_back(b, k - 1, false, 0))
        &&& post.edit_buffer == pre.edit_buffer
        &&& post.edit_mode == pre.edit_mode
        &&& post.adding_new_todo == pre.adding_new_todo
    }
}

/// What moving to the next word does; a no-op at the end.
pub open spec fn cursor_at_next_word(pre: EditState, post: EditState) -> bool {
    let b = pre.edit_buffer@;
    let k = idx_at(b, pre.edit_cursor_position as nat);
    if k < b.len() {
        &&& post.edit_cursor_position == width_prefix(b, next_word_index(b, k))
        &&& post.edit_buffer == pre.edit_buffer
        &&& post.edit_mode == pre.edit_mode
        &&& post.adding_new_todo == pre.adding_new_todo
    } else {
        post == pre
    }
}

/// The transient state while one item's content is being renamed.
pub struct EditState {
    pub edit_mode: bool,
    pub edit_buffer: String,
    pub edit_cursor_position: usize,
    pub adding_new_todo: bool,
}

impl EditState {
    /// The cursor always sits on a character boundary of the buffer.
    pub open spec fn wf(&self) -> bool {
        is_boundary(self.edit_buffer@, self.edit_cursor_position as nat)
    }

    pub fn new() -> (r: Self)
        ensures
            !r.edit_mode,
            r.edit_buffer@ =~= Seq::<char>::empty(),
            r.edit_cursor_position == 0,
            !r.adding_new_todo,
            r.wf(),
    {
        let r = Self {
            edit_mode: false,
            edit_buffer: String::new(),
            edit_cursor_position: 0,
            adding_new_todo: false,
        };
        proof {
            assert(width_prefix(r.edit_buffer@, 0) == 0);
        }
        r
    }

    /// Begin renaming with the given content; the cursor starts at the
    /// end of the text.
    pub fn enter_edit_mode(&mut self, content: String)
        ensures
            final(self).edit_mode,
            final(self).edit_buffer@ == content@,
            final(self).edit_cursor_position == total_w(content@),
            final(self).adding_new_todo == old(self).adding_new_todo,
            final(self).wf(),
    {
        let end = byte_len(content.as_str());
        self.edit_buffer = content;
        self.edit_cursor_position = end;
        self.edit_mode = true;
        proof {
            assert(width_prefix(self.edit_buffer@, self.edit_buffer@.len() as int) == total_w(
                self.edit_buffer@,
            ));
        }
    }

    /// Leave rename mode, discarding the buffer.
    pub fn exit_edit_mode(&mut self)
        ensures
            !final(self).edit_mode,
            final(self).edit_buffer@ =~= Seq::<char>::empty(),
            final(self).edit_cursor_position == 0,
            !final(self).adding_new_todo,
            final(self).wf(),
    {
        self.edit_mode = false;
        self.edit_buffer = String::new();
        self.edit_cursor_position = 0;
        self.adding_new_todo = false;
        proof {
            assert(width_prefix(self.edit_buffer@, 0) == 0);
        }
    }

    /// The character count corresponding to the byte cursor.
    fn cursor_char_index(&self) -> (k: usize)
        requires
            self.wf(),
        ensures
            k <= self.edit_buffer@.len(),
            width_prefix(self.edit_buffer@, k as int) == self.edit_cursor_position,
            k as int == idx_at(self.edit_buffer@, self.edit_cursor_position as nat),
    {
        let ghost b = self.edit_buffer@;
        let ghost cur = self.edit_cursor_position as nat;
        let ghost gk = idx_at(b, cur);
        proof {
            assert(0 <= gk <= b.len() && width_prefix(b, gk) == cur);
        }
        let mut i: usize = 0;
        let mut w: usize = 0;
        while w < self.edit_cursor_position
            invariant
                i <= gk,
                w == width_prefix(b, i as int),
                w <= self.edit_cursor_position,
            decreases self.edit_cursor_position - w,
        {
            proof {
                if i as int >= gk {
                    lemma_width_prefix_mono(b, gk, i as int);
                    assert(false);
                }
                lemma_width_prefix_mono(b, i as int + 1, gk);
                lemma_width_prefix_mono(b, 0, i as int);
            }
            let c = self.edit_buffer.as_str().get_char(i);
            w = w + char_width(c);
            i = i + 1;
        }
        proof {
            lemma_width_prefix_unique(b, i as int, gk);
        }
        i
    }

    /// Insert a character at the cursor; the cursor advances past it by
    /// its encoded width.
    pub fn insert_char(&mut self, c: char)
        requires
            old(self).wf(),
        ensures
            char_inserted(*old(self), *final(self), c),
            final(self).wf(),
    {
        let ghost b = self.edit_buffer@;
        let k = self.cursor_char_index();
        let n = self.edit_buffer.as_str().unicode_len();
        let mut grown = self.edit_buffer.as_str().substring_char(0, k).to_owned();
        push_char(&mut grown, c);
        let new_cursor = byte_len(grown.as_str());
        proof {
            assert(grown@ =~= b.take(k as int).push(c));
            lemma_width_prefix_agree(grown@, b, k as int);
            assert(total_w(grown@) == width_prefix(grown@, k as int) + char_w(c));
        }
        grown.append(self.edit_buffer.as_str().substring_char(k, n));
        proof {
            assert(grown@ =~= b.insert(k as int, c));
            lemma_width_prefix_agree(grown@, b.take(k as int).push(c), k as int + 1);
            assert(width_prefix(grown@, k as int + 1) == new_cursor);
        }
        self.edit_buffer = grown;
        self.edit_cursor_position = new_cursor;
    }

    /// Remove the character just before the cursor, found by boundary
    /// walking; a no-op at the start of the buffer.
    pub fn backspace(&mut self)
        requires
            old(self).wf(),
        ensures
            char_erased_before(*old(self), *final(self)),
            final(self).wf(),
    {
        if self.edit_cursor_position == 0 {
            return;
        }
        let ghost b = self.edit_buffer@;
        let k = self.cursor_char_index();
        proof {
            if k == 0 {
                assert(width_prefix(b, 0) == 0);
                assert(false);
            }
        }
        let n = self.edit_buffer.as_str().unicode_len();
        let mut shrunk = self.edit_buffer.as_str().substring_char(0, k - 1).to_owned();
        let new_cursor = byte_len(shrunk.as_str());
        proof {
            assert(shrunk@ =~= b.take(k as int - 1));
            lemma_width_prefix_agree(shrunk@, b, k as int - 1);
            assert(new_cursor == width_prefix(b, k as int - 1));
            assert(width_prefix(b, k as int) == width_prefix(b, k as int - 1) + char_w(b[k as int
                - 1]));
        }
        shrunk.append(self.edit_buffer.as_str().substring_char(k, n));
        proof {
            assert(shrunk@ =~= b.remove(k as int - 1));
            lemma_width_prefix_agree(shrunk@, b, k as int - 1);
        }
        self.edit_buffer = shrunk;
        self.edit_cursor_position = new_cursor;
    }

    /// Remove the character at the cursor; a no-op at the end of the
    /// buffer.
    pub fn delete(&mut self)
        requires
            old(self).wf(),
        ensures
            char_erased_at(*old(self), *final(self)),
            final(self).wf(),
    {
        let ghost b = self.edit_buffer@;
        let k = self.cursor_char_index();
        let n = self.edit_buffer.as_str().unicode_len();
        if k < n {
            let mut shrunk = self.edit_buffer.as_str().substring_char(0, k).to_owned();
            shrunk.append(self.edit_buffer.as_str().substring_char(k + 1, n));
            proof {
                assert(shrunk@ =~= b.remove(k as int));
                lemma_width_prefix_agree(shrunk@, b, k as int);
            }
            self.edit_buffer = shrunk;
        }
    }

    /// Step the cursor one character left; a no-op at the start.
    pub fn move_cursor_left(&mut self)
        requires
            old(self).wf(),
        ensures
            cursor_stepped_left(*old(self), *final(self)),
            final(self).wf(),
    {
        if self.edit_cursor_position == 0 {
            return;
        }
        let ghost b = self.edit_buffer@;
        let k = self.cursor_char_index();
        proof {
            if k == 0 {
                assert(width_prefix(b, 0) == 0);
                assert(false);
            }
        }
        let new_cursor = byte_len(self.edit_buffer.as_str().substring_char(0, k - 1));
        proof {
            lemma_width_prefix_agree(b.take(k as int - 1), b, k as int - 1);
        }
        self.edit_cursor_position = new_cursor;
    }

    /// Step the cursor one character right; a no-op at the end.
    pub fn move_cursor_right(&mut self)
        requires
            old(self).wf(),
        ensures
            cursor_stepped_right(*old(self), *final(self)),
            final(self).wf(),
    {
        let ghost b = self.edit_buffer@;
        let k = self.cursor_char_index();
        let n = self.edit_buffer.as_str().unicode_len();
        if k < n {
            let new_cursor = byte_len(self.edit_buffer.as_str().substring_char(0, k + 1));
            proof {
                lemma_width_prefix_agree(b.take(k as int + 1), b, k as int + 1);
            }
            self.edit_cursor_position = new_cursor;
        }
    }

    /// Jump the cursor to the start of the buffer.
    pub fn move_cursor_home(&mut self)
        ensures
            cursor_at_home(*old(self), *final(self)),
            final(self).wf(),
    {
        self.edit_cursor_position = 0;
        proof {
            assert(width_prefix(self.edit_buffer@, 0) == 0);
        }
    }

    /// Jump the cursor past the last character of the buffer.
    pub fn move_cursor_end(&mut self)
        ensures
            cursor_at_end(*old(self), *final(self)),
            final(self).wf(),
    {
        self.edit_cursor_position = byte_len(self.edit_buffer.as_str());
    }

    /// Delete from the start of the word before the cursor up to the
    /// cursor (whitespace between them included); a no-op at the start.
    pub fn delete_word_backward(&mut self)
        requires
            old(self).wf(),
        ensures
            word_erased_before(*old(self), *final(self)),
            final(self).wf(),
    {
        if self.edit_cursor_position == 0 {
            return;
        }
        let ghost b = self.edit_buffer@;
        let k = self.cursor_char_index();
        let n = self.edit_buffer.as_str().unicode_len();
        let t = word_scan_back(self.edit_buffer.as_str(), k, k);
        proof {
            lemma_word_start_back_bound(b, k as int - 1, false, k as int, k as int);
            lemma_word_start_back_nonneg(b, k as int - 1, false, k as int);
        }
        let mut shrunk = self.edit_buffer.as_str().substring_char(0, t).to_owned();
        let new_cursor = byte_len(shrunk.as_str());
        proof {
            assert(shrunk@ =~= b.take(t as int));
            lemma_width_prefix_agree(shrunk@, b, t as int);
        }
        shrunk.append(self.edit_buffer.as_str().substring_char(k, n));
        proof {
            assert(shrunk@ =~= b.take(t as int) + b.skip(k as int));
            lemma_width_prefix_agree(shrunk@, b, t as int);
        }
        self.edit_buffer = shrunk;
        self.edit_cursor_position = new_cursor;
    }

    /// Move the cursor to the start of the word before it, or to the
    /// very start when only whitespace precedes; a no-op at the start.
    pub fn move_to_previous_word(&mut self)
        requires
            old(self).wf(),
        ensures
            cursor_at_previous_word(*old(self), *final(self)),
            final(self).wf(),
    {
        if self.edit_cursor_position == 0 {
            return;
        }
        let ghost b = self.edit_buffer@;
        let k = self.cursor_char_index();
        let t = word_scan_back(self.edit_buffer.as_str(), k, 0);
        proof {
            lemma_word_start_back_bound(b, k as int - 1, false, 0, k as int);
            lemma_word_start_back_nonneg(b, k as int - 1, false, 0);
        }
        let new_cursor = byte_len(self.edit_buffer.as_str().substring_char(0, t));
        proof {
            lemma_width_prefix_agree(b.take(t as int), b, t as int);
        }
        self.edit_cursor_position = new_cursor;
    }

    /// Move the cursor past the current word and the whitespace after
    /// it, to the start of the next word or the end of the buffer; a
    /// no-op at the end.
    pub fn move_to_next_word(&mut self)
        requires
            old(self).wf(),
        ensures
            cursor_at_next_word(*old(self), *final(self)),
            final(self).wf(),
    {
        let ghost b = self.edit_buffer@;
        let k = self.cursor_char_index();
        let n = self.edit_buffer.as_str().unicode_len();
        if k >= n {
            return;
        }
        let mut i = k;
        while i < n && !is_whitespace_char(self.edit_buffer.as_str().get_char(i))
            invariant
                k <= i <= n,
                n == b.len(),
                b == self.edit_buffer@,
                skip_word(b, k as int) == skip_word(b, i as int),
            decreases n - i,
        {
            i = i + 1;
        }
        while i < n && is_whitespace_char(self.edit_buffer.as_str().get_char(i))
            invariant
                k <= i <= n,
                n == b.len(),
                b == self.edit_buffer@,
                skip_spaces(b, skip_word(b, k as int)) == skip_spaces(b, i as int),
            decreases n - i,
        {
            i = i + 1;
        }
        let new_cursor = byte_len(self.edit_buffer.as_str().substring_char(0, i));
        proof {
            lemma_width_prefix_agree(b.take(i as int), b, i as int);
        }
        self.edit_cursor_position = new_cursor;
    }
}

/// Backward word scan over the characters before position `k`,
/// mirroring `word_start_back` with accumulator `init`.
#[verifier::loop_isolation(true)]
fn word_scan_back(s: &str, k: usize, init: usize) -> (t: usize)
    requires
        k <= s@.len(),
        init <= s@.len(),
    ensures
        t == word_start_back(s@, k as int - 1, false, init as int),
{
    let mut i = k;
    let mut in_word = false;
    let mut ws = init;
    loop
        invariant
            i <= k <= s@.len(),
            ws <= s@.len(),
            in_word ==> i <= ws,
            word_start_back(s@, k as int - 1, false, init as int) == word_start_back(
                s@,
                i as int - 1,
                in_word,
                ws as int,
            ),
        ensures
            ws == word_start_back(s@, k as int - 1, false, init as int),
        decreases i,
    {
        if i == 0 {
            break;
        }
        let c = s.get_char(i - 1);
        if is_whitespace_char(c) {
            if in_word {
                break;
            }
        } else {
            in_word = true;
            ws = i - 1;
        }
        i = i - 1;
    }
    ws
}

/// What a session offers while one item is being renamed: entering
/// rename mode for an item, cancelling, and confirming.
pub trait Editable {
    fn enter_edit_mode_for_item(&mut self, item_index: usize);

    fn cancel_edit(&mut self) -> bool;

    fn confirm_edit(&mut self) -> bool;
}

} // verus!

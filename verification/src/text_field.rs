//! A line of text with a cursor, edited the way a shell's line editor edits
//! it. Positions count Unicode scalar values, never bytes.

use crate::chars::{char_is_whitespace, chars_of_str, is_whitespace, string_from_chars};
use vstd::prelude::*;

verus! {

/// Where the longest run of characters that ends just before `end` begins,
/// the run being made of white space if `ws` holds and of other characters
/// if it does not.
pub open spec fn run_start(s: Seq<char>, end: int, ws: bool) -> int
    decreases end,
{
    if 0 < end <= s.len() && is_whitespace(s[end - 1]) == ws {
        run_start(s, end - 1, ws)
    } else {
        end
    }
}

/// Where the longest run of characters that begins at `start` ends, the run
/// being made of white space if `ws` holds and of other characters if it
/// does not.
pub open spec fn run_end(s: Seq<char>, start: int, ws: bool) -> int
    decreases s.len() - start,
{
    if 0 <= start < s.len() && is_whitespace(s[start]) == ws {
        run_end(s, start + 1, ws)
    } else {
        start
    }
}

/// Where the word before `cursor` begins: first the white space before the
/// cursor is passed over, then the word before that.
pub open spec fn word_start(s: Seq<char>, cursor: int) -> int {
    run_start(s, run_start(s, cursor, true), false)
}

/// Where the word after `cursor` ends: first the white space after the
/// cursor is passed over, then the word after that.
pub open spec fn word_end(s: Seq<char>, cursor: int) -> int {
    run_end(s, run_end(s, cursor, true), false)
}

/// The run that `run_start` finds is a run of the wanted kind, and it cannot
/// be made longer.
pub proof fn lemma_run_start(s: Seq<char>, end: int, ws: bool)
    requires
        0 <= end <= s.len(),
    ensures
        0 <= run_start(s, end, ws) <= end,
        forall|i: int| run_start(s, end, ws) <= i < end ==> is_whitespace(#[trigger] s[i]) == ws,
        run_start(s, end, ws) == 0 || is_whitespace(s[run_start(s, end, ws) - 1]) != ws,
    decreases end,
{
    if 0 < end && is_whitespace(s[end - 1]) == ws {
        lemma_run_start(s, end - 1, ws);
    }
}

/// The run that `run_end` finds is a run of the wanted kind, and it cannot
/// be made longer.
pub proof fn lemma_run_end(s: Seq<char>, start: int, ws: bool)
    requires
        0 <= start <= s.len(),
    ensures
        start <= run_end(s, start, ws) <= s.len(),
        forall|i: int| start <= i < run_end(s, start, ws) ==> is_whitespace(#[trigger] s[i]) == ws,
        run_end(s, start, ws) == s.len() || is_whitespace(s[run_end(s, start, ws)]) != ws,
    decreases s.len() - start,
{
    if start < s.len() && is_whitespace(s[start]) == ws {
        lemma_run_end(s, start + 1, ws);
    }
}

/// What a text field is: its characters and the position of its cursor.
pub struct TextFieldView {
    pub content: Seq<char>,
    pub cursor: nat,
}

impl TextFieldView {
    /// The cursor stands on a character or just behind the last one.
    pub open spec fn wf(self) -> bool {
        self.cursor <= self.content.len()
    }

    /// The empty field.
    pub open spec fn empty() -> TextFieldView {
        TextFieldView { content: Seq::empty(), cursor: 0 }
    }

    /// `c` is put in at the cursor, and the cursor moves behind it.
    pub open spec fn insert(self, c: char) -> TextFieldView {
        TextFieldView {
            content: self.content.insert(self.cursor as int, c),
            cursor: self.cursor + 1,
        }
    }

    /// The character before the cursor goes, and the cursor moves one back.
    /// Nothing happens at the start of the line.
    pub open spec fn backspace(self) -> TextFieldView {
        if self.cursor > 0 {
            TextFieldView {
                content: self.content.remove(self.cursor - 1),
                cursor: (self.cursor - 1) as nat,
            }
        } else {
            self
        }
    }

    /// The character at the cursor goes. Nothing happens at the end of the
    /// line.
    pub open spec fn delete_forward(self) -> TextFieldView {
        if self.cursor < self.content.len() {
            TextFieldView { content: self.content.remove(self.cursor as int), cursor: self.cursor }
        } else {
            self
        }
    }

    /// The cursor moves one to the left, unless it is at the start.
    pub open spec fn move_left(self) -> TextFieldView {
        if self.cursor > 0 {
            TextFieldView { content: self.content, cursor: (self.cursor - 1) as nat }
        } else {
            self
        }
    }

    /// The cursor moves one to the right, unless it is at the end.
    pub open spec fn move_right(self) -> TextFieldView {
        if self.cursor < self.content.len() {
            TextFieldView { content: self.content, cursor: self.cursor + 1 }
        } else {
            self
        }
    }

    /// The cursor moves to the start of the line.
    pub open spec fn move_to_start(self) -> TextFieldView {
        TextFieldView { content: self.content, cursor: 0 }
    }

    /// The cursor moves behind the last character.
    pub open spec fn move_to_end(self) -> TextFieldView {
        TextFieldView { content: self.content, cursor: self.content.len() }
    }

    /// Everything from the cursor to the end of the line goes.
    pub open spec fn kill_to_end(self) -> TextFieldView {
        if self.cursor <= self.content.len() {
            TextFieldView { content: self.content.subrange(0, self.cursor as int), cursor: self.cursor }
        } else {
            self
        }
    }

    /// The whole line goes.
    pub open spec fn kill_whole_line(self) -> TextFieldView {
        TextFieldView::empty()
    }

    /// The white space before the cursor and the word before that go, and
    /// the cursor moves to where the word began.
    pub open spec fn delete_word_backward(self) -> TextFieldView {
        let start = word_start(self.content, self.cursor as int);
        if 0 <= start <= self.cursor <= self.content.len() {
            TextFieldView {
                content: self.content.subrange(0, start) + self.content.subrange(
                    self.cursor as int,
                    self.content.len() as int,
                ),
                cursor: start as nat,
            }
        } else {
            self
        }
    }

    /// The white space after the cursor and the word after that go. The
    /// cursor stays.
    pub open spec fn delete_word_forward(self) -> TextFieldView {
        let end = word_end(self.content, self.cursor as int);
        if self.cursor <= end <= self.content.len() {
            TextFieldView {
                content: self.content.subrange(0, self.cursor as int) + self.content.subrange(
                    end,
                    self.content.len() as int,
                ),
                cursor: self.cursor,
            }
        } else {
            self
        }
    }

    /// `c` is added behind the last character, and the cursor moves behind
    /// it.
    pub open spec fn append(self, c: char) -> TextFieldView {
        TextFieldView { content: self.content.push(c), cursor: self.content.len() + 1 }
    }

    /// The last character goes, and the cursor moves behind the new last
    /// one. Nothing happens to the empty field.
    pub open spec fn pop_last(self) -> TextFieldView {
        if self.content.len() > 0 {
            TextFieldView {
                content: self.content.drop_last(),
                cursor: (self.content.len() - 1) as nat,
            }
        } else {
            self
        }
    }
}

/// An editable line with a cursor.
#[derive(Debug)]
pub struct TextField {
    content: Vec<char>,
    cursor: usize,
}

impl View for TextField {
    type V = TextFieldView;

    closed spec fn view(&self) -> TextFieldView {
        TextFieldView { content: self.content@, cursor: self.cursor as nat }
    }
}

impl TextField {
    /// The cursor is inside the text or just behind it. Every constructor
    /// establishes this and every operation keeps it.
    pub open spec fn wf(&self) -> bool {
        self@.wf()
    }

    /// An empty field.
    pub fn new() -> (field: TextField)
        ensures
            field.wf(),
            field@ == TextFieldView::empty(),
    {
        TextField { content: Vec::new(), cursor: 0 }
    }

    /// A field that holds `text`, with the cursor behind the last character.
    pub fn from_text(text: &str) -> (field: TextField)
        ensures
            field.wf(),
            field@.content == text@,
            field@.cursor == text@.len(),
    {
        let content = chars_of_str(text);
        let cursor = content.len();
        TextField { content, cursor }
    }

    /// A field that holds `content` with the cursor at `cursor`, if that is
    /// a position in it.
    pub fn from_parts(content: Vec<char>, cursor: usize) -> (field: Option<TextField>)
        ensures
            field is Some <==> cursor <= content@.len(),
            field matches Some(f) ==> f.wf() && f@.content == content@ && f@.cursor == cursor,
    {
        if cursor <= content.len() {
            Some(TextField { content, cursor })
        } else {
            None
        }
    }

    /// The characters of the field.
    pub fn content(&self) -> (chars: &Vec<char>)
        ensures
            chars@ == self@.content,
    {
        &self.content
    }

    /// The position of the cursor.
    pub fn cursor(&self) -> (cursor: usize)
        ensures
            cursor == self@.cursor,
    {
        self.cursor
    }

    /// The number of characters in the field.
    pub fn len(&self) -> (len: usize)
        ensures
            len == self@.content.len(),
    {
        self.content.len()
    }

    /// Whether the field holds no character.
    pub fn is_empty(&self) -> (empty: bool)
        ensures
            empty == (self@.content.len() == 0),
    {
        self.content.len() == 0
    }

    /// The text of the field as a string.
    pub fn text(&self) -> (text: String)
        ensures
            text@ == self@.content,
    {
        string_from_chars(&self.content)
    }

    /// Puts `c` in at the cursor and moves the cursor behind it.
    pub fn insert(&mut self, c: char)
        requires
            old(self).wf(),
        ensures
            final(self).wf(),
            final(self)@ == old(self)@.insert(c),
    {
        self.content.insert(self.cursor, c);
        assert(self.cursor < self.content.len());
        self.cursor = self.cursor + 1;
    }

    /// Removes the character before the cursor and moves the cursor one
    /// back; does nothing at the start of the line.
    pub fn backspace(&mut self)
        requires
            old(self).wf(),
        ensures
            final(self).wf(),
            final(self)@ == old(self)@.backspace(),
    {
        if self.cursor > 0 {
            self.cursor = self.cursor - 1;
            self.content.remove(self.cursor);
        }
    }

    /// Removes the character at the cursor; does nothing at the end of the
    /// line.
    pub fn delete_forward(&mut self)
        requires
            old(self).wf(),
        ensures
            final(self).wf(),
            final(self)@ == old(self)@.delete_forward(),
    {
        if self.cursor < self.content.len() {
            self.content.remove(self.cursor);
        }
    }

    /// Moves the cursor one to the left, unless it is at the start.
    pub fn move_left(&mut self)
        requires
            old(self).wf(),
        ensures
            final(self).wf(),
            final(self)@ == old(self)@.move_left(),
    {
        if self.cursor > 0 {
            self.cursor = self.cursor - 1;
        }
    }

    /// Moves the cursor one to the right, unless it is at the end.
    pub fn move_right(&mut self)
        requires
            old(self).wf(),
        ensures
            final(self).wf(),
            final(self)@ == old(self)@.move_right(),
    {
        if self.cursor < self.content.len() {
            self.cursor = self.cursor + 1;
        }
    }

    /// Moves the cursor to the start of the line.
    pub fn move_to_start(&mut self)
        requires
            old(self).wf(),
        ensures
            final(self).wf(),
            final(self)@ == old(self)@.move_to_start(),
    {
        self.cursor = 0;
    }

    /// Moves the cursor behind the last character.
    pub fn move_to_end(&mut self)
        requires
            old(self).wf(),
        ensures
            final(self).wf(),
            final(self)@ == old(self)@.move_to_end(),
    {
        self.cursor = self.content.len();
    }

    /// Removes everything from the cursor to the end of the line.
    pub fn kill_to_end(&mut self)
        requires
            old(self).wf(),
        ensures
            final(self).wf(),
            final(self)@ == old(self)@.kill_to_end(),
    {
        self.content.truncate(self.cursor);
    }

    /// Removes the whole line.
    pub fn kill_whole_line(&mut self)
        requires
            old(self).wf(),
        ensures
            final(self).wf(),
            final(self)@ == old(self)@.kill_whole_line(),
    {
        self.cursor = 0;
        self.content.clear();
    }

    /// Removes the white space before the cursor and the word before that,
    /// and moves the cursor to where the word began.
    pub fn delete_word_backward(&mut self)
        requires
            old(self).wf(),
        ensures
            final(self).wf(),
            final(self)@ == old(self)@.delete_word_backward(),
    {
        let end = self.cursor;
        let gap = scan_backward(&self.content, end, true);
        let start = scan_backward(&self.content, gap, false);
        let mut tail = self.content.split_off(end);
        self.cursor = start;
        self.content.truncate(start);
        self.content.append(&mut tail);
        assert(self.content@ =~= old(self)@.content.subrange(0, start as int) + old(
            self,
        )@.content.subrange(end as int, old(self)@.content.len() as int));
    }

    /// Removes the white space after the cursor and the word after that.
    /// The cursor stays.
    pub fn delete_word_forward(&mut self)
        requires
            old(self).wf(),
        ensures
            final(self).wf(),
            final(self)@ == old(self)@.delete_word_forward(),
    {
        let gap = scan_forward(&self.content, self.cursor, true);
        let end = scan_forward(&self.content, gap, false);
        let mut tail = self.content.split_off(end);
        self.content.truncate(self.cursor);
        self.content.append(&mut tail);
        assert(self.content@ =~= old(self)@.content.subrange(0, self.cursor as int) + old(
            self,
        )@.content.subrange(end as int, old(self)@.content.len() as int));
    }

    /// Adds `c` behind the last character and moves the cursor behind it.
    pub fn append(&mut self, c: char)
        requires
            old(self).wf(),
        ensures
            final(self).wf(),
            final(self)@ == old(self)@.append(c),
    {
        self.content.push(c);
        self.cursor = self.content.len();
    }

    /// Removes the last character and moves the cursor behind the new last
    /// one; does nothing to the empty field.
    pub fn pop_last(&mut self)
        requires
            old(self).wf(),
        ensures
            final(self).wf(),
            final(self)@ == old(self)@.pop_last(),
    {
        if self.content.len() > 0 {
            self.cursor = self.content.len() - 1;
            self.content.pop();
        }
    }
}

impl Clone for TextField {
    fn clone(&self) -> (copy: TextField)
        ensures
            copy@ == self@,
    {
        let copy = TextField { content: self.content.clone(), cursor: self.cursor };
        assert(copy.content@ =~= self.content@);
        copy
    }
}

impl Default for TextField {
    fn default() -> (field: TextField)
        ensures
            field.wf(),
            field@ == TextFieldView::empty(),
    {
        TextField::new()
    }
}

/// Walks to the left from `end` over characters of one kind.
fn scan_backward(chars: &Vec<char>, end: usize, ws: bool) -> (start: usize)
    requires
        end <= chars@.len(),
    ensures
        start == run_start(chars@, end as int, ws),
        start <= end,
{
    let mut pos = end;
    while pos > 0 && char_is_whitespace(chars[pos - 1]) == ws
        invariant
            pos <= end <= chars@.len(),
            run_start(chars@, pos as int, ws) == run_start(chars@, end as int, ws),
        decreases pos,
    {
        pos = pos - 1;
    }
    pos
}

/// Walks to the right from `start` over characters of one kind.
fn scan_forward(chars: &Vec<char>, start: usize, ws: bool) -> (end: usize)
    requires
        start <= chars@.len(),
    ensures
        end == run_end(chars@, start as int, ws),
        start <= end <= chars@.len(),
{
    let mut pos = start;
    while pos < chars.len() && char_is_whitespace(chars[pos]) == ws
        invariant
            start <= pos <= chars@.len(),
            run_end(chars@, pos as int, ws) == run_end(chars@, start as int, ws),
        decreases chars@.len() - pos,
    {
        pos = pos + 1;
    }
    pos
}

/// Typing a character and then deleting backward gives back the field as it
/// was: the same characters and the same cursor.
pub proof fn lemma_insert_then_backspace(field: TextFieldView, c: char)
    requires
        field.wf(),
    ensures
        field.insert(c).backspace() == field,
{
    assert(field.content.insert(field.cursor as int, c).remove(field.cursor as int)
        =~= field.content);
}

/// Adding a character at the end and then removing the last one gives back
/// the characters as they were, with the cursor behind them.
pub proof fn lemma_append_then_pop_last(field: TextFieldView, c: char)
    ensures
        field.append(c).pop_last().content == field.content,
        field.append(c).pop_last().cursor == field.content.len(),
{
    assert(field.content.push(c).drop_last() =~= field.content);
}

/// With the cursor at the end, adding a character is typing it, and
/// removing the last one is deleting backward.
pub proof fn lemma_append_is_insert_at_end(field: TextFieldView, c: char)
    requires
        field.cursor == field.content.len(),
    ensures
        field.append(c) == field.insert(c),
        field.pop_last() == field.backspace(),
{
    assert(field.content.push(c) =~= field.content.insert(field.cursor as int, c));
    if field.content.len() > 0 {
        assert(field.content.drop_last() =~= field.content.remove(field.cursor - 1));
    }
}

/// No operation moves the cursor out of the text.
pub proof fn lemma_operations_keep_cursor_in_bounds(field: TextFieldView, c: char)
    requires
        field.wf(),
    ensures
        TextFieldView::empty().wf(),
        field.insert(c).wf(),
        field.backspace().wf(),
        field.delete_forward().wf(),
        field.move_left().wf(),
        field.move_right().wf(),
        field.move_to_start().wf(),
        field.move_to_end().wf(),
        field.kill_to_end().wf(),
        field.kill_whole_line().wf(),
        field.delete_word_backward().wf(),
        field.delete_word_forward().wf(),
        field.append(c).wf(),
        field.pop_last().wf(),
{
    lemma_word_start(field.content, field.cursor as int);
    lemma_word_end(field.content, field.cursor as int);
}

/// What deleting a word backward removes: between the new cursor and some
/// middle point there is no white space, between the middle point and the
/// old cursor there is nothing else, and the span cannot be made longer to
/// the left. At the start of the line nothing is removed.
pub proof fn lemma_word_start(s: Seq<char>, cursor: int)
    requires
        0 <= cursor <= s.len(),
    ensures
        0 <= word_start(s, cursor) <= run_start(s, cursor, true) <= cursor,
        forall|i: int|
            run_start(s, cursor, true) <= i < cursor ==> is_whitespace(#[trigger] s[i]),
        forall|i: int|
            word_start(s, cursor) <= i < run_start(s, cursor, true) ==> !is_whitespace(
                #[trigger] s[i],
            ),
        word_start(s, cursor) == 0 || is_whitespace(s[word_start(s, cursor) - 1]),
        cursor == 0 ==> word_start(s, cursor) == 0,
{
    lemma_run_start(s, cursor, true);
    lemma_run_start(s, run_start(s, cursor, true), false);
}

/// What deleting a word forward removes: between the cursor and some middle
/// point there is only white space, between the middle point and the end of
/// the span there is none, and the span cannot be made longer to the right.
/// At the end of the line nothing is removed.
pub proof fn lemma_word_end(s: Seq<char>, cursor: int)
    requires
        0 <= cursor <= s.len(),
    ensures
        cursor <= run_end(s, cursor, true) <= word_end(s, cursor) <= s.len(),
        forall|i: int| cursor <= i < run_end(s, cursor, true) ==> is_whitespace(#[trigger] s[i]),
        forall|i: int|
            run_end(s, cursor, true) <= i < word_end(s, cursor) ==> !is_whitespace(
                #[trigger] s[i],
            ),
        word_end(s, cursor) == s.len() || is_whitespace(s[word_end(s, cursor)]),
        cursor == s.len() ==> word_end(s, cursor) == s.len(),
{
    lemma_run_end(s, cursor, true);
    lemma_run_end(s, run_end(s, cursor, true), false);
}

/// At the start of the line, deleting backward and deleting a word backward
/// change nothing; at the end of the line, deleting forward, deleting a word
/// forward and cutting to the end change nothing.
pub proof fn lemma_no_effect_at_the_ends(field: TextFieldView)
    requires
        field.wf(),
    ensures
        field.cursor == 0 ==> field.backspace() == field && field.delete_word_backward()
            == field && field.move_left() == field,
        field.cursor == field.content.len() ==> field.delete_forward() == field
            && field.delete_word_forward() == field && field.kill_to_end() == field
            && field.move_right() == field,
{
    lemma_word_start(field.content, field.cursor as int);
    lemma_word_end(field.content, field.cursor as int);
    let n = field.content.len() as int;
    if field.cursor == 0 {
        assert(field.content.subrange(0, 0) + field.content.subrange(0, n) =~= field.content);
    }
    if field.cursor == n {
        assert(field.content.subrange(0, n) + field.content.subrange(n, n) =~= field.content);
        assert(field.content.subrange(0, n) =~= field.content);
    }
}

/// Deleting a word backward at the end of `hello  world` removes `world`
/// and nothing else: no white space stands before the cursor, so the word
/// alone goes, both spaces before it stay, and the cursor comes to stand
/// behind them, at position 7.
pub proof fn lemma_delete_word_backward_hello_world()
    ensures
        (TextFieldView { content: "hello  world"@, cursor: 12 }).delete_word_backward() == (
        TextFieldView { content: "hello  "@, cursor: 7 }),
{
    reveal_strlit("hello  world");
    reveal_strlit("hello  ");
    let line = "hello  world"@;
    reveal_with_fuel(run_start, 7);
    assert(run_start(line, 12, true) == 12);
    assert(run_start(line, 12, false) == 7);
    assert(word_start(line, 12) == 7);
    assert(line.subrange(0, 7) + line.subrange(12, 12) =~= "hello  "@);
}

} // verus!

//! The input area: which mode it is in, its text and its cursor.

use vstd::prelude::*;
use crate::actions::{FilePrompt, FilePromptKind, UiMode};
use crate::conversation::{user_at, Message, UiState};
use crate::text::{chars_of, join_strings, join_with, strings_view};
use crate::tool_flow::{lemma_split_on_nonempty, split_chars, split_on};

verus! {

/// Whether keystrokes go to the input text in mode `m`.
pub open spec fn input_active(m: UiMode) -> bool {
    m is Typing || m is InPlaceEdit || m is FilePrompt
}

/// `before` with its mode replaced by `m`.
pub open spec fn with_mode(before: UiState, m: UiMode) -> UiState {
    UiState { mode: m, ..before }
}

/// `before` with the input text `text` and the cursor after its last character.
pub open spec fn with_input(before: UiState, text: String) -> UiState {
    UiState { input: text, input_cursor_position: text@.len() as usize, ..before }
}

/// The lines a text area shows for `text`: none for the empty text, else the
/// pieces between newlines.
pub open spec fn textarea_lines(text: Seq<char>) -> Seq<Seq<char>> {
    if text.len() == 0 {
        seq![]
    } else {
        split_on(text, '\n')
    }
}

/// Characters before line `row`, each earlier line counted with its newline.
pub open spec fn chars_before_row(lines: Seq<Seq<char>>, row: int) -> int
    decreases row,
{
    if row <= 0 {
        0
    } else {
        chars_before_row(lines, row - 1) + lines[row - 1].len() + 1
    }
}

/// The position in the joined text of the cursor at `(row, col)`: the column
/// is clamped to its line, and a row past the last line means the end.
pub open spec fn linear_cursor(lines: Seq<Seq<char>>, row: int, col: int) -> int {
    if row >= lines.len() {
        join_with(lines, seq!['\n']).len() as int
    } else {
        chars_before_row(lines, row) + if col < lines[row].len() {
            col
        } else {
            lines[row].len() as int
        }
    }
}

/// What a text area is loaded with: its lines and where its cursor stands.
pub struct TextareaLines {
    pub lines: Vec<String>,
    pub cursor_row: usize,
    pub cursor_col: usize,
}

/// The text area for `text`, with the cursor at the end of the text.
pub open spec fn textarea_for(t: TextareaLines, text: Seq<char>) -> bool {
    let ls = textarea_lines(text);
    &&& strings_view(t.lines@) == ls
    &&& if text.len() == 0 {
        t.cursor_row == 0 && t.cursor_col == 0
    } else {
        t.cursor_row == ls.len() - 1 && t.cursor_col == ls.last().len()
    }
}

proof fn lemma_chars_before_row_drop_last(lines: Seq<Seq<char>>, row: int)
    requires
        0 <= row < lines.len(),
    ensures
        chars_before_row(lines.drop_last(), row) == chars_before_row(lines, row),
    decreases row,
{
    if row > 0 {
        lemma_chars_before_row_drop_last(lines, row - 1);
    }
}

/// The joined text is as long as the text before the last line and that line.
pub(crate) proof fn lemma_join_len(lines: Seq<Seq<char>>)
    requires
        lines.len() >= 1,
    ensures
        join_with(lines, seq!['\n']).len() == chars_before_row(lines, lines.len() - 1)
            + lines.last().len(),
    decreases lines.len(),
{
    if lines.len() > 1 {
        let d = lines.drop_last();
        lemma_join_len(d);
        lemma_chars_before_row_drop_last(lines, lines.len() - 2);
    }
}

proof fn lemma_chars_before_row_mono(lines: Seq<Seq<char>>, a: int, b: int)
    requires
        0 <= a <= b,
    ensures
        chars_before_row(lines, a) <= chars_before_row(lines, b),
    decreases b,
{
    if a < b {
        lemma_chars_before_row_mono(lines, a, b - 1);
    }
}

pub(crate) proof fn lemma_join_split(s: Seq<char>, c: char)
    ensures
        join_with(split_on(s, c), seq![c]) == s,
    decreases s.len(),
{
    if s.len() > 0 {
        let d = s.drop_last();
        lemma_join_split(d, c);
        lemma_split_on_nonempty(d, c);
        let p = split_on(d, c);
        if s.last() == c {
            crate::text::lemma_join_push(p, seq![c], seq![]);
            assert(join_with(p.push(seq![]), seq![c]) =~= d + seq![c] + Seq::<char>::empty());
        } else {
            crate::text::lemma_join_extend_last(p, seq![c], s.last());
        }
        assert(s =~= d.push(s.last()));
    }
}


impl UiState {
    pub fn is_input_active(&self) -> (r: bool)
        ensures
            r == input_active(self.mode),
    {
        match self.mode {
            UiMode::Typing => true,
            UiMode::InPlaceEdit { .. } => true,
            UiMode::FilePrompt(_) => true,
            _ => false,
        }
    }

    pub fn in_edit_select_mode(&self) -> (r: bool)
        ensures
            r == (self.mode is EditSelect),
    {
        matches!(self.mode, UiMode::EditSelect { .. })
    }

    pub fn selected_user_message_index(&self) -> (r: Option<usize>)
        ensures
            r == (match self.mode {
                UiMode::EditSelect { selected_index } => Some(selected_index),
                _ => None,
            }),
    {
        match self.mode {
            UiMode::EditSelect { selected_index } => Some(selected_index),
            _ => None,
        }
    }

    /// Moves the edit selection to `index`; outside edit-select mode nothing changes.
    pub fn set_selected_user_message_index(&mut self, index: usize)
        ensures
            *final(self) == if old(self).mode is EditSelect {
                with_mode(*old(self), UiMode::EditSelect { selected_index: index })
            } else {
                *old(self)
            },
    {
        if matches!(self.mode, UiMode::EditSelect { .. }) {
            self.mode = UiMode::EditSelect { selected_index: index };
        }
    }

    pub fn in_block_select_mode(&self) -> (r: bool)
        ensures
            r == (self.mode is BlockSelect),
    {
        matches!(self.mode, UiMode::BlockSelect { .. })
    }

    pub fn selected_block_index(&self) -> (r: Option<usize>)
        ensures
            r == (match self.mode {
                UiMode::BlockSelect { block_index } => Some(block_index),
                _ => None,
            }),
    {
        match self.mode {
            UiMode::BlockSelect { block_index } => Some(block_index),
            _ => None,
        }
    }

    /// Moves the block selection to `index`; outside block-select mode nothing changes.
    pub fn set_selected_block_index(&mut self, index: usize)
        ensures
            *final(self) == if old(self).mode is BlockSelect {
                with_mode(*old(self), UiMode::BlockSelect { block_index: index })
            } else {
                *old(self)
            },
    {
        if matches!(self.mode, UiMode::BlockSelect { .. }) {
            self.mode = UiMode::BlockSelect { block_index: index };
        }
    }

    pub fn in_place_edit_index(&self) -> (r: Option<usize>)
        ensures
            r == (match self.mode {
                UiMode::InPlaceEdit { index } => Some(index),
                _ => None,
            }),
    {
        match self.mode {
            UiMode::InPlaceEdit { index } => Some(index),
            _ => None,
        }
    }

    pub fn file_prompt(&self) -> (r: Option<&FilePrompt>)
        ensures
            match r {
                Some(p) => self.mode == UiMode::FilePrompt(*p),
                None => !(self.mode is FilePrompt),
            },
    {
        match &self.mode {
            UiMode::FilePrompt(p) => Some(p),
            _ => None,
        }
    }

    /// Ends an in-place edit and hands back the index it was editing.
    pub fn take_in_place_edit_index(&mut self) -> (r: Option<usize>)
        ensures
            match old(self).mode {
                UiMode::InPlaceEdit { index } => r == Some(index) && *final(self) == with_mode(
                    *old(self),
                    UiMode::Typing,
                ),
                _ => r is None && *final(self) == *old(self),
            },
    {
        match self.mode {
            UiMode::InPlaceEdit { index } => {
                self.mode = UiMode::Typing;
                Some(index)
            },
            _ => None,
        }
    }

    pub fn toggle_compose_mode(&mut self)
        ensures
            *final(self) == (UiState { compose_mode: !old(self).compose_mode, ..*old(self) }),
    {
        self.compose_mode = !self.compose_mode;
    }

    /// Selects the most recent user message for editing; without one nothing changes.
    pub fn enter_edit_select_mode(&mut self)
        ensures
            (forall|j: int| 0 <= j < old(self).messages@.len() ==> !user_at(old(self).messages@, j))
                ==> *final(self) == *old(self),
            (exists|j: int| user_at(old(self).messages@, j)) ==> {
                &&& final(self).mode matches UiMode::EditSelect { selected_index }
                &&& *final(self) == with_mode(*old(self), final(self).mode)
                &&& user_at(old(self).messages@, selected_index as int)
                &&& forall|j: int|
                    selected_index < j < old(self).messages@.len() ==> !user_at(
                        old(self).messages@,
                        j,
                    )
            },
    {
        if let Some(idx) = self.last_user_message_index() {
            self.mode = UiMode::EditSelect { selected_index: idx };
        }
    }

    pub fn exit_edit_select_mode(&mut self)
        ensures
            *final(self) == if old(self).mode is EditSelect {
                with_mode(*old(self), UiMode::Typing)
            } else {
                *old(self)
            },
    {
        if self.in_edit_select_mode() {
            self.mode = UiMode::Typing;
        }
    }

    /// Begins editing the message at `index` in place.
    pub fn start_in_place_edit(&mut self, index: usize)
        ensures
            *final(self) == with_mode(*old(self), UiMode::InPlaceEdit { index }),
    {
        self.mode = UiMode::InPlaceEdit { index };
    }

    /// Leaves an in-place edit without touching the transcript.
    pub fn cancel_in_place_edit(&mut self)
        ensures
            *final(self) == if old(self).mode is InPlaceEdit {
                with_mode(*old(self), UiMode::Typing)
            } else {
                *old(self)
            },
    {
        if matches!(self.mode, UiMode::InPlaceEdit { .. }) {
            self.mode = UiMode::Typing;
        }
    }

    pub fn enter_block_select_mode(&mut self, index: usize)
        ensures
            *final(self) == with_mode(*old(self), UiMode::BlockSelect { block_index: index }),
    {
        self.mode = UiMode::BlockSelect { block_index: index };
    }

    pub fn exit_block_select_mode(&mut self)
        ensures
            *final(self) == if old(self).mode is BlockSelect {
                with_mode(*old(self), UiMode::Typing)
            } else {
                *old(self)
            },
    {
        if self.in_block_select_mode() {
            self.mode = UiMode::Typing;
        }
    }
    /// Replaces the input text and puts the cursor after its last character;
    /// returns what the text area is to show.
    pub fn set_input_text(&mut self, text: String) -> (r: TextareaLines)
        ensures
            *final(self) == with_input(*old(self), text),
            textarea_for(r, text@),
    {
        let n = chars_of(text.as_str()).len();
        let lines: Vec<String> = if n == 0 {
            Vec::new()
        } else {
            split_chars(text.as_str(), '\n')
        };
        let mut row: usize = 0;
        let mut col: usize = 0;
        if n > 0 {
            proof {
                lemma_split_on_nonempty(text@, '\n');
            }
            row = lines.len() - 1;
            col = chars_of(lines[row].as_str()).len();
            assert(strings_view(lines@)[row as int] == lines@[row as int]@);
        } else {
            assert(strings_view(lines@) =~= Seq::<Seq<char>>::empty());
        }
        self.input = text;
        self.input_cursor_position = n;
        TextareaLines { lines, cursor_row: row, cursor_col: col }
    }

    /// Empties the input text.
    pub fn clear_input(&mut self) -> (r: TextareaLines)
        ensures
            final(self).input@ == Seq::<char>::empty(),
            *final(self) == with_input(*old(self), final(self).input),
            textarea_for(r, Seq::<char>::empty()),
    {
        self.set_input_text(String::new())
    }

    pub fn get_input_text(&self) -> (r: &str)
        ensures
            r@ == self.input@,
    {
        self.input.as_str()
    }

    /// Takes the text and cursor back from the text area after an edit there:
    /// the text is the lines joined by newlines, the cursor its position in it.
    pub fn sync_input_from_textarea(&mut self, lines: &Vec<String>, row: usize, col: usize)
        ensures
            final(self).input@ == join_with(strings_view(lines@), seq!['\n']),
            final(self).input_cursor_position == linear_cursor(
                strings_view(lines@),
                row as int,
                col as int,
            ),
            *final(self) == (UiState {
                input: final(self).input,
                input_cursor_position: final(self).input_cursor_position,
                ..*old(self)
            }),
    {
        let ghost ls = strings_view(lines@);
        let input = join_strings(lines, "\n");
        proof {
            reveal_strlit("\n");
            assert("\n"@ =~= seq!['\n']);
        }
        let total = chars_of(input.as_str()).len();
        let mut pos: usize = 0;
        if row >= lines.len() {
            pos = total;
        } else {
            proof {
                lemma_join_len(ls);
                lemma_chars_before_row_mono(ls, row as int, ls.len() - 1);
                if (row as int) < ls.len() - 1 {
                    lemma_chars_before_row_mono(ls, row as int + 1, ls.len() - 1);
                }
            }
            let mut i: usize = 0;
            while i < row
                invariant
                    row < lines@.len(),
                    i <= row,
                    ls == strings_view(lines@),
                    pos == chars_before_row(ls, i as int),
                    chars_before_row(ls, row as int) + ls[row as int].len() <= total,
                decreases row - i,
            {
                proof {
                    lemma_chars_before_row_mono(ls, i as int + 1, row as int);
                }
                let len = chars_of(lines[i].as_str()).len();
                pos = pos + len + 1;
                i = i + 1;
            }
            let len = chars_of(lines[row].as_str()).len();
            if col < len {
                pos = pos + col;
            } else {
                pos = pos + len;
            }
        }
        self.input = input;
        self.input_cursor_position = pos;
    }

    /// Opens the prompt for the file to write the transcript to, with
    /// `filename` as its text.
    pub fn start_file_prompt_dump(&mut self, filename: String) -> (r: TextareaLines)
        ensures
            *final(self) == with_input(
                with_mode(
                    *old(self),
                    UiMode::FilePrompt(FilePrompt { kind: FilePromptKind::Dump, content: None }),
                ),
                filename,
            ),
            textarea_for(r, filename@),
    {
        self.mode = UiMode::FilePrompt(FilePrompt { kind: FilePromptKind::Dump, content: None });
        self.set_input_text(filename)
    }

    /// Opens the prompt for the file to save the code block `content` to,
    /// with `filename` as its text.
    pub fn start_file_prompt_save_block(&mut self, filename: String, content: String) -> (r:
        TextareaLines)
        ensures
            *final(self) == with_input(
                with_mode(
                    *old(self),
                    UiMode::FilePrompt(
                        FilePrompt { kind: FilePromptKind::SaveCodeBlock, content: Some(content) },
                    ),
                ),
                filename,
            ),
            textarea_for(r, filename@),
    {
        self.mode = UiMode::FilePrompt(
            FilePrompt { kind: FilePromptKind::SaveCodeBlock, content: Some(content) },
        );
        self.set_input_text(filename)
    }

    /// Closes a file prompt, if one is open, and empties the input.
    pub fn cancel_file_prompt(&mut self) -> (r: TextareaLines)
        ensures
            final(self).mode == if old(self).mode is FilePrompt {
                UiMode::Typing
            } else {
                old(self).mode
            },
            final(self).input@ == Seq::<char>::empty(),
            *final(self) == with_input(with_mode(*old(self), final(self).mode), final(self).input),
            textarea_for(r, Seq::<char>::empty()),
    {
        if matches!(self.mode, UiMode::FilePrompt(_)) {
            self.mode = UiMode::Typing;
        }
        self.clear_input()
    }

    /// Finishes the in-place edit of message `index` with `new_text`. The
    /// edit ends in any case; the message is replaced only when the edit was
    /// of that very message and it is a user message. Says whether it was.
    pub fn complete_in_place_edit(&mut self, index: usize, new_text: String) -> (r: bool)
        ensures
            r == (old(self).mode == UiMode::InPlaceEdit { index } && user_at(
                old(self).messages@,
                index as int,
            )),
            final(self).mode == if old(self).mode is InPlaceEdit {
                UiMode::Typing
            } else {
                old(self).mode
            },
            final(self).messages@ == if r {
                old(self).messages@.update(
                    index as int,
                    Message { role: old(self).messages@[index as int].role, content: new_text },
                )
            } else {
                old(self).messages@
            },
            *final(self) == (UiState {
                mode: final(self).mode,
                messages: final(self).messages,
                ..*old(self)
            }),
    {
        let actual = match self.take_in_place_edit_index() {
            Some(i) => i,
            None => return false,
        };
        if actual != index {
            return false;
        }
        if actual >= self.messages.len() || !self.messages[actual].is_user() {
            return false;
        }
        let role = self.messages[actual].role;
        self.messages.set(actual, Message { role, content: new_text });
        true
    }
}

} // verus!

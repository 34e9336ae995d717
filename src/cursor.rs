//! The caret or selection over a `Value`.
use vstd::prelude::*;
use crate::value::{Value, clamp, previous_word_start, next_word_end};

verus! {

/// The shape of a cursor: a caret, or a selection from an anchor `start` to a
/// moving `end`, which may lie on either side of the anchor.
#[derive(Clone, Copy, Debug, PartialEq, Eq, Structural)]
pub enum State {
    Index(usize),
    Selection { start: usize, end: usize },
}

/// The cursor of a text field.
///
/// Its positions are kept as they were set and clamped to the value's length
/// whenever they are read, so `usize::MAX` stands for the end of any value.
#[derive(Clone, Copy, Debug, PartialEq, Eq, Structural)]
pub struct Cursor {
    pub state: State,
}

impl Default for Cursor {
    fn default() -> (r: Cursor)
        ensures
            r.state == State::Index(0),
    {
        Cursor { state: State::Index(0) }
    }
}

impl Cursor {
    /// A caret at `position`.
    pub open spec fn caret(position: usize) -> Cursor {
        Cursor { state: State::Index(position) }
    }

    /// The cursor that `select_range(start, end)` leaves.
    pub open spec fn ranged(start: usize, end: usize) -> Cursor {
        if start == end {
            Cursor { state: State::Index(start) }
        } else {
            Cursor { state: State::Selection { start, end } }
        }
    }

    /// The anchor, clamped to `len`.
    pub open spec fn start_spec(self, len: nat) -> usize {
        match self.state {
            State::Index(i) => clamp(i as int, len as int) as usize,
            State::Selection { start, .. } => clamp(start as int, len as int) as usize,
        }
    }

    /// The moving end, clamped to `len`.
    pub open spec fn end_spec(self, len: nat) -> usize {
        match self.state {
            State::Index(i) => clamp(i as int, len as int) as usize,
            State::Selection { end, .. } => clamp(end as int, len as int) as usize,
        }
    }

    /// The shape of the cursor over a value of length `len`: positions clamped,
    /// and a selection whose ends meet read as a caret.
    pub open spec fn state_spec(self, len: nat) -> State {
        match self.state {
            State::Index(_) => State::Index(self.end_spec(len)),
            State::Selection { .. } => {
                if self.start_spec(len) == self.end_spec(len) {
                    State::Index(self.end_spec(len))
                } else {
                    State::Selection { start: self.start_spec(len), end: self.end_spec(len) }
                }
            },
        }
    }

    /// The selected range, lower bound first, over a value of length `len`.
    pub open spec fn selection_spec(self, len: nat) -> Option<(usize, usize)> {
        match self.state_spec(len) {
            State::Index(_) => None,
            State::Selection { start, end } => {
                if start < end {
                    Some((start, end))
                } else {
                    Some((end, start))
                }
            },
        }
    }

    /// The left edge of the cursor: the caret, or the lower end of the selection.
    pub open spec fn left_spec(self, len: nat) -> usize {
        match self.state_spec(len) {
            State::Index(i) => i,
            State::Selection { start, end } => if start < end {
                start
            } else {
                end
            },
        }
    }

    /// The right edge of the cursor: the caret, or the upper end of the selection.
    pub open spec fn right_spec(self, len: nat) -> usize {
        match self.state_spec(len) {
            State::Index(i) => i,
            State::Selection { start, end } => if start < end {
                end
            } else {
                start
            },
        }
    }

    /// The caret that `move_right_by_amount(amount)` leaves over a value of length `len`.
    pub open spec fn moved_right_by(self, len: nat, amount: usize) -> Cursor {
        Cursor::caret(
            match self.state_spec(len) {
                State::Index(i) => clamp(i + amount, len as int) as usize,
                State::Selection { .. } => self.right_spec(len),
            },
        )
    }

    /// The caret that `move_right` leaves over a value of length `len`.
    pub open spec fn moved_right(self, len: nat) -> Cursor {
        self.moved_right_by(len, 1)
    }

    /// The caret that `move_left` leaves over a value of length `len`.
    pub open spec fn moved_left(self, len: nat) -> Cursor {
        Cursor::caret(
            match self.state_spec(len) {
                State::Index(i) => if i > 0 {
                    (i - 1) as usize
                } else {
                    0
                },
                State::Selection { .. } => self.left_spec(len),
            },
        )
    }

    /// The caret that `move_right_by_words` leaves over `value`.
    pub open spec fn moved_right_by_words(self, value: Seq<char>) -> Cursor {
        Cursor::caret(next_word_end(value, self.right_spec(value.len()) as int) as usize)
    }

    /// The caret that `move_left_by_words` leaves over `value`.
    pub open spec fn moved_left_by_words(self, value: Seq<char>) -> Cursor {
        Cursor::caret(previous_word_start(value, self.left_spec(value.len()) as int) as usize)
    }

    /// The cursor that `select_left` leaves over a value of length `len`.
    pub open spec fn selected_left(self, len: nat) -> Cursor {
        match self.state_spec(len) {
            State::Index(i) => if i > 0 {
                Cursor::ranged(i, (i - 1) as usize)
            } else {
                self
            },
            State::Selection { start, end } => if end > 0 {
                Cursor::ranged(start, (end - 1) as usize)
            } else {
                self
            },
        }
    }

    /// The cursor that `select_right` leaves over a value of length `len`.
    pub open spec fn selected_right(self, len: nat) -> Cursor {
        match self.state_spec(len) {
            State::Index(i) => if i < len {
                Cursor::ranged(i, (i + 1) as usize)
            } else {
                self
            },
            State::Selection { start, end } => if end < len {
                Cursor::ranged(start, (end + 1) as usize)
            } else {
                self
            },
        }
    }

    /// The cursor that `select_left_by_words` leaves over `value`.
    pub open spec fn selected_left_by_words(self, value: Seq<char>) -> Cursor {
        Cursor::ranged(
            self.start_spec(value.len()),
            previous_word_start(value, self.end_spec(value.len()) as int) as usize,
        )
    }

    /// The cursor that `select_right_by_words` leaves over `value`.
    pub open spec fn selected_right_by_words(self, value: Seq<char>) -> Cursor {
        Cursor::ranged(
            self.start_spec(value.len()),
            next_word_end(value, self.end_spec(value.len()) as int) as usize,
        )
    }

    /// The shape of the cursor over `value`.
    pub fn state(&self, value: &Value) -> (r: State)
        ensures
            r == self.state_spec(value@.len()),
    {
        let start = self.start(value);
        let end = self.end(value);
        match self.state {
            State::Index(_) => State::Index(end),
            State::Selection { .. } => {
                if start == end {
                    State::Index(end)
                } else {
                    State::Selection { start, end }
                }
            },
        }
    }

    /// The selected range over `value`, lower bound first; `None` for a caret.
    pub fn selection(&self, value: &Value) -> (r: Option<(usize, usize)>)
        ensures
            r == self.selection_spec(value@.len()),
    {
        match self.state(value) {
            State::Selection { start, end } => {
                if start < end {
                    Some((start, end))
                } else {
                    Some((end, start))
                }
            },
            State::Index(_) => None,
        }
    }

    /// Places a caret at `position`.
    pub fn move_to(&mut self, position: usize)
        ensures
            *final(self) == Cursor::caret(position),
    {
        self.state = State::Index(position);
    }

    /// Moves the caret one character right; a selection collapses to its right edge.
    pub fn move_right(&mut self, value: &Value)
        ensures
            *final(self) == old(self).moved_right(value@.len()),
    {
        self.move_right_by_amount(value, 1)
    }

    /// Moves the caret `amount` characters right, stopping at the end; a
    /// selection collapses to its right edge.
    pub fn move_right_by_amount(&mut self, value: &Value, amount: usize)
        ensures
            *final(self) == old(self).moved_right_by(value@.len(), amount),
    {
        match self.state(value) {
            State::Index(index) => {
                let len = value.len();
                let target = if amount <= len - index { index + amount } else { len };
                self.move_to(target);
            },
            State::Selection { start, end } => {
                self.move_to(if end > start { end } else { start });
            },
        }
    }

    /// Moves the caret to the end of the next word, from the cursor's right edge.
    pub fn move_right_by_words(&mut self, value: &Value)
        ensures
            *final(self) == old(self).moved_right_by_words(value@),
    {
        let right = self.right(value);
        self.move_to(value.next_end_of_word(right));
    }

    /// Moves the caret one character left; a selection collapses to its left edge.
    pub fn move_left(&mut self, value: &Value)
        ensures
            *final(self) == old(self).moved_left(value@.len()),
    {
        match self.state(value) {
            State::Index(index) => {
                self.move_to(if index > 0 { index - 1 } else { 0 });
            },
            State::Selection { start, end } => {
                self.move_to(if start < end { start } else { end });
            },
        }
    }

    /// Moves the caret to the start of the previous word, from the cursor's left edge.
    pub fn move_left_by_words(&mut self, value: &Value)
        ensures
            *final(self) == old(self).moved_left_by_words(value@),
    {
        let left = self.left(value);
        self.move_to(value.previous_start_of_word(left));
    }

    /// Selects from `start` to `end`; equal ends give a caret.
    pub fn select_range(&mut self, start: usize, end: usize)
        ensures
            *final(self) == Cursor::ranged(start, end),
    {
        if start == end {
            self.state = State::Index(start);
        } else {
            self.state = State::Selection { start, end };
        }
    }

    /// Extends the selection one character left of its moving end.
    pub fn select_left(&mut self, value: &Value)
        ensures
            *final(self) == old(self).selected_left(value@.len()),
    {
        match self.state(value) {
            State::Index(index) => {
                if index > 0 {
                    self.select_range(index, index - 1);
                }
            },
            State::Selection { start, end } => {
                if end > 0 {
                    self.select_range(start, end - 1);
                }
            },
        }
    }

    /// Extends the selection one character right of its moving end.
    pub fn select_right(&mut self, value: &Value)
        ensures
            *final(self) == old(self).selected_right(value@.len()),
    {
        let len = value.len();
        match self.state(value) {
            State::Index(index) => {
                if index < len {
                    self.select_range(index, index + 1);
                }
            },
            State::Selection { start, end } => {
                if end < len {
                    self.select_range(start, end + 1);
                }
            },
        }
    }

    /// Extends the selection from its moving end to the start of the previous word.
    pub fn select_left_by_words(&mut self, value: &Value)
        ensures
            *final(self) == old(self).selected_left_by_words(value@),
    {
        let start = self.start(value);
        let end = self.end(value);
        self.select_range(start, value.previous_start_of_word(end));
    }

    /// Extends the selection from its moving end to the end of the next word.
    pub fn select_right_by_words(&mut self, value: &Value)
        ensures
            *final(self) == old(self).selected_right_by_words(value@),
    {
        let start = self.start(value);
        let end = self.end(value);
        self.select_range(start, value.next_end_of_word(end));
    }

    /// Selects the whole of `value`.
    pub fn select_all(&mut self, value: &Value)
        ensures
            *final(self) == Cursor::ranged(0, value@.len() as usize),
    {
        self.select_range(0, value.len());
    }

    /// The anchor of the cursor over `value`.
    pub fn start(&self, value: &Value) -> (r: usize)
        ensures
            r == self.start_spec(value@.len()),
    {
        let start = match self.state {
            State::Index(index) => index,
            State::Selection { start, .. } => start,
        };
        let len = value.len();
        if start < len { start } else { len }
    }

    /// The moving end of the cursor over `value`.
    pub fn end(&self, value: &Value) -> (r: usize)
        ensures
            r == self.end_spec(value@.len()),
    {
        let end = match self.state {
            State::Index(index) => index,
            State::Selection { end, .. } => end,
        };
        let len = value.len();
        if end < len { end } else { len }
    }

    /// The left edge of the cursor over `value`.
    pub fn left(&self, value: &Value) -> (r: usize)
        ensures
            r == self.left_spec(value@.len()),
    {
        match self.state(value) {
            State::Index(index) => index,
            State::Selection { start, end } => if start < end {
                start
            } else {
                end
            },
        }
    }

    /// The right edge of the cursor over `value`.
    pub fn right(&self, value: &Value) -> (r: usize)
        ensures
            r == self.right_spec(value@.len()),
    {
        match self.state(value) {
            State::Index(index) => index,
            State::Selection { start, end } => if start < end {
                end
            } else {
                start
            },
        }
    }
}

/// Moving the caret to a valid index leaves no selection, and the caret at that index.
pub proof fn lemma_move_to_collapses(value: Seq<char>, position: usize)
    requires
        position <= value.len(),
    ensures
        Cursor::caret(position).selection_spec(value.len()) is None,
        Cursor::caret(position).state_spec(value.len()) == State::Index(position),
{
}

/// Selecting a range of valid indices and then reading the selection gives the
/// range with its lower bound first, or nothing where its ends are equal.
pub proof fn lemma_select_range_selection(value: Seq<char>, a: usize, b: usize)
    requires
        a <= value.len(),
        b <= value.len(),
    ensures
        Cursor::ranged(a, b).selection_spec(value.len()) == (if a == b {
            None
        } else if a < b {
            Some((a, b))
        } else {
            Some((b, a))
        }),
{
}

} // verus!

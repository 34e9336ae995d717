//! Single edits applied to a value and its cursor together.
use vstd::prelude::*;
use crate::cursor::{Cursor, State};
use crate::value::Value;

verus! {

/// The range that an edit replaces: the selection, or the empty range at the caret.
pub open spec fn edit_range(cursor: Cursor, len: nat) -> (usize, usize) {
    match cursor.selection_spec(len) {
        Some(range) => range,
        None => (cursor.end_spec(len), cursor.end_spec(len)),
    }
}

/// `s` with the characters from `lo` to `hi` replaced by `inserted`.
pub open spec fn splice(s: Seq<char>, lo: int, hi: int, inserted: Seq<char>) -> Seq<char> {
    s.subrange(0, lo) + inserted + s.subrange(hi, s.len() as int)
}

/// The text and cursor after `insert(c)`: the edit range replaced by `c`, the
/// caret right after it.
pub open spec fn inserted(value: Seq<char>, cursor: Cursor, c: char) -> (Seq<char>, Cursor) {
    pasted(value, cursor, seq![c])
}

/// The text and cursor after `paste(content)`: the edit range replaced by
/// `content`, the caret right after it.
pub open spec fn pasted(value: Seq<char>, cursor: Cursor, content: Seq<char>) -> (Seq<char>, Cursor) {
    let (lo, hi) = edit_range(cursor, value.len());
    (splice(value, lo as int, hi as int, content), Cursor::caret((lo + content.len()) as usize))
}

/// The text and cursor after `backspace()`: the selection removed, or else the
/// character left of the caret; unchanged at the start.
pub open spec fn backspaced(value: Seq<char>, cursor: Cursor) -> (Seq<char>, Cursor) {
    match cursor.selection_spec(value.len()) {
        Some((lo, hi)) => (splice(value, lo as int, hi as int, Seq::empty()), Cursor::caret(lo)),
        None => {
            let at = cursor.end_spec(value.len());
            if at > 0 {
                (value.remove(at - 1), Cursor::caret((at - 1) as usize))
            } else {
                (value, cursor)
            }
        },
    }
}

/// The text and cursor after `delete()`: the selection removed, or else the
/// character right of the caret; unchanged at the end.
pub open spec fn deleted(value: Seq<char>, cursor: Cursor) -> (Seq<char>, Cursor) {
    match cursor.selection_spec(value.len()) {
        Some(_) => backspaced(value, cursor),
        None => {
            let at = cursor.end_spec(value.len());
            if at < value.len() {
                (value.remove(at as int), cursor)
            } else {
                (value, cursor)
            }
        },
    }
}

proof fn lemma_edit_range_bounds(cursor: Cursor, len: nat)
    ensures
        edit_range(cursor, len).0 <= edit_range(cursor, len).1 <= len,
        cursor.selection_spec(len) is None ==> cursor.start_spec(len) == cursor.end_spec(len),
{
}

/// Removes the selection, if any, and leaves the caret at its left edge.
fn remove_selection(value: &mut Value, cursor: &mut Cursor)
    ensures
        old(cursor).selection_spec(old(value)@.len()) matches Some((lo, hi)) ==> {
            &&& final(value)@ == splice(old(value)@, lo as int, hi as int, Seq::empty())
            &&& *final(cursor) == Cursor::caret(lo)
        },
        old(cursor).selection_spec(old(value)@.len()) is None ==> {
            &&& final(value)@ == old(value)@
            &&& *final(cursor) == *old(cursor)
        },
{
    match cursor.selection(value) {
        Some((left, right)) => {
            cursor.move_left(value);
            value.remove_many(left, right);
        },
        None => {},
    }
}

/// Replaces the selection, or inserts at the caret, with `c`; the caret
/// ends right after it.
pub fn insert(value: &mut Value, cursor: &mut Cursor, c: char)
    requires
        old(value)@.len() < usize::MAX,
    ensures
        (final(value)@, *final(cursor)) == inserted(old(value)@, *old(cursor), c),
{
    proof {
        lemma_edit_range_bounds(*cursor, value@.len());
    }
    remove_selection(value, cursor);
    let at = cursor.end(value);
    value.insert(at, c);
    cursor.move_right(value);
    proof {
        let (lo, hi) = edit_range(*old(cursor), old(value)@.len());
        assert(value@ =~= splice(old(value)@, lo as int, hi as int, seq![c]));
        assert(seq![c].len() == 1);
    }
}

/// Replaces the selection, or inserts at the caret, with `content`; the caret
/// ends right after it.
pub fn paste(value: &mut Value, cursor: &mut Cursor, content: Value)
    requires
        old(value)@.len() + content@.len() <= usize::MAX,
    ensures
        (final(value)@, *final(cursor)) == pasted(old(value)@, *old(cursor), content@),
{
    proof {
        lemma_edit_range_bounds(*cursor, value@.len());
    }
    let length = content.len();
    let ghost inserted = content@;
    remove_selection(value, cursor);
    let at = cursor.end(value);
    cursor.move_to(at);
    value.insert_many(at, content);
    cursor.move_right_by_amount(value, length);
    proof {
        let (lo, hi) = edit_range(*old(cursor), old(value)@.len());
        assert(value@ =~= splice(old(value)@, lo as int, hi as int, inserted));
    }
}

/// Removes the selection, or else the character left of the caret; nothing
/// happens at the start of the value.
pub fn backspace(value: &mut Value, cursor: &mut Cursor)
    ensures
        (final(value)@, *final(cursor)) == backspaced(old(value)@, *old(cursor)),
{
    proof {
        lemma_edit_range_bounds(*cursor, value@.len());
    }
    match cursor.selection(value) {
        Some((start, end)) => {
            cursor.move_left(value);
            value.remove_many(start, end);
        },
        None => {
            let start = cursor.start(value);
            if start > 0 {
                cursor.move_left(value);
                value.remove(start - 1);
            }
        },
    }
}

/// Removes the selection, or else the character right of the caret; nothing
/// happens at the end of the value.
pub fn delete(value: &mut Value, cursor: &mut Cursor)
    ensures
        (final(value)@, *final(cursor)) == deleted(old(value)@, *old(cursor)),
{
    match cursor.selection(value) {
        Some(_) => {
            backspace(value, cursor);
        },
        None => {
            let end = cursor.end(value);
            if end < value.len() {
                value.remove(end);
            }
        },
    }
}

/// The whole text after an edit.
pub fn contents(value: &Value) -> (r: String)
    ensures
        r@ == value@,
{
    value.to_string()
}

/// Inserting a character at a caret and then deleting backwards restores the
/// text and the caret.
pub proof fn lemma_insert_then_backspace(value: Seq<char>, cursor: Cursor, c: char)
    requires
        cursor.selection_spec(value.len()) is None,
        value.len() < usize::MAX,
    ensures
        backspaced(inserted(value, cursor, c).0, inserted(value, cursor, c).1).0 == value,
        backspaced(inserted(value, cursor, c).0, inserted(value, cursor, c).1).1.state_spec(
            value.len(),
        ) == cursor.state_spec(value.len()),
{
    let at = cursor.end_spec(value.len());
    let (text, caret) = inserted(value, cursor, c);
    assert(text.len() == value.len() + 1);
    assert(caret.end_spec(text.len()) == at + 1);
    assert(text.remove(at as int) =~= value);
}

} // verus!

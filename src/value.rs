//! The text content of the field, indexed by Unicode scalar value.
use vstd::prelude::*;
use vstd::string::StrSliceExecFns;

verus! {

/// Whether `char::is_alphanumeric` holds of `c`.
pub uninterp spec fn alphanumeric_of(c: char) -> bool;

/// A control character: Unicode general category Cc, which is U+0000 to
/// U+001F and U+007F to U+009F.
pub open spec fn control_of(c: char) -> bool {
    let u = c as u32;
    u <= 0x1f || (0x7f <= u && u <= 0x9f)
}

/// Whether `c` is a control character (see `control_of`).
pub fn is_control(c: char) -> (r: bool)
    ensures
        r == control_of(c),
{
    let u = c as u32;
    u <= 0x1f || (0x7f <= u && u <= 0x9f)
}

/// Relies on `char::is_alphanumeric`: Unicode Alphabetic or Numeric.
#[verifier::external_body]
fn is_alphanumeric(c: char) -> (r: bool)
    ensures
        r == alphanumeric_of(c),
{
    c.is_alphanumeric()
}

/// Relies on `String::push`: appends one char at the end.
#[verifier::external_body]
pub(crate) fn push_char(s: &mut String, c: char)
    ensures
        final(s)@ == old(s)@.push(c),
{
    s.push(c)
}

/// `i`, or `len` where `i` lies past it.
pub open spec fn clamp(i: int, len: int) -> int {
    if i < len {
        i
    } else {
        len
    }
}

/// `s` without its control characters, the others kept in order.
pub open spec fn strip_controls(s: Seq<char>) -> Seq<char>
    decreases s.len(),
{
    if s.len() == 0 {
        s
    } else if control_of(s.last()) {
        strip_controls(s.drop_last())
    } else {
        strip_controls(s.drop_last()).push(s.last())
    }
}

/// A character that belongs to a word: alphanumeric or an underscore.
pub open spec fn is_word_char(c: char) -> bool {
    alphanumeric_of(c) || c == '_'
}

/// Start of the run of word characters that ends at `j`.
pub open spec fn word_run_start(s: Seq<char>, j: int) -> int
    decreases j,
{
    if 0 < j <= s.len() && is_word_char(s[j - 1]) {
        word_run_start(s, j - 1)
    } else {
        j
    }
}

/// End of the run of word characters that starts at `j`.
pub open spec fn word_run_end(s: Seq<char>, j: int) -> int
    decreases s.len() - j,
{
    if 0 <= j < s.len() && is_word_char(s[j]) {
        word_run_end(s, j + 1)
    } else {
        j
    }
}

/// The index reached from `j` by stepping left over characters outside words.
pub open spec fn skip_gap_left(s: Seq<char>, j: int) -> int
    decreases j,
{
    if 0 < j <= s.len() && !is_word_char(s[j - 1]) {
        skip_gap_left(s, j - 1)
    } else {
        j
    }
}

/// The index reached from `j` by stepping right over characters outside words.
pub open spec fn skip_gap_right(s: Seq<char>, j: int) -> int
    decreases s.len() - j,
{
    if 0 <= j < s.len() && !is_word_char(s[j]) {
        skip_gap_right(s, j + 1)
    } else {
        j
    }
}

/// Start of the last word before `i`. A word is a run of word characters;
/// whitespace and punctuation between words are skipped.
pub open spec fn previous_word_start(s: Seq<char>, i: int) -> int {
    word_run_start(s, skip_gap_left(s, i))
}

/// End of the first word at or after `i`, with words as in `previous_word_start`.
pub open spec fn next_word_end(s: Seq<char>, i: int) -> int {
    word_run_end(s, skip_gap_right(s, i))
}

proof fn lemma_word_run_start_bounds(s: Seq<char>, j: int)
    requires
        0 <= j <= s.len(),
    ensures
        0 <= word_run_start(s, j) <= j,
    decreases j,
{
    if 0 < j && is_word_char(s[j - 1]) {
        lemma_word_run_start_bounds(s, j - 1);
    }
}

proof fn lemma_word_run_end_bounds(s: Seq<char>, j: int)
    requires
        0 <= j <= s.len(),
    ensures
        j <= word_run_end(s, j) <= s.len(),
    decreases s.len() - j,
{
    if j < s.len() && is_word_char(s[j]) {
        lemma_word_run_end_bounds(s, j + 1);
    }
}

proof fn lemma_skip_gap_left_bounds(s: Seq<char>, j: int)
    requires
        0 <= j <= s.len(),
    ensures
        0 <= skip_gap_left(s, j) <= j,
    decreases j,
{
    if 0 < j && !is_word_char(s[j - 1]) {
        lemma_skip_gap_left_bounds(s, j - 1);
    }
}

proof fn lemma_skip_gap_right_bounds(s: Seq<char>, j: int)
    requires
        0 <= j <= s.len(),
    ensures
        j <= skip_gap_right(s, j) <= s.len(),
    decreases s.len() - j,
{
    if j < s.len() && !is_word_char(s[j]) {
        lemma_skip_gap_right_bounds(s, j + 1);
    }
}

/// The start of the previous word never lies after `i`.
pub proof fn lemma_previous_word_start_bounds(s: Seq<char>, i: int)
    requires
        0 <= i <= s.len(),
    ensures
        0 <= previous_word_start(s, i) <= i,
{
    lemma_skip_gap_left_bounds(s, i);
    lemma_word_run_start_bounds(s, skip_gap_left(s, i));
}

/// The end of the next word never lies before `i`.
pub proof fn lemma_next_word_end_bounds(s: Seq<char>, i: int)
    requires
        0 <= i <= s.len(),
    ensures
        i <= next_word_end(s, i) <= s.len(),
{
    lemma_skip_gap_right_bounds(s, i);
    lemma_word_run_end_bounds(s, skip_gap_right(s, i));
}

/// The characters of a text field, one entry per Unicode scalar value.
pub struct Value {
    chars: Vec<char>,
}

impl View for Value {
    type V = Seq<char>;

    closed spec fn view(&self) -> Seq<char> {
        self.chars@
    }
}

impl Clone for Value {
    fn clone(&self) -> (r: Value)
        ensures
            r@ == self@,
    {
        Value { chars: self.chars.clone() }
    }
}

impl Value {
    /// Creates a value holding the characters of `string`.
    pub fn new(string: &str) -> (r: Value)
        ensures
            r@ == string@,
    {
        let n = string.unicode_len();
        let mut chars: Vec<char> = Vec::new();
        let mut i: usize = 0;
        while i < n
            invariant
                n == string@.len(),
                i <= n,
                chars@ == string@.subrange(0, i as int),
            decreases n - i,
        {
            chars.push(string.get_char(i));
            i = i + 1;
        }
        assert(chars@ =~= string@);
        Value { chars }
    }

    /// Creates a value holding the characters of `string` that are not control characters.
    pub fn without_controls(string: &str) -> (r: Value)
        ensures
            r@ == strip_controls(string@),
    {
        let n = string.unicode_len();
        let mut chars: Vec<char> = Vec::new();
        let mut i: usize = 0;
        while i < n
            invariant
                n == string@.len(),
                i <= n,
                chars@ == strip_controls(string@.subrange(0, i as int)),
            decreases n - i,
        {
            let c = string.get_char(i);
            assert(string@.subrange(0, i + 1).drop_last() =~= string@.subrange(0, i as int));
            if !is_control(c) {
                chars.push(c);
            }
            i = i + 1;
        }
        assert(string@.subrange(0, n as int) =~= string@);
        Value { chars }
    }

    /// Creates a value from a sequence of characters.
    pub fn from_chars(chars: Vec<char>) -> (r: Value)
        ensures
            r@ == chars@,
    {
        Value { chars }
    }

    /// Whether the value holds no character.
    pub fn is_empty(&self) -> (r: bool)
        ensures
            r == (self@.len() == 0),
    {
        self.chars.len() == 0
    }

    /// The number of characters.
    pub fn len(&self) -> (r: usize)
        ensures
            r == self@.len(),
    {
        self.chars.len()
    }

    /// The character at `index`.
    pub fn char_at(&self, index: usize) -> (r: char)
        requires
            index < self@.len(),
        ensures
            r == self@[index as int],
    {
        self.chars[index]
    }

    fn is_word_char_at(&self, index: usize) -> (r: bool)
        requires
            index < self@.len(),
        ensures
            r == is_word_char(self@[index as int]),
    {
        let c = self.chars[index];
        c == '_' || is_alphanumeric(c)
    }

    /// The index where the word before `index` starts (see `previous_word_start`);
    /// an index past the end counts as the end.
    pub fn previous_start_of_word(&self, index: usize) -> (r: usize)
        ensures
            r == previous_word_start(self@, clamp(index as int, self@.len() as int)),
            r <= clamp(index as int, self@.len() as int),
    {
        let ghost s = self@;
        let mut j: usize = if index < self.chars.len() { index } else { self.chars.len() };
        let ghost i0 = j as int;
        while j > 0 && !self.is_word_char_at(j - 1)
            invariant
                s == self@,
                j <= s.len(),
                skip_gap_left(s, j as int) == skip_gap_left(s, i0),
            decreases j,
        {
            j = j - 1;
        }
        let ghost w0 = j as int;
        while j > 0 && self.is_word_char_at(j - 1)
            invariant
                s == self@,
                j <= s.len(),
                word_run_start(s, j as int) == word_run_start(s, w0),
            decreases j,
        {
            j = j - 1;
        }
        proof {
            lemma_previous_word_start_bounds(s, i0);
        }
        j
    }

    /// The index where the word at or after `index` ends (see `next_word_end`);
    /// an index past the end counts as the end.
    pub fn next_end_of_word(&self, index: usize) -> (r: usize)
        ensures
            r == next_word_end(self@, clamp(index as int, self@.len() as int)),
            clamp(index as int, self@.len() as int) <= r <= self@.len(),
    {
        let ghost s = self@;
        let n = self.chars.len();
        let mut j: usize = if index < n { index } else { n };
        let ghost i0 = j as int;
        while j < n && !self.is_word_char_at(j)
            invariant
                s == self@,
                n == s.len(),
                j <= n,
                skip_gap_right(s, j as int) == skip_gap_right(s, i0),
            decreases n - j,
        {
            j = j + 1;
        }
        let ghost w0 = j as int;
        while j < n && self.is_word_char_at(j)
            invariant
                s == self@,
                n == s.len(),
                j <= n,
                word_run_end(s, j as int) == word_run_end(s, w0),
            decreases n - j,
        {
            j = j + 1;
        }
        proof {
            lemma_next_word_end_bounds(s, i0);
        }
        j
    }

    /// The characters from `start` to `end`, both clamped to the length.
    pub fn select(&self, start: usize, end: usize) -> (r: Value)
        requires
            clamp(start as int, self@.len() as int) <= clamp(end as int, self@.len() as int),
        ensures
            r@ == self@.subrange(
                clamp(start as int, self@.len() as int),
                clamp(end as int, self@.len() as int),
            ),
    {
        let n = self.chars.len();
        let lo: usize = if start < n { start } else { n };
        let hi: usize = if end < n { end } else { n };
        let mut chars: Vec<char> = Vec::new();
        let mut i: usize = lo;
        while i < hi
            invariant
                n == self@.len(),
                lo <= i <= hi <= n,
                chars@ == self@.subrange(lo as int, i as int),
            decreases hi - i,
        {
            chars.push(self.chars[i]);
            i = i + 1;
        }
        Value { chars }
    }

    /// The first `index` characters, or all of them where `index` lies past the end.
    pub fn until(&self, index: usize) -> (r: Value)
        ensures
            r@ == self@.subrange(0, clamp(index as int, self@.len() as int)),
    {
        self.select(0, index)
    }

    /// The characters as a `String`.
    pub fn to_string(&self) -> (r: String)
        ensures
            r@ == self@,
    {
        let mut s = String::new();
        let mut i: usize = 0;
        while i < self.chars.len()
            invariant
                i <= self@.len(),
                s@ == self@.subrange(0, i as int),
            decreases self@.len() - i,
        {
            push_char(&mut s, self.chars[i]);
            i = i + 1;
        }
        assert(s@ =~= self@);
        s
    }

    /// Inserts `c` before the character at `index`.
    pub fn insert(&mut self, index: usize, c: char)
        requires
            index <= old(self)@.len(),
        ensures
            final(self)@ == old(self)@.insert(index as int, c),
    {
        self.chars.insert(index, c);
    }

    /// Inserts all of `value` before the character at `index`.
    pub fn insert_many(&mut self, index: usize, value: Value)
        requires
            index <= old(self)@.len(),
        ensures
            final(self)@ == old(self)@.subrange(0, index as int) + value@ + old(self)@.subrange(
                index as int,
                old(self)@.len() as int,
            ),
    {
        let ghost s0 = self@;
        let mut i: usize = 0;
        while i < value.chars.len()
            invariant
                index <= s0.len(),
                i <= value@.len(),
                self@ == s0.subrange(0, index as int) + value@.subrange(0, i as int)
                    + s0.subrange(index as int, s0.len() as int),
            decreases value@.len() - i,
        {
            let current = self.chars.len();
            assert(index + i <= current);
            self.chars.insert(index + i, value.chars[i]);
            i = i + 1;
            assert(self@ =~= s0.subrange(0, index as int) + value@.subrange(0, i as int)
                + s0.subrange(index as int, s0.len() as int));
        }
        assert(value@.subrange(0, i as int) =~= value@);
    }

    /// Removes the character at `index`.
    pub fn remove(&mut self, index: usize)
        requires
            index < old(self)@.len(),
        ensures
            final(self)@ == old(self)@.remove(index as int),
    {
        self.chars.remove(index);
    }

    /// Removes the characters from `start` up to, not including, `end`.
    pub fn remove_many(&mut self, start: usize, end: usize)
        requires
            start <= end <= old(self)@.len(),
        ensures
            final(self)@ == old(self)@.subrange(0, start as int) + old(self)@.subrange(
                end as int,
                old(self)@.len() as int,
            ),
    {
        let ghost s0 = self@;
        let mut k: usize = end;
        while k > start
            invariant
                start <= k <= end <= s0.len(),
                self@ == s0.subrange(0, k as int) + s0.subrange(end as int, s0.len() as int),
            decreases k,
        {
            self.chars.remove(k - 1);
            k = k - 1;
            assert(self@ =~= s0.subrange(0, k as int) + s0.subrange(end as int, s0.len() as int));
        }
    }
}

} // verus!

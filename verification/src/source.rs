//! Source text and positions within it.
//!
//! The parser works on the characters of a source text. Every syntax
//! element records the position it started at: its byte offset, its line,
//! and its column counted in characters, both starting at one.

use vstd::prelude::*;

verus! {

//------------ Character helpers ---------------------------------------------

/// Whether a character has the Unicode `Alphabetic` property.
pub uninterp spec fn unicode_alphabetic(c: char) -> bool;

/// Whether a character is alphabetic or numeric in the Unicode sense.
pub uninterp spec fn unicode_alphanumeric(c: char) -> bool;

/// Calls `char::is_alphabetic`.
///
/// Claims that the result is the Unicode `Alphabetic` property of `c`, as
/// named by `unicode_alphabetic`, and that ASCII letters have it; the
/// Unicode tables themselves are not stated.
#[verifier::external_body]
pub(crate) fn is_alphabetic(c: char) -> (res: bool)
    ensures
        res == unicode_alphabetic(c),
        ('a' <= c <= 'z' || 'A' <= c <= 'Z') ==> res,
{
    c.is_alphabetic()
}

/// Calls `char::is_alphanumeric`.
///
/// Claims that the result is named by `unicode_alphanumeric` and, as the
/// documentation says, that every alphabetic character and every ASCII
/// digit is alphanumeric.
#[verifier::external_body]
pub(crate) fn is_alphanumeric(c: char) -> (res: bool)
    ensures
        res == unicode_alphanumeric(c),
        unicode_alphabetic(c) ==> res,
        '0' <= c <= '9' ==> res,
{
    c.is_alphanumeric()
}

/// Whether a number is a Unicode scalar value, that is, a valid `char`.
pub open spec fn is_scalar_value(v: u32) -> bool {
    v <= 0x10FFFF && !(0xD800 <= v && v <= 0xDFFF)
}

/// Calls `char::from_u32`.
///
/// Claims what the documentation says: there is a character exactly for
/// the Unicode scalar values, and it has the given value.
#[verifier::external_body]
pub(crate) fn char_from_u32(v: u32) -> (res: Option<char>)
    ensures
        res is Some <==> is_scalar_value(v),
        res matches Some(c) ==> c as u32 == v,
{
    char::from_u32(v)
}

/// Calls `String::push`.
///
/// Claims that the character is appended to the string.
#[verifier::external_body]
pub(crate) fn push_char(s: &mut String, c: char)
    ensures
        final(s)@ == old(s)@.push(c),
{
    s.push(c)
}

/// The number of bytes of the UTF-8 encoding of a character.
pub open spec fn char_utf8_len(c: char) -> int {
    if (c as u32) < 0x80 {
        1
    } else if (c as u32) < 0x800 {
        2
    } else if (c as u32) < 0x10000 {
        3
    } else {
        4
    }
}

/// Returns the number of bytes of the UTF-8 encoding of a character.
pub fn len_utf8(c: char) -> (res: usize)
    ensures
        res == char_utf8_len(c),
{
    let v = c as u32;
    if v < 0x80 {
        1
    } else if v < 0x800 {
        2
    } else if v < 0x10000 {
        3
    } else {
        4
    }
}

//------------ Positions -----------------------------------------------------

/// The number of bytes of the UTF-8 encoding of the first `i` characters.
pub open spec fn utf8_prefix_len(s: Seq<char>, i: int) -> int
    decreases i,
{
    if i <= 0 {
        0
    } else {
        utf8_prefix_len(s, i - 1) + char_utf8_len(s[i - 1])
    }
}

/// The number of line feeds among the first `i` characters.
pub open spec fn newlines_before(s: Seq<char>, i: int) -> int
    decreases i,
{
    if i <= 0 {
        0
    } else {
        newlines_before(s, i - 1) + if s[i - 1] == '\n' { 1int } else { 0int }
    }
}

/// The index of the first character of the line that index `i` is on.
pub open spec fn line_start(s: Seq<char>, i: int) -> int
    decreases i,
{
    if i <= 0 {
        0
    } else if s[i - 1] == '\n' {
        i
    } else {
        line_start(s, i - 1)
    }
}

/// The position of an item within input.
#[derive(Clone, Copy, Debug, PartialEq, Eq, Structural)]
pub struct Pos {
    /// The byte offset from the start of the input.
    pub offset: usize,
    /// The line, starting at one.
    pub line: u32,
    /// The column in characters, starting at one.
    pub col: usize,
}

/// The position at character index `i` of `s`.
pub open spec fn pos_at(s: Seq<char>, i: int) -> Pos {
    Pos {
        offset: utf8_prefix_len(s, i) as usize,
        line: (newlines_before(s, i) + 1) as u32,
        col: (i - line_start(s, i) + 1) as usize,
    }
}

/// Whether the positions of a text can be represented.
///
/// The byte length must fit a `usize` and the number of lines a `u32`.
pub open spec fn fits(s: Seq<char>) -> bool {
    &&& s.len() < u32::MAX
    &&& utf8_prefix_len(s, s.len() as int) <= usize::MAX
}

proof fn lemma_prefix_bounds(s: Seq<char>, i: int, j: int)
    requires
        0 <= i <= j,
    ensures
        utf8_prefix_len(s, i) <= utf8_prefix_len(s, j),
        0 <= newlines_before(s, i) <= i,
        0 <= line_start(s, i) <= i,
        utf8_prefix_len(s, i) >= 0,
    decreases j,
{
    if j > i {
        lemma_prefix_bounds(s, i, j - 1);
    } else if i > 0 {
        lemma_prefix_bounds(s, i - 1, i - 1);
    }
}

/// Positions start at offset zero, line one, column one. Each character
/// moves the offset on by the length of its UTF-8 encoding; a line feed
/// starts the next line at column one, any other character moves one
/// column on.
pub proof fn law_positions(s: Seq<char>, i: int)
    requires
        fits(s),
        0 <= i < s.len(),
    ensures
        pos_at(s, 0) == (Pos { offset: 0, line: 1, col: 1 }),
        pos_at(s, i + 1).offset == pos_at(s, i).offset + char_utf8_len(s[i]),
        s[i] == '\n' ==> pos_at(s, i + 1).line == pos_at(s, i).line + 1 && pos_at(s, i + 1).col == 1,
        s[i] != '\n' ==> pos_at(s, i + 1).line == pos_at(s, i).line && pos_at(s, i + 1).col == pos_at(s, i).col + 1,
{
    lemma_prefix_bounds(s, i, i + 1);
    lemma_prefix_bounds(s, i + 1, s.len() as int);
    lemma_prefix_bounds(s, i, s.len() as int);
    lemma_prefix_bounds(s, i + 1, i + 1);
}

//------------ Source --------------------------------------------------------

/// A source text prepared for parsing.
///
/// It holds the characters of the text and the position of every index
/// into them, including the end.
pub struct Source {
    chars: Vec<char>,
    positions: Vec<Pos>,
}

impl Source {
    /// The characters of the source.
    pub closed spec fn text(&self) -> Seq<char> {
        self.chars@
    }

    /// The source is well formed: the recorded positions are right.
    pub closed spec fn wf(&self) -> bool {
        &&& self.positions@.len() == self.chars@.len() + 1
        &&& forall|k: int| 0 <= k <= self.chars@.len() ==> #[trigger] self.positions@[k] == pos_at(self.chars@, k)
        &&& fits(self.chars@)
    }

    /// Prepares a text for parsing.
    pub fn new(input: &str) -> (res: Source)
        requires
            fits(input@),
        ensures
            res.wf(),
            res.text() == input@,
    {
        let mut chars: Vec<char> = Vec::new();
        for c in it: input.chars()
            invariant
                chars@ == it.seq().take(it.index() as int),
        {
            chars.push(c);
        }
        assert(chars@ == input@);
        let ghost s = chars@;
        let mut positions: Vec<Pos> = Vec::new();
        let mut offset: usize = 0;
        let mut line: u32 = 1;
        let mut start: usize = 0;
        let mut k: usize = 0;
        proof {
            lemma_prefix_bounds(s, 0, s.len() as int);
        }
        while k < chars.len()
            invariant
                s == chars@,
                fits(s),
                k <= chars.len(),
                positions@.len() == k,
                forall|m: int| 0 <= m < k ==> #[trigger] positions@[m] == pos_at(s, m),
                offset == utf8_prefix_len(s, k as int),
                line == newlines_before(s, k as int) + 1,
                start == line_start(s, k as int),
            decreases chars.len() - k,
        {
            proof {
                lemma_prefix_bounds(s, k as int, k as int);
                lemma_prefix_bounds(s, k + 1, s.len() as int);
                lemma_prefix_bounds(s, k + 1, k + 1);
            }
            positions.push(Pos { offset, line, col: k - start + 1 });
            let c = chars[k];
            offset = offset + len_utf8(c);
            if c == '\n' {
                line = line + 1;
                start = k + 1;
            }
            k = k + 1;
        }
        proof {
            lemma_prefix_bounds(s, k as int, k as int);
        }
        positions.push(Pos { offset, line, col: k - start + 1 });
        Source { chars, positions }
    }

    /// Returns the number of characters.
    pub fn len(&self) -> (res: usize)
        ensures
            res == self.text().len(),
    {
        self.chars.len()
    }

    /// Returns the character at index `i`.
    pub fn char_at(&self, i: usize) -> (res: char)
        requires
            i < self.text().len(),
        ensures
            res == self.text()[i as int],
    {
        self.chars[i]
    }

    /// Returns the position at index `i`.
    pub fn pos(&self, i: usize) -> (res: Pos)
        requires
            self.wf(),
            i <= self.text().len(),
        ensures
            res == pos_at(self.text(), i as int),
    {
        self.positions[i]
    }

    /// Returns the characters from index `start` up to `end` as a string.
    pub fn slice(&self, start: usize, end: usize) -> (res: String)
        requires
            start <= end <= self.text().len(),
        ensures
            res@ == self.text().subrange(start as int, end as int),
    {
        let mut res = String::new();
        let mut k = start;
        while k < end
            invariant
                start <= k <= end <= self.chars@.len(),
                res@ == self.chars@.subrange(start as int, k as int),
            decreases end - k,
        {
            push_char(&mut res, self.chars[k]);
            k = k + 1;
            assert(res@ =~= self.chars@.subrange(start as int, k as int));
        }
        res
    }

    /// Returns the text from index `start` to the end.
    pub fn rest(&self, start: usize) -> (res: String)
        requires
            start <= self.text().len(),
        ensures
            res@ == self.text().subrange(start as int, self.text().len() as int),
    {
        self.slice(start, self.chars.len())
    }
}

} // verus!

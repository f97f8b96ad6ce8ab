//! The lexical elements of the map description language.
//!
//! Every element has a specification, a function on the characters of the
//! source and the index to start at, and a parser that provably computes
//! it. The specifications follow the grammar: alternatives are tried in
//! order, a failed alternative lets the next one be tried, while a number
//! whose exponent lacks digits stops all parsing (a cut) and a Unicode
//! escape for a value that is not a character aborts (a panic).

use vstd::prelude::*;
use crate::source::{
    Source, pos_at, unicode_alphabetic, unicode_alphanumeric, is_alphabetic, is_alphanumeric,
    is_scalar_value, char_from_u32, push_char,
};
use crate::ast::{Step, SpecStep, agrees, index_agrees, ends_within, prepend, lemma_prepend_push,
    lemma_prepend_empty, model_seq, Quoted, SpecQuoted, Text, SpecText, SymbolSet, SpecSymbolSet,
    UnitNumber, SpecUnitNumber, Atom, SpecAtom, AddSub, Direction, Connector, Vector, SpecVector,
    Angle, SpecAngle, Shift, SpecShift, Sideways, SpecSideways, Offset, SpecOffset, Distance,
    SpecDistance, spec_fail, Location, SpecLocation, Section, SpecSection, Identifier, SpecIdentifier, Symbol, SpecSymbol, Number, SpecNumber};

verus! {

//============ Character classes =============================================

/// White space: space, tab, carriage return and line feed.
pub open spec fn is_multispace(c: char) -> bool {
    c == ' ' || c == '\t' || c == '\r' || c == '\n'
}

/// An ASCII decimal digit.
pub open spec fn is_digit(c: char) -> bool {
    '0' <= c && c <= '9'
}

/// An ASCII hexadecimal digit.
pub open spec fn is_hex_digit(c: char) -> bool {
    ('0' <= c && c <= '9') || ('a' <= c && c <= 'f') || ('A' <= c && c <= 'F')
}

/// The value of a hexadecimal digit.
pub open spec fn hex_digit_value(c: char) -> int {
    if '0' <= c && c <= '9' {
        (c as int) - ('0' as int)
    } else if 'a' <= c && c <= 'f' {
        (c as int) - ('a' as int) + 10
    } else {
        (c as int) - ('A' as int) + 10
    }
}

/// A character that may start an identifier.
pub open spec fn is_ident_start(c: char) -> bool {
    unicode_alphabetic(c) || c == '_'
}

/// A character that may continue an identifier.
pub open spec fn is_ident_cont(c: char) -> bool {
    unicode_alphanumeric(c) || c == '_' || c == '.'
}

/// The end of the run of characters satisfying `pred` that starts at `k`.
pub open spec fn run_end(s: Seq<char>, k: int, pred: spec_fn(char) -> bool) -> int
    decreases s.len() - k,
{
    if 0 <= k < s.len() && pred(s[k]) {
        run_end(s, k + 1, pred)
    } else {
        k
    }
}

/// A run ends at or after its start and within the text.
pub proof fn lemma_run_end(s: Seq<char>, k: int, pred: spec_fn(char) -> bool)
    requires
        0 <= k <= s.len(),
    ensures
        k <= run_end(s, k, pred) <= s.len(),
        run_end(s, k, pred) < s.len() ==> !pred(s[run_end(s, k, pred)]),
        forall|m: int| k <= m < run_end(s, k, pred) ==> pred(#[trigger] s[m]),
    decreases s.len() - k,
{
    if k < s.len() && pred(s[k]) {
        lemma_run_end(s, k + 1, pred);
    }
}

/// The value of the hexadecimal digits from index `a` up to `b`.
pub open spec fn hex_value(s: Seq<char>, a: int, b: int) -> int
    decreases b - a,
{
    if b <= a {
        0
    } else {
        hex_value(s, a, b - 1) * 16 + hex_digit_value(s[b - 1])
    }
}

/// Sixteen to the power `n`.
pub open spec fn pow16(n: nat) -> int
    decreases n,
{
    if n == 0 {
        1
    } else {
        16 * pow16((n - 1) as nat)
    }
}

proof fn lemma_hex_value_bound(s: Seq<char>, a: int, b: int)
    requires
        a <= b,
        forall|m: int| a <= m < b ==> is_hex_digit(#[trigger] s[m]),
    ensures
        0 <= hex_value(s, a, b) < pow16((b - a) as nat),
    decreases b - a,
{
    if b > a {
        lemma_hex_value_bound(s, a, b - 1);
        let v = hex_value(s, a, b - 1);
        let p = pow16((b - 1 - a) as nat);
        let d = hex_digit_value(s[b - 1]);
        assert(is_hex_digit(s[b - 1]));
        assert(0 <= d < 16);
        assert(pow16((b - a) as nat) == 16 * p);
        assert(0 <= v * 16 + d < 16 * p) by (nonlinear_arith)
            requires
                0 <= v < p,
                0 <= d < 16,
        ;
    }
}

//============ White space ===================================================

/// The index of the first line feed at or after `k`, if there is one.
pub open spec fn newline_from(s: Seq<char>, k: int) -> Option<int>
    decreases s.len() - k,
{
    if 0 <= k < s.len() {
        if s[k] == '\n' {
            Some(k)
        } else {
            newline_from(s, k + 1)
        }
    } else {
        None
    }
}

proof fn lemma_newline_from(s: Seq<char>, k: int)
    requires
        0 <= k,
    ensures
        newline_from(s, k) matches Some(n) ==> k <= n < s.len() && s[n] == '\n',
    decreases s.len() - k,
{
    if 0 <= k < s.len() && s[k] != '\n' {
        lemma_newline_from(s, k + 1);
    }
}

/// A comment starts with a hash and runs to and including the end of its
/// line. The result is the index after the line feed.
pub open spec fn spec_comment(s: Seq<char>, i: int) -> Option<int> {
    if 0 <= i < s.len() && s[i] == '#' {
        match newline_from(s, i + 1) {
            Some(n) => Some(n + 1),
            None => None,
        }
    } else {
        None
    }
}

/// The index after any white space and comments starting at `i`.
pub open spec fn spec_skip_opt_ws(s: Seq<char>, i: int) -> int
    decreases s.len() - i,
{
    if 0 <= i < s.len() && is_multispace(s[i]) {
        spec_skip_opt_ws(s, i + 1)
    } else {
        match spec_comment(s, i) {
            Some(k) => if i < k <= s.len() {
                spec_skip_opt_ws(s, k)
            } else {
                i
            },
            None => i,
        }
    }
}

/// Mandatory white space: like optional white space, but there must be
/// some.
pub open spec fn spec_skip_ws(s: Seq<char>, i: int) -> Option<int> {
    if (0 <= i < s.len() && is_multispace(s[i])) || spec_comment(s, i) is Some {
        Some(spec_skip_opt_ws(s, i))
    } else {
        None
    }
}

/// Skipping white space ends within the text, after the start.
pub proof fn lemma_skip_opt_ws(s: Seq<char>, i: int)
    requires
        0 <= i <= s.len(),
    ensures
        i <= spec_skip_opt_ws(s, i) <= s.len(),
        spec_skip_ws(s, i) matches Some(j) ==> i < j <= s.len(),
    decreases s.len() - i,
{
    if 0 <= i < s.len() && is_multispace(s[i]) {
        lemma_skip_opt_ws(s, i + 1);
    } else {
        if 0 <= i < s.len() && s[i] == '#' {
            lemma_newline_from(s, i + 1);
        }
        match spec_comment(s, i) {
            Some(k) => if i < k <= s.len() {
                lemma_skip_opt_ws(s, k);
            },
            None => {},
        }
    }
}

/// Skipping white space a second time stays where the first skip ended.
pub proof fn law_skip_opt_ws_idempotent(s: Seq<char>, i: int)
    ensures
        spec_skip_opt_ws(s, spec_skip_opt_ws(s, i)) == spec_skip_opt_ws(s, i),
    decreases s.len() - i,
{
    if 0 <= i < s.len() && is_multispace(s[i]) {
        law_skip_opt_ws_idempotent(s, i + 1);
    } else {
        match spec_comment(s, i) {
            Some(k) => if i < k <= s.len() {
                law_skip_opt_ws_idempotent(s, k);
            },
            None => {},
        }
    }
}

/// Optional white space ends at the end of the text or at a character that
/// is neither white space nor the start of a comment running to a line
/// feed; it never goes backwards.
pub proof fn law_skip_opt_ws_stops(s: Seq<char>, i: int)
    requires
        0 <= i <= s.len(),
    ensures
        i <= spec_skip_opt_ws(s, i) <= s.len(),
        spec_skip_opt_ws(s, i) == s.len() || (
            s[spec_skip_opt_ws(s, i)] != ' ' && s[spec_skip_opt_ws(s, i)] != '\t'
            && s[spec_skip_opt_ws(s, i)] != '\r' && s[spec_skip_opt_ws(s, i)] != '\n'
            && spec_comment(s, spec_skip_opt_ws(s, i)) is None),
    decreases s.len() - i,
{
    if 0 <= i < s.len() && is_multispace(s[i]) {
        law_skip_opt_ws_stops(s, i + 1);
    } else {
        if 0 <= i < s.len() && s[i] == '#' {
            lemma_newline_from(s, i + 1);
        }
        match spec_comment(s, i) {
            Some(k) => if i < k <= s.len() {
                law_skip_opt_ws_stops(s, k);
            },
            None => {},
        }
    }
}

/// A comment runs from a hash to the first line feed after it, which it
/// includes.
pub proof fn law_comment(s: Seq<char>, i: int)
    requires
        0 <= i <= s.len(),
    ensures
        spec_comment(s, i) matches Some(k) ==> {
            &&& i < k <= s.len()
            &&& s[i] == '#'
            &&& s[k - 1] == '\n'
            &&& forall|m: int| i < m < k - 1 ==> s[m] != '\n'
        },
        (i < s.len() && s[i] == '#' && exists|m: int| i < m < s.len() && s[m] == '\n') ==> spec_comment(s, i) is Some,
        (i == s.len() || s[i] != '#') ==> spec_comment(s, i) is None,
{
    lemma_newline_from(s, i + 1);
    lemma_newline_from_first(s, i + 1);
}

/// The first line feed at or after `k` has none before it, and there is one
/// if any line feed follows.
proof fn lemma_newline_from_first(s: Seq<char>, k: int)
    requires
        0 <= k,
    ensures
        newline_from(s, k) matches Some(n) ==> forall|m: int| k <= m < n ==> s[m] != '\n',
        (exists|m: int| k <= m < s.len() && s[m] == '\n') ==> newline_from(s, k) is Some,
    decreases s.len() - k,
{
    if 0 <= k < s.len() && s[k] != '\n' {
        lemma_newline_from_first(s, k + 1);
        if exists|m: int| k <= m < s.len() && s[m] == '\n' {
            let m = choose|m: int| k <= m < s.len() && s[m] == '\n';
            assert(k + 1 <= m);
        }
    }
}

/// A character tag matches exactly that character and moves past it; a
/// text tag matches exactly that text and moves past all of it.
pub proof fn law_tags(s: Seq<char>, i: int, c: char, t: Seq<char>)
    requires
        0 <= i <= s.len(),
    ensures
        spec_char(s, i, c) is Some <==> (i < s.len() && s[i] == c),
        spec_char(s, i, c) matches Some(j) ==> j == i + 1,
        spec_tag(s, i, t) is Some <==> (i + t.len() <= s.len() && s.subrange(i, i + t.len()) == t),
        spec_tag(s, i, t) matches Some(j) ==> j == i + t.len(),
{
}

/// A number is the text it covers, at the position where it starts, and
/// covers at least one character.
pub proof fn law_number(s: Seq<char>, i: int)
    requires
        0 <= i <= s.len(),
    ensures
        spec_number(s, i) matches SpecStep::Done(num, j) ==> num.value == s.subrange(i, j) && num.pos == pos_at(s, i),
        (i == s.len() || !(is_digit(s[i]) || s[i] == '.' || s[i] == '+' || s[i] == '-')) ==> spec_number(s, i) is Backtrack,
{
    if 0 <= i < s.len() && !(is_digit(s[i]) || s[i] == '.' || s[i] == '+' || s[i] == '-') {
        lemma_run_end(s, i, |c: char| is_digit(c));
    }
    if i == s.len() {
        lemma_run_end(s, i, |c: char| is_digit(c));
    }
}

/// Returns whether `c` is white space.
fn is_space(c: char) -> (res: bool)
    ensures
        res == is_multispace(c),
{
    c == ' ' || c == '\t' || c == '\r' || c == '\n'
}

/// Returns the index of the first line feed at or after `k`.
fn find_newline(src: &Source, k: usize) -> (res: Option<usize>)
    requires
        k <= src.text().len(),
    ensures
        index_agrees(res, newline_from(src.text(), k as int)),
{
    let mut m = k;
    while m < src.len()
        invariant
            k <= m <= src.text().len(),
            newline_from(src.text(), k as int) == newline_from(src.text(), m as int),
        decreases src.text().len() - m,
    {
        if src.char_at(m) == '\n' {
            return Some(m);
        }
        m = m + 1;
    }
    None
}

/// Parses a comment starting at `i`.
///
/// Returns the index after the line feed that ends it.
pub fn comment(src: &Source, i: usize) -> (res: Option<usize>)
    requires
        i <= src.text().len(),
    ensures
        index_agrees(res, spec_comment(src.text(), i as int)),
        res matches Some(k) ==> i < k <= src.text().len(),
{
    proof {
        lemma_newline_from(src.text(), i + 1);
    }
    if i < src.len() && src.char_at(i) == '#' {
        match find_newline(src, i + 1) {
            Some(n) => Some(n + 1),
            None => None,
        }
    } else {
        None
    }
}

/// Skips optional white space and comments starting at `i`.
pub fn skip_opt_ws(src: &Source, i: usize) -> (res: usize)
    requires
        i <= src.text().len(),
    ensures
        res == spec_skip_opt_ws(src.text(), i as int),
        i <= res <= src.text().len(),
{
    let mut k = i;
    proof {
        lemma_skip_opt_ws(src.text(), i as int);
    }
    loop
        invariant
            i <= k <= src.text().len(),
            spec_skip_opt_ws(src.text(), i as int) == spec_skip_opt_ws(src.text(), k as int),
        decreases src.text().len() - k,
    {
        if k < src.len() && is_space(src.char_at(k)) {
            assert(spec_skip_opt_ws(src.text(), k as int) == spec_skip_opt_ws(src.text(), k + 1));
            k = k + 1;
        } else {
            match comment(src, k) {
                Some(n) => {
                    assert(spec_skip_opt_ws(src.text(), k as int) == spec_skip_opt_ws(src.text(), n as int));
                    k = n;
                },
                None => {
                    return k;
                },
            }
        }
    }
}

/// Skips mandatory white space and comments starting at `i`.
///
/// Returns `None` if there is no white space.
pub fn skip_ws(src: &Source, i: usize) -> (res: Option<usize>)
    requires
        i <= src.text().len(),
    ensures
        index_agrees(res, spec_skip_ws(src.text(), i as int)),
        res matches Some(k) ==> i < k <= src.text().len(),
{
    proof {
        lemma_skip_opt_ws(src.text(), i as int);
    }
    let space = i < src.len() && is_space(src.char_at(i));
    if space || comment(src, i).is_some() {
        Some(skip_opt_ws(src, i))
    } else {
        None
    }
}

//============ Literal text ==================================================

/// The index after the character `c` at `i`, if it is there.
pub open spec fn spec_char(s: Seq<char>, i: int, c: char) -> Option<int> {
    if 0 <= i < s.len() && s[i] == c {
        Some(i + 1)
    } else {
        None
    }
}

/// The index after the text `t` at `i`, if it is there.
pub open spec fn spec_tag(s: Seq<char>, i: int, t: Seq<char>) -> Option<int> {
    if 0 <= i && i + t.len() <= s.len() && s.subrange(i, i + t.len()) == t {
        Some(i + t.len())
    } else {
        None
    }
}

/// Parses the character `c` at `i`.
pub fn char_tag(src: &Source, i: usize, c: char) -> (res: Option<usize>)
    requires
        i <= src.text().len(),
    ensures
        index_agrees(res, spec_char(src.text(), i as int, c)),
{
    if i < src.len() && src.char_at(i) == c {
        Some(i + 1)
    } else {
        None
    }
}

/// Parses the text `t` at `i`.
pub fn tag(src: &Source, i: usize, t: &str) -> (res: Option<usize>)
    requires
        i <= src.text().len(),
    ensures
        index_agrees(res, spec_tag(src.text(), i as int, t@)),
{
    let n = t.unicode_len();
    let len = src.len();
    if n > len - i {
        return None;
    }
    let mut k: usize = 0;
    while k < n
        invariant
            n == t@.len(),
            len == src.text().len(),
            i + n <= len,
            k <= n,
            forall|m: int| 0 <= m < k ==> src.text()[i + m] == t@[m],
        decreases n - k,
    {
        if src.char_at(i + k) != t.get_char(k) {
            assert(src.text().subrange(i as int, i + n)[k as int] != t@[k as int]);
            return None;
        }
        k = k + 1;
    }
    assert(src.text().subrange(i as int, i + n) =~= t@);
    Some(i + n)
}

//============ Identifiers and symbols =======================================

/// An identifier at `i`: a character that may start an identifier, any
/// further such characters, then any characters that may continue one.
pub open spec fn spec_identifier(s: Seq<char>, i: int) -> Option<(SpecIdentifier, int)> {
    if 0 <= i < s.len() && is_ident_start(s[i]) {
        let k = run_end(s, i + 1, |c: char| is_ident_start(c));
        let j = run_end(s, k, |c: char| is_ident_cont(c));
        Some((SpecIdentifier { ident: s.subrange(i, j), pos: pos_at(s, i) }, j))
    } else {
        None
    }
}

/// An identifier starts with a letter or an underscore and takes all the
/// letters, digits, underscores and periods that follow; it is the text it
/// covers, at the position where it starts.
pub proof fn law_identifier(s: Seq<char>, i: int)
    requires
        0 <= i <= s.len(),
    ensures
        spec_identifier(s, i) is Some <==> (i < s.len() && (unicode_alphabetic(s[i]) || s[i] == '_')),
        spec_identifier(s, i) matches Some((id, j)) ==> {
            &&& i < j <= s.len()
            &&& id.ident == s.subrange(i, j)
            &&& id.pos == pos_at(s, i)
            &&& forall|m: int| i < m < j ==> (unicode_alphabetic(#[trigger] s[m]) || unicode_alphanumeric(s[m])
                || s[m] == '_' || s[m] == '.')
            &&& (j == s.len() || !(unicode_alphanumeric(s[j]) || s[j] == '_' || s[j] == '.'))
        },
{
    if 0 <= i < s.len() && is_ident_start(s[i]) {
        lemma_run_end(s, i + 1, |c: char| is_ident_start(c));
        let k = run_end(s, i + 1, |c: char| is_ident_start(c));
        lemma_run_end(s, k, |c: char| is_ident_cont(c));
        let j = run_end(s, k, |c: char| is_ident_cont(c));
        assert forall|m: int| i < m < j implies (unicode_alphabetic(#[trigger] s[m]) || unicode_alphanumeric(s[m])
            || s[m] == '_' || s[m] == '.') by {
            if m < k {
                assert(is_ident_start(s[m]));
            } else {
                assert(is_ident_cont(s[m]));
            }
        }
    }
}

/// An identifier ends after its start and within the text.
pub proof fn lemma_identifier(s: Seq<char>, i: int)
    requires
        0 <= i <= s.len(),
    ensures
        spec_identifier(s, i) matches Some((_, j)) ==> i < j <= s.len(),
{
    if 0 <= i < s.len() && is_ident_start(s[i]) {
        lemma_run_end(s, i + 1, |c: char| is_ident_start(c));
        let k = run_end(s, i + 1, |c: char| is_ident_start(c));
        lemma_run_end(s, k, |c: char| is_ident_cont(c));
    }
}

/// Parses an identifier at `i`.
pub fn identifier(src: &Source, i: usize) -> (res: Option<(Identifier, usize)>)
    requires
        src.wf(),
        i <= src.text().len(),
    ensures
        match (res, spec_identifier(src.text(), i as int)) {
            (Some((v, j)), Some((m, k))) => v@ == m && j == k,
            (None, None) => true,
            _ => false,
        },
        res matches Some((_, j)) ==> i < j <= src.text().len(),
{
    if i < src.len() && (is_alphabetic(src.char_at(i)) || src.char_at(i) == '_') {
        let ghost s = src.text();
        let mut k = i + 1;
        proof {
            lemma_run_end(s, k as int, |c: char| is_ident_start(c));
        }
        while k < src.len() && (is_alphabetic(src.char_at(k)) || src.char_at(k) == '_')
            invariant
                i < k <= s.len(),
                s == src.text(),
                run_end(s, i + 1, |c: char| is_ident_start(c)) == run_end(s, k as int, |c: char| is_ident_start(c)),
            decreases s.len() - k,
        {
            k = k + 1;
        }
        let mut j = k;
        proof {
            lemma_run_end(s, j as int, |c: char| is_ident_cont(c));
        }
        while j < src.len() && (is_alphanumeric(src.char_at(j)) || src.char_at(j) == '_' || src.char_at(j) == '.')
            invariant
                k <= j <= s.len(),
                s == src.text(),
                run_end(s, k as int, |c: char| is_ident_cont(c)) == run_end(s, j as int, |c: char| is_ident_cont(c)),
            decreases s.len() - j,
        {
            j = j + 1;
        }
        let ident = src.slice(i, j);
        Some((Identifier { ident, pos: src.pos(i) }, j))
    } else {
        None
    }
}

/// A symbol at `i`: a colon directly followed by an identifier.
pub open spec fn spec_symbol(s: Seq<char>, i: int) -> Option<(SpecSymbol, int)> {
    if 0 <= i < s.len() && s[i] == ':' {
        match spec_identifier(s, i + 1) {
            Some((ident, j)) => Some((SpecSymbol { ident, pos: pos_at(s, i) }, j)),
            None => None,
        }
    } else {
        None
    }
}

/// Parses a symbol at `i`.
pub fn symbol(src: &Source, i: usize) -> (res: Option<(Symbol, usize)>)
    requires
        src.wf(),
        i <= src.text().len(),
    ensures
        match (res, spec_symbol(src.text(), i as int)) {
            (Some((v, j)), Some((m, k))) => v@ == m && j == k,
            (None, None) => true,
            _ => false,
        },
        res matches Some((_, j)) ==> i < j <= src.text().len(),
{
    if i < src.len() && src.char_at(i) == ':' {
        match identifier(src, i + 1) {
            Some((ident, j)) => Some((Symbol { ident, pos: src.pos(i) }, j)),
            None => None,
        }
    } else {
        None
    }
}

//============ Numbers =======================================================

/// The end of the exponent of a number whose mantissa ends at `m`.
///
/// An exponent marker not followed by digits is a cut at the index where
/// the digits were expected.
pub open spec fn spec_exponent(s: Seq<char>, m: int) -> SpecStep<()> {
    if 0 <= m < s.len() && (s[m] == 'e' || s[m] == 'E') {
        let c = if m + 1 < s.len() && (s[m + 1] == '+' || s[m + 1] == '-') {
            m + 2
        } else {
            m + 1
        };
        let e = run_end(s, c, |c: char| is_digit(c));
        if e > c {
            SpecStep::Done((), e)
        } else {
            SpecStep::Cut(c)
        }
    } else {
        SpecStep::Done((), m)
    }
}

/// A number at `i` in Rust's floating point syntax: an optional sign,
/// digits optionally followed by a point and optional digits or a point
/// followed by digits, and an optional exponent.
pub open spec fn spec_recognize_float(s: Seq<char>, i: int) -> SpecStep<()> {
    let a = if 0 <= i < s.len() && (s[i] == '+' || s[i] == '-') {
        i + 1
    } else {
        i
    };
    let d = run_end(s, a, |c: char| is_digit(c));
    if d > a {
        let m = if d < s.len() && s[d] == '.' {
            run_end(s, d + 1, |c: char| is_digit(c))
        } else {
            d
        };
        spec_exponent(s, m)
    } else if 0 <= a < s.len() && s[a] == '.' {
        let d2 = run_end(s, a + 1, |c: char| is_digit(c));
        if d2 > a + 1 {
            spec_exponent(s, d2)
        } else {
            SpecStep::Backtrack
        }
    } else {
        SpecStep::Backtrack
    }
}

/// A number at `i`, kept as its text.
pub open spec fn spec_number(s: Seq<char>, i: int) -> SpecStep<SpecNumber> {
    match spec_recognize_float(s, i) {
        SpecStep::Done(_, j) => SpecStep::Done(SpecNumber { value: s.subrange(i, j), pos: pos_at(s, i) }, j),
        SpecStep::Backtrack => SpecStep::Backtrack,
        SpecStep::Cut(c) => SpecStep::Cut(c),
        SpecStep::Panic => SpecStep::Panic,
    }
}

/// Returns the end of the run of decimal digits starting at `k`.
fn digits_end(src: &Source, k: usize) -> (res: usize)
    requires
        k <= src.text().len(),
    ensures
        res == run_end(src.text(), k as int, |c: char| is_digit(c)),
        k <= res <= src.text().len(),
{
    let ghost s = src.text();
    proof {
        lemma_run_end(s, k as int, |c: char| is_digit(c));
    }
    let mut e = k;
    while e < src.len() && src.char_at(e) >= '0' && src.char_at(e) <= '9'
        invariant
            k <= e <= s.len(),
            s == src.text(),
            run_end(s, k as int, |c: char| is_digit(c)) == run_end(s, e as int, |c: char| is_digit(c)),
        decreases s.len() - e,
    {
        e = e + 1;
    }
    e
}

/// Parses the exponent of a number whose mantissa ends at `m`.
fn exponent(src: &Source, m: usize) -> (res: Step<()>)
    requires
        m <= src.text().len(),
    ensures
        agrees(res, spec_exponent(src.text(), m as int), |v: ()| v),
        ends_within(spec_exponent(src.text(), m as int), m as int, src.text().len() as int, false),
{
    if m < src.len() && (src.char_at(m) == 'e' || src.char_at(m) == 'E') {
        let c = if m + 1 < src.len() && (src.char_at(m + 1) == '+' || src.char_at(m + 1) == '-') {
            m + 2
        } else {
            m + 1
        };
        let e = digits_end(src, c);
        if e > c {
            Step::Done((), e)
        } else {
            Step::Cut(c)
        }
    } else {
        Step::Done((), m)
    }
}

/// Recognizes a number at `i`.
fn recognize_float(src: &Source, i: usize) -> (res: Step<()>)
    requires
        i <= src.text().len(),
    ensures
        agrees(res, spec_recognize_float(src.text(), i as int), |v: ()| v),
        ends_within(spec_recognize_float(src.text(), i as int), i as int, src.text().len() as int, true),
{
    let a = if i < src.len() && (src.char_at(i) == '+' || src.char_at(i) == '-') {
        i + 1
    } else {
        i
    };
    let d = digits_end(src, a);
    if d > a {
        let m = if d < src.len() && src.char_at(d) == '.' {
            digits_end(src, d + 1)
        } else {
            d
        };
        exponent(src, m)
    } else if a < src.len() && src.char_at(a) == '.' {
        let d2 = digits_end(src, a + 1);
        if d2 > a + 1 {
            exponent(src, d2)
        } else {
            Step::Backtrack
        }
    } else {
        Step::Backtrack
    }
}

/// Parses a number at `i`.
pub fn number(src: &Source, i: usize) -> (res: Step<Number>)
    requires
        src.wf(),
        i <= src.text().len(),
    ensures
        agrees(res, spec_number(src.text(), i as int), |v: Number| v@),
        ends_within(spec_number(src.text(), i as int), i as int, src.text().len() as int, true),
{
    match recognize_float(src, i) {
        Step::Done(_, j) => Step::Done(Number { value: src.slice(i, j), pos: src.pos(i) }, j),
        Step::Backtrack => Step::Backtrack,
        Step::Cut(c) => Step::Cut(c),
        Step::Panic => Step::Panic,
    }
}

//============ Quoted strings and text =======================================

/// The number of hex digits of a Unicode escape whose digits start at `k`:
/// as many as there are, but at most six.
pub open spec fn unicode_digits(s: Seq<char>, k: int) -> int {
    let n = run_end(s, k, |c: char| is_hex_digit(c)) - k;
    if n > 6 {
        6
    } else {
        n
    }
}

/// One item of a quoted string at `k`: a character other than a backslash
/// or a double quote, or an escape sequence.
pub open spec fn spec_quoted_item(s: Seq<char>, k: int) -> SpecStep<char> {
    if !(0 <= k < s.len()) {
        SpecStep::Backtrack
    } else if s[k] != '\\' && s[k] != '"' {
        SpecStep::Done(s[k], k + 1)
    } else if s[k] == '"' {
        SpecStep::Backtrack
    } else if k + 1 < s.len() && s[k + 1] == 'x' {
        if k + 3 < s.len() && '0' <= s[k + 2] && s[k + 2] <= '7' && is_hex_digit(s[k + 3]) {
            SpecStep::Done(
                ((hex_digit_value(s[k + 2]) * 16 + hex_digit_value(s[k + 3])) as u32) as char,
                k + 4,
            )
        } else {
            SpecStep::Backtrack
        }
    } else if k + 2 < s.len() && s[k + 1] == 'u' && s[k + 2] == '{' {
        let h = unicode_digits(s, k + 3);
        let v = hex_value(s, k + 3, k + 3 + h);
        if h == 0 {
            SpecStep::Backtrack
        } else if !is_scalar_value(v as u32) {
            SpecStep::Panic
        } else if k + 3 + h < s.len() && s[k + 3 + h] == '}' {
            SpecStep::Done((v as u32) as char, k + 4 + h)
        } else {
            SpecStep::Backtrack
        }
    } else if k + 1 < s.len() && s[k + 1] == 'n' {
        SpecStep::Done('\n', k + 2)
    } else if k + 1 < s.len() && s[k + 1] == 'r' {
        SpecStep::Done('\r', k + 2)
    } else if k + 1 < s.len() && s[k + 1] == 't' {
        SpecStep::Done('\t', k + 2)
    } else if k + 1 < s.len() && s[k + 1] == '\\' {
        SpecStep::Done('\\', k + 2)
    } else if k + 1 < s.len() && s[k + 1] == '"' {
        SpecStep::Done('"', k + 2)
    } else {
        SpecStep::Backtrack
    }
}

/// An item of a quoted string: an ordinary character stands for itself,
/// and the escapes `\n`, `\r`, `\t`, `\\` and `\"` stand for a line feed,
/// a carriage return, a tab, a backslash and a double quote, taking two
/// characters. A double quote ends the string.
pub proof fn law_quoted_item_escapes(s: Seq<char>, k: int)
    requires
        0 <= k < s.len(),
    ensures
        s[k] != '\\' && s[k] != '"' ==> spec_quoted_item(s, k) == SpecStep::Done(s[k], k + 1),
        s[k] == '"' ==> spec_quoted_item(s, k) is Backtrack,
        (s[k] == '\\' && k + 1 < s.len() && s[k + 1] == 'n') ==> spec_quoted_item(s, k) == SpecStep::Done('\n', k + 2),
        (s[k] == '\\' && k + 1 < s.len() && s[k + 1] == 'r') ==> spec_quoted_item(s, k) == SpecStep::Done('\r', k + 2),
        (s[k] == '\\' && k + 1 < s.len() && s[k + 1] == 't') ==> spec_quoted_item(s, k) == SpecStep::Done('\t', k + 2),
        (s[k] == '\\' && k + 1 < s.len() && s[k + 1] == '\\') ==> spec_quoted_item(s, k) == SpecStep::Done('\\', k + 2),
        (s[k] == '\\' && k + 1 < s.len() && s[k + 1] == '"') ==> spec_quoted_item(s, k) == SpecStep::Done('"', k + 2),
        (s[k] == '\\' && k + 3 < s.len() && s[k + 1] == 'x' && '0' <= s[k + 2] <= '7' && is_hex_digit(s[k + 3]))
            ==> (spec_quoted_item(s, k) matches SpecStep::Done(c, j)
                && j == k + 4 && c as int == hex_digit_value(s[k + 2]) * 16 + hex_digit_value(s[k + 3])),
{
    if s[k] == '\\' && k + 3 < s.len() && s[k + 1] == 'x' && '0' <= s[k + 2] <= '7' && is_hex_digit(s[k + 3]) {
        let v = hex_digit_value(s[k + 2]) * 16 + hex_digit_value(s[k + 3]);
        assert(0 <= v < 128);
        assert(((v as u32) as char) as int == v);
    }
}

/// The items of a quoted string from `k` on, as many as there are.
pub open spec fn spec_quoted_items(s: Seq<char>, k: int) -> SpecStep<Seq<char>>
    decreases s.len() - k,
{
    match spec_quoted_item(s, k) {
        SpecStep::Done(c, j) => if k < j <= s.len() {
            prepend(seq![c], spec_quoted_items(s, j))
        } else {
            SpecStep::Backtrack
        },
        SpecStep::Backtrack => SpecStep::Done(Seq::empty(), k),
        SpecStep::Cut(c) => SpecStep::Cut(c),
        SpecStep::Panic => SpecStep::Panic,
    }
}

/// A quoted string at `i`: a double quote, its items, and a double quote.
pub open spec fn spec_quoted(s: Seq<char>, i: int) -> SpecStep<SpecQuoted> {
    if 0 <= i < s.len() && s[i] == '"' {
        match spec_quoted_items(s, i + 1) {
            SpecStep::Done(content, k) => if 0 <= k < s.len() && s[k] == '"' {
                SpecStep::Done(SpecQuoted { content, pos: pos_at(s, i) }, k + 1)
            } else {
                SpecStep::Backtrack
            },
            SpecStep::Backtrack => SpecStep::Backtrack,
            SpecStep::Cut(c) => SpecStep::Cut(c),
            SpecStep::Panic => SpecStep::Panic,
        }
    } else {
        SpecStep::Backtrack
    }
}

/// A run of plain characters up to a double quote are the items of a
/// quoted string as they stand.
pub proof fn law_plain_quoted_items(s: Seq<char>, k: int, j: int)
    requires
        0 <= k <= j < s.len(),
        s[j] == '"',
        forall|m: int| k <= m < j ==> s[m] != '\\' && s[m] != '"',
    ensures
        spec_quoted_items(s, k) == SpecStep::Done(s.subrange(k, j), j),
    decreases j - k,
{
    if k < j {
        law_plain_quoted_items(s, k + 1, j);
        assert(seq![s[k]] + s.subrange(k + 1, j) =~= s.subrange(k, j));
    } else {
        assert(s.subrange(k, j) =~= Seq::<char>::empty());
    }
}

/// A quoted string without escapes holds the characters between its
/// double quotes.
pub proof fn law_plain_quoted(s: Seq<char>, i: int, j: int)
    requires
        0 <= i < j < s.len(),
        s[i] == '"',
        s[j] == '"',
        forall|m: int| i < m < j ==> s[m] != '\\' && s[m] != '"',
    ensures
        spec_quoted(s, i) matches SpecStep::Done(q, e) && q.content == s.subrange(i + 1, j) && e == j + 1,
{
    law_plain_quoted_items(s, i + 1, j);
}

/// Returns the value of a hexadecimal digit.
pub(crate) fn hex_digit(c: char) -> (res: u32)
    requires
        is_hex_digit(c),
    ensures
        res == hex_digit_value(c),
        res < 16,
{
    if c >= '0' && c <= '9' {
        (c as u32) - ('0' as u32)
    } else if c >= 'a' && c <= 'f' {
        (c as u32) - ('a' as u32) + 10
    } else {
        (c as u32) - ('A' as u32) + 10
    }
}

/// Returns whether `c` is a hexadecimal digit.
fn is_hex(c: char) -> (res: bool)
    ensures
        res == is_hex_digit(c),
{
    (c >= '0' && c <= '9') || (c >= 'a' && c <= 'f') || (c >= 'A' && c <= 'F')
}

/// Parses one item of a quoted string at `k`.
fn quoted_item(src: &Source, k: usize) -> (res: Step<char>)
    requires
        k <= src.text().len(),
    ensures
        agrees(res, spec_quoted_item(src.text(), k as int), |c: char| c),
        ends_within(spec_quoted_item(src.text(), k as int), k as int, src.text().len() as int, true),
{
    let ghost s = src.text();
    let len = src.len();
    if k >= len {
        return Step::Backtrack;
    }
    let c = src.char_at(k);
    if c != '\\' && c != '"' {
        Step::Done(c, k + 1)
    } else if c == '"' {
        Step::Backtrack
    } else if len - k > 1 && src.char_at(k + 1) == 'x' {
        if len - k > 3 && src.char_at(k + 2) >= '0' && src.char_at(k + 2) <= '7'
            && is_hex(src.char_at(k + 3))
        {
            let v = hex_digit(src.char_at(k + 2)) * 16 + hex_digit(src.char_at(k + 3));
            match char_from_u32(v) {
                Some(ch) => {
                    proof {
                        vstd::utf8::char_u32_cast(ch, v);
                    }
                    Step::Done(ch, k + 4)
                },
                None => Step::Backtrack,
            }
        } else {
            Step::Backtrack
        }
    } else if len - k > 2 && src.char_at(k + 1) == 'u' && src.char_at(k + 2) == '{' {
        let start = k + 3;
        let mut end = start;
        let mut v: u32 = 0;
        proof {
            lemma_run_end(s, start as int, |c: char| is_hex_digit(c));
        }
        while end < len && end - start < 6 && is_hex(src.char_at(end))
            invariant
                s == src.text(),
                len == s.len(),
                start <= end <= len,
                end - start <= 6,
                start <= run_end(s, start as int, |c: char| is_hex_digit(c)),
                end <= run_end(s, start as int, |c: char| is_hex_digit(c)) <= len,
                forall|m: int| start <= m < end ==> is_hex_digit(#[trigger] s[m]),
                v == hex_value(s, start as int, end as int),
            decreases len - end,
        {
            proof {
                lemma_hex_value_bound(s, start as int, end as int);
                assert(pow16(0) == 1);
                assert(pow16(1) == 16);
                assert(pow16(2) == 256);
                assert(pow16(3) == 4096);
                assert(pow16(4) == 65536);
                assert(pow16(5) == 1048576);
            }
            let d = hex_digit(src.char_at(end));
            v = v * 16 + d;
            end = end + 1;
            proof {
                lemma_run_end_covers(s, start as int, end as int, |c: char| is_hex_digit(c));
            }
        }
        proof {
            if end - start < 6 {
                if end < len {
                    assert(!is_hex_digit(s[end as int]));
                    lemma_run_end_stop(s, start as int, end as int, |c: char| is_hex_digit(c));
                } else {
                    assert(end == len);
                }
            }
        }
        if end == start {
            return Step::Backtrack;
        }
        match char_from_u32(v) {
            None => Step::Panic,
            Some(ch) => {
                proof {
                    vstd::utf8::char_u32_cast(ch, v);
                }
                if end < len && src.char_at(end) == '}' {
                    Step::Done(ch, end + 1)
                } else {
                    Step::Backtrack
                }
            },
        }
    } else if len - k > 1 && src.char_at(k + 1) == 'n' {
        Step::Done('\n', k + 2)
    } else if len - k > 1 && src.char_at(k + 1) == 'r' {
        Step::Done('\r', k + 2)
    } else if len - k > 1 && src.char_at(k + 1) == 't' {
        Step::Done('\t', k + 2)
    } else if len - k > 1 && src.char_at(k + 1) == '\\' {
        Step::Done('\\', k + 2)
    } else if len - k > 1 && src.char_at(k + 1) == '"' {
        Step::Done('"', k + 2)
    } else {
        Step::Backtrack
    }
}

/// A run covers all characters satisfying the predicate that follow its
/// start without a gap.
pub proof fn lemma_run_end_covers(s: Seq<char>, k: int, e: int, pred: spec_fn(char) -> bool)
    requires
        0 <= k <= e <= s.len(),
        forall|m: int| k <= m < e ==> pred(#[trigger] s[m]),
    ensures
        e <= run_end(s, k, pred),
    decreases e - k,
{
    if k < e {
        assert(pred(s[k]));
        lemma_run_end_covers(s, k + 1, e, pred);
    } else {
        lemma_run_end(s, k, pred);
    }
}

/// A run of characters satisfying a predicate ends where one does not.
pub proof fn lemma_run_end_stop(s: Seq<char>, k: int, e: int, pred: spec_fn(char) -> bool)
    requires
        0 <= k <= e <= s.len(),
        forall|m: int| k <= m < e ==> pred(#[trigger] s[m]),
        e == s.len() || !pred(s[e]),
    ensures
        run_end(s, k, pred) == e,
    decreases e - k,
{
    if k < e {
        lemma_run_end_stop(s, k + 1, e, pred);
    }
}

/// Parses a quoted string at `i`.
pub fn quoted(src: &Source, i: usize) -> (res: Step<Quoted>)
    requires
        src.wf(),
        i <= src.text().len(),
    ensures
        agrees(res, spec_quoted(src.text(), i as int), |v: Quoted| v@),
        ends_within(spec_quoted(src.text(), i as int), i as int, src.text().len() as int, true),
{
    let ghost s = src.text();
    let len = src.len();
    if !(i < len && src.char_at(i) == '"') {
        return Step::Backtrack;
    }
    let mut content = String::new();
    let mut k = i + 1;
    loop
        invariant_except_break
            spec_quoted_items(s, i + 1) == prepend(content@, spec_quoted_items(s, k as int)),
        invariant
            s == src.text(),
            len == s.len(),
            i < k <= len,
            s[i as int] == '"',
        ensures
            spec_quoted_items(s, i + 1) == SpecStep::Done(content@, k as int),
        decreases len - k,
    {
        match quoted_item(src, k) {
            Step::Done(c, j) => {
                proof {
                    lemma_prepend_push(content@, c, spec_quoted_items(s, j as int));
                }
                push_char(&mut content, c);
                k = j;
            },
            Step::Backtrack => {
                proof {
                    assert(content@ + Seq::<char>::empty() =~= content@);
                }
                break;
            },
            Step::Cut(c) => {
                return Step::Cut(c);
            },
            Step::Panic => {
                return Step::Panic;
            },
        }
    }
    if k < len && src.char_at(k) == '"' {
        Step::Done(Quoted { content, pos: src.pos(i) }, k + 1)
    } else {
        Step::Backtrack
    }
}

/// Further quoted strings from `k` on, each after optional white space.
pub open spec fn spec_quoted_tail(s: Seq<char>, k: int) -> SpecStep<Seq<SpecQuoted>>
    decreases s.len() - k,
{
    match spec_quoted(s, spec_skip_opt_ws(s, k)) {
        SpecStep::Done(q, j) => if k < j <= s.len() {
            prepend(seq![q], spec_quoted_tail(s, j))
        } else {
            SpecStep::Backtrack
        },
        SpecStep::Backtrack => SpecStep::Done(Seq::empty(), k),
        SpecStep::Cut(c) => SpecStep::Cut(c),
        SpecStep::Panic => SpecStep::Panic,
    }
}

/// A text at `i`: a quoted string followed by any number of quoted strings.
pub open spec fn spec_text(s: Seq<char>, i: int) -> SpecStep<SpecText> {
    match spec_quoted(s, i) {
        SpecStep::Done(first, j) => match spec_quoted_tail(s, j) {
            SpecStep::Done(others, e) => SpecStep::Done(SpecText { first, others, pos: pos_at(s, i) }, e),
            SpecStep::Backtrack => SpecStep::Backtrack,
            SpecStep::Cut(c) => SpecStep::Cut(c),
            SpecStep::Panic => SpecStep::Panic,
        },
        SpecStep::Backtrack => SpecStep::Backtrack,
        SpecStep::Cut(c) => SpecStep::Cut(c),
        SpecStep::Panic => SpecStep::Panic,
    }
}

/// Parses a text at `i`.
pub fn text(src: &Source, i: usize) -> (res: Step<Text>)
    requires
        src.wf(),
        i <= src.text().len(),
    ensures
        agrees(res, spec_text(src.text(), i as int), |v: Text| v@),
        ends_within(spec_text(src.text(), i as int), i as int, src.text().len() as int, true),
{
    let ghost s = src.text();
    let len = src.len();
    let (first, j0) = match quoted(src, i) {
        Step::Done(q, j) => (q, j),
        Step::Backtrack => return Step::Backtrack,
        Step::Cut(c) => return Step::Cut(c),
        Step::Panic => return Step::Panic,
    };
    let mut others: Vec<Quoted> = Vec::new();
    let mut k = j0;
    proof {
        lemma_prepend_empty(spec_quoted_tail(s, k as int));
        assert(model_seq(others@, |q: Quoted| q@) =~= Seq::<SpecQuoted>::empty());
    }
    loop
        invariant_except_break
            spec_quoted_tail(s, j0 as int) == prepend(model_seq(others@, |q: Quoted| q@), spec_quoted_tail(s, k as int)),
        invariant
            s == src.text(),
            src.wf(),
            len == s.len(),
            i < j0 <= k <= len,
            spec_quoted(s, i as int) == SpecStep::Done(first@, j0 as int),
        ensures
            spec_quoted_tail(s, j0 as int) == SpecStep::Done(model_seq(others@, |q: Quoted| q@), k as int),
        decreases len - k,
    {
        let w = skip_opt_ws(src, k);
        match quoted(src, w) {
            Step::Done(q, j) => {
                let ghost before = model_seq(others@, |q: Quoted| q@);
                proof {
                    lemma_prepend_push(before, q@, spec_quoted_tail(s, j as int));
                }
                others.push(q);
                assert(model_seq(others@, |q: Quoted| q@) =~= before.push(q@));
                k = j;
            },
            Step::Backtrack => {
                assert(model_seq(others@, |q: Quoted| q@) + Seq::<SpecQuoted>::empty() =~= model_seq(others@, |q: Quoted| q@));
                break;
            },
            Step::Cut(c) => return Step::Cut(c),
            Step::Panic => return Step::Panic,
        }
    }
    Step::Done(Text { first, others, pos: src.pos(i) }, k)
}

//============ Symbol sets ===================================================

/// Further symbols from `k` on, each after optional white space.
pub open spec fn spec_symbols_tail(s: Seq<char>, k: int) -> SpecStep<Seq<SpecSymbol>>
    decreases s.len() - k,
{
    match spec_symbol(s, spec_skip_opt_ws(s, k)) {
        Some((sym, j)) => if k < j <= s.len() {
            prepend(seq![sym], spec_symbols_tail(s, j))
        } else {
            SpecStep::Backtrack
        },
        None => SpecStep::Done(Seq::empty(), k),
    }
}

/// A symbol set at `i`: one or more symbols, each after optional white
/// space.
pub open spec fn spec_symbol_set(s: Seq<char>, i: int) -> Option<(SpecSymbolSet, int)> {
    match spec_symbol(s, spec_skip_opt_ws(s, i)) {
        Some((first, j)) => match spec_symbols_tail(s, j) {
            SpecStep::Done(rest, e) => Some((SpecSymbolSet { symbols: seq![first] + rest, pos: pos_at(s, i) }, e)),
            _ => None,
        },
        None => None,
    }
}

/// Parses a symbol set at `i`.
pub fn symbol_set(src: &Source, i: usize) -> (res: Option<(SymbolSet, usize)>)
    requires
        src.wf(),
        i <= src.text().len(),
    ensures
        match (res, spec_symbol_set(src.text(), i as int)) {
            (Some((v, j)), Some((m, k))) => v@ == m && j == k,
            (None, None) => true,
            _ => false,
        },
        res matches Some((_, j)) ==> i < j <= src.text().len(),
{
    let ghost s = src.text();
    let len = src.len();
    let w0 = skip_opt_ws(src, i);
    let (first, j0) = match symbol(src, w0) {
        Some((sym, j)) => (sym, j),
        None => return None,
    };
    let mut symbols: Vec<Symbol> = Vec::new();
    symbols.push(first);
    let ghost first_model = symbols@[0]@;
    let mut k = j0;
    proof {
        lemma_prepend_push(Seq::<SpecSymbol>::empty(), first_model, spec_symbols_tail(s, k as int));
        assert(Seq::<SpecSymbol>::empty().push(first_model) =~= model_seq(symbols@, |v: Symbol| v@));
        lemma_prepend_empty(prepend(seq![first_model], spec_symbols_tail(s, k as int)));
    }
    loop
        invariant_except_break
            prepend(seq![first_model], spec_symbols_tail(s, j0 as int))
                == prepend(model_seq(symbols@, |v: Symbol| v@), spec_symbols_tail(s, k as int)),
        invariant
            s == src.text(),
            src.wf(),
            len == s.len(),
            i < j0 <= k <= len,
        ensures
            prepend(seq![first_model], spec_symbols_tail(s, j0 as int))
                == SpecStep::Done(model_seq(symbols@, |v: Symbol| v@), k as int),
        decreases len - k,
    {
        let w = skip_opt_ws(src, k);
        match symbol(src, w) {
            Some((sym, j)) => {
                let ghost before = model_seq(symbols@, |v: Symbol| v@);
                proof {
                    lemma_prepend_push(before, sym@, spec_symbols_tail(s, j as int));
                }
                symbols.push(sym);
                assert(model_seq(symbols@, |v: Symbol| v@) =~= before.push(sym@));
                k = j;
            },
            None => {
                assert(model_seq(symbols@, |v: Symbol| v@) + Seq::<SpecSymbol>::empty() =~= model_seq(symbols@, |v: Symbol| v@));
                break;
            },
        }
    }
    Some((SymbolSet { symbols, pos: src.pos(i) }, k))
}

//============ Unit numbers and atoms ========================================

/// A unit number at `i`: a number directly followed by the identifier of
/// its unit.
pub open spec fn spec_unit_number(s: Seq<char>, i: int) -> SpecStep<SpecUnitNumber> {
    match spec_number(s, i) {
        SpecStep::Done(number, j) => match spec_identifier(s, j) {
            Some((unit, k)) => SpecStep::Done(SpecUnitNumber { number, unit, pos: pos_at(s, i) }, k),
            None => SpecStep::Backtrack,
        },
        SpecStep::Backtrack => SpecStep::Backtrack,
        SpecStep::Cut(c) => SpecStep::Cut(c),
        SpecStep::Panic => SpecStep::Panic,
    }
}

/// Parses a unit number at `i`.
pub fn unit_number(src: &Source, i: usize) -> (res: Step<UnitNumber>)
    requires
        src.wf(),
        i <= src.text().len(),
    ensures
        agrees(res, spec_unit_number(src.text(), i as int), |v: UnitNumber| v@),
        ends_within(spec_unit_number(src.text(), i as int), i as int, src.text().len() as int, true),
{
    match number(src, i) {
        Step::Done(number, j) => match identifier(src, j) {
            Some((unit, k)) => Step::Done(UnitNumber { number, unit, pos: src.pos(i) }, k),
            None => Step::Backtrack,
        },
        Step::Backtrack => Step::Backtrack,
        Step::Cut(c) => Step::Cut(c),
        Step::Panic => Step::Panic,
    }
}

/// An atom at `i`: a number, a symbol set, a text, or a unit number, tried
/// in this order.
pub open spec fn spec_atom(s: Seq<char>, i: int) -> SpecStep<SpecAtom> {
    match spec_number(s, i) {
        SpecStep::Done(n, j) => SpecStep::Done(SpecAtom::Number(n), j),
        SpecStep::Cut(c) => SpecStep::Cut(c),
        SpecStep::Panic => SpecStep::Panic,
        SpecStep::Backtrack => match spec_symbol_set(s, i) {
            Some((v, j)) => SpecStep::Done(SpecAtom::SymbolSet(v), j),
            None => match spec_text(s, i) {
                SpecStep::Done(t, j) => SpecStep::Done(SpecAtom::Text(t), j),
                SpecStep::Cut(c) => SpecStep::Cut(c),
                SpecStep::Panic => SpecStep::Panic,
                SpecStep::Backtrack => match spec_unit_number(s, i) {
                    SpecStep::Done(u, j) => SpecStep::Done(SpecAtom::UnitNumber(u), j),
                    SpecStep::Cut(c) => SpecStep::Cut(c),
                    SpecStep::Panic => SpecStep::Panic,
                    SpecStep::Backtrack => SpecStep::Backtrack,
                },
            },
        },
    }
}

/// Parses an atom at `i`.
pub fn atom(src: &Source, i: usize) -> (res: Step<Atom>)
    requires
        src.wf(),
        i <= src.text().len(),
    ensures
        agrees(res, spec_atom(src.text(), i as int), |v: Atom| v@),
        ends_within(spec_atom(src.text(), i as int), i as int, src.text().len() as int, true),
{
    match number(src, i) {
        Step::Done(n, j) => return Step::Done(Atom::Number(n), j),
        Step::Cut(c) => return Step::Cut(c),
        Step::Panic => return Step::Panic,
        Step::Backtrack => {},
    }
    if let Some((v, j)) = symbol_set(src, i) {
        return Step::Done(Atom::SymbolSet(v), j);
    }
    match text(src, i) {
        Step::Done(t, j) => return Step::Done(Atom::Text(t), j),
        Step::Cut(c) => return Step::Cut(c),
        Step::Panic => return Step::Panic,
        Step::Backtrack => {},
    }
    match unit_number(src, i) {
        Step::Done(u, j) => Step::Done(Atom::UnitNumber(u), j),
        Step::Cut(c) => Step::Cut(c),
        Step::Panic => Step::Panic,
        Step::Backtrack => Step::Backtrack,
    }
}

//============ Operators =====================================================

/// An add-sub operator at `i`.
pub open spec fn spec_add_sub(s: Seq<char>, i: int) -> Option<(AddSub, int)> {
    if 0 <= i < s.len() && s[i] == '+' {
        Some((AddSub::Add, i + 1))
    } else if 0 <= i < s.len() && s[i] == '-' {
        Some((AddSub::Sub, i + 1))
    } else {
        None
    }
}

/// Parses an add-sub operator at `i`.
pub fn add_sub(src: &Source, i: usize) -> (res: Option<(AddSub, usize)>)
    requires
        i <= src.text().len(),
    ensures
        match (res, spec_add_sub(src.text(), i as int)) {
            (Some((v, j)), Some((m, k))) => v == m && j == k,
            (None, None) => true,
            _ => false,
        },
        res matches Some((_, j)) ==> i < j <= src.text().len(),
{
    if i < src.len() && src.char_at(i) == '+' {
        Some((AddSub::Add, i + 1))
    } else if i < src.len() && src.char_at(i) == '-' {
        Some((AddSub::Sub, i + 1))
    } else {
        None
    }
}

/// Whether the two characters at `i` are both `c`.
pub open spec fn doubled(s: Seq<char>, i: int, c: char) -> bool {
    0 <= i && i + 1 < s.len() && s[i] == c && s[i + 1] == c
}

/// A direction operator at `i`: `<<` or `>>`.
pub open spec fn spec_direction(s: Seq<char>, i: int) -> Option<(Direction, int)> {
    if doubled(s, i, '<') {
        Some((Direction::Left, i + 2))
    } else if doubled(s, i, '>') {
        Some((Direction::Right, i + 2))
    } else {
        None
    }
}

/// A connector at `i`: `--` or `..`.
pub open spec fn spec_connector(s: Seq<char>, i: int) -> Option<(Connector, int)> {
    if doubled(s, i, '-') {
        Some((Connector::Straight, i + 2))
    } else if doubled(s, i, '.') {
        Some((Connector::Smooth, i + 2))
    } else {
        None
    }
}

/// Returns whether the two characters at `i` are both `c`.
fn is_doubled(src: &Source, i: usize, c: char) -> (res: bool)
    requires
        i <= src.text().len(),
    ensures
        res == doubled(src.text(), i as int, c),
        res ==> i + 2 <= usize::MAX,
{
    src.len() - i >= 2 && src.char_at(i) == c && src.char_at(i + 1) == c
}

/// Parses a direction operator at `i`.
pub fn direction(src: &Source, i: usize) -> (res: Option<(Direction, usize)>)
    requires
        i <= src.text().len(),
    ensures
        match (res, spec_direction(src.text(), i as int)) {
            (Some((v, j)), Some((m, k))) => v == m && j == k,
            (None, None) => true,
            _ => false,
        },
        res matches Some((_, j)) ==> i < j <= src.text().len(),
{
    if is_doubled(src, i, '<') {
        Some((Direction::Left, i + 2))
    } else if is_doubled(src, i, '>') {
        Some((Direction::Right, i + 2))
    } else {
        None
    }
}

/// Parses a connector at `i`.
pub fn connector(src: &Source, i: usize) -> (res: Option<(Connector, usize)>)
    requires
        i <= src.text().len(),
    ensures
        match (res, spec_connector(src.text(), i as int)) {
            (Some((v, j)), Some((m, k))) => v == m && j == k,
            (None, None) => true,
            _ => false,
        },
        res matches Some((_, j)) ==> i < j <= src.text().len(),
{
    if is_doubled(src, i, '-') {
        Some((Connector::Straight, i + 2))
    } else if is_doubled(src, i, '.') {
        Some((Connector::Smooth, i + 2))
    } else {
        None
    }
}

//============ Vectors, distances and offsets ================================

/// A vector at `i`: two unit numbers separated by a comma in parentheses.
pub open spec fn spec_vector(s: Seq<char>, i: int) -> SpecStep<SpecVector> {
    match spec_char(s, i, '(') {
        Some(a) => match spec_unit_number(s, spec_skip_opt_ws(s, a)) {
            SpecStep::Done(x, j1) => match spec_char(s, spec_skip_opt_ws(s, j1), ',') {
                Some(c) => match spec_unit_number(s, spec_skip_opt_ws(s, c)) {
                    SpecStep::Done(y, j2) => match spec_char(s, spec_skip_opt_ws(s, j2), ')') {
                        Some(e) => SpecStep::Done(SpecVector { x, y, pos: pos_at(s, i) }, e),
                        None => SpecStep::Backtrack,
                    },
                    other => spec_fail(other),
                },
                None => SpecStep::Backtrack,
            },
            other => spec_fail(other),
        },
        None => SpecStep::Backtrack,
    }
}

/// Parses a vector at `i`.
pub fn vector(src: &Source, i: usize) -> (res: Step<Vector>)
    requires
        src.wf(),
        i <= src.text().len(),
    ensures
        agrees(res, spec_vector(src.text(), i as int), |v: Vector| v@),
        ends_within(spec_vector(src.text(), i as int), i as int, src.text().len() as int, true),
{
    let a = match char_tag(src, i, '(') {
        Some(a) => a,
        None => return Step::Backtrack,
    };
    let (x, j1) = match unit_number(src, skip_opt_ws(src, a)) {
        Step::Done(x, j1) => (x, j1),
        other => return other.fail(),
    };
    let c = match char_tag(src, skip_opt_ws(src, j1), ',') {
        Some(c) => c,
        None => return Step::Backtrack,
    };
    let (y, j2) = match unit_number(src, skip_opt_ws(src, c)) {
        Step::Done(y, j2) => (y, j2),
        other => return other.fail(),
    };
    match char_tag(src, skip_opt_ws(src, j2), ')') {
        Some(e) => Step::Done(Vector { x, y, pos: src.pos(i) }, e),
        None => Step::Backtrack,
    }
}

/// An angle at `i`: an at sign and a number.
pub open spec fn spec_angle(s: Seq<char>, i: int) -> SpecStep<SpecAngle> {
    match spec_char(s, i, '@') {
        Some(a) => match spec_number(s, spec_skip_opt_ws(s, a)) {
            SpecStep::Done(value, j) => SpecStep::Done(SpecAngle { value, pos: pos_at(s, i) }, j),
            other => spec_fail(other),
        },
        None => SpecStep::Backtrack,
    }
}

/// Parses an angle at `i`.
pub fn angle(src: &Source, i: usize) -> (res: Step<Angle>)
    requires
        src.wf(),
        i <= src.text().len(),
    ensures
        agrees(res, spec_angle(src.text(), i as int), |v: Angle| v@),
        ends_within(spec_angle(src.text(), i as int), i as int, src.text().len() as int, true),
{
    let a = match char_tag(src, i, '@') {
        Some(a) => a,
        None => return Step::Backtrack,
    };
    match number(src, skip_opt_ws(src, a)) {
        Step::Done(value, j) => Step::Done(Angle { value, pos: src.pos(i) }, j),
        other => other.fail(),
    }
}

/// A shift at `i`: an add-sub operator and a vector.
pub open spec fn spec_shift(s: Seq<char>, i: int) -> SpecStep<SpecShift> {
    match spec_add_sub(s, i) {
        Some((op, a)) => match spec_vector(s, spec_skip_opt_ws(s, a)) {
            SpecStep::Done(value, j) => SpecStep::Done(SpecShift { op, value, pos: pos_at(s, i) }, j),
            other => spec_fail(other),
        },
        None => SpecStep::Backtrack,
    }
}

/// Parses a shift at `i`.
pub fn shift(src: &Source, i: usize) -> (res: Step<Shift>)
    requires
        src.wf(),
        i <= src.text().len(),
    ensures
        agrees(res, spec_shift(src.text(), i as int), |v: Shift| v@),
        ends_within(spec_shift(src.text(), i as int), i as int, src.text().len() as int, true),
{
    let (op, a) = match add_sub(src, i) {
        Some(v) => v,
        None => return Step::Backtrack,
    };
    match vector(src, skip_opt_ws(src, a)) {
        Step::Done(value, j) => Step::Done(Shift { op, value, pos: src.pos(i) }, j),
        other => other.fail(),
    }
}

/// A sideways offset at `i`: a direction and a unit number.
pub open spec fn spec_sideways(s: Seq<char>, i: int) -> SpecStep<SpecSideways> {
    match spec_direction(s, i) {
        Some((direction, a)) => match spec_unit_number(s, spec_skip_opt_ws(s, a)) {
            SpecStep::Done(value, j) => SpecStep::Done(SpecSideways { direction, value, pos: pos_at(s, i) }, j),
            other => spec_fail(other),
        },
        None => SpecStep::Backtrack,
    }
}

/// Parses a sideways offset at `i`.
pub fn sideways(src: &Source, i: usize) -> (res: Step<Sideways>)
    requires
        src.wf(),
        i <= src.text().len(),
    ensures
        agrees(res, spec_sideways(src.text(), i as int), |v: Sideways| v@),
        ends_within(spec_sideways(src.text(), i as int), i as int, src.text().len() as int, true),
{
    let (direction, a) = match direction(src, i) {
        Some(v) => v,
        None => return Step::Backtrack,
    };
    match unit_number(src, skip_opt_ws(src, a)) {
        Step::Done(value, j) => Step::Done(Sideways { direction, value, pos: src.pos(i) }, j),
        other => other.fail(),
    }
}

/// An offset at `i`: a sideways offset, a shift, or an angle.
pub open spec fn spec_offset(s: Seq<char>, i: int) -> SpecStep<SpecOffset> {
    match spec_sideways(s, i) {
        SpecStep::Done(v, j) => SpecStep::Done(SpecOffset::Sideways(v), j),
        SpecStep::Backtrack => match spec_shift(s, i) {
            SpecStep::Done(v, j) => SpecStep::Done(SpecOffset::Shift(v), j),
            SpecStep::Backtrack => match spec_angle(s, i) {
                SpecStep::Done(v, j) => SpecStep::Done(SpecOffset::Angle(v), j),
                other => spec_fail(other),
            },
            other => spec_fail(other),
        },
        other => spec_fail(other),
    }
}

/// Parses an offset at `i`.
pub fn offset(src: &Source, i: usize) -> (res: Step<Offset>)
    requires
        src.wf(),
        i <= src.text().len(),
    ensures
        agrees(res, spec_offset(src.text(), i as int), |v: Offset| v@),
        ends_within(spec_offset(src.text(), i as int), i as int, src.text().len() as int, true),
{
    match sideways(src, i) {
        Step::Done(v, j) => return Step::Done(Offset::Sideways(v), j),
        Step::Backtrack => {},
        other => return other.fail(),
    }
    match shift(src, i) {
        Step::Done(v, j) => return Step::Done(Offset::Shift(v), j),
        Step::Backtrack => {},
        other => return other.fail(),
    }
    match angle(src, i) {
        Step::Done(v, j) => Step::Done(Offset::Angle(v), j),
        other => other.fail(),
    }
}

/// A distance at `i`: an add-sub operator and a unit number.
pub open spec fn spec_distance(s: Seq<char>, i: int) -> SpecStep<SpecDistance> {
    match spec_add_sub(s, i) {
        Some((op, a)) => match spec_unit_number(s, spec_skip_opt_ws(s, a)) {
            SpecStep::Done(value, j) => SpecStep::Done(SpecDistance { op, value, pos: pos_at(s, i) }, j),
            other => spec_fail(other),
        },
        None => SpecStep::Backtrack,
    }
}

/// Parses a distance at `i`.
pub fn distance(src: &Source, i: usize) -> (res: Step<Distance>)
    requires
        src.wf(),
        i <= src.text().len(),
    ensures
        agrees(res, spec_distance(src.text(), i as int), |v: Distance| v@),
        ends_within(spec_distance(src.text(), i as int), i as int, src.text().len() as int, true),
{
    let (op, a) = match add_sub(src, i) {
        Some(v) => v,
        None => return Step::Backtrack,
    };
    match unit_number(src, skip_opt_ws(src, a)) {
        Step::Done(value, j) => Step::Done(Distance { op, value, pos: src.pos(i) }, j),
        other => other.fail(),
    }
}

//============ Locations and sections ========================================

/// Further distances from `k` on, each after optional white space.
pub open spec fn spec_distances_tail(s: Seq<char>, k: int) -> SpecStep<Seq<SpecDistance>>
    decreases s.len() - k,
{
    match spec_distance(s, spec_skip_opt_ws(s, k)) {
        SpecStep::Done(d, j) => if k < j <= s.len() {
            prepend(seq![d], spec_distances_tail(s, j))
        } else {
            SpecStep::Backtrack
        },
        SpecStep::Backtrack => SpecStep::Done(Seq::empty(), k),
        other => spec_fail(other),
    }
}

/// A location at `i`: a symbol naming a node followed by any number of
/// distances.
pub open spec fn spec_location(s: Seq<char>, i: int) -> SpecStep<SpecLocation> {
    match spec_symbol(s, i) {
        Some((node, j)) => match spec_distances_tail(s, j) {
            SpecStep::Done(distance, e) => SpecStep::Done(SpecLocation { node, distance, pos: pos_at(s, i) }, e),
            other => spec_fail(other),
        },
        None => SpecStep::Backtrack,
    }
}

/// Parses a location at `i`.
pub fn location(src: &Source, i: usize) -> (res: Step<Location>)
    requires
        src.wf(),
        i <= src.text().len(),
    ensures
        agrees(res, spec_location(src.text(), i as int), |v: Location| v@),
        ends_within(spec_location(src.text(), i as int), i as int, src.text().len() as int, true),
{
    let ghost s = src.text();
    let len = src.len();
    let (node, j0) = match symbol(src, i) {
        Some(v) => v,
        None => return Step::Backtrack,
    };
    let mut distances: Vec<Distance> = Vec::new();
    let mut k = j0;
    proof {
        lemma_prepend_empty(spec_distances_tail(s, k as int));
        assert(model_seq(distances@, |v: Distance| v@) =~= Seq::<SpecDistance>::empty());
    }
    loop
        invariant_except_break
            spec_distances_tail(s, j0 as int) == prepend(model_seq(distances@, |v: Distance| v@), spec_distances_tail(s, k as int)),
        invariant
            s == src.text(),
            src.wf(),
            len == s.len(),
            i < j0 <= k <= len,
            spec_symbol(s, i as int) == Some((node@, j0 as int)),
        ensures
            spec_distances_tail(s, j0 as int) == SpecStep::Done(model_seq(distances@, |v: Distance| v@), k as int),
        decreases len - k,
    {
        match distance(src, skip_opt_ws(src, k)) {
            Step::Done(d, j) => {
                let ghost before = model_seq(distances@, |v: Distance| v@);
                proof {
                    lemma_prepend_push(before, d@, spec_distances_tail(s, j as int));
                }
                distances.push(d);
                assert(model_seq(distances@, |v: Distance| v@) =~= before.push(d@));
                k = j;
            },
            Step::Backtrack => {
                assert(model_seq(distances@, |v: Distance| v@) + Seq::<SpecDistance>::empty() =~= model_seq(distances@, |v: Distance| v@));
                break;
            },
            other => return other.fail(),
        }
    }
    Step::Done(Location { node, distance: distances, pos: src.pos(i) }, k)
}

/// Further offsets from `k` on, each after optional white space.
pub open spec fn spec_offsets_tail(s: Seq<char>, k: int) -> SpecStep<Seq<SpecOffset>>
    decreases s.len() - k,
{
    match spec_offset(s, spec_skip_opt_ws(s, k)) {
        SpecStep::Done(o, j) => if k < j <= s.len() {
            prepend(seq![o], spec_offsets_tail(s, j))
        } else {
            SpecStep::Backtrack
        },
        SpecStep::Backtrack => SpecStep::Done(Seq::empty(), k),
        other => spec_fail(other),
    }
}

/// Parses further offsets from `k` on.
fn offsets_tail(src: &Source, k0: usize) -> (res: Step<Vec<Offset>>)
    requires
        src.wf(),
        k0 <= src.text().len(),
    ensures
        agrees(res, spec_offsets_tail(src.text(), k0 as int), |v: Vec<Offset>| model_seq(v@, |o: Offset| o@)),
        ends_within(spec_offsets_tail(src.text(), k0 as int), k0 as int, src.text().len() as int, false),
{
    let ghost s = src.text();
    let len = src.len();
    let mut offsets: Vec<Offset> = Vec::new();
    let mut k = k0;
    proof {
        lemma_prepend_empty(spec_offsets_tail(s, k as int));
        assert(model_seq(offsets@, |v: Offset| v@) =~= Seq::<SpecOffset>::empty());
    }
    loop
        invariant_except_break
            spec_offsets_tail(s, k0 as int) == prepend(model_seq(offsets@, |v: Offset| v@), spec_offsets_tail(s, k as int)),
        invariant
            s == src.text(),
            src.wf(),
            len == s.len(),
            k0 <= k <= len,
        ensures
            spec_offsets_tail(s, k0 as int) == SpecStep::Done(model_seq(offsets@, |v: Offset| v@), k as int),
        decreases len - k,
    {
        match offset(src, skip_opt_ws(src, k)) {
            Step::Done(o, j) => {
                let ghost before = model_seq(offsets@, |v: Offset| v@);
                proof {
                    lemma_prepend_push(before, o@, spec_offsets_tail(s, j as int));
                }
                offsets.push(o);
                assert(model_seq(offsets@, |v: Offset| v@) =~= before.push(o@));
                k = j;
            },
            Step::Backtrack => {
                assert(model_seq(offsets@, |v: Offset| v@) + Seq::<SpecOffset>::empty() =~= model_seq(offsets@, |v: Offset| v@));
                break;
            },
            other => return other.fail(),
        }
    }
    Step::Done(offsets, k)
}

/// The optional end location of a section, looked for from `j` on.
///
/// It is a comma followed by a location; if either is missing, there is no
/// end location and the section continues at `j`.
pub open spec fn spec_section_end(s: Seq<char>, j: int) -> SpecStep<Option<SpecLocation>> {
    match spec_char(s, spec_skip_opt_ws(s, j), ',') {
        Some(c) => match spec_location(s, spec_skip_opt_ws(s, c)) {
            SpecStep::Done(l, e) => SpecStep::Done(Some(l), e),
            SpecStep::Backtrack => SpecStep::Done(None, j),
            other => spec_fail(other),
        },
        None => SpecStep::Done(None, j),
    }
}

/// A section at `i`: a start location and an optional end location in
/// brackets, followed by any number of offsets.
pub open spec fn spec_section(s: Seq<char>, i: int) -> SpecStep<SpecSection> {
    match spec_char(s, i, '[') {
        Some(a) => match spec_location(s, spec_skip_opt_ws(s, a)) {
            SpecStep::Done(start, j1) => match spec_section_end(s, j1) {
                SpecStep::Done(end, j2) => match spec_char(s, spec_skip_opt_ws(s, j2), ']') {
                    Some(k) => match spec_offsets_tail(s, k) {
                        SpecStep::Done(offset, e) => SpecStep::Done(
                            SpecSection { start, end, offset, pos: pos_at(s, i) },
                            e,
                        ),
                        other => spec_fail(other),
                    },
                    None => SpecStep::Backtrack,
                },
                other => spec_fail(other),
            },
            other => spec_fail(other),
        },
        None => SpecStep::Backtrack,
    }
}

/// Parses a section at `i`.
pub fn section(src: &Source, i: usize) -> (res: Step<Section>)
    requires
        src.wf(),
        i <= src.text().len(),
    ensures
        agrees(res, spec_section(src.text(), i as int), |v: Section| v@),
        ends_within(spec_section(src.text(), i as int), i as int, src.text().len() as int, true),
{
    let a = match char_tag(src, i, '[') {
        Some(a) => a,
        None => return Step::Backtrack,
    };
    let (start, j1) = match location(src, skip_opt_ws(src, a)) {
        Step::Done(v, j) => (v, j),
        other => return other.fail(),
    };
    let (end, j2) = match char_tag(src, skip_opt_ws(src, j1), ',') {
        Some(c) => match location(src, skip_opt_ws(src, c)) {
            Step::Done(l, e) => (Some(l), e),
            Step::Backtrack => (None, j1),
            other => return other.fail(),
        },
        None => (None, j1),
    };
    let k = match char_tag(src, skip_opt_ws(src, j2), ']') {
        Some(k) => k,
        None => return Step::Backtrack,
    };
    match offsets_tail(src, k) {
        Step::Done(offset, e) => Step::Done(Section { start, end, offset, pos: src.pos(i) }, e),
        other => other.fail(),
    }
}

} // verus!

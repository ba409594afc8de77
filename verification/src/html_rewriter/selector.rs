//! Reading CSS selectors.
//!
//! `lol_html` takes it for impossible that a pseudo-element stands in `:not()` or
//! `:host()`, or a combinator in `:host()`, and asserts so where its debug
//! assertions are on; where they are off it refuses such a selector. So these texts
//! are found here first and refused in the same words.
//!
//! They are found in the [`bare`] text of a selector, in which comments, strings,
//! escaped characters and the insides of attribute brackets cannot be mistaken for
//! parts of a selector. A slash stands there for a comment, and a question mark, which
//! no selector has, for a slash, and for a backslash that escapes nothing.
use vstd::prelude::*;
use vstd::string::to_string_from_display_ensures;

use crate::html_rewriter::error::{fails_with, map_err, Error};
use crate::text::{ascii_lower, ascii_lower_char};
use lol_html::errors::SelectorError;
use lol_html::Selector;

verus! {

/// Reason of the failure of a selector with a part that stands where it cannot.
pub const UNSUPPORTED_SYNTAX: &'static str = "Unsupported syntax in selector.";

/// Whether `c` is a hexadecimal digit.
pub open spec fn is_hex(c: char) -> bool {
    '0' <= c <= '9' || 'a' <= c <= 'f' || 'A' <= c <= 'F'
}

/// What the hexadecimal digit `c` is worth.
pub open spec fn hex_digit(c: char) -> int {
    if c <= '9' {
        c as int - '0' as int
    } else if c <= 'F' {
        c as int - 'A' as int + 10
    } else {
        c as int - 'a' as int + 10
    }
}

/// Whether `c` is white space.
pub open spec fn is_space(c: char) -> bool {
    c == ' ' || c == '\t' || c == '\n' || c == '\r' || c == '\u{C}'
}

/// Whether `c` ends a line.
pub open spec fn is_line_end(c: char) -> bool {
    c == '\n' || c == '\r' || c == '\u{C}'
}

/// Whether `c` is a letter or a hyphen, as all words here are made of.
pub open spec fn is_word_char(c: char) -> bool {
    'a' <= c <= 'z' || 'A' <= c <= 'Z' || c == '-'
}

/// Whether a name can hold `c`.
pub open spec fn is_name_char(c: char) -> bool {
    is_word_char(c) || '0' <= c <= '9' || c == '_' || c == '\0' || c >= '\u{80}'
}

/// Whether a hexadecimal digit stands at `at`.
pub open spec fn is_hex_at(text: Seq<char>, at: int) -> bool {
    at < text.len() && is_hex(text[at])
}

/// Where the digits end that start at `at`, of which there are at most `most`.
pub open spec fn digits_end(text: Seq<char>, at: int, most: nat) -> int
    decreases most,
{
    if most > 0 && 0 <= at < text.len() && is_hex(text[at]) {
        digits_end(text, at + 1, (most - 1) as nat)
    } else {
        at
    }
}

/// The number that the digits from `from` to `to` make.
pub open spec fn number(text: Seq<char>, from: int, to: int) -> int
    decreases to - from,
{
    if from < to {
        16 * number(text, from, to - 1) + hex_digit(text[to - 1])
    } else {
        0
    }
}

/// Where the one white space ends that may stand at `at`; a line may end in two
/// characters.
pub open spec fn one_space_end(text: Seq<char>, at: int) -> int {
    if 0 <= at < text.len() - 1 && text[at] == '\r' && text[at + 1] == '\n' {
        at + 2
    } else if 0 <= at < text.len() && is_space(text[at]) {
        at + 1
    } else {
        at
    }
}

/// Whether the backslash at `at` starts an escape: not at the end of a line.
pub open spec fn escape_at(text: Seq<char>, at: int) -> bool {
    text[at] == '\\' && (at + 1 < text.len() ==> !is_line_end(text[at + 1]))
}

/// Where the escape ends whose backslash stands at `at`: behind one character, or
/// behind up to six digits and one white space.
pub open spec fn escape_end(text: Seq<char>, at: int) -> int {
    if at + 1 >= text.len() {
        at + 1
    } else if is_hex(text[at + 1]) {
        one_space_end(text, digits_end(text, at + 1, 6))
    } else {
        at + 2
    }
}

/// `c` if it is a letter or a hyphen, and else another character of a name.
pub open spec fn in_word(c: char) -> char {
    if is_word_char(c) {
        c
    } else {
        '\u{FFFD}'
    }
}

/// The character that the escape stands for whose backslash stands at `at`, if it is
/// a letter or a hyphen, and else another character of a name.
pub open spec fn escaped(text: Seq<char>, at: int) -> char {
    if at + 1 >= text.len() {
        '\u{FFFD}'
    } else if is_hex(text[at + 1]) {
        let code = number(text, at + 1, digits_end(text, at + 1, 6));
        if 0 <= code < 0x80 {
            in_word((code as u8) as char)
        } else {
            '\u{FFFD}'
        }
    } else {
        in_word(text[at + 1])
    }
}

/// What a reader of a selector is inside of.
#[derive(Debug, Clone, Copy, PartialEq, Eq, Structural)]
pub enum Inside {
    Nothing,
    /// A string with that quote.
    Text(char),
    Comment,
}

/// Where a reader of a selector is.
#[derive(Debug, Clone, Copy, PartialEq, Eq, Structural)]
pub struct Place {
    pub inside: Inside,
    /// Whether it is in the brackets of an attribute selector.
    pub brackets: bool,
}

/// What a reader of a selector makes of what it reads.
pub struct Seen {
    /// What is left of it in the bare text.
    pub keep: Option<char>,
    /// Where it ends.
    pub end: int,
    /// Where the reader is then.
    pub place: Place,
}

/// The start of a selector.
pub open spec fn outset() -> Place {
    Place { inside: Inside::Nothing, brackets: false }
}

/// `c`, unless the reader is in attribute brackets.
pub open spec fn kept(c: char, place: Place) -> Option<char> {
    if place.brackets {
        None
    } else {
        Some(c)
    }
}

/// Whether `first` stands at `at` and `second` behind it.
pub open spec fn pair_at(text: Seq<char>, at: int, first: char, second: char) -> bool {
    text[at] == first && at + 1 < text.len() && text[at + 1] == second
}

/// What a reader at `place` makes of what stands at `at`.
pub open spec fn seen(text: Seq<char>, at: int, place: Place) -> Seen {
    let c = text[at];
    let out = Place { inside: Inside::Nothing, ..place };
    match place.inside {
        Inside::Comment => if pair_at(text, at, '*', '/') {
            Seen { keep: None, end: at + 2, place: out }
        } else {
            Seen { keep: None, end: at + 1, place }
        },
        Inside::Text(quote) => if c == '\\' && at + 1 < text.len() {
            Seen { keep: None, end: at + 2, place }
        } else if c == quote {
            Seen { keep: None, end: at + 1, place: out }
        } else {
            Seen { keep: None, end: at + 1, place }
        },
        Inside::Nothing => if pair_at(text, at, '/', '*') {
            Seen {
                keep: kept(c, place),
                end: at + 2,
                place: Place { inside: Inside::Comment, ..place },
            }
        } else if c == '"' || c == '\'' {
            Seen {
                keep: kept(c, place),
                end: at + 1,
                place: Place { inside: Inside::Text(c), ..place },
            }
        } else if escape_at(text, at) {
            Seen { keep: kept(escaped(text, at), place), end: escape_end(text, at), place }
        } else if c == '[' {
            Seen { keep: kept(c, place), end: at + 1, place: Place { brackets: true, ..place } }
        } else if c == ']' {
            Seen { keep: Some(c), end: at + 1, place: Place { brackets: false, ..place } }
        } else if c == '/' || c == '\\' {
            Seen { keep: kept('?', place), end: at + 1, place }
        } else {
            Seen { keep: kept(c, place), end: at + 1, place }
        },
    }
}

/// What is left of `text` from `at` on, for a reader at `place`: without the insides
/// of comments, strings and attribute brackets, and with one character for an escaped
/// one.
pub open spec fn bare(text: Seq<char>, at: int, place: Place) -> Seq<char>
    decreases text.len() - at,
{
    if 0 <= at < text.len() {
        let here = seen(text, at, place);
        if at < here.end <= text.len() {
            let rest = bare(text, here.end, here.place);
            match here.keep {
                Some(c) => seq![c] + rest,
                None => rest,
            }
        } else {
            Seq::empty()
        }
    } else {
        Seq::empty()
    }
}

/// Where the name ends that starts at `at`.
pub open spec fn name_end(text: Seq<char>, at: int) -> int
    decreases text.len() - at,
{
    if 0 <= at < text.len() && is_name_char(text[at]) {
        name_end(text, at + 1)
    } else {
        at
    }
}

/// Where the name starts that ends in front of `at`.
pub open spec fn name_start(text: Seq<char>, at: int) -> int
    decreases at,
{
    if 0 < at <= text.len() && is_name_char(text[at - 1]) {
        name_start(text, at - 1)
    } else {
        at
    }
}

/// Whether the name from `from` to `to` is `word`, in any ASCII case.
pub open spec fn is_word(text: Seq<char>, from: int, to: int, word: Seq<char>) -> bool {
    ascii_lower(text.subrange(from, to)) == word
}

/// Whether the name from `from` to `to` makes a pseudo-element after one colon.
pub open spec fn is_old_name(text: Seq<char>, from: int, to: int) -> bool {
    ||| is_word(text, from, to, "before"@)
    ||| is_word(text, from, to, "after"@)
    ||| is_word(text, from, to, "first-line"@)
    ||| is_word(text, from, to, "first-letter"@)
}

/// Where the comments end that start at `at`.
pub open spec fn comments_end(text: Seq<char>, at: int) -> int
    decreases text.len() - at,
{
    if 0 <= at < text.len() && text[at] == '/' {
        comments_end(text, at + 1)
    } else {
        at
    }
}

/// Where the comments start that end in front of `at`.
pub open spec fn comments_start(text: Seq<char>, at: int) -> int
    decreases at,
{
    if 0 < at <= text.len() && text[at - 1] == '/' {
        comments_start(text, at - 1)
    } else {
        at
    }
}

/// Whether a colon stands in front of `at`, comments aside.
pub open spec fn follows_colon(text: Seq<char>, at: int) -> bool {
    let end = comments_start(text, at);
    end > 0 && text[end - 1] == ':'
}

/// Whether a pseudo-element stands at `at`: a name after two colons, or after one
/// under a name that needs no more.
pub open spec fn pseudo_element_at(text: Seq<char>, at: int) -> bool {
    let from = comments_end(text, at + 1);
    &&& text[at] == ':'
    &&& from < text.len()
    &&& if text[from] == ':' {
        let name = comments_end(text, from + 1);
        name_end(text, name) > name
    } else {
        is_old_name(text, from, name_end(text, from))
    }
}

/// Where the innermost parenthesis opens that is open at `at`, behind `closed` that
/// close again; -1 if there is none.
pub open spec fn opening(text: Seq<char>, at: int, closed: nat) -> int
    decreases at,
{
    if at <= 0 || at > text.len() {
        -1
    } else if text[at - 1] == ')' {
        opening(text, at - 1, closed + 1)
    } else if text[at - 1] != '(' {
        opening(text, at - 1, closed)
    } else if closed > 0 {
        opening(text, at - 1, (closed - 1) as nat)
    } else {
        at - 1
    }
}

/// Whether the parenthesis at `at` is that of the pseudo-class `word`.
pub open spec fn opens(text: Seq<char>, at: int, word: Seq<char>) -> bool {
    let from = name_start(text, at);
    &&& is_word(text, from, at, word)
    &&& follows_colon(text, from)
    &&& !follows_colon(text, comments_start(text, from) - 1)
}

/// Whether every parenthesis that is open at `at` is that of a `:not()` or `:host()`.
pub open spec fn in_lists(text: Seq<char>, at: int) -> bool
    decreases at,
{
    let paren = opening(text, at, 0);
    0 <= paren < at ==> (opens(text, paren, "not"@) || opens(text, paren, "host"@)) && in_lists(
        text,
        paren,
    )
}

/// Whether some parenthesis that is open at `at` is that of a `:host()`.
pub open spec fn in_host(text: Seq<char>, at: int) -> bool
    decreases at,
{
    let paren = opening(text, at, 0);
    0 <= paren < at && (opens(text, paren, "host"@) || in_host(text, paren))
}

/// Whether `c` parts nothing by itself: white space, or a comment.
pub open spec fn is_gap(c: char) -> bool {
    is_space(c) || c == '/'
}

/// Where the gap ends that starts at `at`.
pub open spec fn gap_end(text: Seq<char>, at: int) -> int
    decreases text.len() - at,
{
    if 0 <= at < text.len() && is_gap(text[at]) {
        gap_end(text, at + 1)
    } else {
        at
    }
}

/// Where the gap starts that ends in front of `at`.
pub open spec fn gap_start(text: Seq<char>, at: int) -> int
    decreases at,
{
    if 0 < at <= text.len() && is_gap(text[at - 1]) {
        gap_start(text, at - 1)
    } else {
        at
    }
}

/// Whether a part of a selector stands in front of `at`, with or without a gap.
pub open spec fn follows_part(text: Seq<char>, at: int) -> bool {
    let end = gap_start(text, at);
    end > 0 && text[end - 1] != '(' && text[end - 1] != ','
}

/// Whether a plus sign at `at` starts a number.
pub open spec fn starts_number(text: Seq<char>, at: int) -> bool {
    let digit = if at + 1 < text.len() && text[at + 1] == '.' {
        at + 2
    } else {
        at + 1
    };
    digit < text.len() && '0' <= text[digit] <= '9'
}

/// Whether the sign of a combinator stands at `at`.
pub open spec fn sign_at(text: Seq<char>, at: int) -> bool {
    ||| text[at] == '>'
    ||| text[at] == '+' && !starts_number(text, at)
    ||| text[at] == '~' && !pair_at(text, at, '~', '=')
}

/// Whether white space at `at` parts what follows from what stands in front. A comma
/// ends a selector in a list, and `:host()` takes no list.
pub open spec fn parting_space_at(text: Seq<char>, at: int) -> bool {
    let next = gap_end(text, at);
    &&& is_space(text[at])
    &&& next < text.len()
    &&& text[next] != ')'
    &&& text[next] == ',' ==> opens(text, opening(text, at, 0), "host"@)
}

/// Whether a combinator stands at `at`, behind a part of a selector.
pub open spec fn combinator_at(text: Seq<char>, at: int) -> bool {
    follows_part(text, at) && (sign_at(text, at) || parting_space_at(text, at))
}

/// Whether a part of the bare text stands where it cannot.
pub open spec fn misplaced_at(text: Seq<char>, at: int) -> bool {
    &&& opening(text, at, 0) >= 0
    &&& in_lists(text, at)
    &&& pseudo_element_at(text, at) || (combinator_at(text, at) && in_host(text, at))
}

/// Whether some part of the selector stands where it cannot: a pseudo-element in
/// `:not()` or `:host()`, or a combinator in `:host()`.
pub open spec fn has_misplaced_part(text: Seq<char>) -> bool {
    let left = bare(text, 0, outset());
    exists|at: int| 0 <= at < left.len() && #[trigger] misplaced_at(left, at)
}

/// Whether `c` is a hexadecimal digit.
fn hex(c: char) -> (res: bool)
    ensures
        res == is_hex(c),
{
    ('0' <= c && c <= '9') || ('a' <= c && c <= 'f') || ('A' <= c && c <= 'F')
}

/// What the hexadecimal digit `c` is worth.
fn digit_value(c: char) -> (res: u32)
    requires
        is_hex(c),
    ensures
        res == hex_digit(c),
        res < 16,
{
    if c <= '9' {
        c as u32 - '0' as u32
    } else if c <= 'F' {
        c as u32 - 'A' as u32 + 10
    } else {
        c as u32 - 'a' as u32 + 10
    }
}

/// Whether `c` is white space.
fn spaces(c: char) -> (res: bool)
    ensures
        res == is_space(c),
{
    c == ' ' || c == '\t' || c == '\n' || c == '\r' || c == '\u{C}'
}

/// Whether `c` ends a line.
fn ends_line(c: char) -> (res: bool)
    ensures
        res == is_line_end(c),
{
    c == '\n' || c == '\r' || c == '\u{C}'
}

/// Whether `c` is a letter or a hyphen.
fn holds_in_word(c: char) -> (res: bool)
    ensures
        res == is_word_char(c),
{
    ('a' <= c && c <= 'z') || ('A' <= c && c <= 'Z') || c == '-'
}

/// Whether a name can hold `c`.
fn holds_in_name(c: char) -> (res: bool)
    ensures
        res == is_name_char(c),
{
    holds_in_word(c) || ('0' <= c && c <= '9') || c == '_' || c == '\0' || c >= '\u{80}'
}

/// The number that up to six digits at `at` make, and where they end.
fn read_number(text: &Vec<char>, at: usize) -> (res: (u32, usize))
    requires
        at <= text@.len(),
    ensures
        at <= res.1 <= text@.len(),
        res.1 == digits_end(text@, at as int, 6),
        res.0 == number(text@, at as int, res.1 as int),
        is_hex_at(text@, at as int) ==> res.1 > at,
{
    let mut value: u32 = 0;
    let mut left: u32 = 6;
    let mut i: usize = at;
    while left > 0 && i < text.len() && hex(text[i])
        invariant
            at <= i <= text@.len(),
            left <= 6,
            i - at == 6 - left,
            digits_end(text@, i as int, left as nat) == digits_end(text@, at as int, 6),
            value == number(text@, at as int, i as int),
            left == 6 ==> value == 0,
            left == 5 ==> value <= 0xF,
            left == 4 ==> value <= 0xFF,
            left == 3 ==> value <= 0xFFF,
            left == 2 ==> value <= 0xFFFF,
            left == 1 ==> value <= 0xFFFFF,
            left == 0 ==> value <= 0xFFFFFF,
        decreases left,
    {
        value = 16 * value + digit_value(text[i]);
        left = left - 1;
        i = i + 1;
    }
    (value, i)
}

/// Where the one white space ends that may stand at `at`.
fn find_one_space_end(text: &Vec<char>, at: usize) -> (res: usize)
    requires
        at <= text@.len(),
    ensures
        at <= res <= text@.len(),
        res == one_space_end(text@, at as int),
{
    if at >= text.len() || !spaces(text[at]) {
        at
    } else if text[at] == '\r' && at < text.len() - 1 && text[at + 1] == '\n' {
        at + 2
    } else {
        at + 1
    }
}

/// `c` if it is a letter or a hyphen, and else another character of a name.
fn of_word(c: char) -> (res: char)
    ensures
        res == in_word(c),
{
    if holds_in_word(c) {
        c
    } else {
        '\u{FFFD}'
    }
}

/// Whether the backslash at `at` starts an escape.
fn is_escape(text: &Vec<char>, at: usize) -> (res: bool)
    requires
        at < text@.len(),
    ensures
        res == escape_at(text@, at as int),
{
    text[at] == '\\' && (at >= text.len() - 1 || !ends_line(text[at + 1]))
}

/// The character that stands for the escape at `at`, and where the escape ends.
fn read_escape(text: &Vec<char>, at: usize) -> (res: (char, usize))
    requires
        at < text@.len(),
    ensures
        at < res.1 <= text@.len(),
        res.0 == escaped(text@, at as int),
        res.1 == escape_end(text@, at as int),
{
    if at >= text.len() - 1 {
        return ('\u{FFFD}', at + 1);
    }
    let c = text[at + 1];
    if hex(c) {
        let (code, end) = read_number(text, at + 1);
        let next: usize = find_one_space_end(text, end);
        if code < 0x80 {
            (of_word((code as u8) as char), next)
        } else {
            ('\u{FFFD}', next)
        }
    } else {
        (of_word(c), at + 2)
    }
}

/// `c`, unless the reader is in attribute brackets.
fn keep(c: char, place: Place) -> (res: Option<char>)
    ensures
        res == kept(c, place),
{
    if place.brackets {
        None
    } else {
        Some(c)
    }
}

/// Whether `first` stands at `at` and `second` behind it.
fn is_pair(text: &Vec<char>, at: usize, first: char, second: char) -> (res: bool)
    requires
        at < text@.len(),
    ensures
        res == pair_at(text@, at as int, first, second),
{
    text[at] == first && at < text.len() - 1 && text[at + 1] == second
}

/// What a reader at `place` keeps of what stands at `at`, where that ends, and where
/// the reader is then.
fn see(text: &Vec<char>, at: usize, place: Place) -> (res: (Option<char>, usize, Place))
    requires
        at < text@.len(),
    ensures
        res.0 == seen(text@, at as int, place).keep,
        at < res.1 <= text@.len(),
        res.1 == seen(text@, at as int, place).end,
        res.2 == seen(text@, at as int, place).place,
{
    let len: usize = text.len();
    let brackets = place.brackets;
    let out = Place { inside: Inside::Nothing, brackets };
    let c = text[at];
    match place.inside {
        Inside::Comment => if is_pair(text, at, '*', '/') {
            (None, at + 2, out)
        } else {
            (None, at + 1, place)
        },
        Inside::Text(quote) => if c == '\\' && at < len - 1 {
            (None, at + 2, place)
        } else if c == quote {
            (None, at + 1, out)
        } else {
            (None, at + 1, place)
        },
        Inside::Nothing => if is_pair(text, at, '/', '*') {
            (keep(c, place), at + 2, Place { inside: Inside::Comment, brackets })
        } else if c == '"' || c == '\'' {
            (keep(c, place), at + 1, Place { inside: Inside::Text(c), brackets })
        } else if is_escape(text, at) {
            let (stands, end) = read_escape(text, at);
            (keep(stands, place), end, place)
        } else if c == '[' {
            (keep(c, place), at + 1, Place { inside: Inside::Nothing, brackets: true })
        } else if c == ']' {
            (Some(c), at + 1, Place { inside: Inside::Nothing, brackets: false })
        } else if c == '/' || c == '\\' {
            (keep('?', place), at + 1, place)
        } else {
            (keep(c, place), at + 1, place)
        },
    }
}

/// The characters of a text.
fn characters(text: &str) -> (res: Vec<char>)
    ensures
        res@ == text@,
{
    let len: usize = text.unicode_len();
    let mut res: Vec<char> = Vec::new();
    let mut i: usize = 0;
    while i < len
        invariant
            i <= len,
            len == text@.len(),
            res@ == text@.take(i as int),
        decreases len - i,
    {
        res.push(text.get_char(i));
        assert(text@.take(i + 1) =~= text@.take(i as int).push(text@[i as int]));
        i = i + 1;
    }
    assert(text@.take(len as int) =~= text@);
    res
}

/// The bare text of a selector.
fn bare_text(text: &Vec<char>) -> (res: Vec<char>)
    ensures
        res@ == bare(text@, 0, outset()),
{
    let mut res: Vec<char> = Vec::new();
    let mut place = Place { inside: Inside::Nothing, brackets: false };
    let mut i: usize = 0;
    assert(res@ + bare(text@, 0, place) =~= bare(text@, 0, outset()));
    while i < text.len()
        invariant
            i <= text@.len(),
            res@ + bare(text@, i as int, place) == bare(text@, 0, outset()),
        decreases text@.len() - i,
    {
        let (left, end, then) = see(text, i, place);
        let ghost here = seen(text@, i as int, place);
        let ghost before = res@;
        if let Some(c) = left {
            res.push(c);
        }
        assert(bare(text@, here.end, here.place) == bare(text@, end as int, then));
        assert(res@ + bare(text@, end as int, then) =~= before + bare(text@, i as int, place));
        place = then;
        i = end;
    }
    assert(res@ + bare(text@, i as int, place) =~= res@);
    res
}

/// Where the name ends that starts at `at`.
fn find_name_end(text: &Vec<char>, at: usize) -> (res: usize)
    requires
        at <= text@.len(),
    ensures
        at <= res <= text@.len(),
        res == name_end(text@, at as int),
{
    let mut i: usize = at;
    while i < text.len() && holds_in_name(text[i])
        invariant
            at <= i <= text@.len(),
            name_end(text@, i as int) == name_end(text@, at as int),
        decreases text@.len() - i,
    {
        i = i + 1;
    }
    i
}

/// Where the name starts that ends in front of `at`.
fn find_name_start(text: &Vec<char>, at: usize) -> (res: usize)
    requires
        at <= text@.len(),
    ensures
        res <= at,
        res == name_start(text@, at as int),
{
    let mut i: usize = at;
    while i > 0 && holds_in_name(text[i - 1])
        invariant
            i <= at <= text@.len(),
            name_start(text@, i as int) == name_start(text@, at as int),
        decreases i,
    {
        i = i - 1;
    }
    i
}

/// Where the comments end that start at `at`.
fn find_comments_end(text: &Vec<char>, at: usize) -> (res: usize)
    requires
        at <= text@.len(),
    ensures
        at <= res <= text@.len(),
        res == comments_end(text@, at as int),
{
    let mut i: usize = at;
    while i < text.len() && text[i] == '/'
        invariant
            at <= i <= text@.len(),
            comments_end(text@, i as int) == comments_end(text@, at as int),
        decreases text@.len() - i,
    {
        i = i + 1;
    }
    i
}

/// Where the comments start that end in front of `at`.
fn find_comments_start(text: &Vec<char>, at: usize) -> (res: usize)
    requires
        at <= text@.len(),
    ensures
        res <= at,
        res == comments_start(text@, at as int),
{
    let mut i: usize = at;
    while i > 0 && text[i - 1] == '/'
        invariant
            i <= at <= text@.len(),
            comments_start(text@, i as int) == comments_start(text@, at as int),
        decreases i,
    {
        i = i - 1;
    }
    i
}

/// Whether `c` parts nothing by itself.
fn gaps(c: char) -> (res: bool)
    ensures
        res == is_gap(c),
{
    spaces(c) || c == '/'
}

/// Where the gap ends that starts at `at`.
fn find_gap_end(text: &Vec<char>, at: usize) -> (res: usize)
    requires
        at <= text@.len(),
    ensures
        at <= res <= text@.len(),
        res == gap_end(text@, at as int),
{
    let mut i: usize = at;
    while i < text.len() && gaps(text[i])
        invariant
            at <= i <= text@.len(),
            gap_end(text@, i as int) == gap_end(text@, at as int),
        decreases text@.len() - i,
    {
        i = i + 1;
    }
    i
}

/// Where the gap starts that ends in front of `at`.
fn find_gap_start(text: &Vec<char>, at: usize) -> (res: usize)
    requires
        at <= text@.len(),
    ensures
        res <= at,
        res == gap_start(text@, at as int),
{
    let mut i: usize = at;
    while i > 0 && gaps(text[i - 1])
        invariant
            i <= at <= text@.len(),
            gap_start(text@, i as int) == gap_start(text@, at as int),
        decreases i,
    {
        i = i - 1;
    }
    i
}

/// Whether `c` is `letter`, in any ASCII case.
fn is_letter(c: char, letter: char) -> (res: bool)
    ensures
        res == (ascii_lower_char(c) == letter),
{
    if 'A' <= c && c <= 'Z' {
        c as u32 + 32 == letter as u32
    } else {
        c == letter
    }
}

/// Whether the name from `from` to `to` is `word`, in any ASCII case.
fn reads(text: &Vec<char>, from: usize, to: usize, word: &str) -> (res: bool)
    requires
        from <= to <= text@.len(),
    ensures
        res == is_word(text@, from as int, to as int, word@),
{
    let ghost name = text@.subrange(from as int, to as int);
    if word.unicode_len() != to - from {
        assert(ascii_lower(name).len() == to - from);
        return false;
    }
    let mut i: usize = 0;
    while i < to - from
        invariant
            from <= to <= text@.len(),
            i <= to - from,
            word@.len() == to - from,
            name == text@.subrange(from as int, to as int),
            forall|k: int| 0 <= k < i ==> #[trigger] ascii_lower(name)[k] == word@[k],
        decreases to - from - i,
    {
        assert(ascii_lower(name)[i as int] == ascii_lower_char(text@[from + i]));
        if !is_letter(text[from + i], word.get_char(i)) {
            return false;
        }
        i = i + 1;
    }
    assert(ascii_lower(name) =~= word@);
    true
}

/// Whether a colon stands in front of `at`, comments aside.
fn is_behind_colon(text: &Vec<char>, at: usize) -> (res: bool)
    requires
        at <= text@.len(),
    ensures
        res == follows_colon(text@, at as int),
{
    let end: usize = find_comments_start(text, at);
    end > 0 && text[end - 1] == ':'
}

/// Whether a pseudo-element stands at `at`.
fn is_pseudo_element(text: &Vec<char>, at: usize) -> (res: bool)
    requires
        at < text@.len(),
    ensures
        res == pseudo_element_at(text@, at as int),
{
    let len: usize = text.len();
    if text[at] != ':' {
        return false;
    }
    let from: usize = find_comments_end(text, at + 1);
    if from >= len {
        return false;
    }
    if text[from] == ':' {
        let name: usize = find_comments_end(text, from + 1);
        find_name_end(text, name) > name
    } else {
        let to: usize = find_name_end(text, from);
        reads(text, from, to, "before") || reads(text, from, to, "after")
            || reads(text, from, to, "first-line") || reads(text, from, to, "first-letter")
    }
}

/// Where the innermost parenthesis opens that is open at `at`.
fn find_opening(text: &Vec<char>, at: usize) -> (res: Option<usize>)
    requires
        at <= text@.len(),
    ensures
        match res {
            Some(paren) => paren < at && paren == opening(text@, at as int, 0),
            None => opening(text@, at as int, 0) == -1,
        },
{
    let mut closed: usize = 0;
    let mut i: usize = at;
    while i > 0
        invariant
            i <= at <= text@.len(),
            closed + i <= at,
            opening(text@, i as int, closed as nat) == opening(text@, at as int, 0),
        decreases i,
    {
        i = i - 1;
        if text[i] == ')' {
            closed = closed + 1;
        } else if text[i] == '(' {
            if closed == 0 {
                return Some(i);
            }
            closed = closed - 1;
        }
    }
    None
}

/// Whether the parenthesis at `at` is that of the pseudo-class `word`.
fn is_opening(text: &Vec<char>, at: usize, word: &str) -> (res: bool)
    requires
        at <= text@.len(),
    ensures
        res == opens(text@, at as int, word@),
{
    let from: usize = find_name_start(text, at);
    reads(text, from, at, word) && is_behind_colon(text, from) && !is_behind_colon(
        text,
        find_comments_start(text, from) - 1,
    )
}

/// Whether every parenthesis that is open at `at` is that of a `:not()` or `:host()`.
fn is_in_lists(text: &Vec<char>, at: usize) -> (res: bool)
    requires
        at <= text@.len(),
    ensures
        res == in_lists(text@, at as int),
{
    let mut i: usize = at;
    loop
        invariant
            i <= at <= text@.len(),
            in_lists(text@, i as int) == in_lists(text@, at as int),
        decreases i,
    {
        match find_opening(text, i) {
            Some(paren) => {
                if !is_opening(text, paren, "not") && !is_opening(text, paren, "host") {
                    return false;
                }
                i = paren;
            },
            None => {
                return true;
            },
        }
    }
}

/// Whether some parenthesis that is open at `at` is that of a `:host()`.
fn is_in_host(text: &Vec<char>, at: usize) -> (res: bool)
    requires
        at <= text@.len(),
    ensures
        res == in_host(text@, at as int),
{
    let mut i: usize = at;
    loop
        invariant
            i <= at <= text@.len(),
            in_host(text@, i as int) == in_host(text@, at as int),
        decreases i,
    {
        match find_opening(text, i) {
            Some(paren) => {
                if is_opening(text, paren, "host") {
                    return true;
                }
                i = paren;
            },
            None => {
                return false;
            },
        }
    }
}

/// Whether a plus sign at `at` starts a number.
fn is_number(text: &Vec<char>, at: usize) -> (res: bool)
    requires
        at < text@.len(),
    ensures
        res == starts_number(text@, at as int),
{
    let len: usize = text.len();
    let mut digit: usize = at + 1;
    if digit < len && text[digit] == '.' {
        digit = digit + 1;
    }
    digit < len && '0' <= text[digit] && text[digit] <= '9'
}

/// Whether a combinator stands at `at`, in parentheses that open at `paren`.
fn is_combinator(text: &Vec<char>, at: usize, paren: usize) -> (res: bool)
    requires
        at < text@.len(),
        paren <= text@.len(),
        paren == opening(text@, at as int, 0),
    ensures
        res == combinator_at(text@, at as int),
{
    let end: usize = find_gap_start(text, at);
    if end == 0 || text[end - 1] == '(' || text[end - 1] == ',' {
        return false;
    }
    let c = text[at];
    if c == '>' {
        return true;
    }
    if c == '+' {
        return !is_number(text, at);
    }
    if c == '~' {
        return !is_pair(text, at, '~', '=');
    }
    if !spaces(c) {
        return false;
    }
    let next: usize = find_gap_end(text, at);
    next < text.len() && text[next] != ')' && (text[next] != ',' || is_opening(text, paren, "host"))
}

/// Whether a part of the bare text stands where it cannot.
fn is_misplaced(text: &Vec<char>, at: usize) -> (res: bool)
    requires
        at < text@.len(),
    ensures
        res == misplaced_at(text@, at as int),
{
    match find_opening(text, at) {
        Some(paren) => (is_pseudo_element(text, at) || (is_combinator(text, at, paren)
            && is_in_host(text, at))) && is_in_lists(text, at),
        None => false,
    }
}

/// Whether some part of the selector stands where it cannot.
pub fn finds_misplaced_part(text: &str) -> (res: bool)
    ensures
        res == has_misplaced_part(text@),
{
    let left = bare_text(&characters(text));
    let mut i: usize = 0;
    while i < left.len()
        invariant
            i <= left@.len(),
            left@ == bare(text@, 0, outset()),
            forall|at: int| 0 <= at < i ==> !(#[trigger] misplaced_at(left@, at)),
        decreases left@.len() - i,
    {
        if is_misplaced(&left, i) {
            return true;
        }
        i = i + 1;
    }
    false
}

/// `lol_html::Selector`.
#[verifier::external_type_specification]
#[verifier::external_body]
pub struct ExSelector(lol_html::Selector);

/// `lol_html::errors::SelectorError`.
#[verifier::external_type_specification]
#[verifier::external_body]
pub struct ExSelectorError(lol_html::errors::SelectorError);

/// What a text without misplaced parts is, read as a CSS selector.
pub uninterp spec fn selector_parse(text: Seq<char>) -> Result<Selector, SelectorError>;

/// `lol_html::Selector::from_str` reads a CSS selector. With debug assertions it
/// panics where it comes to a pseudo-element in `:not()` or `:host()`, or to a
/// combinator in `:host()`.
#[verifier::external_body]
fn native_parse(text: &str) -> (res: Result<Selector, SelectorError>)
    requires
        !has_misplaced_part(text@),
    ensures
        res == selector_parse(text@),
{
    text.parse::<Selector>()
}

/// Whether `parsed` is what `text` is, read as a CSS selector. A text with a
/// misplaced part is refused as unsupported; another failure has the error written
/// out as its reason.
pub open spec fn reads_as(text: Seq<char>, parsed: Result<Selector, Error>) -> bool {
    if has_misplaced_part(text) {
        fails_with(parsed, UNSUPPORTED_SYNTAX@)
    } else {
        match selector_parse(text) {
            Ok(selector) => parsed == Ok::<Selector, Error>(selector),
            Err(cause) => parsed matches Err(Error::GenericFailure(reason))
                && to_string_from_display_ensures::<SelectorError>(&cause, reason),
        }
    }
}

/// Reads a CSS selector. A part that stands where it cannot outranks any other fault
/// of the selector.
pub fn parse_selector(text: &str) -> (res: Result<Selector, Error>)
    ensures
        reads_as(text@, res),
{
    if finds_misplaced_part(text) {
        return Err(Error::new(UNSUPPORTED_SYNTAX));
    }
    match native_parse(text) {
        Ok(selector) => Ok(selector),
        Err(cause) => Err(map_err(cause)),
    }
}

} // verus!

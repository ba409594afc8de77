//! What holds of the reading of CSS selectors.
//!
//! The laws say which selectors are refused before `lol_html` reads them, over the
//! characters of the selector.
use vstd::prelude::*;
use vstd::string::to_string_from_display_ensures;

use crate::html_rewriter::error::{fails_with, Error};
use crate::html_rewriter::selector::{bare, comments_end, comments_start, digits_end, escape_end,
    escaped, follows_colon, gap_end, gap_start, has_misplaced_part, in_host, in_lists, is_hex,
    is_line_end, is_name_char, is_old_name, is_space, is_word, is_word_char, misplaced_at,
    name_end, name_start, number, opening, opens, outset, parse_selector, seen, selector_parse,
    Inside, Place};
use crate::text::{ascii_lower, ascii_lower_char};
use lol_html::errors::SelectorError;
use lol_html::Selector;

verus! {

/// Whether `c` does not occur in `text`.
pub open spec fn lacks(text: Seq<char>, c: char) -> bool {
    forall|i: int| 0 <= i < text.len() ==> #[trigger] text[i] != c
}

/// Whether `c` starts neither a comment nor a string nor an escape nor an attribute
/// selector, and ends no attribute selector.
pub open spec fn is_plain(c: char) -> bool {
    c != '/' && c != '"' && c != '\'' && c != '\\' && c != '[' && c != ']'
}

/// Whether a selector has no comment, string, escape or attribute selector.
pub open spec fn all_plain(text: Seq<char>) -> bool {
    forall|i: int| 0 <= i < text.len() ==> is_plain(#[trigger] text[i])
}

/// What is left of a text without an opening parenthesis has none either.
proof fn lemma_bare_lacks_parentheses(text: Seq<char>, at: int, place: Place)
    requires
        lacks(text, '('),
        0 <= at,
    ensures
        lacks(bare(text, at, place), '('),
    decreases text.len() - at,
{
    if at < text.len() {
        let here = seen(text, at, place);
        if at < here.end <= text.len() {
            lemma_bare_lacks_parentheses(text, here.end, here.place);
        }
    }
}

/// Where a parenthesis is open, it opens in front.
proof fn lemma_opening(text: Seq<char>, at: int, closed: nat)
    ensures
        opening(text, at, closed) == -1 || (0 <= opening(text, at, closed) < at && at <= text.len()
            && text[opening(text, at, closed)] == '('),
    decreases at,
{
    if 0 < at <= text.len() {
        if text[at - 1] == ')' {
            lemma_opening(text, at - 1, closed + 1);
        } else if text[at - 1] != '(' {
            lemma_opening(text, at - 1, closed);
        } else if closed > 0 {
            lemma_opening(text, at - 1, (closed - 1) as nat);
        }
    }
}

/// A selector without parentheses has no misplaced part.
pub proof fn law_parts_are_misplaced_in_parentheses_only(text: Seq<char>)
    requires
        lacks(text, '('),
    ensures
        !has_misplaced_part(text),
{
    let left = bare(text, 0, outset());
    lemma_bare_lacks_parentheses(text, 0, outset());
    assert forall|at: int| 0 <= at < left.len() implies !(#[trigger] misplaced_at(left, at)) by {
        lemma_opening(left, at, 0);
    }
}

/// A selector without parentheses is read as `lol_html` reads it: its selector is
/// handed on, and its error is the reason of the failure.
pub proof fn law_selectors_without_parentheses_are_read_as_they_are()
    ensures
        forall|text: &str, res: Result<Selector, Error>|
            #![trigger call_ensures(parse_selector, (text,), res)]
            lacks(text@, '(') && call_ensures(parse_selector, (text,), res) ==> match selector_parse(
                text@,
            ) {
                Ok(selector) => res == Ok::<Selector, Error>(selector),
                Err(cause) => res matches Err(Error::GenericFailure(reason))
                    && to_string_from_display_ensures::<SelectorError>(&cause, reason),
            },
{
    assert forall|text: &str, res: Result<Selector, Error>| #[trigger]
        call_ensures(parse_selector, (text,), res) && lacks(text@, '(') implies match selector_parse(
        text@,
    ) {
        Ok(selector) => res == Ok::<Selector, Error>(selector),
        Err(cause) => res matches Err(Error::GenericFailure(reason))
            && to_string_from_display_ensures::<SelectorError>(&cause, reason),
    } by {
        law_parts_are_misplaced_in_parentheses_only(text@);
    }
}

/// A plain character is left as it is.
pub proof fn law_plain_characters_are_left(text: Seq<char>, at: int)
    requires
        0 <= at < text.len(),
        is_plain(text[at]),
    ensures
        bare(text, at, outset()) == seq![text[at]] + bare(text, at + 1, outset()),
{
}

/// What is left of a selector from a place on in which all is plain.
proof fn lemma_plain_text_is_left(text: Seq<char>, at: int)
    requires
        all_plain(text),
        0 <= at <= text.len(),
    ensures
        bare(text, at, outset()) == text.skip(at),
    decreases text.len() - at,
{
    if at < text.len() {
        lemma_plain_text_is_left(text, at + 1);
        law_plain_characters_are_left(text, at);
        assert(seq![text[at]] + text.skip(at + 1) =~= text.skip(at));
    } else {
        assert(text.skip(at) =~= Seq::<char>::empty());
    }
}

/// All is left of a plain selector.
pub proof fn law_plain_selectors_are_left(text: Seq<char>)
    requires
        all_plain(text),
    ensures
        bare(text, 0, outset()) == text,
{
    lemma_plain_text_is_left(text, 0);
    assert(text.skip(0) =~= text);
}

/// What is left of a comment from a place inside of it on.
proof fn lemma_comment(text: Seq<char>, at: int, close: int)
    requires
        0 <= at <= close,
        close + 1 < text.len(),
        text[close] == '*' && text[close + 1] == '/',
        forall|i: int| at <= i < close ==> #[trigger] text[i] != '*',
    ensures
        bare(text, at, (Place { inside: Inside::Comment, brackets: false })) == bare(
            text,
            close + 2,
            outset(),
        ),
    decreases close - at,
{
    if at < close {
        lemma_comment(text, at + 1, close);
    }
}

/// Of a comment a single slash is left.
pub proof fn law_comments_leave_a_slash(text: Seq<char>, at: int, close: int)
    requires
        0 <= at,
        at + 2 <= close,
        close + 1 < text.len(),
        text[at] == '/' && text[at + 1] == '*',
        text[close] == '*' && text[close + 1] == '/',
        forall|i: int| at + 2 <= i < close ==> #[trigger] text[i] != '*',
    ensures
        bare(text, at, outset()) == seq!['/'] + bare(text, close + 2, outset()),
{
    lemma_comment(text, at + 2, close);
}

/// What is left of a string from a place inside of it on.
proof fn lemma_string(text: Seq<char>, at: int, close: int, quote: char)
    requires
        0 <= at <= close < text.len(),
        text[close] == quote,
        quote != '\\',
        forall|i: int| at <= i < close ==> #[trigger] text[i] != quote && text[i] != '\\',
    ensures
        bare(text, at, (Place { inside: Inside::Text(quote), brackets: false })) == bare(
            text,
            close + 1,
            outset(),
        ),
    decreases close - at,
{
    if at < close {
        lemma_string(text, at + 1, close, quote);
    }
}

/// Of a string its opening quote is left.
pub proof fn law_strings_leave_a_quote(text: Seq<char>, at: int, close: int)
    requires
        0 <= at < close < text.len(),
        text[at] == '"' || text[at] == '\'',
        text[close] == text[at],
        forall|i: int| at < i < close ==> #[trigger] text[i] != text[at] && text[i] != '\\',
    ensures
        bare(text, at, outset()) == seq![text[at]] + bare(text, close + 1, outset()),
{
    lemma_string(text, at + 1, close, text[at]);
}

/// What is left of attribute brackets from a place inside of them on.
proof fn lemma_brackets(text: Seq<char>, at: int, close: int)
    requires
        0 <= at <= close < text.len(),
        text[close] == ']',
        forall|i: int| at <= i < close ==> is_plain(#[trigger] text[i]),
    ensures
        bare(text, at, (Place { inside: Inside::Nothing, brackets: true })) == seq![']'] + bare(
            text,
            close + 1,
            outset(),
        ),
    decreases close - at,
{
    if at < close {
        lemma_brackets(text, at + 1, close);
    }
}

/// Of an attribute selector its brackets are left.
pub proof fn law_attribute_selectors_leave_their_brackets(text: Seq<char>, at: int, close: int)
    requires
        0 <= at < close < text.len(),
        text[at] == '[',
        text[close] == ']',
        forall|i: int| at < i < close ==> is_plain(#[trigger] text[i]),
    ensures
        bare(text, at, outset()) == seq!['[', ']'] + bare(text, close + 1, outset()),
{
    lemma_brackets(text, at + 1, close);
    let rest = bare(text, close + 1, outset());
    assert(seq!['['] + (seq![']'] + rest) =~= seq!['[', ']'] + rest);
}

/// An escaped letter that is no digit is read as the letter, any other such character
/// as some character of a name.
pub proof fn law_escaped_characters_are_read(text: Seq<char>, at: int)
    requires
        0 <= at,
        at + 1 < text.len(),
        text[at] == '\\',
        !is_hex(text[at + 1]),
        !is_line_end(text[at + 1]),
    ensures
        ({
            let c = if is_word_char(text[at + 1]) {
                text[at + 1]
            } else {
                '\u{FFFD}'
            };
            bare(text, at, outset()) == seq![c] + bare(text, at + 2, outset())
        }),
{
}

/// A character that is escaped by two digits and a space is read as the letter of that
/// number.
pub proof fn law_escaped_numbers_are_read(text: Seq<char>, at: int, letter: char)
    requires
        0 <= at,
        at + 3 < text.len(),
        text[at] == '\\',
        '4' <= text[at + 1] <= '7',
        '0' <= text[at + 2] <= '9',
        text[at + 3] == ' ',
        is_word_char(letter),
        letter as int == 16 * (text[at + 1] as int - '0' as int) + (text[at + 2] as int
            - '0' as int),
    ensures
        bare(text, at, outset()) == seq![letter] + bare(text, at + 4, outset()),
{
    reveal_with_fuel(digits_end, 4);
    reveal_with_fuel(number, 4);
    assert(digits_end(text, at + 1, 6) == at + 3);
    assert(number(text, at + 1, at + 3) == letter as int);
    assert(escape_end(text, at) == at + 4);
    assert(escaped(text, at) == letter);
}

/// Whether `word`, in any ASCII case, stands right in front of `at`, behind a colon.
pub open spec fn names(text: Seq<char>, at: int, word: Seq<char>) -> bool {
    let from = at - word.len();
    &&& 0 < from
    &&& ascii_lower(text.subrange(from, at)) == word
    &&& text[from - 1] == ':'
}

/// Whether `:not(` or `:host(` opens at `at`.
pub open spec fn opens_list(text: Seq<char>, at: int) -> bool {
    text[at] == '(' && (names(text, at, "not"@) || names(text, at, "host"@))
}

/// Whether `word`, in any ASCII case, is the whole name that starts at `at`.
pub open spec fn reads_word(text: Seq<char>, at: int, word: Seq<char>) -> bool {
    &&& at + word.len() <= text.len()
    &&& ascii_lower(text.subrange(at, at + word.len())) == word
    &&& at + word.len() < text.len() ==> !is_name_char(text[at + word.len()])
}

/// Whether a pseudo-element is written at `at`: two colons and a name, or one colon and
/// one of four names.
pub open spec fn writes_pseudo_element(text: Seq<char>, at: int) -> bool {
    &&& at + 1 < text.len()
    &&& text[at] == ':'
    &&& {
        ||| at + 2 < text.len() && text[at + 1] == ':' && is_name_char(text[at + 2])
        ||| reads_word(text, at + 1, "before"@)
        ||| reads_word(text, at + 1, "after"@)
        ||| reads_word(text, at + 1, "first-line"@)
        ||| reads_word(text, at + 1, "first-letter"@)
    }
}

/// Whether `c` is the sign of a combinator or white space.
pub open spec fn is_combining(c: char) -> bool {
    c == '>' || c == '+' || c == '~' || is_space(c)
}

/// How many more parentheses close than open from `from` to `to`.
pub open spec fn closings(text: Seq<char>, from: int, to: int) -> int
    decreases to - from,
{
    if from >= to {
        0
    } else if text[to - 1] == ')' {
        closings(text, from, to - 1) + 1
    } else if text[to - 1] == '(' {
        closings(text, from, to - 1) - 1
    } else {
        closings(text, from, to - 1)
    }
}

/// Whether the innermost parenthesis that is open at `at` opens at `open`: all that open
/// behind it are closed again, and it is not.
pub open spec fn is_open(text: Seq<char>, open: int, at: int) -> bool {
    &&& 0 <= open < at <= text.len()
    &&& text[open] == '('
    &&& closings(text, open + 1, at) == 0
    &&& forall|k: int| open < k <= at ==> #[trigger] closings(text, k, at) >= 0
}

/// The parenthesis that is found is the innermost that is open.
proof fn lemma_opening_is_innermost(text: Seq<char>, at: int, closed: nat)
    requires
        opening(text, at, closed) >= 0,
    ensures
        ({
            let open = opening(text, at, closed);
            &&& closed + closings(text, open + 1, at) == 0
            &&& forall|k: int| open < k <= at ==> closed + #[trigger] closings(text, k, at) >= 0
        }),
    decreases at,
{
    lemma_opening(text, at, closed);
    let open = opening(text, at, closed);
    if text[at - 1] == ')' {
        lemma_opening_is_innermost(text, at - 1, closed + 1);
        lemma_opening(text, at - 1, closed + 1);
        assert forall|k: int| open < k <= at implies closed + #[trigger] closings(text, k, at)
            >= 0 by {
            if k < at {
                assert(closed + 1 + closings(text, k, at - 1) >= 0);
            }
        }
    } else if text[at - 1] != '(' {
        lemma_opening_is_innermost(text, at - 1, closed);
        lemma_opening(text, at - 1, closed);
        assert forall|k: int| open < k <= at implies closed + #[trigger] closings(text, k, at)
            >= 0 by {
            if k < at {
                assert(closed + closings(text, k, at - 1) >= 0);
            }
        }
    } else if closed > 0 {
        lemma_opening_is_innermost(text, at - 1, (closed - 1) as nat);
        lemma_opening(text, at - 1, (closed - 1) as nat);
        assert forall|k: int| open < k <= at implies closed + #[trigger] closings(text, k, at)
            >= 0 by {
            if k < at {
                assert(closed - 1 + closings(text, k, at - 1) >= 0);
            }
        }
    }
}

/// There is no comment where nothing stands for one.
proof fn lemma_no_comments(text: Seq<char>, at: int)
    requires
        lacks(text, '/'),
    ensures
        comments_start(text, at) == at,
        comments_end(text, at) == at,
{
}

/// A name ends where its characters end.
proof fn lemma_name_end(text: Seq<char>, at: int)
    requires
        0 <= at <= text.len(),
    ensures
        at <= name_end(text, at) <= text.len(),
        name_end(text, at) < text.len() ==> !is_name_char(text[name_end(text, at)]),
        forall|i: int| at <= i < name_end(text, at) ==> is_name_char(#[trigger] text[i]),
    decreases text.len() - at,
{
    if at < text.len() && is_name_char(text[at]) {
        lemma_name_end(text, at + 1);
    }
}

/// A name starts where its characters start.
proof fn lemma_name_start(text: Seq<char>, at: int)
    requires
        0 <= at <= text.len(),
    ensures
        0 <= name_start(text, at) <= at,
        name_start(text, at) > 0 ==> !is_name_char(text[name_start(text, at) - 1]),
        forall|i: int| name_start(text, at) <= i < at ==> is_name_char(#[trigger] text[i]),
    decreases at,
{
    if at > 0 && is_name_char(text[at - 1]) {
        lemma_name_start(text, at - 1);
    }
}

/// A parenthesis of a pseudo-class has its name in front.
proof fn lemma_opens(text: Seq<char>, at: int, word: Seq<char>)
    requires
        lacks(text, '/'),
        0 <= at <= text.len(),
        opens(text, at, word),
    ensures
        names(text, at, word),
{
    let from = name_start(text, at);
    lemma_name_start(text, at);
    lemma_no_comments(text, from);
    assert(ascii_lower(text.subrange(from, at)).len() == at - from);
}

/// A word that is read as a name is the whole name.
proof fn lemma_reads_word(text: Seq<char>, at: int, word: Seq<char>)
    requires
        0 <= at <= text.len(),
        is_word(text, at, name_end(text, at), word),
    ensures
        reads_word(text, at, word),
{
    lemma_name_end(text, at);
    assert(ascii_lower(text.subrange(at, name_end(text, at))).len() == name_end(text, at) - at);
}

/// In some open `:host(`.
proof fn lemma_in_host(text: Seq<char>, at: int)
    requires
        lacks(text, '/'),
        0 <= at <= text.len(),
        in_host(text, at),
    ensures
        exists|open: int| 0 <= open < at && text[open] == '(' && #[trigger] names(
            text,
            open,
            "host"@,
        ),
    decreases at,
{
    let open = opening(text, at, 0);
    lemma_opening(text, at, 0);
    if opens(text, open, "host"@) {
        lemma_opens(text, open, "host"@);
        assert(names(text, open, "host"@));
    } else {
        lemma_in_host(text, open);
    }
}

/// A misplaced part stands in a `:not(` or `:host(` that is open there, and it starts
/// with a colon, or it is a combinator.
pub proof fn law_misplaced_parts_stand_in_lists(text: Seq<char>)
    requires
        has_misplaced_part(text),
    ensures
        ({
            let left = bare(text, 0, outset());
            exists|open: int, at: int|
                #![trigger is_open(left, open, at)]
                {
                    &&& is_open(left, open, at)
                    &&& at < left.len()
                    &&& ends_in(left, open, "not"@) || ends_in(left, open, "host"@)
                    &&& left[at] == ':' || is_combining(left[at])
                }
        }),
{
    let left = bare(text, 0, outset());
    let at = choose|at: int| 0 <= at < left.len() && #[trigger] misplaced_at(left, at);
    let open = opening(left, at, 0);
    lemma_opening(left, at, 0);
    lemma_opening_is_innermost(left, at, 0);
    assert(is_open(left, open, at));
    let from = name_start(left, open);
    lemma_name_start(left, open);
    assert(ascii_lower(left.subrange(from, open)).len() == open - from);
}

/// Whether `word`, in any ASCII case, stands right in front of `at`.
pub open spec fn ends_in(text: Seq<char>, at: int, word: Seq<char>) -> bool {
    at >= word.len() && ascii_lower(text.subrange(at - word.len(), at)) == word
}

/// A misplaced part of a selector of which `text` is left, without comments, stands in a
/// `:not(` or `:host(` that is open there, and it is a pseudo-element, or a combinator
/// somewhere in a `:host(`.
pub proof fn law_misplaced_parts_are_known(selector: Seq<char>, text: Seq<char>)
    requires
        text == bare(selector, 0, outset()),
        lacks(text, '/'),
        has_misplaced_part(selector),
    ensures
        exists|open: int, at: int|
            #![trigger is_open(text, open, at)]
            {
                &&& is_open(text, open, at)
                &&& at < text.len()
                &&& opens_list(text, open)
                &&& writes_pseudo_element(text, at) || (is_combining(text[at]) && exists|host: int|
                    0 <= host < at && text[host] == '(' && #[trigger] names(text, host, "host"@))
            },
{
    let at = choose|at: int| 0 <= at < text.len() && #[trigger] misplaced_at(text, at);
    let open = opening(text, at, 0);
    lemma_opening(text, at, 0);
    lemma_opening_is_innermost(text, at, 0);
    assert(is_open(text, open, at));
    if opens(text, open, "not"@) {
        lemma_opens(text, open, "not"@);
    } else {
        lemma_opens(text, open, "host"@);
    }
    lemma_no_comments(text, at + 1);
    if in_host(text, at) {
        lemma_in_host(text, at);
    }
    if text[at] == ':' && at + 1 < text.len() {
        lemma_no_comments(text, at + 2);
        lemma_name_end(text, at + 1);
        if text[at + 1] == ':' {
            lemma_name_end(text, at + 2);
        } else if is_old_name(text, at + 1, name_end(text, at + 1)) {
            if is_word(text, at + 1, name_end(text, at + 1), "before"@) {
                lemma_reads_word(text, at + 1, "before"@);
            } else if is_word(text, at + 1, name_end(text, at + 1), "after"@) {
                lemma_reads_word(text, at + 1, "after"@);
            } else if is_word(text, at + 1, name_end(text, at + 1), "first-line"@) {
                lemma_reads_word(text, at + 1, "first-line"@);
            } else {
                lemma_reads_word(text, at + 1, "first-letter"@);
            }
        }
    }
}

/// What reads as a name character in lower case is one.
proof fn lemma_name_of_word(text: Seq<char>, from: int, to: int, word: Seq<char>)
    requires
        0 <= from <= to <= text.len(),
        ascii_lower(text.subrange(from, to)) == word,
        forall|i: int| 0 <= i < word.len() ==> is_word_char(#[trigger] word[i]),
    ensures
        to - from == word.len(),
        forall|i: int| from <= i < to ==> is_name_char(#[trigger] text[i]),
{
    let name = text.subrange(from, to);
    assert(ascii_lower(name).len() == name.len());
    assert forall|i: int| from <= i < to implies is_name_char(#[trigger] text[i]) by {
        assert(name[i - from] == text[i]);
        assert(ascii_lower(name)[i - from] == ascii_lower_char(text[i]));
        assert(is_word_char(word[i - from]));
    }
}

/// A name ends behind its last character.
proof fn lemma_name_end_is(text: Seq<char>, at: int, end: int)
    requires
        0 <= at <= end <= text.len(),
        forall|i: int| at <= i < end ==> is_name_char(#[trigger] text[i]),
        end < text.len() ==> !is_name_char(text[end]),
    ensures
        name_end(text, at) == end,
    decreases end - at,
{
    if at < end {
        lemma_name_end_is(text, at + 1, end);
    }
}

/// A name starts at its first character.
proof fn lemma_name_start_is(text: Seq<char>, start: int, at: int)
    requires
        0 <= start <= at <= text.len(),
        forall|i: int| start <= i < at ==> is_name_char(#[trigger] text[i]),
        start > 0 ==> !is_name_char(text[start - 1]),
    ensures
        name_start(text, at) == start,
    decreases at - start,
{
    if start < at {
        lemma_name_start_is(text, start, at - 1);
    }
}

/// Whether the parenthesis at `open` is open at `at`: it is never closed in between.
pub open spec fn encloses(text: Seq<char>, open: int, at: int) -> bool {
    &&& 0 <= open < at <= text.len()
    &&& text[open] == '('
    &&& forall|k: int| open < k <= at ==> #[trigger] closings(text, open + 1, k) <= 0
}

/// Whether the parenthesis at `open` is that of the pseudo-class `word`, which stands
/// behind a single colon.
pub open spec fn is_list(text: Seq<char>, open: int, word: Seq<char>) -> bool {
    &&& names(text, open, word)
    &&& open - word.len() >= 2 ==> text[open - word.len() - 2] != ':'
}

/// Whether every parenthesis that is open at `at` is that of a `:not()` or `:host()`.
pub open spec fn lists_only(text: Seq<char>, at: int) -> bool {
    forall|open: int| #[trigger]
        encloses(text, open, at) ==> is_list(text, open, "not"@) || is_list(text, open, "host"@)
}

/// Closings of two stretches add up.
proof fn lemma_closings_add_up(text: Seq<char>, from: int, middle: int, to: int)
    requires
        from <= middle <= to,
    ensures
        closings(text, from, to) == closings(text, from, middle) + closings(text, middle, to),
    decreases to - middle,
{
    if middle < to {
        lemma_closings_add_up(text, from, middle, to - 1);
    }
}

/// The parenthesis that is found is open.
proof fn lemma_opening_encloses(text: Seq<char>, at: int)
    requires
        opening(text, at, 0) >= 0,
    ensures
        encloses(text, opening(text, at, 0), at),
{
    let open = opening(text, at, 0);
    lemma_opening(text, at, 0);
    lemma_opening_is_innermost(text, at, 0);
    assert forall|k: int| open < k <= at implies #[trigger] closings(text, open + 1, k) <= 0 by {
        lemma_closings_add_up(text, open + 1, k, at);
        assert(closings(text, k, at) >= 0);
    }
}

/// What is open where the innermost parenthesis opens is open in it.
proof fn lemma_outer_encloses(text: Seq<char>, outer: int, at: int)
    requires
        opening(text, at, 0) >= 0,
        encloses(text, outer, opening(text, at, 0)),
    ensures
        encloses(text, outer, at),
{
    let open = opening(text, at, 0);
    lemma_opening(text, at, 0);
    lemma_opening_encloses(text, at);
    assert forall|k: int| outer < k <= at implies #[trigger] closings(text, outer + 1, k) <= 0 by {
        if k > open {
            lemma_closings_add_up(text, outer + 1, open, k);
            lemma_closings_add_up(text, open, open + 1, k);
            assert(closings(text, open, open + 1) == -1) by {
                reveal_with_fuel(closings, 2);
            }
            assert(closings(text, open + 1, k) <= 0);
            assert(closings(text, outer + 1, open) <= 0);
        }
    }
}

/// Where a parenthesis is open, one is found.
proof fn lemma_enclosed_is_found(text: Seq<char>, open: int, at: int, closed: nat)
    requires
        encloses(text, open, at),
        closed + closings(text, open + 1, at) <= 0,
    ensures
        opening(text, at, closed) >= open,
    decreases at,
{
    if at - 1 > open {
        assert(closings(text, open + 1, at - 1) <= 0);
        assert(encloses(text, open, at - 1));
        if text[at - 1] == ')' {
            lemma_enclosed_is_found(text, open, at - 1, closed + 1);
        } else if text[at - 1] != '(' {
            lemma_enclosed_is_found(text, open, at - 1, closed);
        } else if closed > 0 {
            lemma_enclosed_is_found(text, open, at - 1, (closed - 1) as nat);
        }
    }
}

/// The parenthesis of a pseudo-class is taken for one.
proof fn lemma_list_opens(text: Seq<char>, open: int, word: Seq<char>)
    requires
        lacks(text, '/'),
        0 <= open <= text.len(),
        is_list(text, open, word),
        word == "not"@ || word == "host"@,
    ensures
        opens(text, open, word),
{
    reveal_strlit("not");
    reveal_strlit("host");
    let from = open - word.len();
    lemma_name_of_word(text, from, open, word);
    lemma_name_start_is(text, from, open);
    lemma_no_comments(text, from);
    lemma_no_comments(text, from - 1);
    assert(follows_colon(text, from));
    assert(!follows_colon(text, from - 1));
}

/// Where only lists are open, only lists are found.
proof fn lemma_lists_are_found(text: Seq<char>, at: int)
    requires
        lacks(text, '/'),
        0 <= at <= text.len(),
        lists_only(text, at),
    ensures
        in_lists(text, at),
    decreases at,
{
    let open = opening(text, at, 0);
    lemma_opening(text, at, 0);
    if open >= 0 {
        lemma_opening_encloses(text, at);
        assert(encloses(text, open, at));
        if is_list(text, open, "not"@) {
            lemma_list_opens(text, open, "not"@);
        } else {
            lemma_list_opens(text, open, "host"@);
        }
        assert forall|outer: int| #[trigger] encloses(text, outer, open) implies is_list(
            text,
            outer,
            "not"@,
        ) || is_list(text, outer, "host"@) by {
            lemma_outer_encloses(text, outer, at);
        }
        lemma_lists_are_found(text, open);
    }
}

/// Where a `:host()` is open, it is found.
proof fn lemma_host_is_found(text: Seq<char>, host: int, at: int)
    requires
        lacks(text, '/'),
        encloses(text, host, at),
        is_list(text, host, "host"@),
    ensures
        in_host(text, at),
    decreases at,
{
    let open = opening(text, at, 0);
    assert(closings(text, host + 1, at) <= 0);
    lemma_enclosed_is_found(text, host, at, 0);
    lemma_opening(text, at, 0);
    if open == host {
        lemma_list_opens(text, host, "host"@);
    } else {
        assert(encloses(text, host, open));
        lemma_host_is_found(text, host, open);
    }
}

/// A pseudo-element that is written in a `:not()` or `:host()`, however deep in others,
/// is misplaced, in a selector of which `text` is left, without comments.
pub proof fn law_pseudo_elements_in_lists_are_misplaced(
    selector: Seq<char>,
    text: Seq<char>,
    open: int,
    at: int,
)
    requires
        text == bare(selector, 0, outset()),
        lacks(text, '/'),
        encloses(text, open, at),
        lists_only(text, at),
        writes_pseudo_element(text, at),
    ensures
        has_misplaced_part(selector),
{
    lemma_lists_are_found(text, at);
    assert(closings(text, open + 1, at) <= 0);
    lemma_enclosed_is_found(text, open, at, 0);
    lemma_no_comments(text, at + 1);
    lemma_no_comments(text, at + 2);
    if at + 2 < text.len() && text[at + 1] == ':' && is_name_char(text[at + 2]) {
        lemma_name_end(text, at + 2);
    } else {
        reveal_strlit("before");
        reveal_strlit("after");
        reveal_strlit("first-line");
        reveal_strlit("first-letter");
        let name = if reads_word(text, at + 1, "before"@) {
            "before"@
        } else if reads_word(text, at + 1, "after"@) {
            "after"@
        } else if reads_word(text, at + 1, "first-line"@) {
            "first-line"@
        } else {
            "first-letter"@
        };
        let end = at + 1 + name.len();
        lemma_name_of_word(text, at + 1, end, name);
        lemma_name_end_is(text, at + 1, end);
        assert(is_name_char(text[at + 1]));
        assert(is_old_name(text, at + 1, end));
    }
    assert(misplaced_at(text, at));
}

/// A combinator behind a part in a `:host()`, however deep in others, is misplaced, in a
/// selector of which `text` is left, without comments: a sign, or white space in front of
/// another part.
pub proof fn law_combinators_in_hosts_are_misplaced(
    selector: Seq<char>,
    text: Seq<char>,
    host: int,
    at: int,
)
    requires
        text == bare(selector, 0, outset()),
        lacks(text, '/'),
        encloses(text, host, at),
        is_list(text, host, "host"@),
        lists_only(text, at),
        at + 1 < text.len(),
        text[at - 1] != '(' && text[at - 1] != ',' && !is_space(text[at - 1]),
        ({
            ||| text[at] == '>'
            ||| text[at] == '~' && text[at + 1] != '='
            ||| text[at] == '+' && is_word_char(text[at + 1])
            ||| is_space(text[at]) && is_word_char(text[at + 1])
        }),
    ensures
        has_misplaced_part(selector),
{
    lemma_lists_are_found(text, at);
    lemma_host_is_found(text, host, at);
    assert(closings(text, host + 1, at) <= 0);
    lemma_enclosed_is_found(text, host, at, 0);
    assert(gap_start(text, at) == at);
    reveal_with_fuel(gap_end, 2);
    assert(misplaced_at(text, at));
}

/// A selector with a misplaced part is refused as unsupported, and no other is refused
/// here.
pub proof fn law_misplaced_parts_are_refused()
    ensures
        forall|text: &str, res: Result<Selector, Error>|
            #![trigger call_ensures(parse_selector, (text,), res)]
            call_ensures(parse_selector, (text,), res) && has_misplaced_part(text@) ==> fails_with(
                res,
                "Unsupported syntax in selector."@,
            ),
        forall|text: &str, res: Result<Selector, Error>|
            #![trigger call_ensures(parse_selector, (text,), res)]
            call_ensures(parse_selector, (text,), res) && !has_misplaced_part(text@) ==> (res is Ok
                <==> selector_parse(text@) is Ok),
{
}

} // verus!

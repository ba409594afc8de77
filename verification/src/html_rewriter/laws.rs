//! What holds of the rewriter across its functions.
//!
//! Each law is stated over the models that the functions' own contracts use.
use vstd::prelude::*;

use crate::html_rewriter::content::{chunk, ContentTypeOptions};
use crate::html_rewriter::element::lists;
use crate::html_rewriter::engine::EngineState;
use crate::html_rewriter::error::{fails_with, ALREADY_STARTED, Error};
use crate::html_rewriter::handlers::{DocumentHandlers, ElementHandlers};
use crate::html_rewriter::model::{attribute_index, attribute_name_error, attribute_value,
    closes_comment, ends_a_name, ends_an_attribute_name, tag_name_error, view_of, with_attribute,
    without_attribute, AttributeState, Chunk, ElementState, Mutations};
use crate::html_rewriter::rewriter::{passes_on, raised_exception, rewriting_error, surface,
    RewriterState};
use crate::html_rewriter::token::{Handler, JsRef, UnitKind};
use crate::text::{ascii_lower, ascii_lower_char, contains, first_match, occurs_at, strip_bom};
use lol_html::errors::RewritingError;
use lol_html::Selector;

verus! {

/// The index of a key is that of the first attribute with the key.
proof fn lemma_attribute_index(attributes: Seq<AttributeState>, key: Seq<char>)
    ensures
        0 <= attribute_index(attributes, key) <= attributes.len(),
        attribute_index(attributes, key) < attributes.len() ==> attributes[attribute_index(
            attributes,
            key,
        )].key == Some(key),
        forall|j: int|
            0 <= j < attribute_index(attributes, key) ==> (#[trigger] attributes[j]).key != Some(
                key,
            ),
    decreases attributes.len(),
{
    if attributes.len() > 0 && attributes[0].key != Some(key) {
        let rest = attributes.skip(1);
        lemma_attribute_index(rest, key);
        assert forall|j: int| 0 <= j < attribute_index(attributes, key) implies (
        #[trigger] attributes[j]).key != Some(key) by {
            if j > 0 {
                assert(attributes[j] == rest[j - 1]);
            }
        }
    }
}

/// The first attribute with a key is where the index of the key is.
proof fn lemma_attribute_index_is(attributes: Seq<AttributeState>, key: Seq<char>, at: int)
    requires
        0 <= at <= attributes.len(),
        at < attributes.len() ==> attributes[at].key == Some(key),
        forall|j: int| 0 <= j < at ==> (#[trigger] attributes[j]).key != Some(key),
    ensures
        attribute_index(attributes, key) == at,
{
    lemma_attribute_index(attributes, key);
}

/// There is no first match exactly if no character matches.
proof fn lemma_first_match(s: Seq<char>, bad: spec_fn(char) -> bool)
    ensures
        first_match(s, bad) is None <==> forall|i: int| 0 <= i < s.len() ==> !bad(#[trigger] s[i]),
    decreases s.len(),
{
    if s.len() > 0 {
        let rest = s.skip(1);
        lemma_first_match(rest, bad);
        if !bad(s[0]) {
            assert forall|i: int| 0 <= i < rest.len() implies #[trigger] rest[i] == s[i + 1] by {}
            if first_match(rest, bad) is None {
                assert forall|i: int| 0 <= i < s.len() implies !bad(#[trigger] s[i]) by {
                    if i > 0 {
                        assert(!bad(rest[i - 1]));
                    }
                }
            }
        }
    }
}

/// Whether a text can be an attribute name does not depend on its ASCII case.
pub proof fn law_attribute_names_ignore_case(name: Seq<char>, spelling: Seq<char>)
    requires
        ascii_lower(spelling) == ascii_lower(name),
    ensures
        attribute_name_error(spelling) is None <==> attribute_name_error(name) is None,
{
    let bad = |c: char| ends_an_attribute_name(c);
    assert(ascii_lower(spelling).len() == spelling.len() && ascii_lower(name).len() == name.len());
    lemma_first_match(name, bad);
    lemma_first_match(spelling, bad);
    assert forall|i: int| 0 <= i < name.len() implies bad(#[trigger] name[i]) == bad(
        spelling[i],
    ) by {
        assert(ascii_lower(spelling)[i] == ascii_lower_char(spelling[i]));
        assert(ascii_lower(name)[i] == ascii_lower_char(name[i]));
    }
    if attribute_name_error(name) is None {
        assert forall|i: int| 0 <= i < spelling.len() implies !bad(#[trigger] spelling[i]) by {
            assert(!bad(name[i]));
        }
    }
    if attribute_name_error(spelling) is None {
        assert forall|i: int| 0 <= i < name.len() implies !bad(#[trigger] name[i]) by {
            assert(!bad(spelling[i]));
        }
    }
}

/// The first match comes in front of all others.
proof fn lemma_first_match_is(s: Seq<char>, bad: spec_fn(char) -> bool, at: int)
    requires
        0 <= at < s.len(),
        bad(s[at]),
        forall|i: int| 0 <= i < at ==> !bad(#[trigger] s[i]),
    ensures
        first_match(s, bad) == Some(s[at]),
    decreases s.len(),
{
    if at > 0 {
        let rest = s.skip(1);
        assert(!bad(s[0]));
        assert forall|i: int| 0 <= i < at - 1 implies !bad(#[trigger] rest[i]) by {
            assert(rest[i] == s[i + 1]);
        }
        lemma_first_match_is(rest, bad, at - 1);
    }
}

/// Whether a tag name or an attribute name cannot go on with `c`.
pub open spec fn is_delimiter(c: char) -> bool {
    c == ' ' || c == '\n' || c == '\r' || c == '\t' || c == '\u{C}' || c == '/' || c == '>'
}

/// A text can be a tag name exactly if it starts with an ASCII letter and has no
/// delimiter.
pub proof fn law_tag_names(name: Seq<char>)
    ensures
        tag_name_error(name) is None <==> {
            &&& name.len() > 0
            &&& 'a' <= name[0] <= 'z' || 'A' <= name[0] <= 'Z'
            &&& forall|i: int| 0 <= i < name.len() ==> !is_delimiter(#[trigger] name[i])
        },
{
    lemma_first_match(name, |c: char| ends_a_name(c));
}

/// Why a text cannot be a tag name: because it is empty, because of how it starts, or
/// because of its first delimiter.
pub proof fn law_tag_name_errors(name: Seq<char>, at: int)
    ensures
        name.len() == 0 ==> tag_name_error(name) == Some("Tag name can't be empty."@),
        name.len() > 0 && !('a' <= name[0] <= 'z' || 'A' <= name[0] <= 'Z') ==> tag_name_error(name)
            == Some(
            "The first character of the tag name should be an ASCII alphabetical character."@,
        ),
        ({
            &&& 0 < at < name.len()
            &&& 'a' <= name[0] <= 'z' || 'A' <= name[0] <= 'Z'
            &&& is_delimiter(name[at])
            &&& forall|i: int| 0 <= i < at ==> !is_delimiter(#[trigger] name[i])
        }) ==> tag_name_error(name) == Some(
            "`"@ + seq![name[at]] + "` character is forbidden in the tag name"@,
        ),
{
    let bad = |c: char| ends_a_name(c);
    if 0 < at < name.len() && is_delimiter(name[at]) && forall|i: int|
        0 <= i < at ==> !is_delimiter(#[trigger] name[i]) {
        lemma_first_match_is(name, bad, at);
        assert("`"@.push(name[at]) =~= "`"@ + seq![name[at]]);
    }
}

/// A text can be an attribute name exactly if it is not empty and has no delimiter and no
/// equals sign.
pub proof fn law_attribute_names(name: Seq<char>)
    ensures
        attribute_name_error(name) is None <==> {
            &&& name.len() > 0
            &&& forall|i: int|
                0 <= i < name.len() ==> !is_delimiter(#[trigger] name[i]) && name[i] != '='
        },
{
    let bad = |c: char| ends_an_attribute_name(c);
    lemma_first_match(name, bad);
    if attribute_name_error(name) is None {
        assert forall|i: int| 0 <= i < name.len() implies !is_delimiter(#[trigger] name[i])
            && name[i] != '=' by {
            assert(!bad(name[i]));
        }
    }
    if name.len() > 0 && forall|i: int|
        0 <= i < name.len() ==> !is_delimiter(#[trigger] name[i]) && name[i] != '=' {
        assert forall|i: int| 0 <= i < name.len() implies !bad(#[trigger] name[i]) by {}
    }
}

/// Why a text cannot be an attribute name: because it is empty, or because of its first
/// delimiter or equals sign.
pub proof fn law_attribute_name_errors(name: Seq<char>, at: int)
    ensures
        name.len() == 0 ==> attribute_name_error(name) == Some("Attribute name can't be empty."@),
        ({
            &&& 0 <= at < name.len()
            &&& is_delimiter(name[at]) || name[at] == '='
            &&& forall|i: int|
                0 <= i < at ==> !is_delimiter(#[trigger] name[i]) && name[i] != '='
        }) ==> attribute_name_error(name) == Some(
            "`"@ + seq![name[at]] + "` character is forbidden in the attribute name"@,
        ),
{
    let bad = |c: char| ends_an_attribute_name(c);
    if 0 <= at < name.len() && (is_delimiter(name[at]) || name[at] == '=') && forall|i: int|
        0 <= i < at ==> !is_delimiter(#[trigger] name[i]) && name[i] != '=' {
        assert forall|i: int| 0 <= i < at implies !bad(#[trigger] name[i]) by {}
        lemma_first_match_is(name, bad, at);
        assert("`"@.push(name[at]) =~= "`"@ + seq![name[at]]);
    }
}

/// Whether a comment that goes on with `text` from `at` would end right there.
pub open spec fn ends_comment(text: Seq<char>, at: int) -> bool {
    ||| at + 2 < text.len() && text[at] == '-' && text[at + 1] == '-' && text[at + 2] == '>'
    ||| at + 3 < text.len() && text[at] == '-' && text[at + 1] == '-' && text[at + 2] == '!'
        && text[at + 3] == '>'
}

/// A text closes a comment exactly if it has `-->` or `--!>` in it or starts with `>` or
/// `->`.
pub proof fn law_comment_texts(text: Seq<char>)
    ensures
        closes_comment(text) <==> {
            ||| exists|at: int| 0 <= at < text.len() && #[trigger] ends_comment(text, at)
            ||| text.len() > 0 && text[0] == '>'
            ||| text.len() > 1 && text[0] == '-' && text[1] == '>'
        },
{
    reveal_strlit("-->");
    reveal_strlit("--!>");
    reveal_strlit(">");
    reveal_strlit("->");
    if contains(text, "-->"@) {
        let at = choose|at: int| #[trigger] occurs_at(text, "-->"@, at);
        lemma_occurs(text, "-->"@, at);
        assert("-->"@[0] == '-' && "-->"@[1] == '-' && "-->"@[2] == '>');
        assert(ends_comment(text, at));
    }
    if contains(text, "--!>"@) {
        let at = choose|at: int| #[trigger] occurs_at(text, "--!>"@, at);
        lemma_occurs(text, "--!>"@, at);
        assert("--!>"@[0] == '-' && "--!>"@[1] == '-' && "--!>"@[2] == '!' && "--!>"@[3] == '>');
        assert(ends_comment(text, at));
    }
    if occurs_at(text, ">"@, 0) {
        lemma_occurs(text, ">"@, 0);
        assert(">"@[0] == '>');
    }
    if occurs_at(text, "->"@, 0) {
        lemma_occurs(text, "->"@, 0);
        assert("->"@[0] == '-' && "->"@[1] == '>');
    }
    if exists|at: int| 0 <= at < text.len() && #[trigger] ends_comment(text, at) {
        let at = choose|at: int| 0 <= at < text.len() && #[trigger] ends_comment(text, at);
        if at + 2 < text.len() && text[at + 2] == '>' {
            assert(text.subrange(at, at + 3) =~= "-->"@);
            assert(occurs_at(text, "-->"@, at));
        } else {
            assert(text.subrange(at, at + 4) =~= "--!>"@);
            assert(occurs_at(text, "--!>"@, at));
        }
    }
    if text.len() > 0 && text[0] == '>' {
        assert(text.subrange(0, 1) =~= ">"@);
    }
    if text.len() > 1 && text[0] == '-' && text[1] == '>' {
        assert(text.subrange(0, 2) =~= "->"@);
    }
}

/// Where a text stands in another, the characters are its own.
proof fn lemma_occurs(hay: Seq<char>, needle: Seq<char>, at: int)
    requires
        occurs_at(hay, needle, at),
    ensures
        forall|i: int| 0 <= i < needle.len() ==> #[trigger] needle[i] == hay[at + i],
{
    assert forall|i: int| 0 <= i < needle.len() implies #[trigger] needle[i] == hay[at + i] by {
        assert(hay.subrange(at, at + needle.len())[i] == hay[at + i]);
    }
}

/// A lookup gives the value of the first attribute of the name, in any ASCII case, and
/// nothing if there is none.
pub proof fn law_lookup_gives_the_first_value(
    attributes: Seq<AttributeState>,
    name: Seq<char>,
    at: int,
)
    requires
        attribute_name_error(name) is None,
        0 <= at <= attributes.len(),
        forall|j: int| 0 <= j < at ==> (#[trigger] attributes[j]).key != Some(ascii_lower(name)),
    ensures
        at < attributes.len() && attributes[at].key == Some(ascii_lower(name)) ==> attribute_value(
            attributes,
            name,
        ) == Some(attributes[at].value),
        at == attributes.len() ==> attribute_value(attributes, name) is None,
{
    if at == attributes.len() || attributes[at].key == Some(ascii_lower(name)) {
        lemma_attribute_index_is(attributes, ascii_lower(name), at);
    }
}

/// An attribute that was set reads back, under its name in any ASCII case; a
/// leading byte order mark of the value is not read back.
pub proof fn law_set_attribute_reads_back(
    element: ElementState,
    name: Seq<char>,
    value: Seq<char>,
    spelling: Seq<char>,
)
    requires
        attribute_name_error(name) is None,
        ascii_lower(spelling) == ascii_lower(name),
    ensures
        attribute_value(element.set_attribute(name, value).attributes, spelling) == Some(
            strip_bom(value),
        ),
{
    law_attribute_names_ignore_case(name, spelling);
    let before = element.attributes;
    let after = with_attribute(before, name, value);
    let key = ascii_lower(name);
    let at = attribute_index(before, key);
    lemma_attribute_index(before, key);
    assert forall|j: int| 0 <= j < at implies (#[trigger] after[j]).key != Some(key) by {
        assert(after[j] == before[j]);
    }
    lemma_attribute_index_is(after, key, at);
}

/// The start tag is written with the value that was set, character for character
/// but for its double quotes: at the first attribute of the name, or at a new one
/// behind all others. All other attributes are written as before, and so is the rest
/// of the element.
pub proof fn law_set_attribute_is_written_as_given(
    element: ElementState,
    name: Seq<char>,
    value: Seq<char>,
) -> (at: int)
    ensures
        ({
            let before = element.attributes;
            let after = element.set_attribute(name, value).attributes;
            &&& 0 <= at < after.len()
            &&& after[at].written == Some(value)
            &&& after[at].key == Some(ascii_lower(name))
            &&& forall|j: int|
                0 <= j < at ==> (#[trigger] after[j]).key != Some(ascii_lower(name))
            &&& at < before.len() ==> {
                &&& after.len() == before.len()
                &&& after[at].key == before[at].key
                &&& after[at].name == before[at].name
            }
            &&& at >= before.len() ==> at == before.len() && after.len() == before.len() + 1
            &&& forall|j: int|
                0 <= j < before.len() && j != at ==> #[trigger] after[j] == before[j]
            &&& element.set_attribute(name, value) == (ElementState {
                attributes: after,
                rewritten: true,
                ..element
            })
        }),
{
    let at = attribute_index(element.attributes, ascii_lower(name));
    lemma_attribute_index(element.attributes, ascii_lower(name));
    at
}

/// Two values that differ are written differently, also where they read back alike.
pub proof fn law_written_values_tell_values_apart(
    element: ElementState,
    name: Seq<char>,
    first: Seq<char>,
    second: Seq<char>,
)
    requires
        element.set_attribute(name, first) == element.set_attribute(name, second),
    ensures
        first == second,
{
    let one = law_set_attribute_is_written_as_given(element, name, first);
    let two = law_set_attribute_is_written_as_given(element, name, second);
    assert(one == two);
}

/// Setting an attribute leaves the attributes of other names as they are.
pub proof fn law_set_attribute_keeps_others(
    element: ElementState,
    name: Seq<char>,
    value: Seq<char>,
    other: Seq<char>,
)
    requires
        ascii_lower(other) != ascii_lower(name),
    ensures
        attribute_value(element.set_attribute(name, value).attributes, other) == attribute_value(
            element.attributes,
            other,
        ),
{
    let before = element.attributes;
    let after = with_attribute(before, name, value);
    let key = ascii_lower(other);
    let at = attribute_index(before, key);
    lemma_attribute_index(before, key);
    lemma_attribute_index(before, ascii_lower(name));
    assert forall|j: int| 0 <= j < at implies (#[trigger] after[j]).key != Some(key) by {
        assert(after[j].key == before[j].key);
    }
    if at < before.len() {
        lemma_attribute_index_is(after, key, at);
    } else {
        lemma_attribute_index_is(after, key, after.len() as int);
    }
}

/// Of two values for one attribute the later one stays.
pub proof fn law_last_attribute_value_stays(
    element: ElementState,
    name: Seq<char>,
    first: Seq<char>,
    second: Seq<char>,
)
    ensures
        element.set_attribute(name, first).set_attribute(name, second) == element.set_attribute(
            name,
            second,
        ),
{
    let before = element.attributes;
    let key = ascii_lower(name);
    let at = attribute_index(before, key);
    let once = with_attribute(before, name, first);
    lemma_attribute_index(before, key);
    assert forall|j: int| 0 <= j < at implies (#[trigger] once[j]).key != Some(key) by {
        assert(once[j] == before[j]);
    }
    lemma_attribute_index_is(once, key, at);
    assert(with_attribute(once, name, second) =~= with_attribute(before, name, second));
}

/// Dropping the attributes with one key keeps the first attribute with another.
proof fn lemma_without_keeps_first(
    attributes: Seq<AttributeState>,
    gone: Seq<char>,
    key: Seq<char>,
)
    requires
        gone != key,
    ensures
        ({
            let left = attributes.filter(|a: AttributeState| a.key != Some(gone));
            let at = attribute_index(attributes, key);
            let there = attribute_index(left, key);
            &&& there < left.len() <==> at < attributes.len()
            &&& at < attributes.len() ==> left[there] == attributes[at]
        }),
    decreases attributes.len(),
{
    reveal(Seq::filter);
    let keep = |a: AttributeState| a.key != Some(gone);
    let left = attributes.filter(keep);
    if attributes.len() > 0 {
        let init = attributes.drop_last();
        let last = attributes.last();
        let kept = init.filter(keep);
        lemma_without_keeps_first(init, gone, key);
        lemma_attribute_index(init, key);
        lemma_attribute_index(kept, key);
        let at = attribute_index(init, key);
        let there = attribute_index(kept, key);
        assert forall|j: int| 0 <= j < init.len() implies #[trigger] attributes[j] == init[j] by {}
        if at < init.len() {
            lemma_attribute_index_is(attributes, key, at);
            lemma_attribute_index_is(left, key, there);
        } else if last.key == Some(key) {
            lemma_attribute_index_is(attributes, key, at);
            lemma_attribute_index_is(left, key, there);
        } else {
            lemma_attribute_index_is(attributes, key, attributes.len() as int);
            lemma_attribute_index_is(left, key, left.len() as int);
        }
    }
}

/// An attribute that was removed is absent, under its name in any ASCII case.
pub proof fn law_removed_attribute_is_absent(
    element: ElementState,
    name: Seq<char>,
    spelling: Seq<char>,
)
    requires
        ascii_lower(spelling) == ascii_lower(name),
    ensures
        attribute_value(element.remove_attribute(name).attributes, spelling) is None,
{
    law_attribute_names_ignore_case(name, spelling);
    let key = ascii_lower(name);
    let after = without_attribute(element.attributes, name);
    lemma_attribute_index(after, key);
    if attribute_name_error(name) is None && attribute_index(after, key) < after.len() {
        element.attributes.lemma_filter_pred(
            |a: AttributeState| a.key != Some(ascii_lower(name)),
            attribute_index(after, key),
        );
    }
}

/// Removing an attribute leaves the attributes of other names as they are.
pub proof fn law_remove_attribute_keeps_others(
    element: ElementState,
    name: Seq<char>,
    other: Seq<char>,
)
    requires
        ascii_lower(other) != ascii_lower(name),
    ensures
        attribute_value(element.remove_attribute(name).attributes, other) == attribute_value(
            element.attributes,
            other,
        ),
{
    if attribute_name_error(name) is None {
        lemma_without_keeps_first(element.attributes, ascii_lower(name), ascii_lower(other));
    }
}

/// Removing an attribute takes those of the name and no others: what is left was there,
/// under another name.
pub proof fn law_remove_attribute_takes_the_named_only(
    element: ElementState,
    name: Seq<char>,
    attribute: AttributeState,
)
    requires
        attribute_name_error(name) is None,
    ensures
        element.remove_attribute(name).attributes.contains(attribute) <==> {
            &&& element.attributes.contains(attribute)
            &&& attribute.key != Some(ascii_lower(name))
        },
        element.remove_attribute(name) == (ElementState {
            attributes: element.remove_attribute(name).attributes,
            rewritten: element.rewritten || element.remove_attribute(name).attributes.len()
                < element.attributes.len(),
            ..element
        }),
{
    let keep = |a: AttributeState| a.key != Some(ascii_lower(name));
    let before = element.attributes;
    let after = element.remove_attribute(name).attributes;
    assert(after == before.filter(keep));
    before.lemma_filter_len(keep);
    if after.contains(attribute) {
        let at = choose|at: int| 0 <= at < after.len() && after[at] == attribute;
        before.lemma_filter_pred(keep, at);
        before.lemma_filter_contains_rev(keep, attribute);
    }
    if before.contains(attribute) && keep(attribute) {
        let at = choose|at: int| 0 <= at < before.len() && before[at] == attribute;
        before.lemma_filter_contains(keep, at);
    }
}

/// Removing an attribute under a name that none can have changes nothing.
pub proof fn law_remove_attribute_ignores_other_texts(element: ElementState, name: Seq<char>)
    requires
        attribute_name_error(name) is Some,
    ensures
        element.remove_attribute(name) == element,
{
}

/// A renamed element has the new name, and its end tag, if it has one, gets the
/// same name.
pub proof fn law_renamed_element_keeps_its_tags_matched(element: ElementState, name: Seq<char>)
    ensures
        element.set_tag_name(name).rewritten,
        element.set_tag_name(name).attributes == element.attributes,
        element.set_tag_name(name).start == element.start,
        element.set_tag_name(name).end == element.end,
        element.set_tag_name(name).name == name,
        element.can_have_content ==> element.set_tag_name(name).end_name == Some(name),
{
}

/// What is put in front of an element comes right in front of its start tag; what is
/// put behind it comes right behind its end tag, or behind the start tag if that is all
/// there is. All else stays.
pub proof fn law_insertions_surround_the_element(element: ElementState, content: Chunk)
    ensures
        element.put_before(content) == (ElementState {
            start: Mutations { before: element.start.before + seq![content], ..element.start },
            ..element
        }),
        element.can_have_content ==> element.put_after(content) == (ElementState {
            end: Mutations { after: seq![content] + element.end.after, ..element.end },
            ..element
        }),
        !element.can_have_content ==> element.put_after(content) == (ElementState {
            start: Mutations { after: seq![content] + element.start.after, ..element.start },
            ..element
        }),
{
    assert(element.start.before.push(content) =~= element.start.before + seq![content]);
}

/// What is put first in an element comes right behind its start tag, what is put last
/// right in front of its end tag. All else stays, but that the start tag of an element
/// with content is not a self-closing one.
pub proof fn law_insertions_fill_the_element(element: ElementState, content: Chunk)
    requires
        element.can_have_content,
    ensures
        element.prepend(content) == (ElementState {
            self_closing: false,
            start: Mutations { after: seq![content] + element.start.after, ..element.start },
            ..element
        }),
        element.append(content) == (ElementState {
            self_closing: false,
            end: Mutations { before: element.end.before + seq![content], ..element.end },
            ..element
        }),
{
    assert(element.end.before.push(content) =~= element.end.before + seq![content]);
}

/// A handler for the end tag is called after those that were registered before it, and
/// registering it changes nothing else.
pub proof fn law_end_tag_handlers_are_called_in_order(
    element: ElementState,
    first: Handler,
    second: Handler,
)
    ensures
        element.on_end_tag(first).on_end_tag(second) == (ElementState {
            end_tag_handlers: element.end_tag_handlers + seq![first, second],
            ..element
        }),
{
    assert(element.end_tag_handlers.push(first).push(second) =~= element.end_tag_handlers + seq![
        first,
        second,
    ]);
}

/// A failure for a reason carries that reason and nothing else.
pub proof fn law_failures_carry_their_reason(res: Result<(), Error>, reason: Seq<char>)
    requires
        fails_with(res, reason),
    ensures
        res matches Err(Error::GenericFailure(text)) && text@ == reason,
{
}

/// A text that there is reads as it is, and one that there is not as none.
pub proof fn law_optional_texts_read_as_they_are(text: String)
    ensures
        view_of(Some(text)) == Some(text@),
        view_of(None) is None,
{
}

/// A listing of attributes has one entry for each, in their order: its name and its
/// value.
pub proof fn law_listing_follows_the_attributes(
    listing: Seq<Vec<String>>,
    attributes: Seq<AttributeState>,
    i: int,
)
    requires
        lists(listing, attributes),
        0 <= i < attributes.len(),
    ensures
        listing.len() == attributes.len(),
        listing[i]@.len() == 2,
        listing[i]@[0]@ == attributes[i].name,
        listing[i]@[1]@ == attributes[i].value,
{
}

/// The value under which a listing has the first attribute of a name is the value of
/// that attribute.
pub proof fn law_listing_agrees_with_lookup(
    listing: Seq<Vec<String>>,
    attributes: Seq<AttributeState>,
    name: Seq<char>,
    i: int,
)
    requires
        lists(listing, attributes),
        attribute_name_error(name) is None,
        0 <= i < attributes.len(),
        attributes[i].key == Some(ascii_lower(name)),
        forall|j: int| 0 <= j < i ==> (#[trigger] attributes[j]).key != Some(ascii_lower(name)),
    ensures
        attribute_value(attributes, name) == Some(listing[i]@[1]@),
{
    lemma_attribute_index_is(attributes, ascii_lower(name), i);
}

/// The exception that a handler raised is surfaced as it is.
pub proof fn law_exceptions_are_surfaced_as_they_are()
    ensures
        forall|cause: RewritingError, res: Error|
            #![trigger call_ensures(rewriting_error, (cause,), res)]
            call_ensures(rewriting_error, (cause,), res) ==> match raised_exception(cause) {
                Some(exception) => res == Error::Raised(exception),
                None => res is GenericFailure,
            },
        forall|outcome: Result<(), RewritingError>, res: Result<(), Error>|
            #![trigger call_ensures(surface, (outcome,), res)]
            call_ensures(surface, (outcome,), res) ==> (res is Ok <==> outcome is Ok),
{
}

/// A registration that is taken adds one rule behind all others, for its selector, with a
/// native handler for each of its functions. One whose selector could not be read hands
/// the failure on and adds nothing.
pub proof fn law_registration_adds_its_rule(
    engine: EngineState,
    parsed: Result<Selector, Error>,
    handlers: ElementHandlers,
    res: Result<(), Error>,
    after: EngineState,
)
    requires
        !engine.started,
        engine.registered(parsed, handlers, res, after),
    ensures
        parsed matches Ok(selector) ==> {
            &&& res is Ok
            &&& after.rules.len() == engine.rules.len() + 1
            &&& after.rules.drop_last() == engine.rules
            &&& after.rules.last().0 == selector
            &&& hands_over(
                after.rules.last().1.element,
                handlers.element,
                engine.host,
                UnitKind::Element,
            )
            &&& hands_over(
                after.rules.last().1.comments,
                handlers.comments,
                engine.host,
                UnitKind::Comment,
            )
            &&& hands_over(after.rules.last().1.text, handlers.text, engine.host, UnitKind::Text)
            &&& after == (EngineState { rules: after.rules, ..engine })
        },
        parsed matches Err(e) ==> res == Err::<(), Error>(e) && after == engine,
{
    assert(parsed is Ok ==> after.rules.drop_last() =~= engine.rules);
}

/// A free engine can take a write or an end exactly if its document has not ended and no
/// write failed; a new one can.
pub proof fn law_free_engine_is_ready_until_the_end(engine: EngineState)
    requires
        engine.wf(),
        !engine.active,
    ensures
        engine.ready() <==> !engine.ended() && !engine.broken(),
        !engine.started ==> engine.ready(),
        engine.ready() ==> !engine.working().failed && !engine.working().ended,
{
}

/// An element without content and end tag ignores what is put into it.
pub proof fn law_content_needs_an_end_tag(element: ElementState, content: Chunk)
    requires
        !element.can_have_content,
    ensures
        element.prepend(content) == element,
        element.append(content) == element,
        element.set_inner_content(content) == element,
{
}

/// New inner content takes the place of all content, also of what was put in.
pub proof fn law_inner_content_replaces_insertions(
    element: ElementState,
    earlier: Chunk,
    content: Chunk,
)
    requires
        element.can_have_content,
    ensures
        element.prepend(earlier).set_inner_content(content) == element.set_inner_content(content),
        element.append(earlier).set_inner_content(content) == element.set_inner_content(content),
        element.set_inner_content(earlier).set_inner_content(content) == element.set_inner_content(
            content,
        ),
        element.set_inner_content(content).start.after == seq![content],
        element.set_inner_content(content).end.before == Seq::<Chunk>::empty(),
        element.set_inner_content(content).drops_content,
{
    let last = element.set_inner_content(content);
    assert(element.prepend(earlier).set_inner_content(content) =~= last);
    assert(element.append(earlier).set_inner_content(content) =~= last);
    assert(element.set_inner_content(earlier).set_inner_content(content) =~= last);
    assert(last.start.after =~= seq![content]);
}

/// What becomes of an element that is replaced, removed, stripped of its tags or given
/// new content: which parts are left out, what stands in their place, and that what was
/// put around the element stays.
pub proof fn law_removals_leave_the_surroundings(element: ElementState, content: Chunk)
    ensures
        !element.can_have_content ==> {
            &&& element.replace(content) == (ElementState {
                start: element.replace(content).start,
                ..element
            })
            &&& element.remove() == (ElementState { start: element.remove().start, ..element })
            &&& element.remove_and_keep_content() == element.remove()
        },
        element.can_have_content ==> {
            &&& element.replace(content).end.replacement == element.end.replacement
            &&& element.remove() == (ElementState {
                start: Mutations {
                    after: Seq::empty(),
                    removed: true,
                    ..element.start
                },
                end: Mutations { before: Seq::empty(), removed: true, ..element.end },
                drops_content: true,
                ..element
            })
            &&& element.replace(content) == (ElementState {
                start: Mutations {
                    replacement: seq![content],
                    ..element.remove().start
                },
                ..element.remove()
            })
            &&& element.set_inner_content(content) == (ElementState {
                self_closing: false,
                start: Mutations { after: seq![content], ..element.start },
                end: Mutations { before: Seq::empty(), ..element.end },
                drops_content: true,
                ..element
            })
            &&& element.remove_and_keep_content() == (ElementState {
                start: Mutations { removed: true, ..element.start },
                end: Mutations { removed: true, ..element.end },
                ..element
            })
        },
        element.replace(content).start.before == element.start.before,
        element.remove().start.before == element.start.before,
        element.replace(content).end.after == element.end.after,
        element.remove().end.after == element.end.after,
{
    assert(element.set_inner_content(content).start.after =~= if element.can_have_content {
        seq![content]
    } else {
        element.start.after
    });
}

/// A removed or replaced element stays removed, whatever follows.
pub proof fn law_removal_is_final(
    element: ElementState,
    content: Chunk,
    name: Seq<char>,
    value: Seq<char>,
    handler: Handler,
)
    requires
        element.start.removed,
    ensures
        element.set_tag_name(name).start.removed,
        element.set_attribute(name, value).start.removed,
        element.remove_attribute(name).start.removed,
        element.put_before(content).start.removed,
        element.put_after(content).start.removed,
        element.prepend(content).start.removed,
        element.append(content).start.removed,
        element.set_inner_content(content).start.removed,
        element.replace(content).start.removed,
        element.remove().start.removed,
        element.remove_and_keep_content().start.removed,
        element.on_end_tag(handler).start.removed,
{
}

/// Removing and replacing both remove the start tag, and the end tag with all
/// content where there is any; removing the tags alone keeps the content.
pub proof fn law_removal_takes_both_tags(element: ElementState, content: Chunk)
    ensures
        element.remove().start.removed,
        element.replace(content).start.removed,
        element.replace(content).start.replacement == seq![content],
        element.remove_and_keep_content().start.removed,
        element.can_have_content ==> {
            &&& element.remove().end.removed
            &&& element.remove().drops_content
            &&& element.replace(content).end.removed
            &&& element.replace(content).drops_content
            &&& element.remove_and_keep_content().end.removed
        },
        element.remove_and_keep_content().drops_content == element.drops_content,
{
}

/// Around a unit, insertions in front come in the order of the calls, those
/// behind in the opposite order: each insertion is the nearest to the unit.
pub proof fn law_insertions_stay_nearest(unit: Mutations, first: Chunk, second: Chunk)
    ensures
        unit.put_before(first).put_before(second).before == unit.before + seq![first, second],
        unit.put_after(first).put_after(second).after == seq![second, first] + unit.after,
        unit.put_before(first).after == unit.after,
        unit.put_after(first).before == unit.before,
{
    assert(unit.put_before(first).put_before(second).before =~= unit.before + seq![first, second]);
    assert(unit.put_after(first).put_after(second).after =~= seq![second, first] + unit.after);
}

/// Of two replacements of a unit the later one stays, and a replacement removes
/// the unit.
pub proof fn law_last_replacement_stays(unit: Mutations, first: Chunk, second: Chunk)
    ensures
        unit.replace(first).replace(second) == unit.replace(second),
        unit.replace(first).removed,
        unit.replace(first).replacement == seq![first],
        unit.replace(first).before == unit.before,
        unit.replace(first).after == unit.after,
        unit.remove().removed,
        unit.remove().before == unit.before,
        unit.remove().after == unit.after,
        unit.remove().replacement == unit.replacement,
{
}

/// Content is escaped unless the options say that it is markup.
pub proof fn law_content_is_text_by_default(content: Seq<char>, options: Option<ContentTypeOptions>)
    ensures
        chunk(content, options).text == content,
        chunk(content, options).html <==> options == Some(ContentTypeOptions { html: Some(true) }),
        !chunk(content, None).html,
{
}

/// A native handler for one kind of unit hands over units of that kind only, to the
/// function that was registered for it; without a function there is no handler.
pub proof fn law_handlers_get_their_own_units(
    element: ElementHandlers,
    document: DocumentHandlers,
    host: u64,
)
    ensures
        hands_over(element.through(host).element, element.element, host, UnitKind::Element),
        hands_over(element.through(host).comments, element.comments, host, UnitKind::Comment),
        hands_over(element.through(host).text, element.text, host, UnitKind::Text),
        hands_over(document.through(host).doctype, document.doctype, host, UnitKind::Doctype),
        hands_over(document.through(host).comments, document.comments, host, UnitKind::Comment),
        hands_over(document.through(host).text, document.text, host, UnitKind::Text),
        hands_over(document.through(host).end, document.end, host, UnitKind::End),
{
}

/// Whether `handler` hands units of that kind to `func`, and there is one exactly
/// if there is a function.
pub open spec fn hands_over(
    handler: Option<Handler>,
    func: Option<JsRef>,
    host: u64,
    unit: UnitKind,
) -> bool {
    match handler {
        Some(handler) => {
            &&& handler.unit == unit
            &&& handler.callback.host == host
            &&& func == Some(handler.callback.func)
        },
        None => func is None,
    }
}

/// Every step of an engine keeps its invariant.
pub proof fn law_engine_steps_keep_the_invariant(
    engine: EngineState,
    chunk: Seq<u8>,
    failed: bool,
    emitted: Seq<u8>,
)
    requires
        engine.wf(),
    ensures
        engine.start().wf(),
        engine.begin().wf(),
        engine.write(chunk, failed, emitted).wf(),
        engine.end(failed, emitted).wf(),
{
}

/// An engine that its methods lead to never lacks the output callback when it
/// has to make its rewriter.
pub proof fn law_output_is_there_to_start(engine: EngineState)
    requires
        engine.wf(),
        !engine.started,
    ensures
        engine.output is Some,
{
}

/// The rewriter is made of the output callback and of all handlers, in the order
/// of their registration, and the engine keeps none of them.
pub proof fn law_rewriter_gets_every_handler(engine: EngineState)
    requires
        engine.wf(),
        !engine.started,
    ensures
        engine.start().rewriter matches Some(rewriter) && {
            &&& rewriter.settings.rules == engine.rules
            &&& rewriter.settings.documents == engine.documents
            &&& Some(rewriter.output.func) == engine.output
            &&& rewriter.output.host == engine.host
            &&& rewriter.input.len() == 0
            &&& rewriter.emitted.len() == 0
        },
        engine.start().rules.len() == 0,
        engine.start().documents.len() == 0,
        engine.start().output is None,
{
}

/// Once a write or an end has begun, every registration is refused and changes
/// nothing, whatever the selector and the handlers.
pub proof fn law_registration_ends_with_the_first_write(
    engine: EngineState,
    chunk: Seq<u8>,
    failed: bool,
    emitted: Seq<u8>,
    parsed: Result<Selector, Error>,
    handlers: ElementHandlers,
    res: Result<(), Error>,
    after: EngineState,
)
    ensures
        engine.start().started,
        engine.begin().started,
        engine.write(chunk, failed, emitted).started,
        engine.end(failed, emitted).started,
        engine.started && engine.registered(parsed, handlers, res, after) ==> fails_with(
            res,
            ALREADY_STARTED@,
        ) && after == engine,
{
}

/// After the end the document has ended, whether or not the end failed; a write that
/// fails breaks it; after a write that does not fail it goes on.
pub proof fn law_end_and_failure_are_final(
    engine: EngineState,
    chunk: Seq<u8>,
    failed: bool,
    emitted: Seq<u8>,
)
    requires
        !engine.ended(),
    ensures
        engine.end(failed, emitted).ended(),
        !engine.end(failed, emitted).ready(),
        engine.write(chunk, true, emitted).broken(),
        !engine.write(chunk, true, emitted).ready(),
        engine.write(chunk, false, emitted).ready(),
{
}

/// A write and an end leave the engine as active as it was, so an engine that was
/// free is free again, whether or not the call failed.
pub proof fn law_processing_ends_with_the_call(
    engine: EngineState,
    chunk: Seq<u8>,
    failed: bool,
    emitted: Seq<u8>,
)
    ensures
        engine.write(chunk, failed, emitted).active == engine.active,
        engine.end(failed, emitted).active == engine.active,
        engine.begin().active,
{
}

/// Taking the rewriter out, feeding it or finishing its document, and taking it back
/// comes to a write or an end.
pub proof fn law_write_is_begin_and_resume(
    engine: EngineState,
    chunk: Seq<u8>,
    failed: bool,
    emitted: Seq<u8>,
)
    requires
        !engine.active,
    ensures
        ({
            let fed = RewriterState {
                input: engine.working().input + chunk,
                emitted,
                failed,
                ..engine.working()
            };
            EngineState { rewriter: Some(fed), active: false, ..engine.begin() } == engine.write(
                chunk,
                failed,
                emitted,
            )
        }),
        ({
            let done = RewriterState { emitted, failed, ended: true, ..engine.working() };
            EngineState { rewriter: Some(done), active: false, ..engine.begin() } == engine.end(
                failed,
                emitted,
            )
        }),
{
}

/// A write: the chunk, and all that has been passed on by its end.
pub struct Written {
    pub chunk: Seq<u8>,
    pub emitted: Seq<u8>,
}

/// The engine after these writes, none of which failed.
pub open spec fn write_all(engine: EngineState, writes: Seq<Written>) -> EngineState
    decreases writes.len(),
{
    if writes.len() == 0 {
        engine
    } else {
        write_all(engine, writes.drop_last()).write(
            writes.last().chunk,
            false,
            writes.last().emitted,
        )
    }
}

/// The chunks of the writes one after the other.
pub open spec fn concatenated(writes: Seq<Written>) -> Seq<u8>
    decreases writes.len(),
{
    if writes.len() == 0 {
        Seq::empty()
    } else {
        concatenated(writes.drop_last()) + writes.last().chunk
    }
}

/// A document that is written in chunks is the chunks one after the other, to
/// the byte: the engine is where a single write of them all would take it.
pub proof fn law_chunks_add_up_to_the_document(engine: EngineState, writes: Seq<Written>)
    requires
        engine.wf(),
        engine.ready(),
        writes.len() > 0,
    ensures
        write_all(engine, writes) == engine.write(
            concatenated(writes),
            false,
            writes.last().emitted,
        ),
    decreases writes.len(),
{
    let init = writes.drop_last();
    reveal_with_fuel(write_all, 2);
    reveal_with_fuel(concatenated, 2);
    if init.len() == 0 {
        assert(concatenated(writes) =~= writes.last().chunk);
    } else {
        law_chunks_add_up_to_the_document(engine, init);
        let base = engine.working();
        assert((base.input + concatenated(init)) + writes.last().chunk =~= base.input
            + concatenated(writes));
    }
}

/// Without handlers the bytes that are passed on are the bytes of the document,
/// however it was split into chunks, once an end that did not fail passed on what
/// it should.
pub proof fn law_document_without_handlers_passes_unchanged(
    engine: EngineState,
    writes: Seq<Written>,
    emitted: Seq<u8>,
)
    requires
        engine.wf(),
        !engine.started,
        engine.rules.len() == 0,
        engine.documents.len() == 0,
        passes_on(
            write_all(engine, writes).working(),
            write_all(engine, writes).end(false, emitted).working(),
            true,
        ),
    ensures
        emitted == concatenated(writes),
{
    if writes.len() == 0 {
        assert(emitted =~= concatenated(writes));
    } else {
        law_chunks_add_up_to_the_document(engine, writes);
        assert(engine.working().input + concatenated(writes) =~= concatenated(writes));
    }
}

} // verus!

//! Mathematical models of the units of a document.
//!
//! A model says what the methods of a unit read and change. The unit itself is
//! a value of `lol_html`; [`native`](crate::html_rewriter::native) ties the two
//! together.
use vstd::prelude::*;

use crate::html_rewriter::token::Handler;
use crate::text::{ascii_lower, contains, first_match, occurs_at, strip_bom};

verus! {

/// A piece of inserted content.
#[verifier::ext_equal]
pub struct Chunk {
    pub text: Seq<char>,
    /// Whether the text is markup, to be inserted as it is.
    pub html: bool,
}

/// What is to be written around a unit and in its place.
#[verifier::ext_equal]
pub struct Mutations {
    /// Content in front of the unit, in document order.
    pub before: Seq<Chunk>,
    /// Content in place of the unit, where it is removed.
    pub replacement: Seq<Chunk>,
    /// Content behind the unit, in document order.
    pub after: Seq<Chunk>,
    /// Whether the unit itself is left out.
    pub removed: bool,
}

impl Mutations {
    /// `content` goes right in front of the unit, behind what was put there.
    pub open spec fn put_before(self, content: Chunk) -> Mutations {
        Mutations { before: self.before.push(content), ..self }
    }

    /// `content` goes right behind the unit, in front of what was put there.
    pub open spec fn put_after(self, content: Chunk) -> Mutations {
        Mutations { after: seq![content] + self.after, ..self }
    }

    /// `content` stands for the unit; an earlier replacement is forgotten.
    pub open spec fn replace(self, content: Chunk) -> Mutations {
        Mutations { replacement: seq![content], removed: true, ..self }
    }

    /// The unit is left out.
    pub open spec fn remove(self) -> Mutations {
        Mutations { removed: true, ..self }
    }
}

/// An attribute of an element.
#[verifier::ext_equal]
pub struct AttributeState {
    /// What a lookup compares: the name in ASCII lower case, or `None` for a
    /// name that is not UTF-8, which no lookup finds.
    pub key: Option<Seq<char>>,
    /// The name as it is listed, in ASCII lower case.
    pub name: Seq<char>,
    /// The value as it is read.
    pub value: Seq<char>,
    /// The value as it is written but for its double quotes, which are escaped;
    /// `None` while the attribute is written as the document has it.
    pub written: Option<Seq<char>>,
}

/// A matched element.
#[verifier::ext_equal]
pub struct ElementState {
    /// The tag name in its own case.
    pub name: Seq<char>,
    pub namespace_uri: Seq<char>,
    pub attributes: Seq<AttributeState>,
    /// Whether the element has an end tag and content in front of it.
    pub can_have_content: bool,
    /// Whether the start tag is a self-closing one where it is written anew.
    pub self_closing: bool,
    /// Whether the start tag is written anew, of its name and its attributes, and not as
    /// the document has it.
    pub rewritten: bool,
    /// What happens around the start tag. What is put behind the start tag
    /// comes first in the content.
    pub start: Mutations,
    /// What happens around the end tag. What is put in front of the end tag
    /// comes last in the content.
    pub end: Mutations,
    /// Whether the content that the document has is left out.
    pub drops_content: bool,
    /// The name that the end tag gets, where it gets another one.
    pub end_name: Option<Seq<char>>,
    /// Handlers to call at the end tag, in order.
    pub end_tag_handlers: Seq<Handler>,
}

impl ElementState {
    pub open spec fn set_tag_name(self, name: Seq<char>) -> ElementState {
        ElementState {
            name,
            rewritten: true,
            end_name: if self.can_have_content {
                Some(name)
            } else {
                self.end_name
            },
            ..self
        }
    }

    pub open spec fn set_attribute(self, name: Seq<char>, value: Seq<char>) -> ElementState {
        ElementState {
            attributes: with_attribute(self.attributes, name, value),
            rewritten: true,
            ..self
        }
    }

    pub open spec fn remove_attribute(self, name: Seq<char>) -> ElementState {
        let left = without_attribute(self.attributes, name);
        ElementState {
            attributes: left,
            rewritten: self.rewritten || left.len() != self.attributes.len(),
            ..self
        }
    }

    pub open spec fn put_before(self, content: Chunk) -> ElementState {
        ElementState { start: self.start.put_before(content), ..self }
    }

    pub open spec fn put_after(self, content: Chunk) -> ElementState {
        if self.can_have_content {
            ElementState { end: self.end.put_after(content), ..self }
        } else {
            ElementState { start: self.start.put_after(content), ..self }
        }
    }

    pub open spec fn prepend(self, content: Chunk) -> ElementState {
        if self.can_have_content {
            ElementState {
                self_closing: false,
                start: self.start.put_after(content),
                ..self
            }
        } else {
            self
        }
    }

    pub open spec fn append(self, content: Chunk) -> ElementState {
        if self.can_have_content {
            ElementState { self_closing: false, end: self.end.put_before(content), ..self }
        } else {
            self
        }
    }

    /// All content goes, what the document has and what was put there.
    pub open spec fn drop_content(self) -> ElementState {
        ElementState {
            start: Mutations { after: Seq::empty(), ..self.start },
            end: Mutations { before: Seq::empty(), ..self.end },
            drops_content: true,
            ..self
        }
    }

    pub open spec fn set_inner_content(self, content: Chunk) -> ElementState {
        if self.can_have_content {
            self.drop_content().prepend(content)
        } else {
            self
        }
    }

    pub open spec fn replace(self, content: Chunk) -> ElementState {
        let started = ElementState { start: self.start.replace(content), ..self };
        started.drop_with_end_tag()
    }

    pub open spec fn remove(self) -> ElementState {
        let started = ElementState { start: self.start.remove(), ..self };
        started.drop_with_end_tag()
    }

    /// Content and end tag go, where there are any.
    pub open spec fn drop_with_end_tag(self) -> ElementState {
        if self.can_have_content {
            let emptied = self.drop_content();
            ElementState { end: emptied.end.remove(), ..emptied }
        } else {
            self
        }
    }

    pub open spec fn remove_and_keep_content(self) -> ElementState {
        ElementState {
            start: self.start.remove(),
            end: if self.can_have_content {
                self.end.remove()
            } else {
                self.end
            },
            ..self
        }
    }

    pub open spec fn on_end_tag(self, handler: Handler) -> ElementState {
        ElementState { end_tag_handlers: self.end_tag_handlers.push(handler), ..self }
    }
}

/// An end tag.
#[verifier::ext_equal]
pub struct EndTagState {
    /// Whether the document is encoded in UTF-8.
    pub utf8: bool,
    /// The tag name in its own case, as it is read.
    pub name: Seq<char>,
    /// The name that the end tag is written with; `None` while it is written as the
    /// document has it.
    pub written: Option<Seq<char>>,
    pub mutations: Mutations,
}

/// A fragment of a text node.
#[verifier::ext_equal]
pub struct TextState {
    pub text: Seq<char>,
    pub last_in_text_node: bool,
    pub mutations: Mutations,
}

/// A comment.
#[verifier::ext_equal]
pub struct CommentState {
    /// Whether the document is encoded in UTF-8.
    pub utf8: bool,
    /// The text as it is read.
    pub text: Seq<char>,
    /// The text that the comment is written with; `None` while it is written as the
    /// document has it.
    pub written: Option<Seq<char>>,
    pub mutations: Mutations,
}

/// A document type declaration.
#[verifier::ext_equal]
pub struct DoctypeState {
    pub name: Option<Seq<char>>,
    pub public_id: Option<Seq<char>>,
    pub system_id: Option<Seq<char>>,
}

/// Whether no name of a tag or an attribute can hold `c`.
pub open spec fn ends_a_name(c: char) -> bool {
    c == ' ' || c == '\n' || c == '\r' || c == '\t' || c == '\u{C}' || c == '/' || c == '>'
}

/// Whether no attribute name can hold `c`.
pub open spec fn ends_an_attribute_name(c: char) -> bool {
    ends_a_name(c) || c == '='
}

/// Why `name` cannot be a tag name, if it cannot.
pub open spec fn tag_name_error(name: Seq<char>) -> Option<Seq<char>> {
    if name.len() == 0 {
        Some("Tag name can't be empty."@)
    } else if !('a' <= name[0] <= 'z' || 'A' <= name[0] <= 'Z') {
        Some("The first character of the tag name should be an ASCII alphabetical character."@)
    } else {
        match first_match(name, |c: char| ends_a_name(c)) {
            Some(c) => Some("`"@.push(c) + "` character is forbidden in the tag name"@),
            None => None,
        }
    }
}

/// Why `name` cannot be an attribute name, if it cannot.
pub open spec fn attribute_name_error(name: Seq<char>) -> Option<Seq<char>> {
    if name.len() == 0 {
        Some("Attribute name can't be empty."@)
    } else {
        match first_match(name, |c: char| ends_an_attribute_name(c)) {
            Some(c) => Some("`"@.push(c) + "` character is forbidden in the attribute name"@),
            None => None,
        }
    }
}

/// Whether a comment of that text would end before its text does.
pub open spec fn closes_comment(text: Seq<char>) -> bool {
    ||| contains(text, "-->"@)
    ||| contains(text, "--!>"@)
    ||| occurs_at(text, ">"@, 0)
    ||| occurs_at(text, "->"@, 0)
}

/// Why `text` cannot be the text of a comment.
pub open spec fn comment_text_error() -> Seq<char> {
    "Comment text shouldn't contain a comment-closing sequence."@
}

/// Where the first attribute with that key stands, or how many attributes
/// there are if there is none.
pub open spec fn attribute_index(attributes: Seq<AttributeState>, key: Seq<char>) -> int
    decreases attributes.len(),
{
    if attributes.len() == 0 || attributes[0].key == Some(key) {
        0
    } else {
        1 + attribute_index(attributes.skip(1), key)
    }
}

/// The value of the attribute called `name`, in any ASCII case.
pub open spec fn attribute_value(attributes: Seq<AttributeState>, name: Seq<char>) -> Option<
    Seq<char>,
> {
    let at = attribute_index(attributes, ascii_lower(name));
    if attribute_name_error(name) is None && at < attributes.len() {
        Some(attributes[at].value)
    } else {
        None
    }
}

/// The attributes once `name` has been given `value`: in place if there is one
/// of that name, else at the end.
pub open spec fn with_attribute(
    attributes: Seq<AttributeState>,
    name: Seq<char>,
    value: Seq<char>,
) -> Seq<AttributeState> {
    let key = ascii_lower(name);
    let at = attribute_index(attributes, key);
    if at < attributes.len() {
        attributes.update(
            at,
            AttributeState { value: strip_bom(value), written: Some(value), ..attributes[at] },
        )
    } else {
        attributes.push(
            AttributeState {
                key: Some(key),
                name: strip_bom(key),
                value: strip_bom(value),
                written: Some(value),
            },
        )
    }
}

/// The attributes without those called `name`, in any ASCII case.
pub open spec fn without_attribute(attributes: Seq<AttributeState>, name: Seq<char>) -> Seq<
    AttributeState,
> {
    if attribute_name_error(name) is None {
        attributes.filter(|a: AttributeState| a.key != Some(ascii_lower(name)))
    } else {
        attributes
    }
}

/// The text of `text`, if there is one.
pub open spec fn view_of(text: Option<String>) -> Option<Seq<char>> {
    match text {
        Some(t) => Some(t@),
        None => None,
    }
}

/// Whether `uri` is one of the namespaces that a parsed element can have.
pub open spec fn is_namespace(uri: Seq<char>) -> bool {
    ||| uri == "http://www.w3.org/1999/xhtml"@
    ||| uri == "http://www.w3.org/2000/svg"@
    ||| uri == "http://www.w3.org/1998/Math/MathML"@
}

} // verus!

//! The units of a document as `lol_html` holds them.
//!
//! The types and functions of `lol_html` that read and change a unit are
//! declared here with what is relied on of each, over the models of
//! [`model`](crate::html_rewriter::model). Nothing in this module is proved.
use vstd::prelude::*;

use crate::html_rewriter::error::displays_as;
use crate::html_rewriter::model::{attribute_name_error, attribute_value, closes_comment,
    comment_text_error, is_namespace, tag_name_error, view_of, AttributeState, Chunk, CommentState,
    DoctypeState, ElementState, EndTagState, TextState};
use crate::html_rewriter::token::{dispatch_end_tag, Callback, Handler, JsRef, ScriptHost,
    UnitKind};
use crate::text::{ascii_lower, strip_bom};
use lol_html::errors::{AttributeNameError, CommentTextError, TagNameError};
use lol_html::html_content::{Attribute as NativeAttribute, Comment as NativeComment, ContentType,
    Doctype as NativeDoctype, DocumentEnd as NativeDocumentEnd, Element as NativeElement,
    EndTag as NativeEndTag, TextChunk as NativeTextChunk};
use std::rc::Rc;
use std::sync::mpsc::SendError;

verus! {

/// `lol_html::html_content::Attribute`.
#[verifier::external_type_specification]
#[verifier::external_body]
pub struct ExAttribute<'i>(NativeAttribute<'i>);

/// `lol_html::html_content::EndTag`.
#[verifier::external_type_specification]
#[verifier::external_body]
pub struct ExEndTag<'i>(NativeEndTag<'i>);

/// `lol_html::html_content::TextChunk`.
#[verifier::external_type_specification]
#[verifier::external_body]
pub struct ExTextChunk<'i>(NativeTextChunk<'i>);

/// `lol_html::html_content::Comment`.
#[verifier::external_type_specification]
#[verifier::external_body]
pub struct ExComment<'i>(NativeComment<'i>);

/// `lol_html::html_content::Doctype`.
#[verifier::external_type_specification]
#[verifier::external_body]
pub struct ExDoctype<'i>(NativeDoctype<'i>);

/// `lol_html::html_content::DocumentEnd`.
#[verifier::external_type_specification]
#[verifier::external_body]
pub struct ExDocumentEnd<'a>(NativeDocumentEnd<'a>);

/// `lol_html::errors::TagNameError`.
#[verifier::external_type_specification]
#[verifier::external_body]
pub struct ExTagNameError(lol_html::errors::TagNameError);

/// `lol_html::errors::AttributeNameError`.
#[verifier::external_type_specification]
#[verifier::external_body]
pub struct ExAttributeNameError(lol_html::errors::AttributeNameError);

/// `lol_html::errors::CommentTextError`.
#[verifier::external_type_specification]
#[verifier::external_body]
pub struct ExCommentTextError(lol_html::errors::CommentTextError);

/// Exclusive access to a `lol_html::html_content::Element`.
///
/// The outside type has a parameter that is bound by the outside trait
/// `HandlerTypes`, so it cannot be declared; this struct holds it. Values are
/// made in the handlers of a rewriter that this crate sets up, and such a
/// rewriter reads and writes UTF-8.
#[verifier::external_body]
pub struct ElementRef<'a, 'r, 't> {
    pub(crate) inner: &'a mut NativeElement<'r, 't>,
}

/// What an element holds.
pub uninterp spec fn element_state(unit: ElementRef<'_, '_, '_>) -> ElementState;

/// What an attribute holds.
pub uninterp spec fn attribute_state(unit: NativeAttribute<'_>) -> AttributeState;

/// What an end tag holds.
pub uninterp spec fn end_tag_state(unit: NativeEndTag<'_>) -> EndTagState;

/// What a text chunk holds.
pub uninterp spec fn text_state(unit: NativeTextChunk<'_>) -> TextState;

/// What a comment holds.
pub uninterp spec fn comment_state(unit: NativeComment<'_>) -> CommentState;

/// What a document type declaration holds.
pub uninterp spec fn doctype_state(unit: NativeDoctype<'_>) -> DoctypeState;

/// What has been appended to the document through its end, in order.
pub uninterp spec fn appended(unit: NativeDocumentEnd<'_>) -> Seq<Chunk>;

/// `lol_html::html_content::Element::tag_name` returns the tag name in ASCII
/// lower case.
#[verifier::external_body]
pub(crate) fn element_tag_name(unit: &ElementRef<'_, '_, '_>) -> (res: String)
    ensures
        res@ == ascii_lower(element_state(*unit).name),
{
    unit.inner.tag_name()
}

/// `lol_html::html_content::Element::tag_name_preserve_case` returns the tag
/// name in its own case.
#[verifier::external_body]
pub(crate) fn element_tag_name_preserve_case(unit: &ElementRef<'_, '_, '_>) -> (res: String)
    ensures
        res@ == element_state(*unit).name,
{
    unit.inner.tag_name_preserve_case()
}

/// `lol_html::html_content::Element::set_tag_name` refuses a name that is
/// empty, does not start with an ASCII letter or holds a character that ends a
/// name, and says so in its error; else it renames the start tag, which is then
/// written anew, and the end tag if there is one.
#[verifier::external_body]
pub(crate) fn element_set_tag_name(unit: &mut ElementRef<'_, '_, '_>, name: &str) -> (res: Result<
    (),
    TagNameError,
>)
    ensures
        res is Ok <==> tag_name_error(name@) is None,
        res is Ok ==> element_state(*final(unit)) == element_state(*old(unit)).set_tag_name(name@),
        res matches Err(e) ==> {
            &&& displays_as(e, tag_name_error(name@)->0)
            &&& element_state(*final(unit)) == element_state(*old(unit))
        },
{
    unit.inner.set_tag_name(name)
}

/// `lol_html::html_content::Element::namespace_uri` returns the URI of the
/// namespace of the element: HTML, SVG or MathML.
#[verifier::external_body]
pub(crate) fn element_namespace_uri(unit: &ElementRef<'_, '_, '_>) -> (res: &'static str)
    ensures
        res@ == element_state(*unit).namespace_uri,
        is_namespace(res@),
{
    unit.inner.namespace_uri()
}

/// `lol_html::html_content::Element::attributes` returns the attributes in
/// their order.
#[verifier::external_body]
pub(crate) fn element_attributes<'x, 't>(unit: &'x ElementRef<'_, '_, 't>) -> (res:
    &'x [NativeAttribute<'t>])
    ensures
        res@.len() == element_state(*unit).attributes.len(),
        forall|i: int|
            0 <= i < res@.len() ==> attribute_state(#[trigger] res@[i]) == element_state(
                *unit,
            ).attributes[i],
{
    unit.inner.attributes()
}

/// `lol_html::html_content::Attribute::name` returns the name in ASCII lower
/// case.
pub assume_specification<'i>[ NativeAttribute::<'i>::name ](unit: &NativeAttribute<'i>) -> (res:
    String)
    ensures
        res@ == attribute_state(*unit).name,
;

/// `lol_html::html_content::Attribute::value` returns the value.
pub assume_specification<'i>[ NativeAttribute::<'i>::value ](unit: &NativeAttribute<'i>) -> (res:
    String)
    ensures
        res@ == attribute_state(*unit).value,
;

/// `lol_html::html_content::Element::get_attribute` returns the value of the
/// first attribute of that name, in any ASCII case.
#[verifier::external_body]
pub(crate) fn element_get_attribute(unit: &ElementRef<'_, '_, '_>, name: &str) -> (res: Option<
    String,
>)
    ensures
        view_of(res) == attribute_value(element_state(*unit).attributes, name@),
{
    unit.inner.get_attribute(name)
}

/// `lol_html::html_content::Element::has_attribute` tells whether there is an
/// attribute of that name, in any ASCII case.
#[verifier::external_body]
pub(crate) fn element_has_attribute(unit: &ElementRef<'_, '_, '_>, name: &str) -> (res: bool)
    ensures
        res == attribute_value(element_state(*unit).attributes, name@) is Some,
{
    unit.inner.has_attribute(name)
}

/// `lol_html::html_content::Element::set_attribute` refuses a name that is
/// empty or holds a character that no attribute name can hold, and says so in
/// its error; else it gives the first attribute of that name the value, or adds
/// one at the end. The start tag is written with the value as it was given, its
/// double quotes escaped. A byte order mark at the start of the value or of a new
/// name is not read back.
#[verifier::external_body]
pub(crate) fn element_set_attribute(
    unit: &mut ElementRef<'_, '_, '_>,
    name: &str,
    value: &str,
) -> (res: Result<(), AttributeNameError>)
    ensures
        res is Ok <==> attribute_name_error(name@) is None,
        res is Ok ==> element_state(*final(unit)) == element_state(*old(unit)).set_attribute(
            name@,
            value@,
        ),
        res matches Err(e) ==> {
            &&& displays_as(e, attribute_name_error(name@)->0)
            &&& element_state(*final(unit)) == element_state(*old(unit))
        },
{
    unit.inner.set_attribute(name, value)
}

/// `lol_html::html_content::Element::remove_attribute` removes every attribute
/// of that name, in any ASCII case. If there was one, the start tag is written anew.
#[verifier::external_body]
pub(crate) fn element_remove_attribute(unit: &mut ElementRef<'_, '_, '_>, name: &str)
    ensures
        element_state(*final(unit)) == element_state(*old(unit)).remove_attribute(name@),
{
    unit.inner.remove_attribute(name);
}

/// `lol_html::html_content::Element::before` puts the content right in front of
/// the start tag, behind what was put there before.
#[verifier::external_body]
pub(crate) fn element_before(
    unit: &mut ElementRef<'_, '_, '_>,
    content: &str,
    kind: ContentType,
)
    ensures
        element_state(*final(unit)) == element_state(*old(unit)).put_before(
            (Chunk { text: content@, html: kind is Html }),
        ),
{
    unit.inner.before(content, kind);
}

/// `lol_html::html_content::Element::after` puts the content right behind the
/// end tag, or behind the start tag of an element that has no end tag, in front
/// of what was put there before.
#[verifier::external_body]
pub(crate) fn element_after(
    unit: &mut ElementRef<'_, '_, '_>,
    content: &str,
    kind: ContentType,
)
    ensures
        element_state(*final(unit)) == element_state(*old(unit)).put_after(
            (Chunk { text: content@, html: kind is Html }),
        ),
{
    unit.inner.after(content, kind);
}

/// `lol_html::html_content::Element::prepend` puts the content first in the
/// element; it does nothing for an element that cannot have content.
#[verifier::external_body]
pub(crate) fn element_prepend(
    unit: &mut ElementRef<'_, '_, '_>,
    content: &str,
    kind: ContentType,
)
    ensures
        element_state(*final(unit)) == element_state(*old(unit)).prepend(
            (Chunk { text: content@, html: kind is Html }),
        ),
{
    unit.inner.prepend(content, kind);
}

/// `lol_html::html_content::Element::append` puts the content last in the
/// element; it does nothing for an element that cannot have content.
#[verifier::external_body]
pub(crate) fn element_append(
    unit: &mut ElementRef<'_, '_, '_>,
    content: &str,
    kind: ContentType,
)
    ensures
        element_state(*final(unit)) == element_state(*old(unit)).append(
            (Chunk { text: content@, html: kind is Html }),
        ),
{
    unit.inner.append(content, kind);
}

/// `lol_html::html_content::Element::set_inner_content` puts the content in
/// place of all content of the element; it does nothing for an element that
/// cannot have content.
#[verifier::external_body]
pub(crate) fn element_set_inner_content(
    unit: &mut ElementRef<'_, '_, '_>,
    content: &str,
    kind: ContentType,
)
    ensures
        element_state(*final(unit)) == element_state(*old(unit)).set_inner_content(
            (Chunk { text: content@, html: kind is Html }),
        ),
{
    unit.inner.set_inner_content(content, kind);
}

/// `lol_html::html_content::Element::replace` puts the content in place of the
/// element with its content and its end tag.
#[verifier::external_body]
pub(crate) fn element_replace(
    unit: &mut ElementRef<'_, '_, '_>,
    content: &str,
    kind: ContentType,
)
    ensures
        element_state(*final(unit)) == element_state(*old(unit)).replace(
            (Chunk { text: content@, html: kind is Html }),
        ),
{
    unit.inner.replace(content, kind);
}

/// `lol_html::html_content::Element::remove` leaves the element out, with its
/// content and its end tag.
#[verifier::external_body]
pub(crate) fn element_remove(unit: &mut ElementRef<'_, '_, '_>)
    ensures
        element_state(*final(unit)) == element_state(*old(unit)).remove(),
{
    unit.inner.remove();
}

/// `lol_html::html_content::Element::remove_and_keep_content` leaves the start
/// tag and the end tag out.
#[verifier::external_body]
pub(crate) fn element_remove_and_keep_content(unit: &mut ElementRef<'_, '_, '_>)
    ensures
        element_state(*final(unit)) == element_state(*old(unit)).remove_and_keep_content(),
{
    unit.inner.remove_and_keep_content();
}

/// `lol_html::html_content::Element::removed` tells whether the start tag was
/// removed or replaced.
#[verifier::external_body]
pub(crate) fn element_removed(unit: &ElementRef<'_, '_, '_>) -> (res: bool)
    ensures
        res == element_state(*unit).start.removed,
{
    unit.inner.removed()
}

/// `lol_html::html_content::Element::on_end_tag` keeps a handler for the end
/// tag, behind those it has, or refuses for an element that cannot have content
/// and says so in its error. The native handler asks `host` to call `handler`
/// with the end tag, and hands an exception on inside a `SendError`.
#[verifier::external_body]
pub(crate) fn element_on_end_tag<H: ScriptHost + 'static>(
    unit: &mut ElementRef<'_, '_, '_>,
    host: Rc<H>,
    handler: JsRef,
) -> (res: Result<(), String>)
    ensures
        res is Ok <==> element_state(*old(unit)).can_have_content,
        res is Ok ==> element_state(*final(unit)) == element_state(*old(unit)).on_end_tag(
            (Handler {
                callback: Callback { host: host.identity(), func: handler },
                unit: UnitKind::EndTag,
            }),
        ),
        res matches Err(text) ==> {
            &&& text@ == ascii_lower(element_state(*old(unit)).name) + " can't have content"@
            &&& element_state(*final(unit)) == element_state(*old(unit))
        },
{
    unit.inner.on_end_tag(
        Box::new(
            move |end: &mut NativeEndTag<'_>|
                dispatch_end_tag(&*host, handler, end).map_err(|e| SendError(e).into()),
        ),
    ).map_err(|e| e.to_string())
}

/// `lol_html::html_content::EndTag::name` returns the name in ASCII lower case.
pub assume_specification<'i>[ NativeEndTag::<'i>::name ](unit: &NativeEndTag<'i>) -> (res: String)
    ensures
        res@ == ascii_lower(end_tag_state(*unit).name),
;

/// `lol_html::html_content::EndTag::set_name_str` sets the name, whatever it
/// is. In a UTF-8 document the end tag is written with the name as it was given,
/// and the name reads back so, but for a leading byte order mark.
pub assume_specification<'i>[ NativeEndTag::<'i>::set_name_str ](
    unit: &mut NativeEndTag<'i>,
    name: String,
)
    requires
        end_tag_state(*old(unit)).utf8,
    ensures
        end_tag_state(*final(unit)) == (EndTagState {
            name: strip_bom(name@),
            written: Some(name@),
            ..end_tag_state(*old(unit))
        }),
;

/// `lol_html::html_content::EndTag::before` puts the content right in front of
/// the end tag, behind what was put there before.
pub assume_specification<'i>[ NativeEndTag::<'i>::before ](
    unit: &mut NativeEndTag<'i>,
    content: &str,
    kind: ContentType,
)
    ensures
        end_tag_state(*final(unit)) == (EndTagState {
            mutations: end_tag_state(*old(unit)).mutations.put_before(
                Chunk { text: content@, html: kind is Html },
            ),
            ..end_tag_state(*old(unit))
        }),
;

/// `lol_html::html_content::EndTag::after` puts the content right behind the
/// end tag, in front of what was put there before.
pub assume_specification<'i>[ NativeEndTag::<'i>::after ](
    unit: &mut NativeEndTag<'i>,
    content: &str,
    kind: ContentType,
)
    ensures
        end_tag_state(*final(unit)) == (EndTagState {
            mutations: end_tag_state(*old(unit)).mutations.put_after(
                Chunk { text: content@, html: kind is Html },
            ),
            ..end_tag_state(*old(unit))
        }),
;

/// `lol_html::html_content::EndTag::replace` puts the content in place of the
/// end tag and forgets an earlier replacement.
pub assume_specification<'i>[ NativeEndTag::<'i>::replace ](
    unit: &mut NativeEndTag<'i>,
    content: &str,
    kind: ContentType,
)
    ensures
        end_tag_state(*final(unit)) == (EndTagState {
            mutations: end_tag_state(*old(unit)).mutations.replace(
                Chunk { text: content@, html: kind is Html },
            ),
            ..end_tag_state(*old(unit))
        }),
;

/// `lol_html::html_content::EndTag::remove` leaves the end tag out of the
/// output.
pub assume_specification<'i>[ NativeEndTag::<'i>::remove ](unit: &mut NativeEndTag<'i>)
    ensures
        end_tag_state(*final(unit)) == (EndTagState {
            mutations: end_tag_state(*old(unit)).mutations.remove(),
            ..end_tag_state(*old(unit))
        }),
;

/// `lol_html::html_content::EndTag::removed` tells whether the end tag was
/// removed or replaced.
pub assume_specification<'i>[ NativeEndTag::<'i>::removed ](unit: &NativeEndTag<'i>) -> (res: bool)
    ensures
        res == end_tag_state(*unit).mutations.removed,
;

/// `lol_html::html_content::TextChunk::as_str` returns the text of the chunk.
#[verifier::external_body]
pub(crate) fn text_as_str<'x>(unit: &'x NativeTextChunk<'_>) -> (res: &'x str)
    ensures
        res@ == text_state(*unit).text,
{
    unit.as_str()
}

/// `lol_html::html_content::TextChunk::last_in_text_node` tells whether the
/// chunk is the last one of its text node.
pub assume_specification<'i>[ NativeTextChunk::<'i>::last_in_text_node ](
    unit: &NativeTextChunk<'i>,
) -> (res: bool)
    ensures
        res == text_state(*unit).last_in_text_node,
;

/// `lol_html::html_content::TextChunk::before` puts the content right in front
/// of the text chunk, behind what was put there before.
pub assume_specification<'i>[ NativeTextChunk::<'i>::before ](
    unit: &mut NativeTextChunk<'i>,
    content: &str,
    kind: ContentType,
)
    ensures
        text_state(*final(unit)) == (TextState {
            mutations: text_state(*old(unit)).mutations.put_before(
                Chunk { text: content@, html: kind is Html },
            ),
            ..text_state(*old(unit))
        }),
;

/// `lol_html::html_content::TextChunk::after` puts the content right behind the
/// text chunk, in front of what was put there before.
pub assume_specification<'i>[ NativeTextChunk::<'i>::after ](
    unit: &mut NativeTextChunk<'i>,
    content: &str,
    kind: ContentType,
)
    ensures
        text_state(*final(unit)) == (TextState {
            mutations: text_state(*old(unit)).mutations.put_after(
                Chunk { text: content@, html: kind is Html },
            ),
            ..text_state(*old(unit))
        }),
;

/// `lol_html::html_content::TextChunk::replace` puts the content in place of
/// the text chunk and forgets an earlier replacement.
pub assume_specification<'i>[ NativeTextChunk::<'i>::replace ](
    unit: &mut NativeTextChunk<'i>,
    content: &str,
    kind: ContentType,
)
    ensures
        text_state(*final(unit)) == (TextState {
            mutations: text_state(*old(unit)).mutations.replace(
                Chunk { text: content@, html: kind is Html },
            ),
            ..text_state(*old(unit))
        }),
;

/// `lol_html::html_content::TextChunk::remove` leaves the text chunk out of the
/// output.
pub assume_specification<'i>[ NativeTextChunk::<'i>::remove ](unit: &mut NativeTextChunk<'i>)
    ensures
        text_state(*final(unit)) == (TextState {
            mutations: text_state(*old(unit)).mutations.remove(),
            ..text_state(*old(unit))
        }),
;

/// `lol_html::html_content::TextChunk::removed` tells whether the text chunk
/// was removed or replaced.
pub assume_specification<'i>[ NativeTextChunk::<'i>::removed ](unit: &NativeTextChunk<'i>) -> (res:
    bool)
    ensures
        res == text_state(*unit).mutations.removed,
;

/// `lol_html::html_content::Comment::text` returns the text of the comment.
pub assume_specification<'i>[ NativeComment::<'i>::text ](unit: &NativeComment<'i>) -> (res: String)
    ensures
        res@ == comment_state(*unit).text,
;

/// `lol_html::html_content::Comment::set_text` refuses a text that would end
/// the comment, and says so in its error. In a UTF-8 document it sets every
/// other text: the comment is written with the text as it was given, and the text
/// reads back so, but for a leading byte order mark.
pub assume_specification<'i>[ NativeComment::<'i>::set_text ](
    unit: &mut NativeComment<'i>,
    text: &str,
) -> (res: Result<(), CommentTextError>)
    requires
        comment_state(*old(unit)).utf8,
    ensures
        res is Ok <==> !closes_comment(text@),
        res is Ok ==> comment_state(*final(unit)) == (CommentState {
            text: strip_bom(text@),
            written: Some(text@),
            ..comment_state(*old(unit))
        }),
        res matches Err(e) ==> {
            &&& displays_as(e, comment_text_error())
            &&& comment_state(*final(unit)) == comment_state(*old(unit))
        },
;

/// `lol_html::html_content::Comment::before` puts the content right in front of
/// the comment, behind what was put there before.
pub assume_specification<'i>[ NativeComment::<'i>::before ](
    unit: &mut NativeComment<'i>,
    content: &str,
    kind: ContentType,
)
    ensures
        comment_state(*final(unit)) == (CommentState {
            mutations: comment_state(*old(unit)).mutations.put_before(
                Chunk { text: content@, html: kind is Html },
            ),
            ..comment_state(*old(unit))
        }),
;

/// `lol_html::html_content::Comment::after` puts the content right behind the
/// comment, in front of what was put there before.
pub assume_specification<'i>[ NativeComment::<'i>::after ](
    unit: &mut NativeComment<'i>,
    content: &str,
    kind: ContentType,
)
    ensures
        comment_state(*final(unit)) == (CommentState {
            mutations: comment_state(*old(unit)).mutations.put_after(
                Chunk { text: content@, html: kind is Html },
            ),
            ..comment_state(*old(unit))
        }),
;

/// `lol_html::html_content::Comment::replace` puts the content in place of the
/// comment and forgets an earlier replacement.
pub assume_specification<'i>[ NativeComment::<'i>::replace ](
    unit: &mut NativeComment<'i>,
    content: &str,
    kind: ContentType,
)
    ensures
        comment_state(*final(unit)) == (CommentState {
            mutations: comment_state(*old(unit)).mutations.replace(
                Chunk { text: content@, html: kind is Html },
            ),
            ..comment_state(*old(unit))
        }),
;

/// `lol_html::html_content::Comment::remove` leaves the comment out of the
/// output.
pub assume_specification<'i>[ NativeComment::<'i>::remove ](unit: &mut NativeComment<'i>)
    ensures
        comment_state(*final(unit)) == (CommentState {
            mutations: comment_state(*old(unit)).mutations.remove(),
            ..comment_state(*old(unit))
        }),
;

/// `lol_html::html_content::Comment::removed` tells whether the comment was
/// removed or replaced.
pub assume_specification<'i>[ NativeComment::<'i>::removed ](unit: &NativeComment<'i>) -> (res:
    bool)
    ensures
        res == comment_state(*unit).mutations.removed,
;

/// `lol_html::html_content::Doctype::name` returns the name in ASCII lower
/// case, if there is one.
pub assume_specification<'i>[ NativeDoctype::<'i>::name ](unit: &NativeDoctype<'i>) -> (res: Option<
    String,
>)
    ensures
        view_of(res) == doctype_state(*unit).name,
;

/// `lol_html::html_content::Doctype::public_id` returns the public identifier,
/// if there is one.
pub assume_specification<'i>[ NativeDoctype::<'i>::public_id ](unit: &NativeDoctype<'i>) -> (res:
    Option<String>)
    ensures
        view_of(res) == doctype_state(*unit).public_id,
;

/// `lol_html::html_content::Doctype::system_id` returns the system identifier,
/// if there is one.
pub assume_specification<'i>[ NativeDoctype::<'i>::system_id ](unit: &NativeDoctype<'i>) -> (res:
    Option<String>)
    ensures
        view_of(res) == doctype_state(*unit).system_id,
;

/// `lol_html::html_content::DocumentEnd::append` appends the content to the
/// document, behind what was appended before.
pub assume_specification<'a>[ NativeDocumentEnd::<'a>::append ](
    unit: &mut NativeDocumentEnd<'a>,
    content: &str,
    kind: ContentType,
)
    ensures
        appended(*final(unit)) == appended(*old(unit)).push(
            (Chunk { text: content@, html: kind is Html }),
        ),
;

} // verus!

//! Handing a unit of the document to a handler.
use vstd::prelude::*;

use crate::html_rewriter::comment::Comment;
use crate::html_rewriter::doctype::Doctype;
use crate::html_rewriter::document_end::DocumentEnd;
use crate::html_rewriter::element::Element;
use crate::html_rewriter::end_tag::EndTag;
use crate::html_rewriter::error::Exception;
use crate::html_rewriter::native::{appended, comment_state, doctype_state, element_state,
    end_tag_state, text_state, ElementRef};
use crate::html_rewriter::text_chunk::TextChunk;
use lol_html::html_content::{Comment as NativeComment, Doctype as NativeDoctype,
    DocumentEnd as NativeDocumentEnd, EndTag as NativeEndTag, TextChunk as NativeTextChunk};

verus! {

/// A function of the script host, by the number under which the host keeps it.
#[derive(Debug, Clone, Copy, PartialEq, Eq, Structural)]
pub struct JsRef {
    pub id: u64,
}

/// A unit of the document as a handler gets it.
pub enum Token<'a, 'r, 't> {
    Element(Element<'a, 'r, 't>),
    EndTag(EndTag<'a, 't>),
    Text(TextChunk<'a, 't>),
    Comment(Comment<'a, 't>),
    Doctype(Doctype<'a, 't>),
    End(DocumentEnd<'a, 't>),
}

/// The kinds of units.
#[derive(Debug, Clone, Copy, PartialEq, Eq, Structural)]
pub enum UnitKind {
    Element,
    EndTag,
    Text,
    Comment,
    Doctype,
    End,
}

impl<'a, 'r, 't> Token<'a, 'r, 't> {
    /// Which kind of unit it is.
    pub open spec fn kind(self) -> UnitKind {
        match self {
            Token::Element(_) => UnitKind::Element,
            Token::EndTag(_) => UnitKind::EndTag,
            Token::Text(_) => UnitKind::Text,
            Token::Comment(_) => UnitKind::Comment,
            Token::Doctype(_) => UnitKind::Doctype,
            Token::End(_) => UnitKind::End,
        }
    }

    /// Whether the unit can still be reached.
    pub open spec fn live(self) -> bool {
        match self {
            Token::Element(t) => t.live(),
            Token::EndTag(t) => t.live(),
            Token::Text(t) => t.live(),
            Token::Comment(t) => t.live(),
            Token::Doctype(t) => t.live(),
            Token::End(t) => t.live(),
        }
    }

    /// Whether the unit, if it can be reached, belongs to a UTF-8 document.
    pub open spec fn wf(self) -> bool {
        match self {
            Token::EndTag(t) => t.wf(),
            Token::Comment(t) => t.wf(),
            _ => true,
        }
    }

    /// Takes the access to the unit away for good. The unit stays as it is.
    pub fn poison(&mut self)
        ensures
            !final(self).live(),
            old(self).live() ==> match *old(self) {
                Token::Element(t) => has_resolved(t.reference()),
                Token::EndTag(t) => has_resolved(t.reference()),
                Token::Text(t) => has_resolved(t.reference()),
                Token::Comment(t) => has_resolved(t.reference()),
                Token::Doctype(t) => has_resolved(t.reference()),
                Token::End(t) => has_resolved(t.reference()),
            },
    {
        match self {
            Token::Element(t) => t.poison(),
            Token::EndTag(t) => t.poison(),
            Token::Text(t) => t.poison(),
            Token::Comment(t) => t.poison(),
            Token::Doctype(t) => t.poison(),
            Token::End(t) => t.poison(),
        }
    }
}

/// A function of a host.
pub struct Callback {
    /// Which host it is.
    pub host: u64,
    pub func: JsRef,
}

/// What a native handler does: it hands each unit that it gets to a function of a
/// host, and all of them are of one kind.
pub struct Handler {
    pub callback: Callback,
    pub unit: UnitKind,
}

/// The script engine that keeps the handlers and the output callback.
///
/// What its functions do is up to the scripts; nothing is relied on.
pub trait ScriptHost {
    /// Which host this is.
    spec fn identity(&self) -> u64;

    /// Calls the handler `func` with `token` as its argument.
    fn call(&self, func: JsRef, token: &mut Token<'_, '_, '_>) -> (res: Result<(), Exception>)
        requires
            old(token).live(),
            old(token).wf(),
    ;

    /// Calls the output callback `func` with a chunk of rewritten bytes.
    fn output(&self, func: JsRef, chunk: &[u8]) -> (res: Result<(), Exception>);
}

/// Calls the handler `func` with `token` and hands its outcome on. The token is
/// invalid afterwards, whatever the outcome, and the unit stays as the handler left
/// it.
pub fn dispatch<H: ScriptHost>(host: &H, func: JsRef, token: &mut Token<'_, '_, '_>) -> (res:
    Result<(), Exception>)
    requires
        old(token).live(),
        old(token).wf(),
    ensures
        !final(token).live(),
        exists|arg: &mut Token<'_, '_, '_>|
            *arg == *old(token) && #[trigger] call_ensures(H::call, (host, func, arg), res) && (
            final(arg).live() ==> match *final(arg) {
                Token::Element(t) => has_resolved(t.reference()),
                Token::EndTag(t) => has_resolved(t.reference()),
                Token::Text(t) => has_resolved(t.reference()),
                Token::Comment(t) => has_resolved(t.reference()),
                Token::Doctype(t) => has_resolved(t.reference()),
                Token::End(t) => has_resolved(t.reference()),
            }),
{
    let outcome = host.call(func, token);
    token.poison();
    outcome
}

/// Calls the handler `func` with an element, which stays as the handler left it.
pub(crate) fn dispatch_element<'a, H: ScriptHost>(
    host: &H,
    func: JsRef,
    unit: &'a mut ElementRef<'a, '_, '_>,
) -> (res: Result<(), Exception>)
    ensures
        exists|arg: &mut Token<'_, '_, '_>| #[trigger]
            call_ensures(H::call, (host, func, arg), res) && (*arg matches Token::Element(t) && {
                &&& arg.kind() == UnitKind::Element
                &&& t.live()
                &&& t.state() == element_state(*old(unit))
                &&& *final(t.reference()) == *final(unit)
            }) && (*final(arg) matches Token::Element(t) ==> t.live() ==> has_resolved(
                t.reference(),
            )),
{
    let mut token = Token::Element(Element::new(unit));
    dispatch(host, func, &mut token)
}

/// Calls the handler `func` with an end tag, which stays as the handler left it.
pub(crate) fn dispatch_end_tag<H: ScriptHost>(
    host: &H,
    func: JsRef,
    unit: &mut NativeEndTag<'_>,
) -> (res: Result<(), Exception>)
    requires
        end_tag_state(*old(unit)).utf8,
    ensures
        exists|arg: &mut Token<'_, '_, '_>| #[trigger]
            call_ensures(H::call, (host, func, arg), res) && (*arg matches Token::EndTag(t) && {
                &&& arg.kind() == UnitKind::EndTag
                &&& t.live()
                &&& t.state() == end_tag_state(*old(unit))
                &&& *final(t.reference()) == *final(unit)
            }) && (*final(arg) matches Token::EndTag(t) ==> t.live() ==> has_resolved(
                t.reference(),
            )),
{
    let mut token = Token::EndTag(EndTag::new(unit));
    dispatch(host, func, &mut token)
}

/// Calls the handler `func` with a fragment of a text node, which stays as the handler left it.
pub(crate) fn dispatch_text<H: ScriptHost>(
    host: &H,
    func: JsRef,
    unit: &mut NativeTextChunk<'_>,
) -> (res: Result<(), Exception>)
    ensures
        exists|arg: &mut Token<'_, '_, '_>| #[trigger]
            call_ensures(H::call, (host, func, arg), res) && (*arg matches Token::Text(t) && {
                &&& arg.kind() == UnitKind::Text
                &&& t.live()
                &&& t.state() == text_state(*old(unit))
                &&& *final(t.reference()) == *final(unit)
            }) && (*final(arg) matches Token::Text(t) ==> t.live() ==> has_resolved(
                t.reference(),
            )),
{
    let mut token = Token::Text(TextChunk::new(unit));
    dispatch(host, func, &mut token)
}

/// Calls the handler `func` with a comment, which stays as the handler left it.
pub(crate) fn dispatch_comment<H: ScriptHost>(
    host: &H,
    func: JsRef,
    unit: &mut NativeComment<'_>,
) -> (res: Result<(), Exception>)
    requires
        comment_state(*old(unit)).utf8,
    ensures
        exists|arg: &mut Token<'_, '_, '_>| #[trigger]
            call_ensures(H::call, (host, func, arg), res) && (*arg matches Token::Comment(t) && {
                &&& arg.kind() == UnitKind::Comment
                &&& t.live()
                &&& t.state() == comment_state(*old(unit))
                &&& *final(t.reference()) == *final(unit)
            }) && (*final(arg) matches Token::Comment(t) ==> t.live() ==> has_resolved(
                t.reference(),
            )),
{
    let mut token = Token::Comment(Comment::new(unit));
    dispatch(host, func, &mut token)
}

/// Calls the handler `func` with a document type declaration, which stays as the handler left it.
pub(crate) fn dispatch_doctype<H: ScriptHost>(
    host: &H,
    func: JsRef,
    unit: &mut NativeDoctype<'_>,
) -> (res: Result<(), Exception>)
    ensures
        exists|arg: &mut Token<'_, '_, '_>| #[trigger]
            call_ensures(H::call, (host, func, arg), res) && (*arg matches Token::Doctype(t) && {
                &&& arg.kind() == UnitKind::Doctype
                &&& t.live()
                &&& t.state() == doctype_state(*old(unit))
                &&& *final(t.reference()) == *final(unit)
            }) && (*final(arg) matches Token::Doctype(t) ==> t.live() ==> has_resolved(
                t.reference(),
            )),
{
    let mut token = Token::Doctype(Doctype::new(unit));
    dispatch(host, func, &mut token)
}

/// Calls the handler `func` with the end of the document, which stays as the handler left it.
pub(crate) fn dispatch_document_end<H: ScriptHost>(
    host: &H,
    func: JsRef,
    unit: &mut NativeDocumentEnd<'_>,
) -> (res: Result<(), Exception>)
    ensures
        exists|arg: &mut Token<'_, '_, '_>| #[trigger]
            call_ensures(H::call, (host, func, arg), res) && (*arg matches Token::End(t) && {
                &&& arg.kind() == UnitKind::End
                &&& t.live()
                &&& t.state() == appended(*old(unit))
                &&& *final(t.reference()) == *final(unit)
            }) && (*final(arg) matches Token::End(t) ==> t.live() ==> has_resolved(
                t.reference(),
            )),
{
    let mut token = Token::End(DocumentEnd::new(unit));
    dispatch(host, func, &mut token)
}

} // verus!

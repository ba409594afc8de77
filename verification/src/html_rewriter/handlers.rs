//! Bundles of handlers.
//!
//! A native handler gets its units from a rewriter with the settings of
//! [`rewriter`](crate::html_rewriter::rewriter), which reads the document as
//! UTF-8. So the comments that it passes on belong to a UTF-8 document.
use vstd::prelude::*;

use crate::html_rewriter::native::ElementRef;
use crate::html_rewriter::token::{dispatch_comment, dispatch_doctype, dispatch_document_end,
    dispatch_element, dispatch_text, Callback, Handler, JsRef, ScriptHost, UnitKind};
use lol_html::html_content::{Comment as NativeComment, Doctype as NativeDoctype,
    DocumentEnd as NativeDocumentEnd, Element as NativeElement, TextChunk as NativeTextChunk};
use std::rc::Rc;
use std::sync::mpsc::SendError;

verus! {

/// The handlers for the elements that a selector matches and for what is in
/// them.
#[derive(Debug, Clone, Copy, PartialEq, Eq, Structural)]
pub struct ElementHandlers {
    pub element: Option<JsRef>,
    pub comments: Option<JsRef>,
    pub text: Option<JsRef>,
}

/// The handlers for the document as a whole.
#[derive(Debug, Clone, Copy, PartialEq, Eq, Structural)]
pub struct DocumentHandlers {
    pub doctype: Option<JsRef>,
    pub comments: Option<JsRef>,
    pub text: Option<JsRef>,
    pub end: Option<JsRef>,
}

/// What the native handlers for a selector call.
pub struct ElementCalls {
    pub element: Option<Handler>,
    pub comments: Option<Handler>,
    pub text: Option<Handler>,
}

/// What the native handlers for the document call.
pub struct DocumentCalls {
    pub doctype: Option<Handler>,
    pub comments: Option<Handler>,
    pub text: Option<Handler>,
    pub end: Option<Handler>,
}

/// The native handler that hands units of one kind to `func`, if there is a
/// function, through that host.
pub open spec fn call_through(func: Option<JsRef>, host: u64, unit: UnitKind) -> Option<Handler> {
    match func {
        Some(func) => Some(Handler { callback: Callback { host, func }, unit }),
        None => None,
    }
}

impl ElementHandlers {
    /// What native handlers call that pass units on through that host.
    pub open spec fn through(self, host: u64) -> ElementCalls {
        ElementCalls {
            element: call_through(self.element, host, UnitKind::Element),
            comments: call_through(self.comments, host, UnitKind::Comment),
            text: call_through(self.text, host, UnitKind::Text),
        }
    }
}

impl DocumentHandlers {
    /// What native handlers call that pass units on through that host.
    pub open spec fn through(self, host: u64) -> DocumentCalls {
        DocumentCalls {
            doctype: call_through(self.doctype, host, UnitKind::Doctype),
            comments: call_through(self.comments, host, UnitKind::Comment),
            text: call_through(self.text, host, UnitKind::Text),
            end: call_through(self.end, host, UnitKind::End),
        }
    }
}

/// A `lol_html::ElementContentHandlers`.
///
/// The outside type has a parameter that is bound by the outside trait
/// `HandlerTypes`, so it cannot be declared; this struct holds it.
#[verifier::external_body]
pub struct ElementContentHandlers {
    pub(crate) inner: lol_html::ElementContentHandlers<'static>,
}

/// A `lol_html::DocumentContentHandlers`, which cannot be declared either.
#[verifier::external_body]
pub struct DocumentContentHandlers {
    pub(crate) inner: lol_html::DocumentContentHandlers<'static>,
}

/// What the handlers of a bundle call.
pub uninterp spec fn element_handlers(handlers: ElementContentHandlers) -> ElementCalls;

/// What the handlers of a document bundle call.
pub uninterp spec fn document_handlers(handlers: DocumentContentHandlers) -> DocumentCalls;

/// `lol_html::ElementContentHandlers::default` holds no handler.
#[verifier::external_body]
fn element_handlers_default() -> (res: ElementContentHandlers)
    ensures
        element_handlers(res) == (ElementCalls { element: None, comments: None, text: None }),
{
    ElementContentHandlers { inner: lol_html::ElementContentHandlers::default() }
}

/// `lol_html::ElementContentHandlers::element` sets the handler for elements.
/// The native handler asks `host` to call `func` with each of them, and hands
/// an exception on inside a `SendError`.
#[verifier::external_body]
fn element_handlers_element<H: ScriptHost + 'static>(
    handlers: ElementContentHandlers,
    host: Rc<H>,
    func: JsRef,
) -> (res: ElementContentHandlers)
    ensures
        element_handlers(res) == (ElementCalls {
            element: Some(Handler {
                callback: Callback { host: host.identity(), func },
                unit: UnitKind::Element,
            }),
            ..element_handlers(handlers)
        }),
{
    ElementContentHandlers {
        inner: handlers.inner.element(
            move |unit: &mut NativeElement<'_, '_>|
                dispatch_element(&*host, func, &mut ElementRef { inner: unit }).map_err(
                    |e| SendError(e).into(),
                ),
        ),
    }
}

/// `lol_html::ElementContentHandlers::comments` sets the handler for comments.
/// The native handler asks `host` to call `func` with each of them, and hands
/// an exception on inside a `SendError`.
#[verifier::external_body]
fn element_handlers_comments<H: ScriptHost + 'static>(
    handlers: ElementContentHandlers,
    host: Rc<H>,
    func: JsRef,
) -> (res: ElementContentHandlers)
    ensures
        element_handlers(res) == (ElementCalls {
            comments: Some(Handler {
                callback: Callback { host: host.identity(), func },
                unit: UnitKind::Comment,
            }),
            ..element_handlers(handlers)
        }),
{
    ElementContentHandlers {
        inner: handlers.inner.comments(
            move |unit: &mut NativeComment<'_>|
                dispatch_comment(&*host, func, unit).map_err(|e| SendError(e).into()),
        ),
    }
}

/// `lol_html::ElementContentHandlers::text` sets the handler for fragments of
/// text. The native handler asks `host` to call `func` with each of them, and
/// hands an exception on inside a `SendError`.
#[verifier::external_body]
fn element_handlers_text<H: ScriptHost + 'static>(
    handlers: ElementContentHandlers,
    host: Rc<H>,
    func: JsRef,
) -> (res: ElementContentHandlers)
    ensures
        element_handlers(res) == (ElementCalls {
            text: Some(Handler {
                callback: Callback { host: host.identity(), func },
                unit: UnitKind::Text,
            }),
            ..element_handlers(handlers)
        }),
{
    ElementContentHandlers {
        inner: handlers.inner.text(
            move |unit: &mut NativeTextChunk<'_>|
                dispatch_text(&*host, func, unit).map_err(|e| SendError(e).into()),
        ),
    }
}

/// `lol_html::DocumentContentHandlers::default` holds no handler.
#[verifier::external_body]
fn document_handlers_default() -> (res: DocumentContentHandlers)
    ensures
        document_handlers(res) == (DocumentCalls {
            doctype: None,
            comments: None,
            text: None,
            end: None,
        }),
{
    DocumentContentHandlers { inner: lol_html::DocumentContentHandlers::default() }
}

/// `lol_html::DocumentContentHandlers::doctype` sets the handler for document
/// type declarations. The native handler asks `host` to call `func` with each
/// of them, and hands an exception on inside a `SendError`.
#[verifier::external_body]
fn document_handlers_doctype<H: ScriptHost + 'static>(
    handlers: DocumentContentHandlers,
    host: Rc<H>,
    func: JsRef,
) -> (res: DocumentContentHandlers)
    ensures
        document_handlers(res) == (DocumentCalls {
            doctype: Some(Handler {
                callback: Callback { host: host.identity(), func },
                unit: UnitKind::Doctype,
            }),
            ..document_handlers(handlers)
        }),
{
    DocumentContentHandlers {
        inner: handlers.inner.doctype(
            move |unit: &mut NativeDoctype<'_>|
                dispatch_doctype(&*host, func, unit).map_err(|e| SendError(e).into()),
        ),
    }
}

/// `lol_html::DocumentContentHandlers::comments` sets the handler for comments.
/// The native handler asks `host` to call `func` with each of them, and hands
/// an exception on inside a `SendError`.
#[verifier::external_body]
fn document_handlers_comments<H: ScriptHost + 'static>(
    handlers: DocumentContentHandlers,
    host: Rc<H>,
    func: JsRef,
) -> (res: DocumentContentHandlers)
    ensures
        document_handlers(res) == (DocumentCalls {
            comments: Some(Handler {
                callback: Callback { host: host.identity(), func },
                unit: UnitKind::Comment,
            }),
            ..document_handlers(handlers)
        }),
{
    DocumentContentHandlers {
        inner: handlers.inner.comments(
            move |unit: &mut NativeComment<'_>|
                dispatch_comment(&*host, func, unit).map_err(|e| SendError(e).into()),
        ),
    }
}

/// `lol_html::DocumentContentHandlers::text` sets the handler for fragments of
/// text. The native handler asks `host` to call `func` with each of them, and
/// hands an exception on inside a `SendError`.
#[verifier::external_body]
fn document_handlers_text<H: ScriptHost + 'static>(
    handlers: DocumentContentHandlers,
    host: Rc<H>,
    func: JsRef,
) -> (res: DocumentContentHandlers)
    ensures
        document_handlers(res) == (DocumentCalls {
            text: Some(Handler {
                callback: Callback { host: host.identity(), func },
                unit: UnitKind::Text,
            }),
            ..document_handlers(handlers)
        }),
{
    DocumentContentHandlers {
        inner: handlers.inner.text(
            move |unit: &mut NativeTextChunk<'_>|
                dispatch_text(&*host, func, unit).map_err(|e| SendError(e).into()),
        ),
    }
}

/// `lol_html::DocumentContentHandlers::end` sets the handler for the end of the
/// document. The native handler asks `host` to call `func` with each of them,
/// and hands an exception on inside a `SendError`.
#[verifier::external_body]
fn document_handlers_end<H: ScriptHost + 'static>(
    handlers: DocumentContentHandlers,
    host: Rc<H>,
    func: JsRef,
) -> (res: DocumentContentHandlers)
    ensures
        document_handlers(res) == (DocumentCalls {
            end: Some(Handler {
                callback: Callback { host: host.identity(), func },
                unit: UnitKind::End,
            }),
            ..document_handlers(handlers)
        }),
{
    DocumentContentHandlers {
        inner: handlers.inner.end(
            move |unit: &mut NativeDocumentEnd<'_>|
                dispatch_document_end(&*host, func, unit).map_err(|e| SendError(e).into()),
        ),
    }
}

impl ElementContentHandlers {
    /// The bundle that calls the given script functions through `host`.
    pub fn of<H: ScriptHost + 'static>(host: &Rc<H>, handlers: ElementHandlers) -> (res: Self)
        ensures
            element_handlers(res) == handlers.through(host.identity()),
    {
        let mut bundle = element_handlers_default();
        if let Some(func) = handlers.element {
            bundle = element_handlers_element(bundle, Rc::clone(host), func);
        }
        if let Some(func) = handlers.comments {
            bundle = element_handlers_comments(bundle, Rc::clone(host), func);
        }
        if let Some(func) = handlers.text {
            bundle = element_handlers_text(bundle, Rc::clone(host), func);
        }
        bundle
    }
}

impl DocumentContentHandlers {
    /// The bundle that calls the given script functions through `host`.
    pub fn of<H: ScriptHost + 'static>(host: &Rc<H>, handlers: DocumentHandlers) -> (res: Self)
        ensures
            document_handlers(res) == handlers.through(host.identity()),
    {
        let mut bundle = document_handlers_default();
        if let Some(func) = handlers.doctype {
            bundle = document_handlers_doctype(bundle, Rc::clone(host), func);
        }
        if let Some(func) = handlers.comments {
            bundle = document_handlers_comments(bundle, Rc::clone(host), func);
        }
        if let Some(func) = handlers.text {
            bundle = document_handlers_text(bundle, Rc::clone(host), func);
        }
        if let Some(func) = handlers.end {
            bundle = document_handlers_end(bundle, Rc::clone(host), func);
        }
        bundle
    }
}

} // verus!

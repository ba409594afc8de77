//! The native rewriter and what it is set up with.
use vstd::prelude::*;
use vstd::string::to_string_from_display_ensures;

use crate::html_rewriter::error::{map_err, Error, Exception};
use crate::html_rewriter::handlers::{document_handlers, element_handlers, DocumentCalls,
    DocumentContentHandlers, ElementCalls, ElementContentHandlers};
use crate::html_rewriter::token::{Callback, JsRef, ScriptHost};
use lol_html::errors::RewritingError;
use lol_html::Selector;
use std::rc::Rc;
use std::sync::mpsc::SendError;

verus! {

/// `lol_html::errors::RewritingError`.
#[verifier::external_type_specification]
#[verifier::external_body]
pub struct ExRewritingError(lol_html::errors::RewritingError);

/// What a rewriter is set up with.
#[verifier::ext_equal]
pub struct SettingsState {
    /// Handlers by selector, in the order of registration.
    pub rules: Seq<(Selector, ElementCalls)>,
    /// Handlers for the document, in the order of registration.
    pub documents: Seq<DocumentCalls>,
}

impl SettingsState {
    /// Whether there are no handlers at all.
    pub open spec fn is_empty(self) -> bool {
        self.rules.len() == 0 && self.documents.len() == 0
    }
}

/// A `lol_html::Settings`.
///
/// The outside type has a parameter that is bound by the outside trait
/// `HandlerTypes`, so it cannot be declared; this struct holds it.
#[verifier::external_body]
pub struct Settings {
    inner: lol_html::Settings<'static, 'static>,
}

/// What the settings hold.
pub uninterp spec fn settings_state(settings: Settings) -> SettingsState;

/// `lol_html::Settings::new` holds no handler. A rewriter with these settings reads
/// and writes UTF-8, whatever the document says.
#[verifier::external_body]
pub(crate) fn settings_new() -> (res: Settings)
    ensures
        settings_state(res) == (SettingsState { rules: Seq::empty(), documents: Seq::empty() }),
{
    Settings { inner: lol_html::Settings::new() }
}

/// `lol_html::Settings::append_element_content_handler` adds handlers for a
/// selector behind those it has.
#[verifier::external_body]
pub(crate) fn settings_append_element(
    settings: Settings,
    selector: Selector,
    handlers: ElementContentHandlers,
) -> (res: Settings)
    ensures
        settings_state(res) == (SettingsState {
            rules: settings_state(settings).rules.push((selector, element_handlers(handlers))),
            ..settings_state(settings)
        }),
{
    let rule = (std::borrow::Cow::Owned(selector), handlers.inner);
    Settings { inner: settings.inner.append_element_content_handler(rule) }
}

/// `lol_html::Settings::append_document_content_handler` adds handlers for the
/// document behind those it has.
#[verifier::external_body]
pub(crate) fn settings_append_document(
    settings: Settings,
    handlers: DocumentContentHandlers,
) -> (res: Settings)
    ensures
        settings_state(res) == (SettingsState {
            documents: settings_state(settings).documents.push(document_handlers(handlers)),
            ..settings_state(settings)
        }),
{
    Settings { inner: settings.inner.append_document_content_handler(handlers.inner) }
}

/// Where rewritten bytes go: to the output callback `func` of `host`.
pub struct JsOutputSink<H: ScriptHost> {
    pub func: JsRef,
    pub host: Rc<H>,
}

impl<H: ScriptHost> JsOutputSink<H> {
    /// Passes a chunk to the output callback. The rewriter cannot be stopped
    /// from here, so a failure of the callback is dropped.
    ///
    /// A call through the shared host leaves nothing behind that a contract could speak
    /// of: the contract says what the callback is called with, not how often.
    pub fn handle_chunk(&mut self, chunk: &[u8])
        ensures
            *final(self) == *old(self),
            exists|outcome: Result<(), Exception>| #[trigger]
                call_ensures(H::output, (&*old(self).host, old(self).func, chunk), outcome),
    {
        let _ = self.host.output(self.func, chunk);
    }
}

/// What a rewriter is and has done.
#[verifier::ext_equal]
pub struct RewriterState {
    pub settings: SettingsState,
    /// The callback that gets the rewritten bytes.
    pub output: Callback,
    /// The bytes of the document so far.
    pub input: Seq<u8>,
    /// The bytes that were passed to the sink so far.
    pub emitted: Seq<u8>,
    /// Whether a call failed; no call may follow.
    pub failed: bool,
    /// Whether the document has ended; no call may follow.
    pub ended: bool,
}

/// Whether a call that succeeded or did not passed on what it should between the
/// two states: bytes behind those before, and of a document without handlers its
/// own bytes, all of them once it has ended.
pub open spec fn passes_on(before: RewriterState, after: RewriterState, succeeded: bool) -> bool {
    &&& before.emitted.is_prefix_of(after.emitted)
    &&& before.settings.is_empty() && succeeded ==> after.emitted.is_prefix_of(after.input)
    &&& before.settings.is_empty() && succeeded && after.ended ==> after.emitted == after.input
}

/// A `lol_html::HtmlRewriter`, until its document has ended.
///
/// The outside type has a parameter that is bound by the outside trait
/// `HandlerTypes`, so it cannot be declared; this struct holds it.
#[verifier::external_body]
pub struct NativeRewriter {
    inner: Option<lol_html::HtmlRewriter<'static, Box<dyn FnMut(&[u8])>>>,
}

/// What the rewriter is and has done.
pub uninterp spec fn rewriter_state(rewriter: NativeRewriter) -> RewriterState;

/// `lol_html::HtmlRewriter::new` makes a rewriter that has been fed nothing and has
/// passed nothing on. It passes rewritten bytes to the sink.
#[verifier::external_body]
fn native_new<H: ScriptHost + 'static>(settings: Settings, sink: JsOutputSink<H>) -> (res:
    NativeRewriter)
    ensures
        rewriter_state(res) == (RewriterState {
            settings: settings_state(settings),
            output: Callback { host: sink.host.identity(), func: sink.func },
            input: Seq::empty(),
            emitted: Seq::empty(),
            failed: false,
            ended: false,
        }),
{
    let mut sink = sink;
    let pass = Box::new(move |chunk: &[u8]| sink.handle_chunk(chunk));
    NativeRewriter { inner: Some(lol_html::HtmlRewriter::new(settings.inner, pass)) }
}

/// `lol_html::HtmlRewriter::write` feeds the next bytes of the document and calls
/// the handlers for what they complete. Without handlers it passes the bytes of the
/// document on as they are, but for some that it may keep until later. It panics
/// after a call that failed. Whether it fails is up to the document and to the
/// handlers; so is what it passes on where there are handlers.
#[verifier::external_body]
fn native_write(rewriter: &mut NativeRewriter, chunk: &[u8]) -> (res: Result<(), RewritingError>)
    requires
        !rewriter_state(*old(rewriter)).failed,
        !rewriter_state(*old(rewriter)).ended,
    ensures
        rewriter_state(*final(rewriter)) == (RewriterState {
            input: rewriter_state(*old(rewriter)).input + chunk@,
            emitted: rewriter_state(*final(rewriter)).emitted,
            failed: res is Err,
            ..rewriter_state(*old(rewriter))
        }),
        passes_on(rewriter_state(*old(rewriter)), rewriter_state(*final(rewriter)), res is Ok),
{
    rewriter.inner.as_mut().unwrap().write(chunk)
}

/// `lol_html::HtmlRewriter::end` finishes the document and calls the handlers for
/// its end. Without handlers it passes the rest of the document on as it is. It
/// panics after a call that failed, and there is no rewriter any more afterwards.
/// Whether it fails is up to the document and to the handlers; so is what it passes
/// on where there are handlers.
#[verifier::external_body]
fn native_end(rewriter: &mut NativeRewriter) -> (res: Result<(), RewritingError>)
    requires
        !rewriter_state(*old(rewriter)).failed,
        !rewriter_state(*old(rewriter)).ended,
    ensures
        rewriter_state(*final(rewriter)) == (RewriterState {
            emitted: rewriter_state(*final(rewriter)).emitted,
            failed: res is Err,
            ended: true,
            ..rewriter_state(*old(rewriter))
        }),
        passes_on(rewriter_state(*old(rewriter)), rewriter_state(*final(rewriter)), res is Ok),
{
    rewriter.inner.take().unwrap().end()
}

/// The exception that a handler raised, if that is why the rewriter failed.
pub uninterp spec fn raised_exception(cause: RewritingError) -> Option<Exception>;

/// `Box::downcast` on the error that a native handler gave to `lol_html` gets the
/// `SendError` back that carries the exception of the script's handler; any other
/// error is handed back.
#[verifier::external_body]
fn handler_exception(cause: RewritingError) -> (res: Result<Exception, RewritingError>)
    ensures
        match raised_exception(cause) {
            Some(exception) => res == Ok::<Exception, RewritingError>(exception),
            None => res == Err::<Exception, RewritingError>(cause),
        },
{
    match cause {
        RewritingError::ContentHandlerError(inner) => {
            match inner.downcast::<SendError<Exception>>() {
                Ok(sent) => Ok(sent.0),
                Err(other) => Err(RewritingError::ContentHandlerError(other)),
            }
        },
        other => Err(other),
    }
}

/// Whether `res` is how the failure of the rewriter is surfaced: as the
/// exception of the handler that raised one, else as the cause written out.
pub open spec fn surfaces(cause: RewritingError, res: Error) -> bool {
    match raised_exception(cause) {
        Some(exception) => res == Error::Raised(exception),
        None => res matches Error::GenericFailure(reason)
            && to_string_from_display_ensures::<RewritingError>(&cause, reason),
    }
}

/// Surfaces a failure of the rewriter.
pub fn rewriting_error(cause: RewritingError) -> (res: Error)
    ensures
        surfaces(cause, res),
{
    match handler_exception(cause) {
        Ok(exception) => Error::Raised(exception),
        Err(other) => map_err(other),
    }
}

/// Whether `res` is how the outcome of a call of the rewriter is surfaced.
pub open spec fn outcome_surfaces(
    outcome: Result<(), RewritingError>,
    res: Result<(), Error>,
) -> bool {
    match outcome {
        Ok(()) => res is Ok,
        Err(cause) => res matches Err(e) && surfaces(cause, e),
    }
}

/// Surfaces the outcome of a call of the rewriter.
pub fn surface(outcome: Result<(), RewritingError>) -> (res: Result<(), Error>)
    ensures
        outcome_surfaces(outcome, res),
{
    match outcome {
        Ok(()) => Ok(()),
        Err(cause) => Err(rewriting_error(cause)),
    }
}

/// A rewriter in the course of a document.
pub struct Rewriter {
    native: NativeRewriter,
    failed: bool,
    ended: bool,
}

impl Rewriter {
    /// What the rewriter is and has done.
    pub closed spec fn state(self) -> RewriterState {
        rewriter_state(self.native)
    }

    /// Whether the rewriter knows of its failure and of its end.
    pub closed spec fn wf(self) -> bool {
        &&& self.failed == rewriter_state(self.native).failed
        &&& self.ended == rewriter_state(self.native).ended
    }

    /// A rewriter that has been fed nothing.
    pub fn new<H: ScriptHost + 'static>(settings: Settings, sink: JsOutputSink<H>) -> (res: Self)
        ensures
            res.wf(),
            res.state() == (RewriterState {
                settings: settings_state(settings),
                output: Callback { host: sink.host.identity(), func: sink.func },
                input: Seq::empty(),
                emitted: Seq::empty(),
                failed: false,
                ended: false,
            }),
    {
        Rewriter { native: native_new(settings, sink), failed: false, ended: false }
    }

    /// Whether a call failed.
    pub fn has_failed(&self) -> (res: bool)
        requires
            self.wf(),
        ensures
            res == self.state().failed,
    {
        self.failed
    }

    /// Whether the document has ended.
    pub fn has_ended(&self) -> (res: bool)
        requires
            self.wf(),
        ensures
            res == self.state().ended,
    {
        self.ended
    }

    /// Whether feeding `chunk` to a rewriter in state `before` gave `res`.
    pub closed spec fn write_gave(
        before: RewriterState,
        chunk: &[u8],
        res: Result<(), Error>,
    ) -> bool {
        exists|native: &mut NativeRewriter, outcome: Result<(), RewritingError>|
            rewriter_state(*native) == before && #[trigger] call_ensures(
                native_write,
                (native, chunk),
                outcome,
            ) && outcome_surfaces(outcome, res)
    }

    /// Feeds the next bytes of the document.
    pub fn write(&mut self, chunk: &[u8]) -> (res: Result<(), Error>)
        requires
            old(self).wf(),
            !old(self).state().failed,
            !old(self).state().ended,
        ensures
            final(self).wf(),
            final(self).state() == (RewriterState {
                input: old(self).state().input + chunk@,
                emitted: final(self).state().emitted,
                failed: res is Err,
                ..old(self).state()
            }),
            passes_on(old(self).state(), final(self).state(), res is Ok),
            Self::write_gave(old(self).state(), chunk, res),
    {
        let outcome = native_write(&mut self.native, chunk);
        self.failed = outcome.is_err();
        surface(outcome)
    }

    /// Whether finishing the document of a rewriter in state `before` gave `res`.
    pub closed spec fn end_gave(before: RewriterState, res: Result<(), Error>) -> bool {
        exists|native: &mut NativeRewriter, outcome: Result<(), RewritingError>|
            rewriter_state(*native) == before && #[trigger] call_ensures(
                native_end,
                (native,),
                outcome,
            ) && outcome_surfaces(outcome, res)
    }

    /// Finishes the document.
    pub fn end(&mut self) -> (res: Result<(), Error>)
        requires
            old(self).wf(),
            !old(self).state().failed,
            !old(self).state().ended,
        ensures
            final(self).wf(),
            final(self).state() == (RewriterState {
                emitted: final(self).state().emitted,
                failed: res is Err,
                ended: true,
                ..old(self).state()
            }),
            passes_on(old(self).state(), final(self).state(), res is Ok),
            Self::end_gave(old(self).state(), res),
    {
        let outcome = native_end(&mut self.native);
        self.failed = outcome.is_err();
        self.ended = true;
        surface(outcome)
    }

    /// A write that fails surfaces a failure of the rewriter.
    pub proof fn law_write_failure_is_surfaced(
        before: RewriterState,
        chunk: &[u8],
        res: Result<(), Error>,
    )
        requires
            Self::write_gave(before, chunk, res),
        ensures
            res matches Err(e) ==> exists|cause: RewritingError| surfaces(cause, e),
    {
    }

    /// An end that fails surfaces a failure of the rewriter.
    pub proof fn law_end_failure_is_surfaced(before: RewriterState, res: Result<(), Error>)
        requires
            Self::end_gave(before, res),
        ensures
            res matches Err(e) ==> exists|cause: RewritingError| surfaces(cause, e),
    {
    }
}

} // verus!

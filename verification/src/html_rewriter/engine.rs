//! The engine that drives a rewriter for a script host.
use vstd::prelude::*;

use crate::html_rewriter::error::{fails_with, Error, ALREADY_FINALIZED, ALREADY_STARTED, REENTRANT};
use crate::html_rewriter::handlers::{document_handlers, element_handlers, DocumentCalls,
    DocumentContentHandlers, DocumentHandlers, ElementCalls, ElementContentHandlers,
    ElementHandlers};
use crate::html_rewriter::rewriter::{passes_on, settings_append_document, settings_append_element,
    settings_new, settings_state, JsOutputSink, Rewriter, RewriterState,
    Settings, SettingsState};
use crate::html_rewriter::selector::{parse_selector, reads_as, selector_parse};
use crate::html_rewriter::selector_laws::{lacks, law_parts_are_misplaced_in_parentheses_only};
use crate::html_rewriter::token::{Callback, JsRef, ScriptHost};
use lol_html::Selector;
use std::rc::Rc;

verus! {

/// What an engine holds.
#[verifier::ext_equal]
pub struct EngineState {
    /// Which host the engine serves.
    pub host: u64,
    /// The output callback, until the rewriter gets it.
    pub output: Option<JsRef>,
    /// Handlers by selector that the rewriter has yet to get.
    pub rules: Seq<(Selector, ElementCalls)>,
    /// Handlers for the document that the rewriter has yet to get.
    pub documents: Seq<DocumentCalls>,
    /// The rewriter, from the first write or end on. It is away while it
    /// processes.
    pub rewriter: Option<RewriterState>,
    /// Whether the rewriter has been made.
    pub started: bool,
    /// Whether the rewriter is processing.
    pub active: bool,
}

impl EngineState {
    /// The output callback is there until the rewriter is made, the rewriter gets
    /// every handler, and it is there unless it processes.
    pub open spec fn wf(self) -> bool {
        &&& self.started <==> self.output is None
        &&& self.started ==> self.rules.len() == 0 && self.documents.len() == 0
        &&& !self.started ==> self.rewriter is None
        &&& self.started && !self.active ==> self.rewriter is Some
    }

    /// Whether the rewriter has been taken out to process.
    pub open spec fn away(self) -> bool {
        self.started && self.rewriter is None
    }

    /// Whether the document has ended.
    pub open spec fn ended(self) -> bool {
        self.rewriter matches Some(rewriter) && rewriter.ended
    }

    /// Whether a write failed, so that the document cannot go on.
    pub open spec fn broken(self) -> bool {
        self.rewriter matches Some(rewriter) && rewriter.failed && !rewriter.ended
    }

    /// Whether the engine can take a write or an end: the document has not ended
    /// and no call on it failed.
    pub open spec fn ready(self) -> bool {
        match self.rewriter {
            Some(rewriter) => !rewriter.failed && !rewriter.ended,
            None => !self.started,
        }
    }

    /// The rewriter that is made of what the engine holds.
    pub open spec fn fresh(self) -> RewriterState {
        RewriterState {
            settings: SettingsState { rules: self.rules, documents: self.documents },
            output: Callback { host: self.host, func: self.output->0 },
            input: Seq::empty(),
            emitted: Seq::empty(),
            failed: false,
            ended: false,
        }
    }

    /// The rewriter that a write or an end works on.
    pub open spec fn working(self) -> RewriterState {
        match self.rewriter {
            Some(rewriter) => rewriter,
            None => self.fresh(),
        }
    }

    /// The engine once its rewriter has been made.
    pub open spec fn start(self) -> EngineState {
        if self.started {
            self
        } else {
            EngineState {
                output: None,
                rules: Seq::empty(),
                documents: Seq::empty(),
                rewriter: Some(self.fresh()),
                started: true,
                ..self
            }
        }
    }

    /// The engine while its rewriter is away to process.
    pub open spec fn begin(self) -> EngineState {
        EngineState { rewriter: None, active: true, ..self.start() }
    }

    /// The engine after a write of `chunk` that failed or did not, with all that
    /// has been passed on by then.
    pub open spec fn write(self, chunk: Seq<u8>, failed: bool, emitted: Seq<u8>) -> EngineState {
        EngineState {
            rewriter: Some(
                RewriterState {
                    input: self.working().input + chunk,
                    emitted,
                    failed,
                    ..self.working()
                },
            ),
            ..self.start()
        }
    }

    /// Whether registering `handlers` for the selector `parsed` gave `res` and led
    /// to `after`.
    pub open spec fn registered(
        self,
        parsed: Result<Selector, Error>,
        handlers: ElementHandlers,
        res: Result<(), Error>,
        after: EngineState,
    ) -> bool {
        if self.started {
            fails_with(res, ALREADY_STARTED@) && after == self
        } else {
            match parsed {
                Ok(selector) => res is Ok && after == (EngineState {
                    rules: self.rules.push((selector, handlers.through(self.host))),
                    ..self
                }),
                Err(e) => res == Err::<(), Error>(e) && after == self,
            }
        }
    }

    /// The engine after an end that failed or did not, with all that has been
    /// passed on by then.
    pub open spec fn end(self, failed: bool, emitted: Seq<u8>) -> EngineState {
        EngineState {
            rewriter: Some(RewriterState { emitted, failed, ended: true, ..self.working() }),
            ..self.start()
        }
    }
}

/// The rules that `rules` are, by what they call.
pub open spec fn rule_states(rules: Seq<(Selector, ElementContentHandlers)>) -> Seq<
    (Selector, ElementCalls),
> {
    rules.map_values(|rule: (Selector, ElementContentHandlers)| (rule.0, element_handlers(rule.1)))
}

/// The bundles that `bundles` are, by what they call.
pub open spec fn document_states(bundles: Seq<DocumentContentHandlers>) -> Seq<DocumentCalls> {
    bundles.map_values(|bundle: DocumentContentHandlers| document_handlers(bundle))
}

/// A streaming rewriter for a script host.
///
/// Handlers are registered with [`on`](Self::on) and
/// [`on_document`](Self::on_document) before the first
/// [`write`](Self::write). The native rewriter takes its settings by value, so it
/// is made on the first write, and a later registration is refused.
pub struct HtmlRewriterEngine<H: ScriptHost> {
    host: Rc<H>,
    output: Option<JsRef>,
    rules: Vec<(Selector, ElementContentHandlers)>,
    document_handlers: Vec<DocumentContentHandlers>,
    inner: Option<Rewriter>,
    started: bool,
    active: bool,
}

impl<H: ScriptHost + 'static> HtmlRewriterEngine<H> {
    /// What the engine holds.
    pub closed spec fn state(self) -> EngineState {
        EngineState {
            host: self.host.identity(),
            output: self.output,
            rules: rule_states(self.rules@),
            documents: document_states(self.document_handlers@),
            rewriter: match self.inner {
                Some(rewriter) => Some(rewriter.state()),
                None => None,
            },
            started: self.started,
            active: self.active,
        }
    }

    /// Whether the engine is one that its methods lead to.
    pub closed spec fn wf(self) -> bool {
        &&& self.state().wf()
        &&& self.inner matches Some(rewriter) ==> rewriter.wf()
    }

    /// What an engine holds keeps the invariant.
    pub proof fn lemma_state_is_wf(self)
        requires
            self.wf(),
        ensures
            self.state().wf(),
    {
    }

    /// An engine without handlers that passes rewritten bytes to `output`.
    pub fn new(host: Rc<H>, output: JsRef) -> (res: Result<Self, Error>)
        ensures
            res matches Ok(engine) && engine.wf() && engine.state() == (EngineState {
                host: host.identity(),
                output: Some(output),
                rules: Seq::empty(),
                documents: Seq::empty(),
                rewriter: None,
                started: false,
                active: false,
            }),
    {
        Ok(
            HtmlRewriterEngine {
                host,
                output: Some(output),
                rules: Vec::new(),
                document_handlers: Vec::new(),
                inner: None,
                started: false,
                active: false,
            },
        )
    }

    /// Whether the engine can take a write or an end.
    pub fn is_ready(&self) -> (res: bool)
        requires
            self.wf(),
        ensures
            res == self.state().ready(),
    {
        match &self.inner {
            Some(rewriter) => !rewriter.has_failed() && !rewriter.has_ended(),
            None => !self.started,
        }
    }

    /// Whether a write failed, so that the document cannot go on.
    pub fn is_broken(&self) -> (res: bool)
        requires
            self.wf(),
        ensures
            res == self.state().broken(),
    {
        match &self.inner {
            Some(rewriter) => rewriter.has_failed() && !rewriter.has_ended(),
            None => false,
        }
    }

    /// Whether the engine is processing.
    pub fn is_active(&self) -> (res: bool)
        ensures
            res == self.state().active,
    {
        self.active
    }

    /// Marks the engine as processing, or refuses if it already is: then a
    /// handler drives the engine that called it.
    pub fn enter(&mut self) -> (res: Result<(), Error>)
        ensures
            old(self).wf() ==> final(self).wf(),
            old(self).state().active ==> {
                &&& fails_with(res, REENTRANT@)
                &&& *final(self) == *old(self)
            },
            !old(self).state().active ==> {
                &&& res is Ok
                &&& final(self).state() == (EngineState { active: true, ..old(self).state() })
            },
    {
        if self.active {
            return Err(Error::new(REENTRANT));
        }
        self.active = true;
        Ok(())
    }

    /// Marks the engine as no longer processing.
    pub fn leave(&mut self)
        ensures
            old(self).wf() && !old(self).state().away() ==> final(self).wf(),
            final(self).state() == (EngineState { active: false, ..old(self).state() }),
    {
        self.active = false;
    }

    /// Succeeds exactly until the rewriter is made.
    pub fn ensure_not_started(&self) -> (res: Result<(), Error>)
        ensures
            self.state().started ==> fails_with(res, ALREADY_STARTED@),
            !self.state().started ==> res is Ok,
    {
        if self.started {
            Err(Error::new(ALREADY_STARTED))
        } else {
            Ok(())
        }
    }

    /// Registers handlers for the elements that `selector` matches.
    ///
    /// A registration after the first write is refused, whatever the selector.
    pub fn on(&mut self, selector: String, handlers: ElementHandlers) -> (res: Result<(), Error>)
        ensures
            old(self).wf() ==> final(self).wf(),
            old(self).state().started ==> {
                &&& fails_with(res, ALREADY_STARTED@)
                &&& final(self).state() == old(self).state()
            },
            !old(self).state().started ==> exists|parsed: Result<Selector, Error>| #[trigger]
                reads_as(selector@, parsed) && old(self).state().registered(
                    parsed,
                    handlers,
                    res,
                    final(self).state(),
                ),
    {
        self.ensure_not_started()?;
        let parsed = parse_selector(selector.as_str());
        self.on_parsed(parsed, handlers)
    }

    /// Before the first write, a selector without parentheses that `lol_html` can read is
    /// registered, as one rule behind all others, and one that it cannot read is refused
    /// and changes nothing.
    pub proof fn law_readable_selectors_are_registered()
        ensures
            forall|engine: &mut Self, text: String, handlers: ElementHandlers, res: Result<(), Error>|
                #![trigger call_ensures(Self::on, (engine, text, handlers), res)]
                call_ensures(Self::on, (engine, text, handlers), res) && !engine.state().started
                    && lacks(text@, '(') ==> match selector_parse(text@) {
                    Ok(selector) => {
                        let rules = final(engine).state().rules;
                        &&& res is Ok
                        &&& rules.len() == engine.state().rules.len() + 1
                        &&& rules.drop_last() == engine.state().rules
                        &&& rules.last().0 == selector
                        &&& rules.last().1 == handlers.through(engine.state().host)
                    },
                    Err(_) => res is Err && final(engine).state() == engine.state(),
                },
    {
        assert forall|
            engine: &mut Self,
            text: String,
            handlers: ElementHandlers,
            res: Result<(), Error>,
        | #[trigger]
            call_ensures(Self::on, (engine, text, handlers), res) && !engine.state().started
                && lacks(text@, '(') implies match selector_parse(text@) {
            Ok(selector) => {
                let rules = final(engine).state().rules;
                &&& res is Ok
                &&& rules.len() == engine.state().rules.len() + 1
                &&& rules.drop_last() == engine.state().rules
                &&& rules.last().0 == selector
                &&& rules.last().1 == handlers.through(engine.state().host)
            },
            Err(_) => res is Err && final(engine).state() == engine.state(),
        } by {
            law_parts_are_misplaced_in_parentheses_only(text@);
            if let Ok(selector) = selector_parse(text@) {
                assert(engine.state().rules.push(
                    (selector, handlers.through(engine.state().host)),
                ).drop_last() =~= engine.state().rules);
            }
        }
    }

    /// Registers handlers for the elements that a selector matches that has
    /// been read already; a failure to read it is handed on.
    pub fn on_parsed(&mut self, parsed: Result<Selector, Error>, handlers: ElementHandlers) -> (res:
        Result<(), Error>)
        ensures
            old(self).wf() ==> final(self).wf(),
            old(self).state().registered(parsed, handlers, res, final(self).state()),
    {
        self.ensure_not_started()?;
        let selector = parsed?;
        let bundle = ElementContentHandlers::of(&self.host, handlers);
        self.rules.push((selector, bundle));
        proof {
            assert(rule_states(self.rules@) =~= old(self).state().rules.push(
                (selector, handlers.through(self.host.identity())),
            ));
        }
        Ok(())
    }

    /// Registers handlers for the document.
    pub fn on_document(&mut self, handlers: DocumentHandlers) -> (res: Result<(), Error>)
        ensures
            old(self).wf() ==> final(self).wf(),
            old(self).state().started ==> {
                &&& fails_with(res, ALREADY_STARTED@)
                &&& final(self).state() == old(self).state()
            },
            !old(self).state().started ==> {
                &&& res is Ok
                &&& final(self).state() == (EngineState {
                    documents: old(self).state().documents.push(
                        handlers.through(old(self).state().host),
                    ),
                    ..old(self).state()
                })
            },
    {
        self.ensure_not_started()?;
        let bundle = DocumentContentHandlers::of(&self.host, handlers);
        self.document_handlers.push(bundle);
        proof {
            assert(document_states(self.document_handlers@) =~= old(self).state().documents.push(
                handlers.through(self.host.identity()),
            ));
        }
        Ok(())
    }

    /// Sees to it that there is a rewriter, and makes it if need be. It gets the
    /// output callback and all handlers in the order of their registration.
    ///
    /// There is none after the end of the document, nor while it is processing.
    pub fn ensure_started(&mut self) -> (res: Result<(), Error>)
        requires
            old(self).wf(),
        ensures
            final(self).wf(),
            old(self).state().ended() ==> {
                &&& fails_with(res, ALREADY_FINALIZED@)
                &&& final(self).state() == old(self).state()
            },
            old(self).state().away() ==> {
                &&& fails_with(res, REENTRANT@)
                &&& final(self).state() == old(self).state()
            },
            !old(self).state().ended() && !old(self).state().away() ==> {
                &&& res is Ok
                &&& final(self).state() == old(self).state().start()
                &&& final(self).state().rewriter is Some
            },
    {
        if self.started {
            return match &self.inner {
                Some(rewriter) => if rewriter.has_ended() {
                    Err(Error::new(ALREADY_FINALIZED))
                } else {
                    Ok(())
                },
                None => Err(Error::new(REENTRANT)),
            };
        }
        let output = match self.output.take() {
            Some(output) => output,
            None => return Err(Error::new(ALREADY_FINALIZED)),
        };
        let settings = self.take_settings();
        let sink = JsOutputSink { func: output, host: Rc::clone(&self.host) };
        self.inner = Some(Rewriter::new(settings, sink));
        self.started = true;
        Ok(())
    }

    /// Moves all handlers to settings, in the order of their registration.
    fn take_settings(&mut self) -> (res: Settings)
        ensures
            settings_state(res) == (SettingsState {
                rules: old(self).state().rules,
                documents: old(self).state().documents,
            }),
            final(self).state() == (EngineState {
                rules: Seq::empty(),
                documents: Seq::empty(),
                ..old(self).state()
            }),
            final(self).inner == old(self).inner,
    {
        let mut rules: Vec<(Selector, ElementContentHandlers)> = Vec::new();
        std::mem::swap(&mut rules, &mut self.rules);
        let mut bundles: Vec<DocumentContentHandlers> = Vec::new();
        std::mem::swap(&mut bundles, &mut self.document_handlers);

        let mut settings = settings_new();
        for rule in it: rules.into_iter()
            invariant
                settings_state(settings).rules =~= rule_states(it.seq().take(it.index() as int)),
                settings_state(settings).documents.len() == 0,
        {
            let (selector, bundle) = rule;
            settings = settings_append_element(settings, selector, bundle);
        }
        for bundle in it: bundles.into_iter()
            invariant
                settings_state(settings).rules == old(self).state().rules,
                settings_state(settings).documents =~= document_states(
                    it.seq().take(it.index() as int),
                ),
        {
            settings = settings_append_document(settings, bundle);
        }
        settings
    }

    /// Marks the engine as processing and takes its rewriter out to process,
    /// made first if need be.
    pub fn begin(&mut self) -> (res: Result<Rewriter, Error>)
        requires
            old(self).wf(),
            old(self).state().active || !old(self).state().broken(),
        ensures
            final(self).wf(),
            old(self).state().active ==> {
                &&& fails_with(res, REENTRANT@)
                &&& final(self).state() == old(self).state()
            },
            !old(self).state().active && old(self).state().ended() ==> {
                &&& fails_with(res, ALREADY_FINALIZED@)
                &&& final(self).state() == old(self).state()
            },
            !old(self).state().active && !old(self).state().ended() ==> {
                &&& res matches Ok(rewriter)
                &&& rewriter.wf()
                &&& rewriter.state() == old(self).state().working()
                &&& final(self).state() == old(self).state().begin()
            },
    {
        self.enter()?;
        match self.ensure_started() {
            Ok(()) => Ok(self.inner.take().unwrap()),
            Err(e) => {
                self.leave();
                Err(e)
            },
        }
    }

    /// Takes the rewriter back that processed.
    pub fn resume(&mut self, rewriter: Rewriter)
        requires
            old(self).wf(),
            old(self).state().active,
            old(self).state().away(),
            rewriter.wf(),
        ensures
            final(self).wf(),
            final(self).state() == (EngineState {
                rewriter: Some(rewriter.state()),
                active: false,
                ..old(self).state()
            }),
    {
        self.inner = Some(rewriter);
        self.leave();
    }

    /// Feeds the next bytes of the document through the rewriter, which is made
    /// on the first write.
    ///
    /// A call while the engine is processing and one after the end of the document
    /// are refused and change nothing.
    pub fn write(&mut self, chunk: &[u8]) -> (res: Result<(), Error>)
        requires
            old(self).wf(),
            old(self).state().active || !old(self).state().broken(),
        ensures
            final(self).wf(),
            old(self).state().active ==> {
                &&& fails_with(res, REENTRANT@)
                &&& final(self).state() == old(self).state()
            },
            !old(self).state().active && old(self).state().ended() ==> {
                &&& fails_with(res, ALREADY_FINALIZED@)
                &&& final(self).state() == old(self).state()
            },
            !old(self).state().active && !old(self).state().ended() ==> {
                let before = old(self).state().working();
                &&& Rewriter::write_gave(before, chunk, res)
                &&& final(self).state().rewriter matches Some(after)
                &&& passes_on(before, after, res is Ok)
                &&& final(self).state() == old(self).state().write(
                    chunk@,
                    res is Err,
                    after.emitted,
                )
            },
    {
        let mut rewriter = self.begin()?;
        let res = rewriter.write(chunk);
        self.resume(rewriter);
        res
    }

    /// Finishes the document. The engine takes no write or end after that.
    ///
    /// A call while the engine is processing and one after the end of the document
    /// are refused and change nothing.
    pub fn end(&mut self) -> (res: Result<(), Error>)
        requires
            old(self).wf(),
            old(self).state().active || !old(self).state().broken(),
        ensures
            final(self).wf(),
            old(self).state().active ==> {
                &&& fails_with(res, REENTRANT@)
                &&& final(self).state() == old(self).state()
            },
            !old(self).state().active && old(self).state().ended() ==> {
                &&& fails_with(res, ALREADY_FINALIZED@)
                &&& final(self).state() == old(self).state()
            },
            !old(self).state().active && !old(self).state().ended() ==> {
                let before = old(self).state().working();
                &&& Rewriter::end_gave(before, res)
                &&& final(self).state().rewriter matches Some(after)
                &&& passes_on(before, after, res is Ok)
                &&& final(self).state() == old(self).state().end(res is Err, after.emitted)
            },
    {
        let mut rewriter = self.begin()?;
        let res = rewriter.end();
        self.resume(rewriter);
        res
    }
}

} // verus!

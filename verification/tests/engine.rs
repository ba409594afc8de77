use lol_html::errors::{MemoryLimitExceededError, RewritingError};
use nub::html_rewriter::engine::HtmlRewriterEngine;
use nub::html_rewriter::error::{map_err, Error, Exception};
use nub::html_rewriter::handlers::{DocumentHandlers, ElementHandlers};
use nub::html_rewriter::rewriter::{rewriting_error, surface, JsOutputSink};
use nub::html_rewriter::selector::{finds_misplaced_part, parse_selector};
use nub::html_rewriter::token::{JsRef, ScriptHost, Token};
use std::cell::RefCell;
use std::rc::Rc;
use std::sync::mpsc::SendError;

/// Logs every call; raises what `raises` says.
#[derive(Clone)]
struct Host {
    chunks: Rc<RefCell<Vec<(u64, Vec<u8>)>>>,
    log: Rc<RefCell<Vec<String>>>,
    raises: Option<(u64, u64)>,
    output_fails: bool,
    nested: bool,
}

impl ScriptHost for Host {
    fn identity(&self) -> u64 {
        1
    }

    fn call(&self, func: JsRef, token: &mut Token<'_, '_, '_>) -> Result<(), Exception> {
        let what = match token {
            Token::Element(el) => format!("element {}", el.tag_name().unwrap()),
            Token::EndTag(end) => format!("end tag {}", end.name().unwrap()),
            Token::Text(t) => format!("text {}", t.text().unwrap()),
            Token::Comment(c) => format!("comment {}", c.text().unwrap()),
            Token::Doctype(d) => format!("doctype {:?}", d.name().unwrap()),
            Token::End(_) => String::from("end"),
        };
        self.log.borrow_mut().push(format!("{}: {}", func.id, what));
        if self.nested {
            let inner = Host::new();
            let mut engine = HtmlRewriterEngine::new(Rc::new(inner.clone()), JsRef { id: 7 }).unwrap();
            engine.on("b".into(), element(1)).unwrap();
            engine.write(b"<b>in</b>").unwrap();
            engine.end().unwrap();
            self.log.borrow_mut().extend(inner.log());
            self.log.borrow_mut().push(inner.text());
        }
        match self.raises {
            Some((id, exception)) if id == func.id => Err(Exception { id: exception }),
            _ => Ok(()),
        }
    }

    fn output(&self, func: JsRef, chunk: &[u8]) -> Result<(), Exception> {
        self.chunks.borrow_mut().push((func.id, chunk.to_vec()));
        if self.output_fails {
            Err(Exception { id: 1 })
        } else {
            Ok(())
        }
    }
}

impl Host {
    fn new() -> Host {
        Host {
            chunks: Rc::new(RefCell::new(Vec::new())),
            log: Rc::new(RefCell::new(Vec::new())),
            raises: None,
            output_fails: false,
            nested: false,
        }
    }

    fn engine(&self) -> HtmlRewriterEngine<Host> {
        HtmlRewriterEngine::new(Rc::new(self.clone()), JsRef { id: 9 }).unwrap()
    }

    fn log(&self) -> Vec<String> {
        self.log.borrow().clone()
    }

    fn text(&self) -> String {
        let chunks = self.chunks.borrow();
        String::from_utf8(chunks.iter().flat_map(|c| c.1.clone()).collect()).unwrap()
    }
}

fn element(id: u64) -> ElementHandlers {
    ElementHandlers { element: Some(JsRef { id }), comments: None, text: None }
}

fn reason<T>(res: Result<T, Error>) -> String {
    match res {
        Err(Error::GenericFailure(reason)) => reason,
        Err(Error::Raised(e)) => panic!("raised {e:?}"),
        Ok(_) => panic!("did not fail"),
    }
}

fn raised<T>(res: Result<T, Error>) -> u64 {
    match res {
        Err(Error::Raised(e)) => e.id,
        Err(Error::GenericFailure(reason)) => panic!("{reason}"),
        Ok(_) => panic!("did not fail"),
    }
}

const LATE: &str = "Handlers cannot be added after the first write().";
const OVER: &str = "HTMLRewriter already finalized.";
const BUSY: &str = "HTMLRewriter is already processing; cannot write() or transform() re-entrantly from within a handler on the same instance.";

#[test]
fn a_document_without_handlers_passes_unchanged() {
    let host = Host::new();
    let mut engine = host.engine();
    assert!(engine.is_ready());
    let html = "<!doctype html><p a=b>x &amp; y<br></P><!--c-->";
    engine.write(html.as_bytes()).unwrap();
    assert!(engine.is_ready());
    engine.end().unwrap();
    assert!(!engine.is_ready());
    assert_eq!(host.text(), html);
    assert!(host.chunks.borrow().iter().all(|c| c.0 == 9));
}

#[test]
fn an_engine_that_has_ended_refuses_to_go_on() {
    let host = Host::new();
    let mut engine = host.engine();
    engine.on("p".into(), element(1)).unwrap();
    engine.write(b"<p>x</p>").unwrap();
    engine.end().unwrap();
    assert_eq!(reason(engine.ensure_started()), OVER);
    assert_eq!(reason(engine.write(b"<p>")), OVER);
    assert!(!engine.is_active());
    assert_eq!(reason(engine.end()), OVER);
    assert_eq!(reason(engine.begin()), OVER);
    assert!(!engine.is_active() && !engine.is_broken() && !engine.is_ready());
    assert_eq!(host.text(), "<p>x</p>");
    assert_eq!(host.log(), ["1: element p"]);
}

#[test]
fn an_end_that_fails_is_an_end() {
    let mut host = Host::new();
    host.raises = Some((2, 3));
    let mut engine = host.engine();
    let end = Some(JsRef { id: 2 });
    engine
        .on_document(DocumentHandlers { doctype: None, comments: None, text: None, end })
        .unwrap();
    assert_eq!(raised(engine.end()), 3);
    assert_eq!(reason(engine.end()), OVER);
    assert_eq!(host.log(), ["2: end"]);
}

#[test]
fn chunks_add_up_to_the_document() {
    let html = "<div><p>one</p><!-- two --><p>three</p></div>";
    let mut outputs = Vec::new();
    for size in [1, 3, 7, html.len()] {
        let host = Host::new();
        let mut engine = host.engine();
        engine.on("p".into(), element(1)).unwrap();
        for chunk in html.as_bytes().chunks(size) {
            engine.write(chunk).unwrap();
        }
        engine.end().unwrap();
        outputs.push((host.text(), host.log()));
    }
    for (text, log) in outputs {
        assert_eq!(text, html);
        assert_eq!(log, ["1: element p", "1: element p"]);
    }
}

#[test]
fn output_comes_as_soon_as_it_exists() {
    let host = Host::new();
    let mut engine = host.engine();
    engine.write(b"<p>one</p>").unwrap();
    assert_eq!(host.text(), "<p>one</p>");
    engine.write(b"<p>two</p>").unwrap();
    assert_eq!(host.text(), "<p>one</p><p>two</p>");
    engine.end().unwrap();
}

#[test]
fn handlers_fire_in_the_order_of_registration() {
    let host = Host::new();
    let mut engine = host.engine();
    engine.on("p".into(), element(3)).unwrap();
    engine.on("b".into(), element(4)).unwrap();
    engine.on("*".into(), element(1)).unwrap();
    engine.on("p".into(), element(2)).unwrap();
    engine.write(b"<p></p>").unwrap();
    engine.end().unwrap();
    assert_eq!(host.log(), ["3: element p", "1: element p", "2: element p"]);
}

#[test]
fn each_kind_of_handler_gets_its_own_units() {
    let host = Host::new();
    let mut engine = host.engine();
    let func = |id| Some(JsRef { id });
    engine
        .on(
            "p".into(),
            ElementHandlers { element: func(1), comments: func(2), text: func(3) },
        )
        .unwrap();
    engine
        .on_document(DocumentHandlers {
            doctype: func(4),
            comments: func(5),
            text: None,
            end: func(6),
        })
        .unwrap();
    engine
        .on_document(DocumentHandlers { doctype: None, comments: None, text: func(8), end: None })
        .unwrap();
    engine.write(b"<!doctype html><p>t<!--c--></p>").unwrap();
    engine.end().unwrap();
    assert_eq!(
        host.log(),
        [
            "4: doctype Some(\"html\")",
            "1: element p",
            "3: text t",
            "8: text t",
            "3: text ",
            "8: text ",
            "2: comment c",
            "5: comment c",
            "6: end",
        ]
    );
}

#[test]
fn registration_ends_with_the_first_write() {
    let host = Host::new();
    let mut engine = host.engine();
    engine.on("p".into(), element(1)).unwrap();
    engine.ensure_not_started().unwrap();
    engine.write(b"<p>").unwrap();
    let none = DocumentHandlers { doctype: None, comments: None, text: None, end: None };
    assert_eq!(reason(engine.ensure_not_started()), LATE);
    assert_eq!(reason(engine.on("b".into(), element(2))), LATE);
    assert_eq!(reason(engine.on("".into(), element(2))), LATE);
    assert_eq!(reason(engine.on_document(none)), LATE);
    engine.write(b"<b>").unwrap();
    engine.end().unwrap();
    assert_eq!(reason(engine.on("b".into(), element(2))), LATE);
    assert_eq!(host.log(), ["1: element p"]);
}

#[test]
fn an_end_without_a_write_starts_and_ends() {
    let host = Host::new();
    let mut engine = host.engine();
    engine
        .on_document(DocumentHandlers {
            doctype: None,
            comments: None,
            text: None,
            end: Some(JsRef { id: 2 }),
        })
        .unwrap();
    engine.end().unwrap();
    assert_eq!(host.log(), ["2: end"]);
    assert!(!engine.is_ready());
    assert_eq!(reason(engine.ensure_not_started()), LATE);
}

#[test]
fn selectors_are_read_or_refused_with_the_reason() {
    let host = Host::new();
    let mut engine = host.engine();
    assert_eq!(reason(engine.on("".into(), element(1))), "The selector is empty.");
    assert_eq!(reason(engine.on("div >".into(), element(1))), "Dangling combinator in selector.");
    assert_eq!(
        reason(engine.on("a::before".into(), element(1))),
        "Unsupported pseudo-class or pseudo-element in selector."
    );
    assert_eq!(
        reason(engine.on("a ~ b".into(), element(1))),
        "Unsupported combinator `~` in selector."
    );
    engine.on("p.x > b".into(), element(2)).unwrap();
    engine.write(b"<p class=x><b></b></p><p><b></b></p>").unwrap();
    engine.end().unwrap();
    assert_eq!(host.log(), ["2: element b"]);
}

#[test]
fn misplaced_parts_of_a_selector_are_refused() {
    for text in [
        "div:not(::before)",
        "div:not(a, b:BEFORE)",
        "div:not(:first-line)",
        "div:NOT(p:not(x:/* - */:after))",
        "div:not(:after(2))",
        "div:not([a=\")\"]::before)",
        ":host(::after)",
        ":host(a b)",
        ":host(a > b)",
        ":host(:not(a b))",
        "div:n\\6ft(::before)",
        "div:not(:first\\-letter)",
        "div:not(:\\62 efore)",
        ":no\\74 (::a)",
        ":no\\74\r\n(::a)",
        ":n\\6f t(::a)",
        ":\\00006eot(::a)",
        ":hos\\74 (a b)",
        ":not(:before/**/x)",
        ":not(b:first-line\\\r\n)",
        ":host(a +1)",
        ":host(a+/**/1)",
        ":host(a+\\31 )",
        ":host(a~/**/=b)",
        ":host(:not(a /))",
        "..:not(::b)",
    ] {
        assert!(finds_misplaced_part(text), "{text}");
        assert_eq!(reason(parse_selector(text)), "Unsupported syntax in selector.", "{text}");
        let mut engine = Host::new().engine();
        assert_eq!(
            reason(engine.on(text.into(), element(1))),
            "Unsupported syntax in selector.",
            "{text}"
        );
    }
}

#[test]
fn parts_in_their_place_are_not_taken_for_misplaced_ones() {
    for text in [
        "p",
        "a > b c",
        "p:not(.x)",
        "p:not(:first-child)",
        "p:not(:nth-child(2n + 1), .y)",
        "p:not(:not(.x:first-of-type))",
        "p:nth-child( 2 )",
        "a:not([href*=\"x::before\"])",
        "a:not([href=':after'])",
        "a:not(.md\\:before)",
        "a:not(:first\\-child)",
        "a:not(:first\\2d child)",
        ":not(:\\66irst-child)",
        "p:not(:\\66 irst-child)",
        "p:not(:\\000066irst-child)",
        "a:not(#\\31 23 )",
        "a:not(/* ::before */ .x)",
        "a:not(.before):first-child",
    ] {
        assert!(!finds_misplaced_part(text), "{text}");
        assert!(parse_selector(text).is_ok(), "{text}");
    }
    let unsupported = "Unsupported pseudo-class or pseudo-element in selector.";
    for text in [
        "p::before",
        "p:nth-child(2)::before",
        "p:not(.x):after",
        "p:is(::before)",
        ":host( a )",
        ":host(a) b",
        ":host([a~=\"b c\"])",
        "p:not(a b)",
        "p:is(:not(::a))",
        ":host(:not(a , b))",
    ] {
        assert!(!finds_misplaced_part(text), "{text}");
        assert_eq!(reason(parse_selector(text)), unsupported, "{text}");
    }
    for text in [":host(a~=b)", ":host(a+1)"] {
        assert!(!finds_misplaced_part(text), "{text}");
        assert_eq!(reason(parse_selector(text)), "Unexpected token in selector.", "{text}");
    }
}

#[test]
fn a_selector_can_be_read_first() {
    let host = Host::new();
    let mut engine = host.engine();
    let refused = parse_selector("[]");
    assert!(refused.is_err());
    let failed = engine.on_parsed(Err(Error::new("no")), element(1));
    assert_eq!(reason(failed), "no");
    engine.on_parsed(parse_selector("[id]"), element(2)).unwrap();
    engine.write(b"<p><p id=1>").unwrap();
    assert_eq!(reason(engine.on_parsed(parse_selector("p"), element(3))), LATE);
    assert_eq!(host.log(), ["2: element p"]);
}

#[test]
fn the_exception_of_a_handler_is_handed_on_as_it_is() {
    let mut host = Host::new();
    host.raises = Some((1, 42));
    let mut engine = host.engine();
    engine.on("b".into(), element(1)).unwrap();
    engine.write(b"<p>").unwrap();
    assert!(!engine.is_broken());
    assert_eq!(raised(engine.write(b"<b>")), 42);
    assert!(engine.is_broken() && !engine.is_ready());
    assert_eq!(reason(engine.ensure_not_started()), LATE);
}

#[test]
fn the_exception_of_an_end_handler_is_handed_on_as_it_is() {
    let mut host = Host::new();
    host.raises = Some((6, 43));
    let mut engine = host.engine();
    engine
        .on_document(DocumentHandlers {
            doctype: None,
            comments: None,
            text: None,
            end: Some(JsRef { id: 6 }),
        })
        .unwrap();
    engine.write(b"x").unwrap();
    assert_eq!(raised(engine.end()), 43);
    assert!(!engine.is_ready());
}

#[test]
fn a_failure_of_the_output_callback_is_dropped() {
    let mut host = Host::new();
    host.output_fails = true;
    let mut engine = host.engine();
    engine.write(b"<p>x</p>").unwrap();
    engine.end().unwrap();
    assert_eq!(host.text(), "<p>x</p>");

    let mut sink = JsOutputSink { func: JsRef { id: 3 }, host: Rc::new(host.clone()) };
    sink.handle_chunk(b"yz");
    assert_eq!(host.chunks.borrow().last(), Some(&(3, b"yz".to_vec())));
}

#[test]
fn a_call_while_the_engine_is_processing_is_refused() {
    let host = Host::new();
    let mut engine = host.engine();
    engine.on("p".into(), element(1)).unwrap();
    let mut rewriter = engine.begin().unwrap_or_else(|e| panic!("{e:?}"));
    assert_eq!(reason(engine.write(b"<p>")), BUSY);
    assert_eq!(reason(engine.end()), BUSY);
    assert_eq!(reason(engine.begin()), BUSY);
    assert_eq!(reason(engine.enter()), BUSY);
    assert_eq!(reason(engine.ensure_started()), BUSY);
    assert_eq!(reason(engine.on("p".into(), element(1))), LATE);
    assert!(engine.is_active());
    assert!(!rewriter.has_failed());
    rewriter.write(b"<p>").unwrap();
    engine.resume(rewriter);
    assert!(!engine.is_active());
    engine.write(b"x</p>").unwrap();
    engine.end().unwrap();
    assert_eq!(host.text(), "<p>x</p>");
    assert_eq!(host.log(), ["1: element p"]);
}

#[test]
fn the_engine_is_free_again_after_a_failure() {
    let mut host = Host::new();
    host.raises = Some((1, 2));
    let mut engine = host.engine();
    engine.on("p".into(), element(1)).unwrap();
    assert_eq!(raised(engine.write(b"<p>")), 2);
    engine.enter().unwrap();
    assert_eq!(reason(engine.enter()), BUSY);
    engine.leave();
    engine.enter().unwrap();
}

#[test]
fn starting_twice_changes_nothing() {
    let host = Host::new();
    let mut engine = host.engine();
    engine.ensure_started().unwrap();
    engine.ensure_started().unwrap();
    assert_eq!(reason(engine.ensure_not_started()), LATE);
    engine.write(b"x").unwrap();
    engine.ensure_started().unwrap();
    engine.end().unwrap();
    assert_eq!(host.text(), "x");
}

#[test]
fn a_handler_may_drive_another_engine() {
    let mut host = Host::new();
    host.nested = true;
    let mut engine = host.engine();
    engine.on("p".into(), element(5)).unwrap();
    engine.write(b"<p>out</p>").unwrap();
    engine.end().unwrap();
    assert_eq!(host.text(), "<p>out</p>");
    assert_eq!(host.log(), ["5: element p", "1: element b", "<b>in</b>"]);
}

#[test]
fn an_ambiguous_document_fails_with_the_reason() {
    let host = Host::new();
    let mut engine = host.engine();
    engine.on("*".into(), element(1)).unwrap();
    let text = reason(engine.write(b"<select><xmp></xmp></select>"));
    assert!(
        text.starts_with("The parser has encountered a text content tag (`<xmp>`)"),
        "{text}"
    );
    assert!(!engine.is_ready());
}

#[test]
fn failures_of_the_rewriter_are_surfaced() {
    let raised_by_handler =
        RewritingError::ContentHandlerError(Box::new(SendError(Exception { id: 8 })));
    assert_eq!(raised::<()>(Err(rewriting_error(raised_by_handler))), 8);
    let other = RewritingError::ContentHandlerError("boom".into());
    assert_eq!(reason::<()>(Err(rewriting_error(other))), "boom");
    let memory = RewritingError::MemoryLimitExceeded(MemoryLimitExceededError);
    assert_eq!(reason(surface(Err(memory))), "The memory limit has been exceeded.");
    assert!(surface(Ok(())).is_ok());
}

#[test]
fn causes_are_written_out() {
    assert_eq!(reason::<()>(Err(map_err("why"))), "why");
    assert_eq!(reason::<()>(Err(map_err(17u8))), "17");
}

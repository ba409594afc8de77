use nub::html_rewriter::content::{content_type, ContentTypeOptions};
use nub::html_rewriter::engine::HtmlRewriterEngine;
use nub::html_rewriter::error::{Error, Exception};
use nub::html_rewriter::handlers::{DocumentHandlers, ElementHandlers};
use nub::html_rewriter::token::{dispatch, JsRef, ScriptHost, Token};
use nub::html_rewriter::wrap::NativeRefWrap;
use std::cell::RefCell;
use std::rc::Rc;

type Handler = Rc<dyn Fn(&Host, &mut Token<'_, '_, '_>) -> Result<(), Exception>>;

#[derive(Clone)]
struct Host {
    handlers: Rc<RefCell<Vec<Handler>>>,
    bytes: Rc<RefCell<Vec<u8>>>,
    log: Rc<RefCell<Vec<String>>>,
}

impl ScriptHost for Host {
    fn identity(&self) -> u64 {
        1
    }

    fn call(&self, func: JsRef, token: &mut Token<'_, '_, '_>) -> Result<(), Exception> {
        let handler = self.handlers.borrow()[func.id as usize].clone();
        handler(self, token)
    }

    fn output(&self, _func: JsRef, chunk: &[u8]) -> Result<(), Exception> {
        self.bytes.borrow_mut().extend_from_slice(chunk);
        Ok(())
    }
}

impl Host {
    fn new() -> Host {
        Host {
            handlers: Rc::new(RefCell::new(Vec::new())),
            bytes: Rc::new(RefCell::new(Vec::new())),
            log: Rc::new(RefCell::new(Vec::new())),
        }
    }

    fn keep(
        &self,
        handler: impl Fn(&Host, &mut Token<'_, '_, '_>) -> Result<(), Exception> + 'static,
    ) -> JsRef {
        let mut handlers = self.handlers.borrow_mut();
        handlers.push(Rc::new(handler));
        JsRef { id: handlers.len() as u64 - 1 }
    }

    fn say(&self, line: impl Into<String>) {
        self.log.borrow_mut().push(line.into());
    }

    fn said(&self) -> Vec<String> {
        self.log.borrow().clone()
    }

    fn run(&self, html: &str, register: impl FnOnce(&mut HtmlRewriterEngine<Host>)) -> String {
        let mut engine = HtmlRewriterEngine::new(Rc::new(self.clone()), JsRef { id: 0 }).unwrap();
        register(&mut engine);
        engine.write(html.as_bytes()).unwrap();
        engine.end().unwrap();
        String::from_utf8(self.bytes.borrow().clone()).unwrap()
    }
}

const NO_ELEMENT: ElementHandlers = ElementHandlers { element: None, comments: None, text: None };
const NO_DOCUMENT: DocumentHandlers =
    DocumentHandlers { doctype: None, comments: None, text: None, end: None };

/// Rewrites `html` with an element handler for `selector`.
fn elements(
    html: &str,
    selector: &str,
    handler: impl Fn(&Host, &mut Token<'_, '_, '_>) -> Result<(), Exception> + 'static,
) -> (String, Vec<String>) {
    let host = Host::new();
    let func = host.keep(handler);
    let out = host.run(html, |engine| {
        engine
            .on(selector.into(), ElementHandlers { element: Some(func), ..NO_ELEMENT })
            .unwrap();
    });
    (out, host.said())
}

/// Rewrites `html` with document handlers.
fn documents(
    html: &str,
    pick: impl FnOnce(JsRef) -> DocumentHandlers,
    handler: impl Fn(&Host, &mut Token<'_, '_, '_>) -> Result<(), Exception> + 'static,
) -> (String, Vec<String>) {
    let host = Host::new();
    let func = host.keep(handler);
    let out = host.run(html, |engine| engine.on_document(pick(func)).unwrap());
    (out, host.said())
}

fn html() -> Option<ContentTypeOptions> {
    Some(ContentTypeOptions { html: Some(true) })
}

fn reason<T>(res: Result<T, Error>) -> String {
    match res {
        Err(Error::GenericFailure(reason)) => reason,
        Err(Error::Raised(e)) => panic!("raised {e:?}"),
        Ok(_) => panic!("did not fail"),
    }
}

const EXPIRED: &str = "This content token is no longer valid. Content tokens are only valid during the execution of the relevant content handler.";

#[test]
fn content_is_text_unless_asked_otherwise() {
    let text = |o| matches!(content_type(o), lol_html::html_content::ContentType::Text);
    assert!(text(None));
    assert!(text(Some(ContentTypeOptions { html: None })));
    assert!(text(Some(ContentTypeOptions { html: Some(false) })));
    assert!(!text(html()));
}

#[test]
fn tag_names_read_in_both_cases() {
    let (out, said) = elements("<DiV>x</DiV>", "div", |host, token| {
        if let Token::Element(el) = token {
            host.say(el.tag_name().unwrap());
            host.say(el.tag_name_preserve_case().unwrap());
        }
        Ok(())
    });
    assert_eq!(out, "<DiV>x</DiV>");
    assert_eq!(said, ["div", "DiV"]);
}

#[test]
fn renaming_renames_both_tags_and_reads_back() {
    let (out, said) = elements("<div>x</div>", "div", |host, token| {
        if let Token::Element(el) = token {
            el.set_tag_name("Main".into()).unwrap();
            host.say(el.tag_name().unwrap());
            host.say(el.tag_name_preserve_case().unwrap());
        }
        Ok(())
    });
    assert_eq!(out, "<Main>x</Main>");
    assert_eq!(said, ["main", "Main"]);
}

#[test]
fn bad_tag_names_are_refused_with_the_reason() {
    let (out, said) = elements("<div>x</div>", "div", |host, token| {
        if let Token::Element(el) = token {
            host.say(reason(el.set_tag_name("".into())));
            host.say(reason(el.set_tag_name("1a".into())));
            host.say(reason(el.set_tag_name("a b>c".into())));
        }
        Ok(())
    });
    assert_eq!(out, "<div>x</div>");
    assert_eq!(
        said,
        [
            "Tag name can't be empty.",
            "The first character of the tag name should be an ASCII alphabetical character.",
            "` ` character is forbidden in the tag name",
        ]
    );
}

#[test]
fn namespaces_are_those_of_the_parser() {
    let (_, said) = elements("<p></p><svg><a></a></svg><math></math>", "*", |host, token| {
        if let Token::Element(el) = token {
            host.say(el.namespace_uri().unwrap());
        }
        Ok(())
    });
    assert_eq!(
        said,
        [
            "http://www.w3.org/1999/xhtml",
            "http://www.w3.org/2000/svg",
            "http://www.w3.org/2000/svg",
            "http://www.w3.org/1998/Math/MathML",
        ]
    );
}

#[test]
fn attributes_are_listed_in_order() {
    let (_, said) = elements("<a HREF=/x Title='A &amp; B' hidden>", "a", |host, token| {
        if let Token::Element(el) = token {
            for pair in el.attributes().unwrap() {
                host.say(pair.join("|"));
            }
        }
        Ok(())
    });
    assert_eq!(said, ["href|/x", "title|A &amp; B", "hidden|"]);
}

#[test]
fn attributes_are_found_in_any_case() {
    let (_, said) = elements("<a HREF=/x>", "a", |host, token| {
        if let Token::Element(el) = token {
            host.say(format!("{:?}", el.get_attribute("hReF".into()).unwrap()));
            host.say(format!("{:?}", el.has_attribute("Href".into()).unwrap()));
            host.say(format!("{:?}", el.get_attribute("title".into()).unwrap()));
            host.say(format!("{:?}", el.has_attribute("title".into()).unwrap()));
            host.say(format!("{:?}", el.get_attribute("a=b".into()).unwrap()));
        }
        Ok(())
    });
    assert_eq!(said, ["Some(\"/x\")", "true", "None", "false", "None"]);
}

#[test]
fn a_set_attribute_reads_back_and_keeps_the_others() {
    let (out, said) = elements("<a id=1 CLASS=x title=t>", "a", |host, token| {
        if let Token::Element(el) = token {
            el.set_attribute("Class".into(), "y \"z\"".into()).unwrap();
            el.set_attribute("Data-New".into(), "n".into()).unwrap();
            for name in ["CLASS", "data-new", "id", "title"] {
                host.say(format!("{:?}", el.get_attribute(name.into()).unwrap()));
            }
        }
        Ok(())
    });
    assert_eq!(said, ["Some(\"y \\\"z\\\"\")", "Some(\"n\")", "Some(\"1\")", "Some(\"t\")"]);
    assert_eq!(out, "<a id=1 CLASS=\"y &quot;z&quot;\" title=t data-new=\"n\">");
}

#[test]
fn the_last_attribute_value_stays() {
    let (out, _) = elements("<a>", "a", |_, token| {
        if let Token::Element(el) = token {
            el.set_attribute("id".into(), "1".into()).unwrap();
            el.set_attribute("ID".into(), "2".into()).unwrap();
        }
        Ok(())
    });
    assert_eq!(out, "<a id=\"2\">");
}

#[test]
fn a_leading_byte_order_mark_is_not_read_back() {
    let (_, said) = elements("<a>", "a", |host, token| {
        if let Token::Element(el) = token {
            el.set_attribute("id".into(), "\u{FEFF}\u{FEFF}v".into()).unwrap();
            host.say(el.get_attribute("id".into()).unwrap().unwrap());
            el.set_attribute("\u{FEFF}X".into(), "w".into()).unwrap();
            host.say(el.get_attribute("\u{FEFF}x".into()).unwrap().unwrap());
            host.say(format!("{:?}", el.get_attribute("x".into()).unwrap()));
            host.say(el.attributes().unwrap()[1][0].clone());
        }
        Ok(())
    });
    assert_eq!(said, ["\u{FEFF}v", "w", "None", "x"]);
}

#[test]
fn bad_attribute_names_are_refused_with_the_reason() {
    let (out, said) = elements("<a b=c>", "a", |host, token| {
        if let Token::Element(el) = token {
            host.say(reason(el.set_attribute("".into(), "v".into())));
            host.say(reason(el.set_attribute("a=b/c".into(), "v".into())));
            host.say(reason(el.set_attribute("A=B/C".into(), "v".into())));
        }
        Ok(())
    });
    assert_eq!(out, "<a b=c>");
    assert_eq!(
        said,
        [
            "Attribute name can't be empty.",
            "`=` character is forbidden in the attribute name",
            "`=` character is forbidden in the attribute name",
        ]
    );
}

#[test]
fn a_removed_attribute_is_absent_and_the_others_stay() {
    let (out, said) = elements("<a id=1 ID=2 title=t>", "a", |host, token| {
        if let Token::Element(el) = token {
            el.remove_attribute("Id".into()).unwrap();
            el.remove_attribute("no such".into()).unwrap();
            host.say(format!("{:?}", el.has_attribute("id".into()).unwrap()));
            host.say(format!("{:?}", el.get_attribute("title".into()).unwrap()));
        }
        Ok(())
    });
    assert_eq!(said, ["false", "Some(\"t\")"]);
    assert_eq!(out, "<a title=t>");
}

#[test]
fn insertions_around_an_element_stay_nearest_to_it() {
    let (out, _) = elements("<p>x</p>", "p", |_, token| {
        if let Token::Element(el) = token {
            el.before("1".into(), None).unwrap();
            el.before("2".into(), None).unwrap();
            el.after("3".into(), None).unwrap();
            el.after("4".into(), None).unwrap();
            el.prepend("5".into(), None).unwrap();
            el.prepend("6".into(), None).unwrap();
            el.append("7".into(), None).unwrap();
            el.append("8".into(), None).unwrap();
        }
        Ok(())
    });
    assert_eq!(out, "12<p>65x78</p>43");
}

#[test]
fn inserted_text_is_escaped_and_markup_is_not() {
    let (out, _) = elements("<p>x</p>", "p", |_, token| {
        if let Token::Element(el) = token {
            el.before("<b>&".into(), None).unwrap();
            el.after("<i>".into(), html()).unwrap();
            el.prepend("<u>".into(), Some(ContentTypeOptions { html: Some(false) })).unwrap();
            el.append("<s>".into(), html()).unwrap();
        }
        Ok(())
    });
    assert_eq!(out, "&lt;b&gt;&amp;<p>&lt;u&gt;x<s></p><i>");
}

#[test]
fn inner_content_takes_the_place_of_all_content() {
    let (out, _) = elements("<p>old<b>er</b></p>", "p", |_, token| {
        if let Token::Element(el) = token {
            el.prepend("gone".into(), None).unwrap();
            el.append("gone".into(), None).unwrap();
            el.set_inner_content("first".into(), None).unwrap();
            el.set_inner_content("<new>".into(), None).unwrap();
        }
        Ok(())
    });
    assert_eq!(out, "<p>&lt;new&gt;</p>");
}

#[test]
fn an_element_without_content_takes_none() {
    let (out, said) = elements("<img>", "img", |host, token| {
        if let Token::Element(el) = token {
            el.prepend("1".into(), None).unwrap();
            el.append("2".into(), None).unwrap();
            el.set_inner_content("3".into(), None).unwrap();
            el.after("4".into(), None).unwrap();
            host.say(reason(el.on_end_tag(Rc::new(host.clone()), JsRef { id: 0 })));
        }
        Ok(())
    });
    assert_eq!(out, "<img>4");
    assert_eq!(said, ["img can't have content"]);
}

#[test]
fn replacing_removes_the_element_with_its_content() {
    let (out, said) = elements("a<p>x</p>b", "p", |host, token| {
        if let Token::Element(el) = token {
            host.say(format!("{}", el.removed().unwrap()));
            el.replace("first".into(), None).unwrap();
            el.replace("<hr>".into(), html()).unwrap();
            host.say(format!("{}", el.removed().unwrap()));
        }
        Ok(())
    });
    assert_eq!(out, "a<hr>b");
    assert_eq!(said, ["false", "true"]);
}

#[test]
fn removing_leaves_nothing_but_what_stands_around() {
    let (out, said) = elements("a<p>x</p>b", "p", |host, token| {
        if let Token::Element(el) = token {
            el.before("1".into(), None).unwrap();
            el.remove().unwrap();
            el.set_attribute("id".into(), "1".into()).unwrap();
            el.after("2".into(), None).unwrap();
            host.say(format!("{}", el.removed().unwrap()));
        }
        Ok(())
    });
    assert_eq!(out, "a12b");
    assert_eq!(said, ["true"]);
}

#[test]
fn removing_the_tags_alone_keeps_the_content() {
    let (out, said) = elements("a<p>x<b>y</b></p>b", "p", |host, token| {
        if let Token::Element(el) = token {
            el.remove_and_keep_content().unwrap();
            host.say(format!("{}", el.removed().unwrap()));
        }
        Ok(())
    });
    assert_eq!(out, "ax<b>y</b>b");
    assert_eq!(said, ["true"]);
}

#[test]
fn end_tag_handlers_fire_in_order_at_the_end_tag() {
    let host = Host::new();
    let first = host.keep(|host, token| {
        if let Token::EndTag(end) = token {
            host.say(end.name().unwrap());
            end.set_name("Section".into()).unwrap();
            host.say(end.name().unwrap());
            end.before("1".into(), None).unwrap();
            end.before("2".into(), None).unwrap();
            end.after("<3>".into(), html()).unwrap();
            end.after("4".into(), None).unwrap();
        }
        Ok(())
    });
    let second = host.keep(|host, token| {
        if let Token::EndTag(end) = token {
            host.say(format!("{} {}", end.name().unwrap(), end.removed().unwrap()));
        }
        Ok(())
    });
    let start = host.keep(move |host, token| {
        if let Token::Element(el) = token {
            host.say("start");
            el.on_end_tag(Rc::new(host.clone()), first).unwrap();
            el.on_end_tag(Rc::new(host.clone()), second).unwrap();
        }
        Ok(())
    });
    let out = host.run("<DIV>x</DIV>", |engine| {
        engine
            .on("div".into(), ElementHandlers { element: Some(start), ..NO_ELEMENT })
            .unwrap();
    });
    assert_eq!(out, "<DIV>x12</Section>4<3>");
    assert_eq!(host.said(), ["start", "div", "section", "section false"]);
}

#[test]
fn end_tags_can_be_replaced_and_removed() {
    for (replace, expected) in [(true, "<p>x!"), (false, "<p>x")] {
        let host = Host::new();
        let end = host.keep(move |host, token| {
            if let Token::EndTag(end) = token {
                if replace {
                    end.replace("?".into(), None).unwrap();
                    end.replace("!".into(), None).unwrap();
                } else {
                    end.remove().unwrap();
                }
                host.say(format!("{}", end.removed().unwrap()));
            }
            Ok(())
        });
        let start = host.keep(move |host, token| {
            if let Token::Element(el) = token {
                el.on_end_tag(Rc::new(host.clone()), end).unwrap();
            }
            Ok(())
        });
        let out = host.run("<p>x</p>", |engine| {
            engine
                .on("p".into(), ElementHandlers { element: Some(start), ..NO_ELEMENT })
                .unwrap();
        });
        assert_eq!(out, expected);
        assert_eq!(host.said(), ["true"]);
    }
}

#[test]
fn text_comes_in_fragments_with_a_last_one() {
    let host = Host::new();
    let text = host.keep(|host, token| {
        if let Token::Text(t) = token {
            host.say(format!("{:?} {}", t.text().unwrap(), t.last_in_text_node().unwrap()));
            if t.text().unwrap() == "a&amp;b" {
                t.before("[".into(), None).unwrap();
                t.after("]".into(), None).unwrap();
                t.replace("<i>".into(), html()).unwrap();
                host.say(format!("{}", t.removed().unwrap()));
            } else if t.text().unwrap() == "gone" {
                t.remove().unwrap();
                host.say(format!("{}", t.removed().unwrap()));
            }
        }
        Ok(())
    });
    let out = host.run("<p>a&amp;b</p><p>gone</p>", |engine| {
        engine.on("p".into(), ElementHandlers { text: Some(text), ..NO_ELEMENT }).unwrap();
    });
    assert_eq!(out, "<p>[<i>]</p><p></p>");
    assert_eq!(
        host.said(),
        ["\"a&amp;b\" false", "true", "\"\" true", "\"gone\" false", "true", "\"\" true"]
    );
}

#[test]
fn comments_read_back_what_was_set() {
    let host = Host::new();
    let comment = host.keep(|host, token| {
        if let Token::Comment(c) = token {
            host.say(c.text().unwrap());
            c.set_text("\u{FEFF}new".into()).unwrap();
            host.say(c.text().unwrap());
            c.set_text(" new ".into()).unwrap();
            host.say(c.text().unwrap());
            c.before("(".into(), None).unwrap();
            c.after(")".into(), None).unwrap();
            host.say(format!("{}", c.removed().unwrap()));
        }
        Ok(())
    });
    let out = host.run("<!--x--><p><!-- old --></p>", |engine| {
        engine
            .on("p".into(), ElementHandlers { comments: Some(comment), ..NO_ELEMENT })
            .unwrap();
    });
    assert_eq!(out, "<!--x--><p>(<!-- new -->)</p>");
    assert_eq!(host.said(), [" old ", "new", " new ", "false"]);
}

#[test]
fn comment_texts_that_end_the_comment_are_refused() {
    let (out, said) = documents(
        "<!--keep-->",
        |f| DocumentHandlers { comments: Some(f), ..NO_DOCUMENT },
        |host, token| {
            if let Token::Comment(c) = token {
                for text in ["a-->b", "a--!>", ">a", "->a"] {
                    host.say(reason(c.set_text(text.into())));
                }
                for text in ["a->b", "a>b", "--", "a--! >"] {
                    c.set_text(text.into()).unwrap();
                }
            }
            Ok(())
        },
    );
    assert_eq!(out, "<!--a--! >-->");
    assert_eq!(said, ["Comment text shouldn't contain a comment-closing sequence."; 4]);
}

#[test]
fn comments_can_be_replaced_and_removed() {
    let (out, said) = documents(
        "a<!--x-->b<!--y-->",
        |f| DocumentHandlers { comments: Some(f), ..NO_DOCUMENT },
        |host, token| {
            if let Token::Comment(c) = token {
                if c.text().unwrap() == "x" {
                    c.replace("<".into(), None).unwrap();
                } else {
                    c.remove().unwrap();
                }
                host.say(format!("{}", c.removed().unwrap()));
            }
            Ok(())
        },
    );
    assert_eq!(out, "a&lt;b");
    assert_eq!(said, ["true", "true"]);
}

#[test]
fn doctypes_are_read() {
    let read = |doc: &str| {
        documents(
            doc,
            |f| DocumentHandlers { doctype: Some(f), ..NO_DOCUMENT },
            |host, token| {
                if let Token::Doctype(d) = token {
                    host.say(format!("{:?}", d.name().unwrap()));
                    host.say(format!("{:?}", d.public_id().unwrap()));
                    host.say(format!("{:?}", d.system_id().unwrap()));
                }
                Ok(())
            },
        )
        .1
    };
    assert_eq!(read("<!DOCTYPE HTML>"), ["Some(\"html\")", "None", "None"]);
    assert_eq!(
        read("<!doctype math PUBLIC \"-//W3C\" \"http://x\">"),
        ["Some(\"math\")", "Some(\"-//W3C\")", "Some(\"http://x\")"]
    );
    assert_eq!(read("<!doctype>"), ["None", "None", "None"]);
}

#[test]
fn the_document_end_takes_content_in_order() {
    let (out, said) = documents(
        "<p>x</p>",
        |f| DocumentHandlers { end: Some(f), ..NO_DOCUMENT },
        |host, token| {
            if let Token::End(end) = token {
                end.append("<1>".into(), None).unwrap();
                end.append("<2>".into(), html()).unwrap();
                host.say("end");
            }
            Ok(())
        },
    );
    assert_eq!(out, "<p>x</p>&lt;1&gt;<2>");
    assert_eq!(said, ["end"]);
}

#[test]
fn document_text_is_handled() {
    let (out, _) = documents(
        "x<p>y</p>",
        |f| DocumentHandlers { text: Some(f), ..NO_DOCUMENT },
        |_, token| {
            if let Token::Text(t) = token {
                if !t.last_in_text_node().unwrap() {
                    t.before("*".into(), None).unwrap();
                }
            }
            Ok(())
        },
    );
    assert_eq!(out, "*x<p>*y</p>");
}

#[test]
fn an_expired_element_fails_in_every_method() {
    let (out, said) = elements("<p id=1>x</p>", "p", |host, token| {
        if let Token::Element(el) = token {
            el.poison();
            let s = || String::from("s");
            let func = JsRef { id: 0 };
            for text in [
                reason(el.tag_name()),
                reason(el.set_tag_name(s())),
                reason(el.tag_name_preserve_case()),
                reason(el.namespace_uri()),
                reason(el.attributes()),
                reason(el.get_attribute(s())),
                reason(el.has_attribute(s())),
                reason(el.set_attribute(s(), s())),
                reason(el.remove_attribute(s())),
                reason(el.before(s(), None)),
                reason(el.after(s(), None)),
                reason(el.prepend(s(), None)),
                reason(el.append(s(), None)),
                reason(el.set_inner_content(s(), None)),
                reason(el.replace(s(), None)),
                reason(el.remove()),
                reason(el.remove_and_keep_content()),
                reason(el.removed()),
                reason(el.on_end_tag(Rc::new(host.clone()), func)),
            ] {
                host.say(text);
            }
        }
        Ok(())
    });
    assert_eq!(out, "<p id=1>x</p>");
    assert_eq!(said, vec![EXPIRED; 19]);
}

#[test]
fn expired_end_tags_fail_in_every_method() {
    let host = Host::new();
    let end = host.keep(|host, token| {
        if let Token::EndTag(end) = token {
            end.poison();
            let s = || String::from("s");
            for text in [
                reason(end.name()),
                reason(end.set_name(s())),
                reason(end.before(s(), None)),
                reason(end.after(s(), None)),
                reason(end.replace(s(), None)),
                reason(end.remove()),
                reason(end.removed()),
            ] {
                host.say(text);
            }
        }
        Ok(())
    });
    let start = host.keep(move |host, token| {
        if let Token::Element(el) = token {
            el.on_end_tag(Rc::new(host.clone()), end).unwrap();
        }
        Ok(())
    });
    let out = host.run("<p>x</p>", |engine| {
        engine.on("p".into(), ElementHandlers { element: Some(start), ..NO_ELEMENT }).unwrap();
    });
    assert_eq!(out, "<p>x</p>");
    assert_eq!(host.said(), vec![EXPIRED; 7]);
}

#[test]
fn expired_document_tokens_fail_in_every_method() {
    let (out, said) = documents(
        "<!doctype html>x<!--c-->",
        |f| DocumentHandlers {
            doctype: Some(f),
            comments: Some(f),
            text: Some(f),
            end: Some(f),
        },
        |host, token| {
            token.poison();
            let s = || String::from("s");
            match token {
                Token::Doctype(d) => {
                    host.say(reason(d.name()));
                    host.say(reason(d.public_id()));
                    host.say(reason(d.system_id()));
                }
                Token::Comment(c) => {
                    host.say(reason(c.text()));
                    host.say(reason(c.set_text(s())));
                    host.say(reason(c.before(s(), None)));
                    host.say(reason(c.after(s(), None)));
                    host.say(reason(c.replace(s(), None)));
                    host.say(reason(c.remove()));
                    host.say(reason(c.removed()));
                }
                Token::Text(t) => {
                    host.say(reason(t.text()));
                    host.say(reason(t.last_in_text_node()));
                    host.say(reason(t.before(s(), None)));
                    host.say(reason(t.after(s(), None)));
                    host.say(reason(t.replace(s(), None)));
                    host.say(reason(t.remove()));
                    host.say(reason(t.removed()));
                }
                Token::End(e) => host.say(reason(e.append(s(), None))),
                _ => panic!("unexpected token"),
            }
            Ok(())
        },
    );
    assert_eq!(out, "<!doctype html>x<!--c-->");
    assert_eq!(said, vec![EXPIRED; 25]);
}

#[test]
fn a_token_expires_when_its_handler_is_done() {
    let host = Host::new();
    let inner = host.keep(|host, token| {
        if let Token::Element(el) = token {
            host.say(el.tag_name().unwrap());
        }
        Err(Exception { id: 5 })
    });
    let outer = host.keep(move |host, token| {
        assert_eq!(dispatch(host, inner, token), Err(Exception { id: 5 }));
        if let Token::Element(el) = token {
            host.say(reason(el.tag_name()));
        }
        Ok(())
    });
    host.run("<p>x</p>", |engine| {
        engine.on("p".into(), ElementHandlers { element: Some(outer), ..NO_ELEMENT }).unwrap();
    });
    assert_eq!(host.said(), ["p", EXPIRED]);
}

#[test]
fn a_wrap_changes_what_it_wraps_until_it_is_poisoned() {
    let mut x: u8 = 5;
    let mut wrap = NativeRefWrap::wrap(&mut x);
    **wrap.get_mut().unwrap() = 7;
    assert!(wrap.check().is_ok());
    assert_eq!(**wrap.get().unwrap(), 7);
    wrap.poison();
    assert_eq!(reason(wrap.check()), EXPIRED);
    assert_eq!(reason(wrap.get()), EXPIRED);
    assert_eq!(reason(wrap.get_mut()), EXPIRED);
    assert_eq!(x, 7);
}

#[test]
fn a_taken_token_works_in_the_place_of_the_first() {
    let (out, said) = elements("<p>x</p>", "p", |host, token| {
        if let Token::Element(el) = token {
            let mut taken = el.take();
            host.say(reason(el.tag_name()));
            taken.set_tag_name("q".into()).unwrap();
            host.say(taken.tag_name().unwrap());
        }
        Ok(())
    });
    assert_eq!(out, "<q>x</q>");
    assert_eq!(said, [EXPIRED, "q"]);
}

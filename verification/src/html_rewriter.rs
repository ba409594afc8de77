//! A streaming HTML rewriter driven by the handlers of a script host.
//!
//! An [`HtmlRewriterEngine`](engine::HtmlRewriterEngine) collects handlers for
//! CSS selectors and for the document, then feeds the document through
//! `lol_html` chunk by chunk. Each unit that a handler asked for reaches the
//! host as a [`Token`](token::Token), which is valid during that one call
//! only. Rewritten bytes go to the host as soon as they exist; the engine
//! never holds the whole document.
//!
//! Everything runs synchronously on the caller's thread. A handler cannot
//! drive the engine that called it: such a call is refused.
pub mod comment;
pub mod content;
pub mod doctype;
pub mod document_end;
pub mod element;
pub mod end_tag;
pub mod engine;
pub mod error;
pub mod handlers;
pub mod laws;
pub mod model;
pub mod native;
pub mod rewriter;
pub mod selector;
pub mod selector_laws;
pub mod text_chunk;
pub mod token;
pub mod wrap;

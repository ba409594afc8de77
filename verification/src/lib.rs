//! Two verified building blocks of a JavaScript runtime.
//!
//! [`html_rewriter`] is a streaming HTML rewriter: an engine that feeds a
//! document through `lol_html` and hands the matched elements, comments, text
//! chunks, doctypes and the document end to handlers of a script host.
//!
//! [`backend`] decides which sandbox axes a host enforces for a child process
//! and reports every axis that it does not.
pub mod backend;
pub mod html_rewriter;
pub mod policy;
pub mod text;

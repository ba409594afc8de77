//! How inserted content is to be read.
use vstd::prelude::*;

use crate::html_rewriter::model::Chunk;
use lol_html::html_content::ContentType;

verus! {

/// `lol_html::html_content::ContentType`: markup that is inserted as it is, or
/// text that is escaped first.
#[verifier::external_type_specification]
pub struct ExContentType(lol_html::html_content::ContentType);

/// The optional trailing argument of the methods that insert content.
#[derive(Debug, Clone, Copy, PartialEq, Eq, Structural)]
pub struct ContentTypeOptions {
    /// Whether the content is markup; absent means that it is text.
    pub html: Option<bool>,
}

/// Whether the options ask for markup.
pub open spec fn asks_for_html(options: Option<ContentTypeOptions>) -> bool {
    options matches Some(o) && o.html == Some(true)
}

/// The piece of content that `content` is under `options`.
pub open spec fn chunk(content: Seq<char>, options: Option<ContentTypeOptions>) -> Chunk {
    Chunk { text: content, html: asks_for_html(options) }
}

/// How content is to be read under `options`: as markup only if they say so.
pub fn content_type(options: Option<ContentTypeOptions>) -> (res: ContentType)
    ensures
        res is Html <==> asks_for_html(options),
        res is Text <==> !asks_for_html(options),
{
    match options {
        Some(ContentTypeOptions { html: Some(true) }) => ContentType::Html,
        _ => ContentType::Text,
    }
}

} // verus!

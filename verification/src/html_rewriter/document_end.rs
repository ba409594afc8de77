//! The end of a document.
use vstd::prelude::*;

use crate::html_rewriter::content::{chunk, content_type, ContentTypeOptions};
use crate::html_rewriter::error::{expired, Error};
use crate::html_rewriter::model::Chunk;
use crate::html_rewriter::native::appended;
use crate::html_rewriter::wrap::NativeRefWrap;
use lol_html::html_content::DocumentEnd as NativeDocumentEnd;

verus! {

/// The end of a document, for the time of one handler call.
pub struct DocumentEnd<'a, 'i> {
    wrap: NativeRefWrap<&'a mut NativeDocumentEnd<'i>>,
}

impl<'a, 'i> DocumentEnd<'a, 'i> {
    /// Whether the end can still be reached.
    pub closed spec fn live(self) -> bool {
        self.wrap.live()
    }

    /// The access to the end; meaningless once it was taken away.
    pub closed spec fn reference(self) -> &'a mut NativeDocumentEnd<'i> {
        self.wrap.unit()
    }

    /// What has been appended, in order; meaningless once it cannot be reached.
    pub open spec fn state(self) -> Seq<Chunk> {
        appended(*self.reference())
    }

    /// Gives access to `unit`.
    pub(crate) fn new(unit: &'a mut NativeDocumentEnd<'i>) -> (res: Self)
        ensures
            res.live(),
            res.state() == appended(*old(unit)),
            *final(res.reference()) == *final(unit),
    {
        DocumentEnd { wrap: NativeRefWrap::wrap(unit) }
    }

    /// Moves the access to the end to a token of its own.
    pub fn take(&mut self) -> (res: Self)
        ensures
            res.live() == old(self).live(),
            res.live() ==> res.reference() == old(self).reference(),
            !final(self).live(),
    {
        DocumentEnd { wrap: self.wrap.take() }
    }

    /// Takes the access to the end away for good. The end stays as it is.
    pub fn poison(&mut self)
        ensures
            !final(self).live(),
            old(self).live() ==> has_resolved(old(self).reference()),
    {
        self.wrap.poison();
    }

    /// Appends `content` to the document, behind what was appended before.
    pub fn append(&mut self, content: String, options: Option<ContentTypeOptions>) -> (res: Result<
        (),
        Error,
    >)
        ensures
            final(self).live() == old(self).live(),
            final(self).live() ==> *final(final(self).reference())
                == *final(old(self).reference()),
            !old(self).live() ==> expired(res),
            old(self).live() ==> {
                &&& res is Ok
                &&& final(self).state() == old(self).state().push(chunk(content@, options))
            },
    {
        self.wrap.get_mut()?.append(content.as_str(), content_type(options));
        Ok(())
    }
}

} // verus!

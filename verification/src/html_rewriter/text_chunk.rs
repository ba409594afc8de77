//! Fragments of text nodes.
use vstd::prelude::*;

use crate::html_rewriter::content::{chunk, content_type, ContentTypeOptions};
use crate::html_rewriter::error::{expired, Error};
use crate::html_rewriter::model::TextState;
use crate::html_rewriter::native::{text_as_str, text_state};
use crate::html_rewriter::wrap::NativeRefWrap;
use lol_html::html_content::TextChunk as NativeTextChunk;

verus! {

/// A fragment of a text node, for the time of one handler call.
pub struct TextChunk<'a, 'i> {
    wrap: NativeRefWrap<&'a mut NativeTextChunk<'i>>,
}

impl<'a, 'i> TextChunk<'a, 'i> {
    /// Whether the fragment can still be reached.
    pub closed spec fn live(self) -> bool {
        self.wrap.live()
    }

    /// The access to the fragment; meaningless once it was taken away.
    pub closed spec fn reference(self) -> &'a mut NativeTextChunk<'i> {
        self.wrap.unit()
    }

    /// What the fragment holds; meaningless once it cannot be reached.
    pub open spec fn state(self) -> TextState {
        text_state(*self.reference())
    }

    /// Gives access to `unit`.
    pub(crate) fn new(unit: &'a mut NativeTextChunk<'i>) -> (res: Self)
        ensures
            res.live(),
            res.state() == text_state(*old(unit)),
            *final(res.reference()) == *final(unit),
    {
        TextChunk { wrap: NativeRefWrap::wrap(unit) }
    }

    /// Moves the access to the fragment to a token of its own.
    pub fn take(&mut self) -> (res: Self)
        ensures
            res.live() == old(self).live(),
            res.live() ==> res.reference() == old(self).reference(),
            !final(self).live(),
    {
        TextChunk { wrap: self.wrap.take() }
    }

    /// Takes the access to the fragment away for good. The fragment stays as it is.
    pub fn poison(&mut self)
        ensures
            !final(self).live(),
            old(self).live() ==> has_resolved(old(self).reference()),
    {
        self.wrap.poison();
    }

    /// The text of the fragment.
    pub fn text(&self) -> (res: Result<String, Error>)
        ensures
            !self.live() ==> expired(res),
            self.live() ==> (res matches Ok(value) && value@ == self.state().text),
    {
        Ok(text_as_str(self.wrap.get()?).to_owned())
    }

    /// Whether the fragment is the last one of its text node.
    pub fn last_in_text_node(&self) -> (res: Result<bool, Error>)
        ensures
            !self.live() ==> expired(res),
            self.live() ==> (res matches Ok(value) && value == self.state().last_in_text_node),
    {
        Ok(self.wrap.get()?.last_in_text_node())
    }

    /// Puts `content` right in front of the fragment, behind what was put there.
    pub fn before(&mut self, content: String, options: Option<ContentTypeOptions>) -> (res: Result<
        (),
        Error,
    >)
        ensures
            final(self).live() == old(self).live(),
            final(self).live() ==> *final(final(self).reference())
                == *final(old(self).reference()),
            !old(self).live() ==> expired(res),
            old(self).live() ==> {
                &&& res is Ok
                &&& final(self).state() == (TextState {
                    mutations: old(self).state().mutations.put_before(chunk(content@, options)),
                    ..old(self).state()
                })
            },
    {
        self.wrap.get_mut()?.before(content.as_str(), content_type(options));
        Ok(())
    }

    /// Puts `content` right behind the fragment, in front of what was put there.
    pub fn after(&mut self, content: String, options: Option<ContentTypeOptions>) -> (res: Result<
        (),
        Error,
    >)
        ensures
            final(self).live() == old(self).live(),
            final(self).live() ==> *final(final(self).reference())
                == *final(old(self).reference()),
            !old(self).live() ==> expired(res),
            old(self).live() ==> {
                &&& res is Ok
                &&& final(self).state() == (TextState {
                    mutations: old(self).state().mutations.put_after(chunk(content@, options)),
                    ..old(self).state()
                })
            },
    {
        self.wrap.get_mut()?.after(content.as_str(), content_type(options));
        Ok(())
    }

    /// Puts `content` in place of the fragment and of an earlier replacement.
    pub fn replace(&mut self, content: String, options: Option<ContentTypeOptions>) -> (res: Result<
        (),
        Error,
    >)
        ensures
            final(self).live() == old(self).live(),
            final(self).live() ==> *final(final(self).reference())
                == *final(old(self).reference()),
            !old(self).live() ==> expired(res),
            old(self).live() ==> {
                &&& res is Ok
                &&& final(self).state() == (TextState {
                    mutations: old(self).state().mutations.replace(chunk(content@, options)),
                    ..old(self).state()
                })
            },
    {
        self.wrap.get_mut()?.replace(content.as_str(), content_type(options));
        Ok(())
    }

    /// Leaves the fragment out of the output.
    pub fn remove(&mut self) -> (res: Result<(), Error>)
        ensures
            final(self).live() == old(self).live(),
            final(self).live() ==> *final(final(self).reference())
                == *final(old(self).reference()),
            !old(self).live() ==> expired(res),
            old(self).live() ==> {
                &&& res is Ok
                &&& final(self).state() == (TextState {
                    mutations: old(self).state().mutations.remove(),
                    ..old(self).state()
                })
            },
    {
        self.wrap.get_mut()?.remove();
        Ok(())
    }

    /// Whether the fragment was removed or replaced.
    pub fn removed(&self) -> (res: Result<bool, Error>)
        ensures
            !self.live() ==> expired(res),
            self.live() ==> (res matches Ok(value) && value == self.state().mutations.removed),
    {
        Ok(self.wrap.get()?.removed())
    }
}

} // verus!

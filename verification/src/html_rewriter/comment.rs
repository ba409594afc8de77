//! Comments.
use vstd::prelude::*;

use crate::html_rewriter::content::{chunk, content_type, ContentTypeOptions};
use crate::html_rewriter::error::{expired, fails_with, map_err, Error};
use crate::html_rewriter::model::{closes_comment, comment_text_error, CommentState};
use crate::html_rewriter::native::comment_state;
use crate::html_rewriter::wrap::NativeRefWrap;
use crate::text::strip_bom;
use lol_html::html_content::Comment as NativeComment;

verus! {

/// A comment, for the time of one handler call.
pub struct Comment<'a, 'i> {
    wrap: NativeRefWrap<&'a mut NativeComment<'i>>,
}

impl<'a, 'i> Comment<'a, 'i> {
    /// Whether the comment can still be reached.
    pub closed spec fn live(self) -> bool {
        self.wrap.live()
    }

    /// The access to the comment; meaningless once it was taken away.
    pub closed spec fn reference(self) -> &'a mut NativeComment<'i> {
        self.wrap.unit()
    }

    /// What the comment holds; meaningless once it cannot be reached.
    pub open spec fn state(self) -> CommentState {
        comment_state(*self.reference())
    }

    /// Whether the comment, if it can be reached, belongs to a UTF-8 document.
    pub open spec fn wf(self) -> bool {
        self.live() ==> self.state().utf8
    }

    /// Gives access to `unit`.
    pub(crate) fn new(unit: &'a mut NativeComment<'i>) -> (res: Self)
        ensures
            res.live(),
            res.state() == comment_state(*old(unit)),
            *final(res.reference()) == *final(unit),
    {
        Comment { wrap: NativeRefWrap::wrap(unit) }
    }

    /// Moves the access to the comment to a token of its own.
    pub fn take(&mut self) -> (res: Self)
        ensures
            res.live() == old(self).live(),
            res.live() ==> res.reference() == old(self).reference(),
            !final(self).live(),
    {
        Comment { wrap: self.wrap.take() }
    }

    /// Takes the access to the comment away for good. The comment stays as it is.
    pub fn poison(&mut self)
        ensures
            !final(self).live(),
            old(self).live() ==> has_resolved(old(self).reference()),
    {
        self.wrap.poison();
    }

    /// The text of the comment.
    pub fn text(&self) -> (res: Result<String, Error>)
        ensures
            !self.live() ==> expired(res),
            self.live() ==> (res matches Ok(value) && value@ == self.state().text),
    {
        Ok(self.wrap.get()?.text())
    }

    /// Sets the text of the comment, unless that text would end the comment.
    pub fn set_text(&mut self, text: String) -> (res: Result<(), Error>)
        requires
            old(self).wf(),
        ensures
            final(self).wf(),
            final(self).live() == old(self).live(),
            final(self).live() ==> *final(final(self).reference())
                == *final(old(self).reference()),
            !old(self).live() ==> expired(res),
            old(self).live() && closes_comment(text@) ==> {
                &&& fails_with(res, comment_text_error())
                &&& final(self).state() == old(self).state()
            },
            old(self).live() && !closes_comment(text@) ==> {
                &&& res is Ok
                &&& final(self).state() == (CommentState {
                    text: strip_bom(text@),
                    written: Some(text@),
                    ..old(self).state()
                })
            },
    {
        match self.wrap.get_mut()?.set_text(text.as_str()) {
            Ok(()) => Ok(()),
            Err(cause) => Err(map_err(cause)),
        }
    }

    /// A comment that was given a text is written with that text, character for
    /// character, and is otherwise as it was; the text reads back without a leading
    /// byte order mark. A text that is refused changes nothing.
    pub proof fn law_text_is_written_as_given()
        ensures
            forall|comment: &mut Self, text: String, res: Result<(), Error>|
                #![trigger call_ensures(Self::set_text, (comment, text), res)]
                comment.live() && call_ensures(Self::set_text, (comment, text), res) ==> {
                    &&& final(comment).live()
                    &&& res is Ok ==> {
                        &&& final(comment).state().written == Some(text@)
                        &&& final(comment).state().mutations == comment.state().mutations
                        &&& text@.len() > 0 && text@[0] == '\u{FEFF}'
                            ==> final(comment).state().text == text@.skip(1)
                        &&& text@.len() == 0 || text@[0] != '\u{FEFF}'
                            ==> final(comment).state().text == text@
                    }
                    &&& res is Err ==> final(comment).state() == comment.state()
                },
    {
    }

    /// Puts `content` right in front of the comment, behind what was put there.
    pub fn before(&mut self, content: String, options: Option<ContentTypeOptions>) -> (res: Result<
        (),
        Error,
    >)
        ensures
            final(self).live() == old(self).live(),
            final(self).live() ==> *final(final(self).reference())
                == *final(old(self).reference()),
            !old(self).live() ==> expired(res),
            old(self).live() ==> {
                &&& res is Ok
                &&& final(self).state() == (CommentState {
                    mutations: old(self).state().mutations.put_before(chunk(content@, options)),
                    ..old(self).state()
                })
            },
    {
        self.wrap.get_mut()?.before(content.as_str(), content_type(options));
        Ok(())
    }

    /// Puts `content` right behind the comment, in front of what was put there.
    pub fn after(&mut self, content: String, options: Option<ContentTypeOptions>) -> (res: Result<
        (),
        Error,
    >)
        ensures
            final(self).live() == old(self).live(),
            final(self).live() ==> *final(final(self).reference())
                == *final(old(self).reference()),
            !old(self).live() ==> expired(res),
            old(self).live() ==> {
                &&& res is Ok
                &&& final(self).state() == (CommentState {
                    mutations: old(self).state().mutations.put_after(chunk(content@, options)),
                    ..old(self).state()
                })
            },
    {
        self.wrap.get_mut()?.after(content.as_str(), content_type(options));
        Ok(())
    }

    /// Puts `content` in place of the comment and of an earlier replacement.
    pub fn replace(&mut self, content: String, options: Option<ContentTypeOptions>) -> (res: Result<
        (),
        Error,
    >)
        ensures
            final(self).live() == old(self).live(),
            final(self).live() ==> *final(final(self).reference())
                == *final(old(self).reference()),
            !old(self).live() ==> expired(res),
            old(self).live() ==> {
                &&& res is Ok
                &&& final(self).state() == (CommentState {
                    mutations: old(self).state().mutations.replace(chunk(content@, options)),
                    ..old(self).state()
                })
            },
    {
        self.wrap.get_mut()?.replace(content.as_str(), content_type(options));
        Ok(())
    }

    /// Leaves the comment out of the output.
    pub fn remove(&mut self) -> (res: Result<(), Error>)
        ensures
            final(self).live() == old(self).live(),
            final(self).live() ==> *final(final(self).reference())
                == *final(old(self).reference()),
            !old(self).live() ==> expired(res),
            old(self).live() ==> {
                &&& res is Ok
                &&& final(self).state() == (CommentState {
                    mutations: old(self).state().mutations.remove(),
                    ..old(self).state()
                })
            },
    {
        self.wrap.get_mut()?.remove();
        Ok(())
    }

    /// Whether the comment was removed or replaced.
    pub fn removed(&self) -> (res: Result<bool, Error>)
        ensures
            !self.live() ==> expired(res),
            self.live() ==> (res matches Ok(value) && value == self.state().mutations.removed),
    {
        Ok(self.wrap.get()?.removed())
    }
}

} // verus!

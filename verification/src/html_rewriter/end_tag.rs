//! End tags.
use vstd::prelude::*;

use crate::html_rewriter::content::{chunk, content_type, ContentTypeOptions};
use crate::html_rewriter::error::{expired, Error};
use crate::html_rewriter::model::EndTagState;
use crate::html_rewriter::native::end_tag_state;
use crate::html_rewriter::wrap::NativeRefWrap;
use crate::text::{ascii_lower, strip_bom};
use lol_html::html_content::EndTag as NativeEndTag;

verus! {

/// An end tag, for the time of one handler call.
pub struct EndTag<'a, 'i> {
    wrap: NativeRefWrap<&'a mut NativeEndTag<'i>>,
}

impl<'a, 'i> EndTag<'a, 'i> {
    /// Whether the end tag can still be reached.
    pub closed spec fn live(self) -> bool {
        self.wrap.live()
    }

    /// The access to the end tag; meaningless once it was taken away.
    pub closed spec fn reference(self) -> &'a mut NativeEndTag<'i> {
        self.wrap.unit()
    }

    /// What the end tag holds; meaningless once it cannot be reached.
    pub open spec fn state(self) -> EndTagState {
        end_tag_state(*self.reference())
    }

    /// Whether the end tag, if it can be reached, belongs to a UTF-8 document.
    pub open spec fn wf(self) -> bool {
        self.live() ==> self.state().utf8
    }

    /// Gives access to `unit`.
    pub(crate) fn new(unit: &'a mut NativeEndTag<'i>) -> (res: Self)
        ensures
            res.live(),
            res.state() == end_tag_state(*old(unit)),
            *final(res.reference()) == *final(unit),
    {
        EndTag { wrap: NativeRefWrap::wrap(unit) }
    }

    /// Moves the access to the end tag to a token of its own.
    pub fn take(&mut self) -> (res: Self)
        ensures
            res.live() == old(self).live(),
            res.live() ==> res.reference() == old(self).reference(),
            !final(self).live(),
    {
        EndTag { wrap: self.wrap.take() }
    }

    /// Takes the access to the end tag away for good. The end tag stays as it is.
    pub fn poison(&mut self)
        ensures
            !final(self).live(),
            old(self).live() ==> has_resolved(old(self).reference()),
    {
        self.wrap.poison();
    }

    /// The name of the end tag, in ASCII lower case.
    pub fn name(&self) -> (res: Result<String, Error>)
        ensures
            !self.live() ==> expired(res),
            self.live() ==> (res matches Ok(value) && value@ == ascii_lower(self.state().name)),
    {
        Ok(self.wrap.get()?.name())
    }

    /// Sets the name of the end tag.
    pub fn set_name(&mut self, name: String) -> (res: Result<(), Error>)
        requires
            old(self).wf(),
        ensures
            final(self).wf(),
            final(self).live() == old(self).live(),
            final(self).live() ==> *final(final(self).reference())
                == *final(old(self).reference()),
            !old(self).live() ==> expired(res),
            old(self).live() ==> {
                &&& res is Ok
                &&& final(self).state() == (EndTagState {
                    name: strip_bom(name@),
                    written: Some(name@),
                    ..old(self).state()
                })
            },
    {
        self.wrap.get_mut()?.set_name_str(name);
        Ok(())
    }

    /// An end tag that was given a name is written with that name, character for
    /// character, and is otherwise as it was; the name reads back in ASCII lower case
    /// and without a leading byte order mark.
    pub proof fn law_name_is_written_as_given()
        ensures
            forall|tag: &mut Self, name: String, res: Result<(), Error>|
                #![trigger call_ensures(Self::set_name, (tag, name), res)]
                tag.live() && call_ensures(Self::set_name, (tag, name), res) ==> {
                    &&& res is Ok
                    &&& final(tag).live()
                    &&& final(tag).state().written == Some(name@)
                    &&& final(tag).state().mutations == tag.state().mutations
                    &&& name@.len() > 0 && name@[0] == '\u{FEFF}' ==> final(tag).state().name
                        == name@.skip(1)
                    &&& name@.len() == 0 || name@[0] != '\u{FEFF}' ==> final(tag).state().name
                        == name@
                },
    {
    }

    /// Puts `content` right in front of the end tag, behind what was put there.
    pub fn before(&mut self, content: String, options: Option<ContentTypeOptions>) -> (res: Result<
        (),
        Error,
    >)
        ensures
            final(self).live() == old(self).live(),
            final(self).live() ==> *final(final(self).reference())
                == *final(old(self).reference()),
            !old(self).live() ==> expired(res),
            old(self).live() ==> {
                &&& res is Ok
                &&& final(self).state() == (EndTagState {
                    mutations: old(self).state().mutations.put_before(chunk(content@, options)),
                    ..old(self).state()
                })
            },
    {
        self.wrap.get_mut()?.before(content.as_str(), content_type(options));
        Ok(())
    }

    /// Puts `content` right behind the end tag, in front of what was put there.
    pub fn after(&mut self, content: String, options: Option<ContentTypeOptions>) -> (res: Result<
        (),
        Error,
    >)
        ensures
            final(self).live() == old(self).live(),
            final(self).live() ==> *final(final(self).reference())
                == *final(old(self).reference()),
            !old(self).live() ==> expired(res),
            old(self).live() ==> {
                &&& res is Ok
                &&& final(self).state() == (EndTagState {
                    mutations: old(self).state().mutations.put_after(chunk(content@, options)),
                    ..old(self).state()
                })
            },
    {
        self.wrap.get_mut()?.after(content.as_str(), content_type(options));
        Ok(())
    }

    /// Puts `content` in place of the end tag and of an earlier replacement.
    pub fn replace(&mut self, content: String, options: Option<ContentTypeOptions>) -> (res: Result<
        (),
        Error,
    >)
        ensures
            final(self).live() == old(self).live(),
            final(self).live() ==> *final(final(self).reference())
                == *final(old(self).reference()),
            !old(self).live() ==> expired(res),
            old(self).live() ==> {
                &&& res is Ok
                &&& final(self).state() == (EndTagState {
                    mutations: old(self).state().mutations.replace(chunk(content@, options)),
                    ..old(self).state()
                })
            },
    {
        self.wrap.get_mut()?.replace(content.as_str(), content_type(options));
        Ok(())
    }

    /// Leaves the end tag out of the output.
    pub fn remove(&mut self) -> (res: Result<(), Error>)
        ensures
            final(self).live() == old(self).live(),
            final(self).live() ==> *final(final(self).reference())
                == *final(old(self).reference()),
            !old(self).live() ==> expired(res),
            old(self).live() ==> {
                &&& res is Ok
                &&& final(self).state() == (EndTagState {
                    mutations: old(self).state().mutations.remove(),
                    ..old(self).state()
                })
            },
    {
        self.wrap.get_mut()?.remove();
        Ok(())
    }

    /// Whether the end tag was removed or replaced.
    pub fn removed(&self) -> (res: Result<bool, Error>)
        ensures
            !self.live() ==> expired(res),
            self.live() ==> (res matches Ok(value) && value == self.state().mutations.removed),
    {
        Ok(self.wrap.get()?.removed())
    }
}

} // verus!

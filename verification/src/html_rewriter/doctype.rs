//! Document type declarations.
use vstd::prelude::*;

use crate::html_rewriter::error::{expired, Error};
use crate::html_rewriter::model::{view_of, DoctypeState};
use crate::html_rewriter::native::doctype_state;
use crate::html_rewriter::wrap::NativeRefWrap;
use lol_html::html_content::Doctype as NativeDoctype;

verus! {

/// A document type declaration, to read, for the time of one handler call.
pub struct Doctype<'a, 'i> {
    wrap: NativeRefWrap<&'a mut NativeDoctype<'i>>,
}

impl<'a, 'i> Doctype<'a, 'i> {
    /// Whether the declaration can still be reached.
    pub closed spec fn live(self) -> bool {
        self.wrap.live()
    }

    /// The access to the declaration; meaningless once it was taken away.
    pub closed spec fn reference(self) -> &'a mut NativeDoctype<'i> {
        self.wrap.unit()
    }

    /// What the declaration holds; meaningless once it cannot be reached.
    pub open spec fn state(self) -> DoctypeState {
        doctype_state(*self.reference())
    }

    /// Gives access to `unit`.
    pub(crate) fn new(unit: &'a mut NativeDoctype<'i>) -> (res: Self)
        ensures
            res.live(),
            res.state() == doctype_state(*old(unit)),
            *final(res.reference()) == *final(unit),
    {
        Doctype { wrap: NativeRefWrap::wrap(unit) }
    }

    /// Moves the access to the declaration to a token of its own.
    pub fn take(&mut self) -> (res: Self)
        ensures
            res.live() == old(self).live(),
            res.live() ==> res.reference() == old(self).reference(),
            !final(self).live(),
    {
        Doctype { wrap: self.wrap.take() }
    }

    /// Takes the access to the declaration away for good. The declaration stays as it is.
    pub fn poison(&mut self)
        ensures
            !final(self).live(),
            old(self).live() ==> has_resolved(old(self).reference()),
    {
        self.wrap.poison();
    }

    /// The name in ASCII lower case, if there is one.
    pub fn name(&self) -> (res: Result<Option<String>, Error>)
        ensures
            !self.live() ==> expired(res),
            self.live() ==> (res matches Ok(value) && view_of(value) == self.state().name),
    {
        Ok(self.wrap.get()?.name())
    }

    /// The public identifier, if there is one.
    pub fn public_id(&self) -> (res: Result<Option<String>, Error>)
        ensures
            !self.live() ==> expired(res),
            self.live() ==> (res matches Ok(value) && view_of(value) == self.state().public_id),
    {
        Ok(self.wrap.get()?.public_id())
    }

    /// The system identifier, if there is one.
    pub fn system_id(&self) -> (res: Result<Option<String>, Error>)
        ensures
            !self.live() ==> expired(res),
            self.live() ==> (res matches Ok(value) && view_of(value) == self.state().system_id),
    {
        Ok(self.wrap.get()?.system_id())
    }
}

} // verus!

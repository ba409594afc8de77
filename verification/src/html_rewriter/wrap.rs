//! Access to a unit of the document for the time of one handler call.
use vstd::prelude::*;

use crate::html_rewriter::error::{expired, Error, TOKEN_EXPIRED};

verus! {

/// Exclusive access to a unit, until it is poisoned.
///
/// A token keeps one of these. Whoever called the handler poisons it when the
/// handler is done, so a token that was kept any longer fails loudly.
pub struct NativeRefWrap<R> {
    inner: Option<R>,
}

impl<R> NativeRefWrap<R> {
    /// Whether the unit can still be reached.
    pub closed spec fn live(self) -> bool {
        self.inner is Some
    }

    /// The unit; meaningless once poisoned.
    pub closed spec fn unit(self) -> R {
        self.inner->0
    }

    /// Gives access to `inner`.
    pub fn wrap(inner: R) -> (res: Self)
        ensures
            res.live(),
            res.unit() == inner,
    {
        NativeRefWrap { inner: Some(inner) }
    }

    /// Takes the access away for good.
    pub fn poison(&mut self)
        ensures
            !final(self).live(),
            old(self).live() ==> has_resolved(old(self).unit()),
    {
        self.inner = None;
    }

    /// Moves the access to a wrap of its own; nothing is left here.
    pub fn take(&mut self) -> (res: Self)
        ensures
            res == *old(self),
            !final(self).live(),
    {
        NativeRefWrap { inner: self.inner.take() }
    }

    /// Succeeds exactly while the unit can be reached.
    pub fn check(&self) -> (res: Result<(), Error>)
        ensures
            self.live() ==> res is Ok,
            !self.live() ==> expired(res),
    {
        if self.inner.is_none() {
            Err(Error::new(TOKEN_EXPIRED))
        } else {
            Ok(())
        }
    }

    /// The unit, to read.
    pub fn get(&self) -> (res: Result<&R, Error>)
        ensures
            self.live() ==> (res matches Ok(unit) && *unit == self.unit()),
            !self.live() ==> expired(res),
    {
        self.check()?;
        match &self.inner {
            Some(unit) => Ok(unit),
            None => Err(Error::new(TOKEN_EXPIRED)),
        }
    }

    /// The unit, to change.
    pub fn get_mut(&mut self) -> (res: Result<&mut R, Error>)
        ensures
            old(self).live() ==> (res matches Ok(unit) && {
                &&& *unit == old(self).unit()
                &&& final(self).live()
                &&& final(self).unit() == *final(unit)
            }),
            !old(self).live() ==> expired(res) && !final(self).live(),
    {
        self.check()?;
        match &mut self.inner {
            Some(unit) => Ok(unit),
            None => Err(Error::new(TOKEN_EXPIRED)),
        }
    }
}

} // verus!

//! Matched elements.
use vstd::prelude::*;

use crate::html_rewriter::content::{chunk, content_type, ContentTypeOptions};
use crate::html_rewriter::error::{expired, fails_with, map_err, Error};
use crate::html_rewriter::model::{attribute_name_error, attribute_value, is_namespace,
    tag_name_error, view_of, AttributeState, ElementState};
use crate::html_rewriter::native::{attribute_state, element_after, element_append,
    element_attributes, element_before, element_get_attribute, element_has_attribute,
    element_namespace_uri, element_on_end_tag, element_prepend, element_remove,
    element_remove_and_keep_content, element_remove_attribute, element_removed, element_replace,
    element_set_attribute, element_set_inner_content, element_set_tag_name, element_state,
    element_tag_name, element_tag_name_preserve_case, ElementRef};
use crate::html_rewriter::token::{Callback, Handler, JsRef, ScriptHost, UnitKind};
use crate::html_rewriter::wrap::NativeRefWrap;
use crate::text::ascii_lower;
use std::rc::Rc;

verus! {

/// Whether `listing` holds the name and the value of each attribute, in order.
pub open spec fn lists(listing: Seq<Vec<String>>, attributes: Seq<AttributeState>) -> bool {
    &&& listing.len() == attributes.len()
    &&& forall|i: int|
        #![trigger listing[i]]
        0 <= i < listing.len() ==> {
            &&& listing[i]@.len() == 2
            &&& listing[i]@[0]@ == attributes[i].name
            &&& listing[i]@[1]@ == attributes[i].value
        }
}

/// Why no end tag handler can be kept for an element of that name.
pub open spec fn no_content_error(name: Seq<char>) -> Seq<char> {
    ascii_lower(name) + " can't have content"@
}

/// A matched element, for the time of one handler call.
pub struct Element<'a, 'r, 't> {
    wrap: NativeRefWrap<&'a mut ElementRef<'a, 'r, 't>>,
}

impl<'a, 'r, 't> Element<'a, 'r, 't> {
    /// Whether the element can still be reached.
    pub closed spec fn live(self) -> bool {
        self.wrap.live()
    }

    /// The access to the element; meaningless once it was taken away.
    pub closed spec fn reference(self) -> &'a mut ElementRef<'a, 'r, 't> {
        self.wrap.unit()
    }

    /// What the element holds; meaningless once it cannot be reached.
    pub open spec fn state(self) -> ElementState {
        element_state(*self.reference())
    }

    /// Gives access to `unit`.
    pub(crate) fn new(unit: &'a mut ElementRef<'a, 'r, 't>) -> (res: Self)
        ensures
            res.live(),
            res.state() == element_state(*old(unit)),
            *final(res.reference()) == *final(unit),
    {
        Element { wrap: NativeRefWrap::wrap(unit) }
    }

    /// Moves the access to the element to a token of its own.
    pub fn take(&mut self) -> (res: Self)
        ensures
            res.live() == old(self).live(),
            res.live() ==> res.reference() == old(self).reference(),
            !final(self).live(),
    {
        Element { wrap: self.wrap.take() }
    }

    /// Takes the access to the element away for good. The element stays as it is.
    pub fn poison(&mut self)
        ensures
            !final(self).live(),
            old(self).live() ==> has_resolved(old(self).reference()),
    {
        self.wrap.poison();
    }

    /// The tag name in ASCII lower case.
    pub fn tag_name(&self) -> (res: Result<String, Error>)
        ensures
            !self.live() ==> expired(res),
            self.live() ==> (res matches Ok(value) && value@ == ascii_lower(self.state().name)),
    {
        Ok(element_tag_name(self.wrap.get()?))
    }

    /// Renames the element, unless `name` cannot be a tag name.
    pub fn set_tag_name(&mut self, name: String) -> (res: Result<(), Error>)
        ensures
            final(self).live() == old(self).live(),
            final(self).live() ==> *final(final(self).reference())
                == *final(old(self).reference()),
            !old(self).live() ==> expired(res),
            old(self).live() ==> match tag_name_error(name@) {
                Some(reason) => {
                    &&& fails_with(res, reason)
                    &&& final(self).state() == old(self).state()
                },
                None => {
                    &&& res is Ok
                    &&& final(self).state() == old(self).state().set_tag_name(name@)
                },
            },
    {
        match element_set_tag_name(self.wrap.get_mut()?, name.as_str()) {
            Ok(()) => Ok(()),
            Err(cause) => Err(map_err(cause)),
        }
    }

    /// The tag name in its own case.
    pub fn tag_name_preserve_case(&self) -> (res: Result<String, Error>)
        ensures
            !self.live() ==> expired(res),
            self.live() ==> (res matches Ok(value) && value@ == self.state().name),
    {
        Ok(element_tag_name_preserve_case(self.wrap.get()?))
    }

    /// The URI of the namespace of the element.
    pub fn namespace_uri(&self) -> (res: Result<String, Error>)
        ensures
            !self.live() ==> expired(res),
            self.live() ==> (res matches Ok(value) && value@ == self.state().namespace_uri
                && is_namespace(value@)),
    {
        Ok(element_namespace_uri(self.wrap.get()?).to_owned())
    }

    /// All attributes in order, each as its name and its value.
    pub fn attributes(&self) -> (res: Result<Vec<Vec<String>>, Error>)
        ensures
            !self.live() ==> expired(res),
            self.live() ==> (res matches Ok(value) && lists(value@, self.state().attributes)),
    {
        let attributes = element_attributes(self.wrap.get()?);
        let mut listing: Vec<Vec<String>> = Vec::new();
        let mut i: usize = 0;
        while i < attributes.len()
            invariant
                i <= attributes@.len(),
                attributes@.len() == self.state().attributes.len(),
                forall|k: int|
                    0 <= k < attributes@.len() ==> attribute_state(#[trigger] attributes@[k])
                        == self.state().attributes[k],
                lists(listing@, self.state().attributes.take(i as int)),
            decreases attributes@.len() - i,
        {
            let attribute = &attributes[i];
            let mut pair: Vec<String> = Vec::new();
            pair.push(attribute.name());
            pair.push(attribute.value());
            listing.push(pair);
            i = i + 1;
        }
        assert(self.state().attributes.take(i as int) =~= self.state().attributes);
        Ok(listing)
    }

    /// The value of the attribute of that name, in any ASCII case.
    pub fn get_attribute(&self, name: String) -> (res: Result<Option<String>, Error>)
        ensures
            !self.live() ==> expired(res),
            self.live() ==> (res matches Ok(value) && view_of(value) == attribute_value(
                self.state().attributes,
                name@,
            )),
    {
        Ok(element_get_attribute(self.wrap.get()?, name.as_str()))
    }

    /// Whether there is an attribute of that name, in any ASCII case.
    pub fn has_attribute(&self, name: String) -> (res: Result<bool, Error>)
        ensures
            !self.live() ==> expired(res),
            self.live() ==> (res matches Ok(value) && value == attribute_value(
                self.state().attributes,
                name@,
            ) is Some),
    {
        Ok(element_has_attribute(self.wrap.get()?, name.as_str()))
    }

    /// Gives the attribute of that name the value, unless `name` cannot be an
    /// attribute name; there need not be such an attribute yet.
    pub fn set_attribute(&mut self, name: String, value: String) -> (res: Result<(), Error>)
        ensures
            final(self).live() == old(self).live(),
            final(self).live() ==> *final(final(self).reference())
                == *final(old(self).reference()),
            !old(self).live() ==> expired(res),
            old(self).live() ==> match attribute_name_error(name@) {
                Some(reason) => {
                    &&& fails_with(res, reason)
                    &&& final(self).state() == old(self).state()
                },
                None => {
                    &&& res is Ok
                    &&& final(self).state() == old(self).state().set_attribute(name@, value@)
                },
            },
    {
        match element_set_attribute(self.wrap.get_mut()?, name.as_str(), value.as_str()) {
            Ok(()) => Ok(()),
            Err(cause) => Err(map_err(cause)),
        }
    }

    /// Removes every attribute of that name, in any ASCII case.
    pub fn remove_attribute(&mut self, name: String) -> (res: Result<(), Error>)
        ensures
            final(self).live() == old(self).live(),
            final(self).live() ==> *final(final(self).reference())
                == *final(old(self).reference()),
            !old(self).live() ==> expired(res),
            old(self).live() ==> {
                &&& res is Ok
                &&& final(self).state() == old(self).state().remove_attribute(name@)
            },
    {
        element_remove_attribute(self.wrap.get_mut()?, name.as_str());
        Ok(())
    }

    /// Puts `content` right in front of the element, behind what was put there.
    pub fn before(&mut self, content: String, options: Option<ContentTypeOptions>) -> (res: Result<
        (),
        Error,
    >)
        ensures
            final(self).live() == old(self).live(),
            final(self).live() ==> *final(final(self).reference())
                == *final(old(self).reference()),
            !old(self).live() ==> expired(res),
            old(self).live() ==> {
                &&& res is Ok
                &&& final(self).state() == old(self).state().put_before(chunk(content@, options))
            },
    {
        element_before(self.wrap.get_mut()?, content.as_str(), content_type(options));
        Ok(())
    }

    /// Puts `content` right behind the element, in front of what was put there.
    pub fn after(&mut self, content: String, options: Option<ContentTypeOptions>) -> (res: Result<
        (),
        Error,
    >)
        ensures
            final(self).live() == old(self).live(),
            final(self).live() ==> *final(final(self).reference())
                == *final(old(self).reference()),
            !old(self).live() ==> expired(res),
            old(self).live() ==> {
                &&& res is Ok
                &&& final(self).state() == old(self).state().put_after(chunk(content@, options))
            },
    {
        element_after(self.wrap.get_mut()?, content.as_str(), content_type(options));
        Ok(())
    }

    /// Puts `content` first in the element, if it can have content.
    pub fn prepend(&mut self, content: String, options: Option<ContentTypeOptions>) -> (res: Result<
        (),
        Error,
    >)
        ensures
            final(self).live() == old(self).live(),
            final(self).live() ==> *final(final(self).reference())
                == *final(old(self).reference()),
            !old(self).live() ==> expired(res),
            old(self).live() ==> {
                &&& res is Ok
                &&& final(self).state() == old(self).state().prepend(chunk(content@, options))
            },
    {
        element_prepend(self.wrap.get_mut()?, content.as_str(), content_type(options));
        Ok(())
    }

    /// Puts `content` last in the element, if it can have content.
    pub fn append(&mut self, content: String, options: Option<ContentTypeOptions>) -> (res: Result<
        (),
        Error,
    >)
        ensures
            final(self).live() == old(self).live(),
            final(self).live() ==> *final(final(self).reference())
                == *final(old(self).reference()),
            !old(self).live() ==> expired(res),
            old(self).live() ==> {
                &&& res is Ok
                &&& final(self).state() == old(self).state().append(chunk(content@, options))
            },
    {
        element_append(self.wrap.get_mut()?, content.as_str(), content_type(options));
        Ok(())
    }

    /// Puts `content` in place of all content of the element, if it can have any.
    pub fn set_inner_content(
        &mut self,
        content: String,
        options: Option<ContentTypeOptions>,
    ) -> (res: Result<(), Error>)
        ensures
            final(self).live() == old(self).live(),
            final(self).live() ==> *final(final(self).reference())
                == *final(old(self).reference()),
            !old(self).live() ==> expired(res),
            old(self).live() ==> {
                &&& res is Ok
                &&& final(self).state() == old(self).state().set_inner_content(
                    chunk(content@, options),
                )
            },
    {
        element_set_inner_content(self.wrap.get_mut()?, content.as_str(), content_type(options));
        Ok(())
    }

    /// Puts `content` in place of the element with all its content.
    pub fn replace(&mut self, content: String, options: Option<ContentTypeOptions>) -> (res: Result<
        (),
        Error,
    >)
        ensures
            final(self).live() == old(self).live(),
            final(self).live() ==> *final(final(self).reference())
                == *final(old(self).reference()),
            !old(self).live() ==> expired(res),
            old(self).live() ==> {
                &&& res is Ok
                &&& final(self).state() == old(self).state().replace(chunk(content@, options))
            },
    {
        element_replace(self.wrap.get_mut()?, content.as_str(), content_type(options));
        Ok(())
    }

    /// Leaves the element out with all its content.
    pub fn remove(&mut self) -> (res: Result<(), Error>)
        ensures
            final(self).live() == old(self).live(),
            final(self).live() ==> *final(final(self).reference())
                == *final(old(self).reference()),
            !old(self).live() ==> expired(res),
            old(self).live() ==> {
                &&& res is Ok
                &&& final(self).state() == old(self).state().remove()
            },
    {
        element_remove(self.wrap.get_mut()?);
        Ok(())
    }

    /// Leaves the start tag and the end tag out.
    pub fn remove_and_keep_content(&mut self) -> (res: Result<(), Error>)
        ensures
            final(self).live() == old(self).live(),
            final(self).live() ==> *final(final(self).reference())
                == *final(old(self).reference()),
            !old(self).live() ==> expired(res),
            old(self).live() ==> {
                &&& res is Ok
                &&& final(self).state() == old(self).state().remove_and_keep_content()
            },
    {
        element_remove_and_keep_content(self.wrap.get_mut()?);
        Ok(())
    }

    /// Whether the start tag was removed or replaced.
    pub fn removed(&self) -> (res: Result<bool, Error>)
        ensures
            !self.live() ==> expired(res),
            self.live() ==> (res matches Ok(value) && value == self.state().start.removed),
    {
        Ok(element_removed(self.wrap.get()?))
    }

    /// Keeps a handler for the end tag, unless the element cannot have content.
    ///
    /// When the end tag is reached, `host` is asked to call `handler` with it.
    pub fn on_end_tag<H: ScriptHost + 'static>(&mut self, host: Rc<H>, handler: JsRef) -> (res:
        Result<(), Error>)
        ensures
            final(self).live() == old(self).live(),
            final(self).live() ==> *final(final(self).reference())
                == *final(old(self).reference()),
            !old(self).live() ==> expired(res),
            old(self).live() && old(self).state().can_have_content ==> {
                &&& res is Ok
                &&& final(self).state() == old(self).state().on_end_tag(
                    (Handler {
                        callback: Callback { host: host.identity(), func: handler },
                        unit: UnitKind::EndTag,
                    }),
                )
            },
            old(self).live() && !old(self).state().can_have_content ==> {
                &&& fails_with(res, no_content_error(old(self).state().name))
                &&& final(self).state() == old(self).state()
            },
    {
        match element_on_end_tag(self.wrap.get_mut()?, host, handler) {
            Ok(()) => Ok(()),
            Err(reason) => Err(Error::GenericFailure(reason)),
        }
    }
}

} // verus!

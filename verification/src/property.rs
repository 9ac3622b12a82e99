//! The property bag of a result: values by property identifier, read from the
//! engine on demand.

use crate::abi::{Reply, ReplyView, Request, RequestView, Resource};
use crate::common::PropertyId;
use crate::error::{convert_err, status_outcome, unit_view, Error, NO_ERROR};
use crate::handle::{SmartHandle, SmartHandleView};
use crate::text::{c_text, decode_text};
use vstd::prelude::*;
use vstd::utf8::{decode_utf8, valid_utf8};

verus! {

/// A property bag of the engine, owned through its handle.
#[derive(Debug, PartialEq, Eq)]
pub struct PropertyCollection {
    pub handle: SmartHandle,
}

/// The handle under which a bag is owned.
pub open spec fn bag_handle(handle: usize) -> SmartHandleView {
    SmartHandleView { name: "PropertyCollection"@, handle, kind: Resource::PropertyBag }
}

/// What a lookup gives for the engine's reply: the text in the reply's buffer, and
/// the caller's default where the call failed or the buffer holds no valid text.
pub open spec fn looked_up(reply: ReplyView, default: Seq<char>) -> Seq<char> {
    if reply.status == NO_ERROR && valid_utf8(c_text(reply.buffer)) {
        decode_utf8(c_text(reply.buffer))
    } else {
        default
    }
}

impl PropertyCollection {
    /// Takes ownership of a bag.
    pub fn from_handle(handle: usize) -> (bag: PropertyCollection)
        ensures
            bag.handle@ == bag_handle(handle),
    {
        PropertyCollection {
            handle: SmartHandle::create("PropertyCollection", handle, Resource::PropertyBag),
        }
    }

    /// The call that looks a property up. The engine answers it with the stored
    /// value, or with `default` where the bag holds none.
    pub fn get_property(&self, id: PropertyId, default: &str) -> (request: Request)
        ensures
            request@ == (RequestView::GetProperty {
                bag: self.handle@.handle,
                id: id.spec_to_i32(),
                default: default@,
            }),
    {
        Request::GetProperty { bag: self.handle.inner(), id: id.to_i32(), default: default.to_owned() }
    }

    /// The value that a lookup ends with. A lookup never fails its caller: where the
    /// call failed, or what it left is not valid text, the value is `default`.
    pub fn property_value(reply: &Reply, default: String) -> (value: String)
        ensures
            value@ == looked_up(reply@, default@),
    {
        if reply.status != NO_ERROR {
            return default;
        }
        match decode_text(reply.buffer.as_slice(), "PropertyCollection::get_property error") {
            Ok(value) => value,
            Err(_) => default,
        }
    }

    /// The call that stores `value` under a property.
    pub fn set_property(&self, id: PropertyId, value: &str) -> (request: Request)
        ensures
            request@ == (RequestView::SetProperty {
                bag: self.handle@.handle,
                id: id.spec_to_i32(),
                value: value@,
            }),
    {
        Request::SetProperty { bag: self.handle.inner(), id: id.to_i32(), value: value.to_owned() }
    }

    /// The call that stores `value` under a property given by name.
    pub fn set_property_by_name(&self, name: &str, value: &str) -> (request: Request)
        ensures
            request@ == (RequestView::SetPropertyByName {
                bag: self.handle@.handle,
                name: name@,
                value: value@,
            }),
    {
        Request::SetPropertyByName {
            bag: self.handle.inner(),
            name: name.to_owned(),
            value: value.to_owned(),
        }
    }

    /// How a store ended: unlike a lookup, a store that the engine refused fails
    /// its caller, with the engine's status.
    pub fn stored(reply: &Reply) -> (r: Result<(), Error>)
        ensures
            unit_view(r) == status_outcome(reply@.status, "PropertyCollection::set_property error"@),
    {
        convert_err(reply.status, "PropertyCollection::set_property error")
    }
}

} // verus!

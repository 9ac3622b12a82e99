//! The event that every recognition event extends.

use crate::abi::Resource;
use crate::handle::{SmartHandle, SmartHandleView};
use vstd::prelude::*;

verus! {

/// The base of a recognition event: the ownership of the event handle.
#[derive(Debug, PartialEq, Eq)]
pub struct RecognitionEvent {
    pub handle: SmartHandle,
}

/// The handle under which an event is owned.
pub open spec fn event_handle(handle: usize) -> SmartHandleView {
    SmartHandleView { name: "RecognitionEvent"@, handle, kind: Resource::Event }
}

impl RecognitionEvent {
    /// Takes ownership of an event.
    pub fn from_handle(handle: usize) -> (event: RecognitionEvent)
        ensures
            event.handle@ == event_handle(handle),
    {
        RecognitionEvent { handle: SmartHandle::create("RecognitionEvent", handle, Resource::Event) }
    }
}

} // verus!

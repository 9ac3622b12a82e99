//! Ownership of a native resource.

use crate::abi::{Request, RequestView, Resource};
use vstd::prelude::*;

verus! {

/// A native handle together with the duty to release it once. The wrapper cannot be
/// copied; [`SmartHandle::release`] consumes it, so the release it owes is handed
/// out at most once.
#[derive(Debug, PartialEq, Eq)]
pub struct SmartHandle {
    name: &'static str,
    internal: usize,
    kind: Resource,
}

/// The mathematical content of a [`SmartHandle`].
pub struct SmartHandleView {
    pub name: Seq<char>,
    pub handle: usize,
    pub kind: Resource,
}

impl SmartHandleView {
    /// The release that the owner of such a handle owes.
    pub open spec fn release(self) -> RequestView {
        RequestView::Release { kind: self.kind, handle: self.handle }
    }
}

impl View for SmartHandle {
    type V = SmartHandleView;

    closed spec fn view(&self) -> SmartHandleView {
        SmartHandleView { name: self.name@, handle: self.internal, kind: self.kind }
    }
}

impl SmartHandle {
    /// Takes ownership of `handle`, a resource of the given kind.
    pub fn create(name: &'static str, handle: usize, kind: Resource) -> (h: SmartHandle)
        ensures
            h@ == (SmartHandleView { name: name@, handle, kind }),
    {
        SmartHandle { name, internal: handle, kind }
    }

    /// The native handle, for further calls on the engine. Ownership stays here.
    pub fn inner(&self) -> (handle: usize)
        ensures
            handle == self@.handle,
    {
        self.internal
    }

    /// The label given at creation.
    pub fn name(&self) -> (name: &'static str)
        ensures
            name@ == self@.name,
    {
        self.name
    }

    /// The kind of resource that is owned.
    pub fn kind(&self) -> (kind: Resource)
        ensures
            kind == self@.kind,
    {
        self.kind
    }

    /// Ends the ownership: the call that releases the resource. Whatever status
    /// the engine answers it with is of no consequence to the caller.
    pub fn release(self) -> (request: Request)
        ensures
            request@ == self@.release(),
    {
        Request::Release { kind: self.kind, handle: self.internal }
    }
}

} // verus!

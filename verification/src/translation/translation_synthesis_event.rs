//! The event of a translation synthesis, and its reconstruction from an event
//! handle.

use super::translation_synthesis_result::{
    SynthesisResultFetch, SynthesisResultFetchView, TranslationSynthesisResult,
    TranslationSynthesisResultView,
};
use crate::abi::{views, Reply, ReplyView, Request, RequestView, Resource};
use crate::error::{Error, ErrorView, NO_ERROR};
use crate::handle::{SmartHandle, SmartHandleView};
use crate::step::{Step, StepView};
use vstd::prelude::*;

verus! {

/// Event passed into translation synthesis callbacks.
#[derive(PartialEq, Eq)]
pub struct TranslationSynthesisEvent {
    pub handle: SmartHandle,
    pub result: TranslationSynthesisResult,
}

/// The mathematical content of a [`TranslationSynthesisEvent`].
pub struct TranslationSynthesisEventView {
    pub handle: SmartHandleView,
    pub result: TranslationSynthesisResultView,
}

impl View for TranslationSynthesisEvent {
    type V = TranslationSynthesisEventView;

    open spec fn view(&self) -> TranslationSynthesisEventView {
        TranslationSynthesisEventView { handle: self.handle@, result: self.result@ }
    }
}

impl TranslationSynthesisEventView {
    /// The releases that the owner of such an event owes, in the order in which
    /// they are made: the event, the result, the result's property bag.
    pub open spec fn releases(self) -> Seq<RequestView> {
        seq![self.handle.release()] + self.result.releases()
    }
}

/// A reconstruction of a [`TranslationSynthesisEvent`] that waits for the engine's
/// reply to its last request. The event is not owned before its result is complete.
pub enum SynthesisEventFetch {
    /// Which result the event carries has been asked.
    Result { handle: usize },
    /// The result is being rebuilt.
    Inner { handle: usize, inner: SynthesisResultFetch },
}

/// The mathematical content of a [`SynthesisEventFetch`].
pub enum SynthesisEventFetchView {
    Result { handle: usize },
    Inner { handle: usize, inner: SynthesisResultFetchView },
}

impl View for SynthesisEventFetch {
    type V = SynthesisEventFetchView;

    open spec fn view(&self) -> SynthesisEventFetchView {
        match *self {
            SynthesisEventFetch::Result { handle } => SynthesisEventFetchView::Result { handle },
            SynthesisEventFetch::Inner { handle, inner } => SynthesisEventFetchView::Inner {
                handle,
                inner: inner@,
            },
        }
    }
}

/// The context of a failure to learn which result an event carries.
pub open spec fn event_result_context() -> Seq<char> {
    "TranslationSynthesisEvent::from_handle error"@
}

/// The handle under which a synthesis event is owned.
pub open spec fn synthesis_event_handle(handle: usize) -> SmartHandleView {
    SmartHandleView { name: "TranslationSynthesisEvent"@, handle, kind: Resource::Event }
}

impl SynthesisEventFetchView {
    /// The first step of the reconstruction of the event behind `handle`: the
    /// engine is asked which result the event carries.
    pub open spec fn start(handle: usize) -> StepView<
        SynthesisEventFetchView,
        TranslationSynthesisEventView,
    > {
        StepView::Ask(
            SynthesisEventFetchView::Result { handle },
            RequestView::EventResult { event: handle },
        )
    }

    /// The step that follows the engine's reply. Where the engine does not name the
    /// result, or the reconstruction of the result fails, the failure is the
    /// outcome, and nothing has been owned. Where the result is complete, the event
    /// is owned and complete.
    pub open spec fn next(self, reply: ReplyView) -> StepView<
        SynthesisEventFetchView,
        TranslationSynthesisEventView,
    > {
        match self {
            SynthesisEventFetchView::Result { handle } => {
                if reply.status != NO_ERROR {
                    StepView::Done(
                        Err(ErrorView::Api { code: reply.status, context: event_result_context() }),
                    )
                } else {
                    let inner = SynthesisResultFetchView::start(reply.word);
                    StepView::Ask(SynthesisEventFetchView::Inner { handle, inner }, inner.request())
                }
            },
            SynthesisEventFetchView::Inner { handle, inner } => match inner.next(reply) {
                StepView::Ask(inner, request) => StepView::Ask(
                    SynthesisEventFetchView::Inner { handle, inner },
                    request,
                ),
                StepView::Done(Ok(result)) => StepView::Done(
                    Ok(TranslationSynthesisEventView { handle: synthesis_event_handle(handle), result }),
                ),
                StepView::Done(Err(error)) => StepView::Done(Err(error)),
            },
        }
    }
}

impl SynthesisEventFetchView {
    /// A bound on the number of replies that the reconstruction still takes.
    pub open spec fn rank(self) -> nat {
        match self {
            SynthesisEventFetchView::Result { .. } => SynthesisResultFetchView::start(0).rank() + 2,
            SynthesisEventFetchView::Inner { inner, .. } => inner.rank() + 1,
        }
    }

    /// Every reply brings the reconstruction nearer to its end.
    pub proof fn lemma_progress(self, reply: ReplyView)
        ensures
            self.next(reply) matches StepView::Ask(state, _) ==> state.rank() < self.rank(),
    {
        if let SynthesisEventFetchView::Inner { inner, .. } = self {
            inner.lemma_progress(reply);
        }
    }
}

impl SynthesisEventFetch {
    fn after(handle: usize, inner: Step<SynthesisResultFetch, TranslationSynthesisResult>) -> (step:
        Step<SynthesisEventFetch, TranslationSynthesisEvent>)
        ensures
            step@ == match inner@ {
                StepView::Ask(inner, request) => StepView::Ask(
                    SynthesisEventFetchView::Inner { handle, inner },
                    request,
                ),
                StepView::Done(Ok(result)) => StepView::Done(
                    Ok(TranslationSynthesisEventView { handle: synthesis_event_handle(handle), result }),
                ),
                StepView::Done(Err(error)) => StepView::Done(Err(error)),
            },
    {
        match inner {
            Step::Ask(inner, request) => Step::Ask(
                SynthesisEventFetch::Inner { handle, inner },
                request,
            ),
            Step::Done(Ok(result)) => Step::Done(
                Ok(
                    TranslationSynthesisEvent {
                        handle: SmartHandle::create(
                            "TranslationSynthesisEvent",
                            handle,
                            Resource::Event,
                        ),
                        result,
                    },
                ),
            ),
            Step::Done(Err(error)) => Step::Done(Err(error)),
        }
    }

    /// Takes the engine's reply to the request that came with this state.
    pub fn resume(self, reply: Reply) -> (step: Step<
        SynthesisEventFetch,
        TranslationSynthesisEvent,
    >)
        ensures
            step@ == self@.next(reply@),
    {
        match self {
            SynthesisEventFetch::Result { handle } => {
                if reply.status != NO_ERROR {
                    Step::Done(
                        Err(
                            Error::Api {
                                code: reply.status,
                                context: "TranslationSynthesisEvent::from_handle error".to_owned(),
                            },
                        ),
                    )
                } else {
                    SynthesisEventFetch::after(
                        handle,
                        TranslationSynthesisResult::from_handle(reply.word),
                    )
                }
            },
            SynthesisEventFetch::Inner { handle, inner } => SynthesisEventFetch::after(
                handle,
                inner.resume(reply),
            ),
        }
    }
}

impl TranslationSynthesisEvent {
    /// Starts the reconstruction of the event behind `handle`: the first call to
    /// make, and the state that takes its reply.
    pub fn from_handle(handle: usize) -> (step: Step<
        SynthesisEventFetch,
        TranslationSynthesisEvent,
    >)
        ensures
            step@ == SynthesisEventFetchView::start(handle),
    {
        Step::Ask(SynthesisEventFetch::Result { handle }, Request::EventResult { event: handle })
    }

    /// Ends the ownership of the event: the releases to make, in order. The
    /// statuses that the engine answers them with are of no consequence.
    pub fn release(self) -> (requests: Vec<Request>)
        ensures
            views(requests@) == self@.releases(),
    {
        let mut requests = Vec::new();
        requests.push(self.handle.release());
        requests.push(self.result.handle.release());
        requests.push(self.result.properties.handle.release());
        assert(views(requests@) =~= self@.releases());
        requests
    }
}

} // verus!

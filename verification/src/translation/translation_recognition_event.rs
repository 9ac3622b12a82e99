//! The event of a translation recognition, and its reconstruction from an event
//! handle.

use super::translation_recognition_result::{
    RecognitionResultFetch, RecognitionResultFetchView, TranslationRecognitionResult,
    TranslationRecognitionResultView,
};
use crate::abi::{views, Reply, ReplyView, Request, RequestView};
use crate::error::{Error, ErrorView, NO_ERROR};
use crate::handle::SmartHandleView;
use crate::speech::{event_handle, RecognitionEvent};
use crate::step::{Step, StepView};
use vstd::prelude::*;

verus! {

/// Recognition event extending *RecognitionEvent* passed into callbacks *set_recognizing_cb* and *set_recognized_cb*.
#[derive(PartialEq, Eq)]
pub struct TranslationRecognitionEvent {
    pub base: RecognitionEvent,
    pub result: TranslationRecognitionResult,
}

/// The mathematical content of a [`TranslationRecognitionEvent`].
pub struct TranslationRecognitionEventView {
    pub base: SmartHandleView,
    pub result: TranslationRecognitionResultView,
}

impl View for TranslationRecognitionEvent {
    type V = TranslationRecognitionEventView;

    open spec fn view(&self) -> TranslationRecognitionEventView {
        TranslationRecognitionEventView { base: self.base.handle@, result: self.result@ }
    }
}

impl TranslationRecognitionEventView {
    /// The releases that the owner of such an event owes, in the order in which
    /// they are made: the event, the result, the result's property bag.
    pub open spec fn releases(self) -> Seq<RequestView> {
        seq![self.base.release()] + self.result.releases()
    }
}

/// A reconstruction of a [`TranslationRecognitionEvent`] that waits for the
/// engine's reply to its last request.
pub enum RecognitionEventFetch {
    /// The event is owned; which result it carries has been asked.
    Result { base: RecognitionEvent },
    /// The event is owned; its result is being rebuilt.
    Inner { base: RecognitionEvent, inner: RecognitionResultFetch },
    /// The reconstruction has failed, and the release of the event has been asked.
    Releasing { error: Error },
}

/// The mathematical content of a [`RecognitionEventFetch`].
pub enum RecognitionEventFetchView {
    Result { base: SmartHandleView },
    Inner { base: SmartHandleView, inner: RecognitionResultFetchView },
    Releasing { error: ErrorView },
}

impl View for RecognitionEventFetch {
    type V = RecognitionEventFetchView;

    open spec fn view(&self) -> RecognitionEventFetchView {
        match *self {
            RecognitionEventFetch::Result { base } => RecognitionEventFetchView::Result {
                base: base.handle@,
            },
            RecognitionEventFetch::Inner { base, inner } => RecognitionEventFetchView::Inner {
                base: base.handle@,
                inner: inner@,
            },
            RecognitionEventFetch::Releasing { error } => RecognitionEventFetchView::Releasing {
                error: error@,
            },
        }
    }
}

/// The context of a failure to learn which result an event carries.
pub open spec fn event_result_context() -> Seq<char> {
    "TranslationRecognitionEvent::from_handle error"@
}

impl RecognitionEventFetchView {
    /// The first step of the reconstruction of the event behind `handle`: the event
    /// is owned from the start, and the engine is asked which result it carries.
    pub open spec fn start(handle: usize) -> StepView<
        RecognitionEventFetchView,
        TranslationRecognitionEventView,
    > {
        StepView::Ask(
            RecognitionEventFetchView::Result { base: event_handle(handle) },
            RequestView::EventResult { event: handle },
        )
    }

    /// The step that gives the event up after a failure: the release of the event is
    /// asked for, and the failure is kept until the engine has answered.
    pub open spec fn give_up(base: SmartHandleView, error: ErrorView) -> StepView<
        RecognitionEventFetchView,
        TranslationRecognitionEventView,
    > {
        StepView::Ask(RecognitionEventFetchView::Releasing { error }, base.release())
    }

    /// Whether the state satisfies what every state handed out by this module
    /// satisfies.
    pub open spec fn wf(self) -> bool {
        self matches RecognitionEventFetchView::Inner { inner, .. } ==> inner.wf()
    }

    /// The step that follows the engine's reply. Where the engine does not name the
    /// result, or the reconstruction of the result fails, the event is released and
    /// the failure is the outcome; the status that the engine answers the release
    /// with is not looked at. Where the result is complete, so is the event.
    pub open spec fn next(self, reply: ReplyView) -> StepView<
        RecognitionEventFetchView,
        TranslationRecognitionEventView,
    > {
        match self {
            RecognitionEventFetchView::Result { base } => {
                if reply.status != NO_ERROR {
                    Self::give_up(
                        base,
                        ErrorView::Api { code: reply.status, context: event_result_context() },
                    )
                } else {
                    let inner = RecognitionResultFetchView::start(reply.word);
                    StepView::Ask(
                        RecognitionEventFetchView::Inner { base, inner },
                        inner.request(),
                    )
                }
            },
            RecognitionEventFetchView::Inner { base, inner } => match inner.next(reply) {
                StepView::Ask(inner, request) => StepView::Ask(
                    RecognitionEventFetchView::Inner { base, inner },
                    request,
                ),
                StepView::Done(Ok(result)) => StepView::Done(
                    Ok(TranslationRecognitionEventView { base, result }),
                ),
                StepView::Done(Err(error)) => Self::give_up(base, error),
            },
            RecognitionEventFetchView::Releasing { error } => StepView::Done(Err(error)),
        }
    }
}

impl RecognitionEventFetchView {
    /// A bound on the number of replies that the reconstruction still takes.
    pub open spec fn rank(self) -> nat {
        match self {
            RecognitionEventFetchView::Result { .. } => RecognitionResultFetchView::start(0).rank()
                + 3,
            RecognitionEventFetchView::Inner { inner, .. } => inner.rank() + 2,
            RecognitionEventFetchView::Releasing { .. } => 1,
        }
    }

    /// Every reply brings the reconstruction nearer to its end.
    pub proof fn lemma_progress(self, reply: ReplyView)
        requires
            self.wf(),
        ensures
            self.next(reply) matches StepView::Ask(state, _) ==> state.wf() && state.rank()
                < self.rank(),
    {
        if let RecognitionEventFetchView::Inner { inner, .. } = self {
            inner.lemma_progress(reply);
        }
    }
}

impl RecognitionEventFetch {
    /// Whether the state satisfies what every state handed out by this module
    /// satisfies.
    pub open spec fn wf(&self) -> bool {
        self@.wf()
    }

    fn give_up(base: RecognitionEvent, error: Error) -> (step: Step<
        RecognitionEventFetch,
        TranslationRecognitionEvent,
    >)
        ensures
            step@ == RecognitionEventFetchView::give_up(base.handle@, error@),
            step matches Step::Ask(state, _) && state.wf(),
    {
        let request = base.handle.release();
        Step::Ask(RecognitionEventFetch::Releasing { error }, request)
    }

    /// Takes the engine's reply to the request that came with this state.
    pub fn resume(self, reply: Reply) -> (step: Step<
        RecognitionEventFetch,
        TranslationRecognitionEvent,
    >)
        ensures
            step@ == self@.next(reply@),
            step matches Step::Ask(state, _) ==> state.wf(),
    {
        match self {
            RecognitionEventFetch::Result { base } => {
                if reply.status != NO_ERROR {
                    RecognitionEventFetch::give_up(
                        base,
                        Error::Api {
                            code: reply.status,
                            context: "TranslationRecognitionEvent::from_handle error".to_owned(),
                        },
                    )
                } else {
                    match TranslationRecognitionResult::from_handle(reply.word) {
                        Step::Ask(inner, request) => Step::Ask(
                            RecognitionEventFetch::Inner { base, inner },
                            request,
                        ),
                        Step::Done(Ok(result)) => Step::Done(
                            Ok(TranslationRecognitionEvent { base, result }),
                        ),
                        Step::Done(Err(error)) => RecognitionEventFetch::give_up(base, error),
                    }
                }
            },
            RecognitionEventFetch::Inner { base, inner } => match inner.resume(reply) {
                Step::Ask(inner, request) => Step::Ask(
                    RecognitionEventFetch::Inner { base, inner },
                    request,
                ),
                Step::Done(Ok(result)) => Step::Done(
                    Ok(TranslationRecognitionEvent { base, result }),
                ),
                Step::Done(Err(error)) => RecognitionEventFetch::give_up(base, error),
            },
            RecognitionEventFetch::Releasing { error } => Step::Done(Err(error)),
        }
    }
}

impl TranslationRecognitionEvent {
    /// Starts the reconstruction of the event behind `handle`: the first call to
    /// make, and the state that takes its reply.
    pub fn from_handle(handle: usize) -> (step: Step<
        RecognitionEventFetch,
        TranslationRecognitionEvent,
    >)
        ensures
            step@ == RecognitionEventFetchView::start(handle),
            step matches Step::Ask(state, _) && state.wf(),
    {
        let base = RecognitionEvent::from_handle(handle);
        Step::Ask(RecognitionEventFetch::Result { base }, Request::EventResult { event: handle })
    }

    /// Ends the ownership of the event: the releases to make, in order. The
    /// statuses that the engine answers them with are of no consequence.
    pub fn release(self) -> (requests: Vec<Request>)
        ensures
            views(requests@) == self@.releases(),
    {
        let mut requests = Vec::new();
        requests.push(self.base.handle.release());
        requests.push(self.result.handle.release());
        requests.push(self.result.properties.handle.release());
        assert(views(requests@) =~= self@.releases());
        requests
    }
}

} // verus!

//! The event of a canceled translation recognition, and its reconstruction from an
//! event handle.

use super::translation_recognition_event::{
    RecognitionEventFetch, RecognitionEventFetchView, TranslationRecognitionEvent,
    TranslationRecognitionEventView,
};
use crate::abi::{views, Reply, ReplyView, Request, RequestView};
use crate::common::{CancellationErrorCode, CancellationReason, PropertyId};
use crate::error::{Error, ErrorView, NO_ERROR};
use crate::property::{looked_up, PropertyCollection};
use crate::step::{Step, StepView};
use crate::text::c_text;
use vstd::prelude::*;
use vstd::utf8::valid_utf8;

verus! {

/// Recognition event extending *TranslationRecognitionEvent* passed into callback *set_canceled_cb*.
#[derive(PartialEq, Eq)]
pub struct TranslationRecognitionCanceledEvent {
    pub base: TranslationRecognitionEvent,
    pub reason: CancellationReason,
    pub error_code: CancellationErrorCode,
    pub error_details: String,
}

/// The mathematical content of a [`TranslationRecognitionCanceledEvent`].
pub struct TranslationRecognitionCanceledEventView {
    pub base: TranslationRecognitionEventView,
    pub reason: CancellationReason,
    pub error_code: CancellationErrorCode,
    pub error_details: Seq<char>,
}

impl View for TranslationRecognitionCanceledEvent {
    type V = TranslationRecognitionCanceledEventView;

    open spec fn view(&self) -> TranslationRecognitionCanceledEventView {
        TranslationRecognitionCanceledEventView {
            base: self.base@,
            reason: self.reason,
            error_code: self.error_code,
            error_details: self.error_details@,
        }
    }
}

impl TranslationRecognitionCanceledEventView {
    /// The releases that the owner of such an event owes: those of the event that
    /// it extends.
    pub open spec fn releases(self) -> Seq<RequestView> {
        self.base.releases()
    }
}

/// A reconstruction of a [`TranslationRecognitionCanceledEvent`] that waits for
/// the engine's reply to its last request.
pub enum CanceledEventFetch {
    /// The event that is extended is being rebuilt.
    Inner { inner: RecognitionEventFetch },
    /// The code of the cancellation reason has been asked.
    Reason { base: TranslationRecognitionEvent },
    /// The code of the cancellation error has been asked.
    ErrorCode { base: TranslationRecognitionEvent, reason: u64 },
    /// The error details have been asked of the result's property bag.
    Details { base: TranslationRecognitionEvent, reason: u64, error_code: u64 },
    /// The reconstruction has failed; a release has been asked, and those in
    /// `pending` are still to come.
    Releasing { error: Error, pending: Vec<Request> },
}

/// The mathematical content of a [`CanceledEventFetch`].
pub enum CanceledEventFetchView {
    Inner { inner: RecognitionEventFetchView },
    Reason { base: TranslationRecognitionEventView },
    ErrorCode { base: TranslationRecognitionEventView, reason: u64 },
    Details { base: TranslationRecognitionEventView, reason: u64, error_code: u64 },
    Releasing { error: ErrorView, pending: Seq<RequestView> },
}

impl View for CanceledEventFetch {
    type V = CanceledEventFetchView;

    open spec fn view(&self) -> CanceledEventFetchView {
        match *self {
            CanceledEventFetch::Inner { inner } => CanceledEventFetchView::Inner { inner: inner@ },
            CanceledEventFetch::Reason { base } => CanceledEventFetchView::Reason { base: base@ },
            CanceledEventFetch::ErrorCode { base, reason } => CanceledEventFetchView::ErrorCode {
                base: base@,
                reason,
            },
            CanceledEventFetch::Details {
                base,
                reason,
                error_code,
            } => CanceledEventFetchView::Details { base: base@, reason, error_code },
            CanceledEventFetch::Releasing { error, pending } => CanceledEventFetchView::Releasing {
                error: error@,
                pending: views(pending@),
            },
        }
    }
}

/// The context of a failure to learn the cancellation reason.
pub open spec fn reason_context() -> Seq<char> {
    "TranslationRecognitionCanceledEvent::from_handle(result_get_reason_canceled) error"@
}

/// The context of a failure to learn the cancellation error.
pub open spec fn error_code_context() -> Seq<char> {
    "TranslationRecognitionCanceledEvent::from_handle(result_get_canceled_error_code) error"@
}

impl CanceledEventFetchView {
    /// The first step of the reconstruction of the event behind `handle`: that of
    /// the event that is extended.
    pub open spec fn start(handle: usize) -> StepView<
        CanceledEventFetchView,
        TranslationRecognitionCanceledEventView,
    > {
        Self::after(RecognitionEventFetchView::start(handle))
    }

    /// The step that a step of the extended event's reconstruction amounts to. Once
    /// that event is complete, the reason is asked of its result.
    pub open spec fn after(
        inner: StepView<RecognitionEventFetchView, TranslationRecognitionEventView>,
    ) -> StepView<CanceledEventFetchView, TranslationRecognitionCanceledEventView> {
        match inner {
            StepView::Ask(inner, request) => StepView::Ask(
                CanceledEventFetchView::Inner { inner },
                request,
            ),
            StepView::Done(Ok(base)) => StepView::Ask(
                CanceledEventFetchView::Reason { base },
                RequestView::CanceledReason { result: base.result.handle.handle },
            ),
            StepView::Done(Err(error)) => StepView::Done(Err(error)),
        }
    }

    /// The step that gives the extended event up after a failure: its first release
    /// is asked for, the others are pending, and the failure is kept until the
    /// engine has answered them all.
    pub open spec fn give_up(base: TranslationRecognitionEventView, error: ErrorView) -> StepView<
        CanceledEventFetchView,
        TranslationRecognitionCanceledEventView,
    > {
        StepView::Ask(
            CanceledEventFetchView::Releasing { error, pending: base.releases().drop_first() },
            base.releases().first(),
        )
    }

    /// Whether the state satisfies what every state handed out by this module
    /// satisfies.
    pub open spec fn wf(self) -> bool {
        self matches CanceledEventFetchView::Inner { inner } ==> inner.wf()
    }

    /// The step that follows the engine's reply. A failure of the extended event's
    /// reconstruction is the outcome as it is. Where the engine refuses the reason
    /// or the error code, the complete event is released, one release per reply,
    /// and the failure is the outcome; the statuses of the releases are not looked
    /// at. The error details are read from the result's property bag, and that
    /// lookup cannot fail the event: whatever the engine answers, the event is
    /// complete, with empty details where none could be read.
    pub open spec fn next(self, reply: ReplyView) -> StepView<
        CanceledEventFetchView,
        TranslationRecognitionCanceledEventView,
    > {
        match self {
            CanceledEventFetchView::Inner { inner } => Self::after(inner.next(reply)),
            CanceledEventFetchView::Reason { base } => {
                if reply.status != NO_ERROR {
                    Self::give_up(
                        base,
                        ErrorView::Api { code: reply.status, context: reason_context() },
                    )
                } else {
                    StepView::Ask(
                        CanceledEventFetchView::ErrorCode { base, reason: reply.number },
                        RequestView::CanceledErrorCode { result: base.result.handle.handle },
                    )
                }
            },
            CanceledEventFetchView::ErrorCode { base, reason } => {
                if reply.status != NO_ERROR {
                    Self::give_up(
                        base,
                        ErrorView::Api { code: reply.status, context: error_code_context() },
                    )
                } else {
                    StepView::Ask(
                        CanceledEventFetchView::Details { base, reason, error_code: reply.number },
                        RequestView::GetProperty {
                            bag: base.result.properties.handle,
                            id: PropertyId::SpeechServiceResponseJsonErrorDetails.spec_to_i32(),
                            default: Seq::empty(),
                        },
                    )
                }
            },
            CanceledEventFetchView::Details { base, reason, error_code } => StepView::Done(
                Ok(
                    TranslationRecognitionCanceledEventView {
                        base,
                        reason: CancellationReason::of_code(reason),
                        error_code: CancellationErrorCode::of_code(error_code),
                        error_details: looked_up(reply, Seq::empty()),
                    },
                ),
            ),
            CanceledEventFetchView::Releasing { error, pending } => {
                if pending.len() == 0 {
                    StepView::Done(Err(error))
                } else {
                    StepView::Ask(
                        CanceledEventFetchView::Releasing { error, pending: pending.drop_first() },
                        pending.first(),
                    )
                }
            },
        }
    }
}

impl CanceledEventFetchView {
    /// A bound on the number of replies that the reconstruction still takes.
    pub open spec fn rank(self) -> nat {
        match self {
            CanceledEventFetchView::Inner { inner } => inner.rank() + 6,
            CanceledEventFetchView::Reason { .. } => 5,
            CanceledEventFetchView::ErrorCode { .. } => 4,
            CanceledEventFetchView::Details { .. } => 1,
            CanceledEventFetchView::Releasing { pending, .. } => pending.len() + 1,
        }
    }

    /// Every reply brings the reconstruction nearer to its end.
    pub proof fn lemma_progress(self, reply: ReplyView)
        requires
            self.wf(),
        ensures
            self.next(reply) matches StepView::Ask(state, _) ==> state.wf() && state.rank()
                < self.rank(),
    {
        if let CanceledEventFetchView::Inner { inner } = self {
            inner.lemma_progress(reply);
        }
    }
}

/// Whatever the engine answers to the lookup of the error details, the canceled
/// event is complete: it extends the event that was rebuilt, and its reason and
/// error code are those that the engine named. Where the lookup failed, because the
/// call was refused or because what it left is not valid text, the details are
/// empty.
pub proof fn lemma_details_cannot_fail(
    base: TranslationRecognitionEventView,
    reason: u64,
    error_code: u64,
    reply: ReplyView,
)
    ensures
        (CanceledEventFetchView::Details { base, reason, error_code }).next(reply) matches StepView::Done(
            Ok(event),
        ) && {
            &&& event.base == base
            &&& event.reason == CancellationReason::of_code(reason)
            &&& event.error_code == CancellationErrorCode::of_code(error_code)
            &&& (reply.status != NO_ERROR || !valid_utf8(c_text(reply.buffer)))
                ==> event.error_details == Seq::<char>::empty()
        },
{
}

impl CanceledEventFetch {
    /// Whether the state satisfies what every state handed out by this module
    /// satisfies.
    pub open spec fn wf(&self) -> bool {
        self@.wf()
    }

    fn after(inner: Step<RecognitionEventFetch, TranslationRecognitionEvent>) -> (step: Step<
        CanceledEventFetch,
        TranslationRecognitionCanceledEvent,
    >)
        requires
            inner matches Step::Ask(state, _) ==> state.wf(),
        ensures
            step@ == CanceledEventFetchView::after(inner@),
            step matches Step::Ask(state, _) ==> state.wf(),
    {
        match inner {
            Step::Ask(inner, request) => Step::Ask(CanceledEventFetch::Inner { inner }, request),
            Step::Done(Ok(base)) => {
                let request = Request::CanceledReason { result: base.result.handle.inner() };
                Step::Ask(CanceledEventFetch::Reason { base }, request)
            },
            Step::Done(Err(error)) => Step::Done(Err(error)),
        }
    }

    fn give_up(base: TranslationRecognitionEvent, error: Error) -> (step: Step<
        CanceledEventFetch,
        TranslationRecognitionCanceledEvent,
    >)
        ensures
            step@ == CanceledEventFetchView::give_up(base@, error@),
            step matches Step::Ask(state, _) && state.wf(),
    {
        let mut pending = base.release();
        let first = pending.remove(0);
        assert(views(pending@) =~= base@.releases().drop_first());
        Step::Ask(CanceledEventFetch::Releasing { error, pending }, first)
    }

    /// Takes the engine's reply to the request that came with this state.
    pub fn resume(self, reply: Reply) -> (step: Step<
        CanceledEventFetch,
        TranslationRecognitionCanceledEvent,
    >)
        ensures
            step@ == self@.next(reply@),
            step matches Step::Ask(state, _) ==> state.wf(),
    {
        match self {
            CanceledEventFetch::Inner { inner } => CanceledEventFetch::after(inner.resume(reply)),
            CanceledEventFetch::Reason { base } => {
                if reply.status != NO_ERROR {
                    CanceledEventFetch::give_up(
                        base,
                        Error::Api {
                            code: reply.status,
                            context: "TranslationRecognitionCanceledEvent::from_handle(result_get_reason_canceled) error".to_owned(),
                        },
                    )
                } else {
                    let request = Request::CanceledErrorCode { result: base.result.handle.inner() };
                    Step::Ask(CanceledEventFetch::ErrorCode { base, reason: reply.number }, request)
                }
            },
            CanceledEventFetch::ErrorCode { base, reason } => {
                if reply.status != NO_ERROR {
                    CanceledEventFetch::give_up(
                        base,
                        Error::Api {
                            code: reply.status,
                            context: "TranslationRecognitionCanceledEvent::from_handle(result_get_canceled_error_code) error".to_owned(),
                        },
                    )
                } else {
                    proof {
                        reveal_strlit("");
                    }
                    let request = base.result.properties.get_property(
                        PropertyId::SpeechServiceResponseJsonErrorDetails,
                        "",
                    );
                    assert(""@ =~= Seq::<char>::empty());
                    Step::Ask(
                        CanceledEventFetch::Details { base, reason, error_code: reply.number },
                        request,
                    )
                }
            },
            CanceledEventFetch::Details { base, reason, error_code } => Step::Done(
                Ok(
                    TranslationRecognitionCanceledEvent {
                        base,
                        reason: CancellationReason::from_code(reason),
                        error_code: CancellationErrorCode::from_code(error_code),
                        error_details: PropertyCollection::property_value(&reply, String::new()),
                    },
                ),
            ),
            CanceledEventFetch::Releasing { error, pending } => {
                if pending.len() == 0 {
                    Step::Done(Err(error))
                } else {
                    let ghost before = pending@;
                    let mut pending = pending;
                    let first = pending.remove(0);
                    assert(views(pending@) =~= views(before).drop_first());
                    Step::Ask(CanceledEventFetch::Releasing { error, pending }, first)
                }
            },
        }
    }
}

impl TranslationRecognitionCanceledEvent {
    /// Starts the reconstruction of the event behind `handle`: the first call to
    /// make, and the state that takes its reply.
    pub fn from_handle(handle: usize) -> (step: Step<
        CanceledEventFetch,
        TranslationRecognitionCanceledEvent,
    >)
        ensures
            step@ == CanceledEventFetchView::start(handle),
            step matches Step::Ask(state, _) && state.wf(),
    {
        CanceledEventFetch::after(TranslationRecognitionEvent::from_handle(handle))
    }

    /// Ends the ownership of the event: the releases to make, in order. The
    /// statuses that the engine answers them with are of no consequence.
    pub fn release(self) -> (requests: Vec<Request>)
        ensures
            views(requests@) == self@.releases(),
    {
        self.base.release()
    }
}

} // verus!

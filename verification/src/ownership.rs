//! Every resource that a reconstruction comes to own is released exactly once,
//! whether the reconstruction succeeds and its owner lets go of the value, or it
//! fails on the way, and nothing else is released.

use crate::abi::{RequestView, Resource};
use crate::error::{ErrorView, NO_ERROR};
use crate::fixture::{count_of, lemma_count_add, lemma_count_push, FixtureView};
use crate::reconstruct::{
    after_all, lemma_recognition_result_frame, lemma_synthesis_result_frame,
    run_canceled_event, run_recognition_event, run_recognition_result, run_synthesis_event,
    run_synthesis_result,
};
use crate::round_trip::{
    lemma_canceled_follows_event, lemma_event_follows_result,
    lemma_synthesis_event_follows_result,
};
use crate::speech::event_handle;
use crate::step::StepView;
use crate::translation::translation_recognition_canceled_event::{
    error_code_context, reason_context, CanceledEventFetchView,
    TranslationRecognitionCanceledEventView,
};
use crate::translation::translation_recognition_event::{
    RecognitionEventFetchView, TranslationRecognitionEventView,
};
use crate::translation::translation_recognition_result::RecognitionResultFetchView;
use crate::translation::translation_synthesis_event::{
    synthesis_event_handle, SynthesisEventFetchView, TranslationSynthesisEventView,
};
use crate::translation::translation_synthesis_result::SynthesisResultFetchView;
use vstd::prelude::*;

verus! {

/// Between the fixture `before` and the fixture `end`, each release in `owed` was
/// made as often as it is owed, and no other release was made.
pub open spec fn released_exactly(
    before: FixtureView,
    end: FixtureView,
    owed: Seq<RequestView>,
) -> bool {
    forall|kind: Resource, handle: usize| #[trigger]
        end.released(kind, handle) == before.released(kind, handle) + count_of(
            owed,
            RequestView::Release { kind, handle },
        )
}

/// Calls that release nothing, followed by the releases that are owed, release
/// exactly what is owed.
proof fn lemma_settle(
    before: FixtureView,
    quiet: FixtureView,
    owed: Seq<RequestView>,
)
    requires
        forall|kind: Resource, handle: usize|
            quiet.released(kind, handle) == #[trigger] before.released(kind, handle),
    ensures
        released_exactly(before, after_all(quiet, owed), owed),
{
    assert forall|kind: Resource, handle: usize| #[trigger]
        after_all(quiet, owed).released(kind, handle) == before.released(kind, handle) + count_of(
            owed,
            RequestView::Release { kind, handle },
        ) by {
        lemma_count_add(quiet.log, owed, RequestView::Release { kind, handle });
        assert(quiet.released(kind, handle) == before.released(kind, handle));
    }
}

/// A call that is no release leaves every count of releases as it was.
proof fn lemma_quiet_call(fixture: FixtureView, request: RequestView)
    requires
        !(request is Release),
    ensures
        forall|kind: Resource, handle: usize|
            fixture.after(request).released(kind, handle) == #[trigger] fixture.released(
                kind,
                handle,
            ),
{
    assert forall|kind: Resource, handle: usize|
        fixture.after(request).released(kind, handle) == #[trigger] fixture.released(
            kind,
            handle,
        ) by {
        lemma_count_push(fixture.log, request, RequestView::Release { kind, handle });
    }
}

/// The reconstruction of a recognition result releases nothing. Where it
/// succeeds, the result's owner owes two different releases, and once they are made,
/// exactly they have been made.
pub proof fn lemma_recognition_result_releases(fixture: FixtureView, handle: usize)
    ensures
        ({
            let (outcome, after) = run_recognition_result(
                fixture,
                RecognitionResultFetchView::start(handle).ask(),
            );
            match outcome {
                Ok(result) => {
                    &&& result.releases().no_duplicates()
                    &&& released_exactly(fixture, after, Seq::empty())
                    &&& released_exactly(
                        fixture,
                        after_all(after, result.releases()),
                        result.releases(),
                    )
                },
                Err(_) => released_exactly(fixture, after, Seq::empty()),
            }
        }),
{
    let start = RecognitionResultFetchView::start(handle);
    lemma_recognition_result_frame(fixture, start);
    let (outcome, after) = run_recognition_result(fixture, start.ask());
    match outcome {
        Ok(result) => {
            lemma_result_built(fixture, start);
            lemma_settle(fixture, after, result.releases());
            lemma_settle(fixture, after, Seq::empty());
            assert(after_all(after, Seq::empty()).log =~= after.log);
        },
        Err(_) => {
            lemma_settle(fixture, after, Seq::empty());
            assert(after_all(after, Seq::empty()).log =~= after.log);
        },
    }
}

/// A rebuilt recognition result owns a result handle and a property bag.
proof fn lemma_result_built(fixture: FixtureView, state: RecognitionResultFetchView)
    requires
        state.wf(),
    ensures
        run_recognition_result(fixture, state.ask()).0 matches Ok(result) ==> result.handle.kind
            == Resource::Result && result.handle.handle == state.handle
            && result.properties.kind == Resource::PropertyBag,
    decreases state.rank(),
{
    let reply = fixture.answer(state.request());
    state.lemma_progress(reply);
    reveal_with_fuel(run_recognition_result, 2);
    match state.next(reply) {
        StepView::Ask(following, _) => {
            lemma_result_built(fixture.after(state.request()), following);
        },
        StepView::Done(_) => {},
    }
}

/// A rebuilt synthesis result owns a result handle and a property bag.
proof fn lemma_synthesis_built(fixture: FixtureView, state: SynthesisResultFetchView)
    ensures
        run_synthesis_result(fixture, state.ask()).0 matches Ok(result) ==> result.handle.kind
            == Resource::Result && result.handle.handle == state.handle
            && result.properties.kind == Resource::PropertyBag,
    decreases state.rank(),
{
    let reply = fixture.answer(state.request());
    state.lemma_progress(reply);
    reveal_with_fuel(run_synthesis_result, 2);
    match state.next(reply) {
        StepView::Ask(following, _) => {
            lemma_synthesis_built(fixture.after(state.request()), following);
        },
        StepView::Done(_) => {},
    }
}

/// The reconstruction of a synthesis result releases nothing. Where it succeeds,
/// the result's owner owes two different releases, and once they are made, exactly
/// they have been made.
pub proof fn lemma_synthesis_result_releases(fixture: FixtureView, handle: usize)
    ensures
        ({
            let (outcome, after) = run_synthesis_result(
                fixture,
                SynthesisResultFetchView::start(handle).ask(),
            );
            match outcome {
                Ok(result) => {
                    &&& result.releases().no_duplicates()
                    &&& released_exactly(fixture, after, Seq::empty())
                    &&& released_exactly(
                        fixture,
                        after_all(after, result.releases()),
                        result.releases(),
                    )
                },
                Err(_) => released_exactly(fixture, after, Seq::empty()),
            }
        }),
{
    let start = SynthesisResultFetchView::start(handle);
    lemma_synthesis_result_frame(fixture, start);
    let (outcome, after) = run_synthesis_result(fixture, start.ask());
    match outcome {
        Ok(result) => {
            lemma_synthesis_built(fixture, start);
            lemma_settle(fixture, after, result.releases());
            lemma_settle(fixture, after, Seq::empty());
            assert(after_all(after, Seq::empty()).log =~= after.log);
        },
        Err(_) => {
            lemma_settle(fixture, after, Seq::empty());
            assert(after_all(after, Seq::empty()).log =~= after.log);
        },
    }
}

/// The event handle is released exactly once on every way through the
/// reconstruction of a recognition event, whatever the engine answers. Where the
/// reconstruction fails, it has made that release itself, and no other. Where it
/// succeeds, it has made none; the event's owner owes three different releases,
/// that of the event among them, and once they are made, exactly they have been
/// made.
pub proof fn lemma_recognition_event_releases(fixture: FixtureView, handle: usize)
    ensures
        ({
            let (outcome, after) = run_recognition_event(
                fixture,
                RecognitionEventFetchView::start(handle),
            );
            match outcome {
                Ok(event) => {
                    &&& event.releases().no_duplicates()
                    &&& event.releases()[0] == event_handle(handle).release()
                    &&& released_exactly(fixture, after, Seq::empty())
                    &&& released_exactly(
                        fixture,
                        after_all(after, event.releases()),
                        event.releases(),
                    )
                },
                Err(_) => released_exactly(fixture, after, seq![event_handle(handle).release()]),
            }
        }),
{
    let base = event_handle(handle);
    let request = RequestView::EventResult { event: handle };
    let reply = fixture.answer(request);
    let f1 = fixture.after(request);
    lemma_quiet_call(fixture, request);
    reveal_with_fuel(run_recognition_event, 3);
    if reply.status != NO_ERROR {
        let f2 = f1.after(base.release());
        assert(run_recognition_event(fixture, RecognitionEventFetchView::start(handle)).1 == f2);
        lemma_settle(fixture, f1, seq![base.release()]);
        assert(after_all(f1, seq![base.release()]).log =~= f2.log);
    } else {
        let inner = RecognitionResultFetchView::start(reply.word);
        lemma_event_follows_result(f1, base, inner);
        lemma_recognition_result_frame(f1, inner);
        lemma_result_built(f1, inner);
        let (outcome, after) = run_recognition_result(f1, inner.ask());
        match outcome {
            Ok(result) => {
                let event = TranslationRecognitionEventView { base, result };
                lemma_settle(fixture, after, event.releases());
                lemma_settle(fixture, after, Seq::empty());
                assert(after_all(after, Seq::empty()).log =~= after.log);
            },
            Err(_) => {
                lemma_settle(fixture, after, seq![base.release()]);
                assert(after_all(after, seq![base.release()]).log =~= after.after(
                    base.release(),
                ).log);
            },
        }
    }
}

/// The reconstruction of a synthesis event releases nothing: the event is not
/// owned before the reconstruction has succeeded. Where it succeeds, the event's
/// owner owes three different releases, and once they are made, exactly they have
/// been made.
pub proof fn lemma_synthesis_event_releases(fixture: FixtureView, handle: usize)
    ensures
        ({
            let (outcome, after) = run_synthesis_event(
                fixture,
                SynthesisEventFetchView::start(handle),
            );
            match outcome {
                Ok(event) => {
                    &&& event.releases().no_duplicates()
                    &&& released_exactly(fixture, after, Seq::empty())
                    &&& released_exactly(
                        fixture,
                        after_all(after, event.releases()),
                        event.releases(),
                    )
                },
                Err(_) => released_exactly(fixture, after, Seq::empty()),
            }
        }),
{
    let request = RequestView::EventResult { event: handle };
    let reply = fixture.answer(request);
    let f1 = fixture.after(request);
    lemma_quiet_call(fixture, request);
    reveal_with_fuel(run_synthesis_event, 2);
    if reply.status != NO_ERROR {
        lemma_settle(fixture, f1, Seq::empty());
        assert(after_all(f1, Seq::empty()).log =~= f1.log);
    } else {
        let inner = SynthesisResultFetchView::start(reply.word);
        lemma_synthesis_event_follows_result(f1, handle, inner);
        lemma_synthesis_result_frame(f1, inner);
        lemma_synthesis_built(f1, inner);
        let (outcome, after) = run_synthesis_result(f1, inner.ask());
        match outcome {
            Ok(result) => {
                let event = TranslationSynthesisEventView {
                    handle: synthesis_event_handle(handle),
                    result,
                };
                lemma_settle(fixture, after, event.releases());
                lemma_settle(fixture, after, Seq::empty());
                assert(after_all(after, Seq::empty()).log =~= after.log);
            },
            Err(_) => {
                lemma_settle(fixture, after, Seq::empty());
                assert(after_all(after, Seq::empty()).log =~= after.log);
            },
        }
    }
}

/// What the reconstruction of a canceled event has come to own when it fails:
/// the whole of the event that it extends where that event was completed, and the
/// event handle alone where it was not.
pub open spec fn owned_at_failure(fixture: FixtureView, handle: usize) -> Seq<RequestView> {
    match run_recognition_event(fixture, RecognitionEventFetchView::start(handle)).0 {
        Ok(base) => base.releases(),
        Err(_) => seq![event_handle(handle).release()],
    }
}

/// Once a failed reconstruction of a canceled event has begun to release what it
/// owned, it makes the pending releases one after the other, whatever the engine
/// answers them with, and then ends with the failure.
pub proof fn lemma_unwinding(
    fixture: FixtureView,
    error: ErrorView,
    first: RequestView,
    pending: Seq<RequestView>,
)
    ensures
        run_canceled_event(
            fixture,
            StepView::Ask(CanceledEventFetchView::Releasing { error, pending }, first),
        ) == (
            Err::<TranslationRecognitionCanceledEventView, ErrorView>(error),
            after_all(fixture, seq![first] + pending),
        ),
    decreases pending.len(),
{
    reveal_with_fuel(run_canceled_event, 2);
    let f1 = fixture.after(first);
    if pending.len() == 0 {
        assert(f1.log =~= fixture.log + (seq![first] + pending));
    } else {
        lemma_unwinding(f1, error, pending.first(), pending.drop_first());
        assert(f1.log + (seq![pending.first()] + pending.drop_first()) =~= fixture.log + (
            seq![first] + pending
        ));
    }
}

/// From the point at which the event that a canceled event extends is complete:
/// where the reconstruction fails, it releases that event; where it succeeds, the
/// canceled event owes the releases of that event.
proof fn lemma_canceled_tail(
    before: FixtureView,
    mid: FixtureView,
    base: TranslationRecognitionEventView,
)
    requires
        forall|kind: Resource, handle: usize|
            mid.released(kind, handle) == #[trigger] before.released(kind, handle),
    ensures
        ({
            let (outcome, after) = run_canceled_event(
                mid,
                StepView::Ask(
                    CanceledEventFetchView::Reason { base },
                    RequestView::CanceledReason { result: base.result.handle.handle },
                ),
            );
            match outcome {
                Ok(event) => {
                    &&& event.releases() == base.releases()
                    &&& released_exactly(before, after, Seq::empty())
                    &&& released_exactly(
                        before,
                        after_all(after, base.releases()),
                        base.releases(),
                    )
                },
                Err(_) => released_exactly(before, after, base.releases()),
            }
        }),
{
    let owed = base.releases();
    let reason = CanceledEventFetchView::Reason { base };
    let asked = RequestView::CanceledReason { result: base.result.handle.handle };
    let f1 = mid.after(asked);
    lemma_quiet_call(mid, asked);
    let reply = mid.answer(asked);
    assert(seq![owed.first()] + owed.drop_first() =~= owed);
    if reply.status != NO_ERROR {
        let error = ErrorView::Api { code: reply.status, context: reason_context() };
        lemma_unwinding(f1, error, owed.first(), owed.drop_first());
        lemma_settle(before, f1, owed);
        reveal_with_fuel(run_canceled_event, 2);
    } else {
        let code = CanceledEventFetchView::ErrorCode { base, reason: reply.number };
        let asked_code = RequestView::CanceledErrorCode { result: base.result.handle.handle };
        let f2 = f1.after(asked_code);
        lemma_quiet_call(f1, asked_code);
        let reply_code = f1.answer(asked_code);
        assert(reason.next(reply) == StepView::<
            CanceledEventFetchView,
            TranslationRecognitionCanceledEventView,
        >::Ask(code, asked_code));
        if reply_code.status != NO_ERROR {
            let error = ErrorView::Api {
                code: reply_code.status,
                context: error_code_context(),
            };
            lemma_unwinding(f2, error, owed.first(), owed.drop_first());
            lemma_settle(before, f2, owed);
            reveal_with_fuel(run_canceled_event, 3);
        } else {
            let next = code.next(reply_code);
            let details = next->Ask_0;
            let asked_details = next->Ask_1;
            let f3 = f2.after(asked_details);
            lemma_quiet_call(f2, asked_details);
            lemma_settle(before, f3, owed);
            lemma_settle(before, f3, Seq::empty());
            assert(after_all(f3, Seq::empty()).log =~= f3.log);
            reveal_with_fuel(run_canceled_event, 4);
            assert(run_canceled_event(mid, StepView::Ask(reason, asked)).1 == f3);
        }
    }
}

/// Every resource that the reconstruction of a canceled event comes to own is
/// released exactly once, whatever the engine answers. Where the reconstruction
/// fails, it has itself released what it had come to own, and nothing else. Where it
/// succeeds, the event's owner owes three different releases, and once they are
/// made, exactly they have been made.
pub proof fn lemma_canceled_event_releases(fixture: FixtureView, handle: usize)
    ensures
        owned_at_failure(fixture, handle).no_duplicates(),
        ({
            let (outcome, after) = run_canceled_event(
                fixture,
                CanceledEventFetchView::start(handle),
            );
            match outcome {
                Ok(event) => {
                    &&& event.releases().no_duplicates()
                    &&& released_exactly(fixture, after, Seq::empty())
                    &&& released_exactly(
                        fixture,
                        after_all(after, event.releases()),
                        event.releases(),
                    )
                },
                Err(_) => released_exactly(fixture, after, owned_at_failure(fixture, handle)),
            }
        }),
{
    let request = RequestView::EventResult { event: handle };
    let inner = RecognitionEventFetchView::Result { base: event_handle(handle) };
    lemma_canceled_follows_event(fixture, inner, request);
    lemma_recognition_event_releases(fixture, handle);
    let (reached, mid) = run_recognition_event(fixture, RecognitionEventFetchView::start(handle));
    match reached {
        Err(_) => {},
        Ok(base) => {
            lemma_canceled_tail(fixture, mid, base);
        },
    }
}

} // verus!

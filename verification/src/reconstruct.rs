//! Whole reconstructions against the fixture: every request of a reconstruction is
//! performed by the fixture, and its reply resumes the reconstruction, until the
//! reconstruction has ended.

use crate::abi::{views, Request, RequestView, Resource};
use crate::error::{Error, ErrorView};
use crate::fixture::{count_of, lemma_count_add, lemma_count_push, Fixture, FixtureView};
use crate::ownership::{
    lemma_canceled_event_releases, lemma_recognition_event_releases,
    lemma_recognition_result_releases, lemma_synthesis_event_releases,
    lemma_synthesis_result_releases, owned_at_failure, released_exactly,
};
use crate::common::PropertyId;
use crate::property::{looked_up, PropertyCollection};
use crate::round_trip::{
    lemma_absent_property, lemma_canceled_event_round_trip, lemma_recognition_event_round_trip,
    lemma_recognition_result_round_trip, lemma_synthesis_event_round_trip,
    lemma_synthesis_result_round_trip,
};
use crate::speech::event_handle;
use crate::step::{outcome_view, Step, StepView};
use crate::text::without_zero;
use crate::translation::translation_recognition_canceled_event::{
    CanceledEventFetchView, TranslationRecognitionCanceledEvent,
    TranslationRecognitionCanceledEventView,
};
use crate::translation::translation_recognition_event::{
    RecognitionEventFetchView, TranslationRecognitionEvent, TranslationRecognitionEventView,
};
use crate::translation::translation_recognition_result::{
    RecognitionResultFetchView, TranslationRecognitionResult, TranslationRecognitionResultView,
};
use crate::translation::translation_synthesis_event::{
    SynthesisEventFetchView, TranslationSynthesisEvent, TranslationSynthesisEventView,
};
use crate::translation::translation_synthesis_result::{
    SynthesisResultFetchView, TranslationSynthesisResult, TranslationSynthesisResultView,
};
use vstd::prelude::*;

verus! {

/// The outcome of the reconstruction of a recognition result from `step` on, and
/// the fixture after it.
pub open spec fn run_recognition_result(
    fixture: FixtureView,
    step: StepView<RecognitionResultFetchView, TranslationRecognitionResultView>,
) -> (Result<TranslationRecognitionResultView, ErrorView>, FixtureView)
    decreases
            (match step {
                StepView::Ask(state, _) => state.rank(),
                StepView::Done(_) => 0,
            }),
    when step matches StepView::Ask(state, _) ==> state.wf()
{
    match step {
        StepView::Done(outcome) => (outcome, fixture),
        StepView::Ask(state, request) => {
            proof {
                state.lemma_progress(fixture.answer(request));
            }
            run_recognition_result(fixture.after(request), state.next(fixture.answer(request)))
        },
    }
}

/// The outcome of the reconstruction of a synthesis result from `step` on, and the
/// fixture after it.
pub open spec fn run_synthesis_result(
    fixture: FixtureView,
    step: StepView<SynthesisResultFetchView, TranslationSynthesisResultView>,
) -> (Result<TranslationSynthesisResultView, ErrorView>, FixtureView)
    decreases
            (match step {
                StepView::Ask(state, _) => state.rank(),
                StepView::Done(_) => 0,
            }),
{
    match step {
        StepView::Done(outcome) => (outcome, fixture),
        StepView::Ask(state, request) => {
            proof {
                state.lemma_progress(fixture.answer(request));
            }
            run_synthesis_result(fixture.after(request), state.next(fixture.answer(request)))
        },
    }
}

/// The outcome of the reconstruction of a recognition event from `step` on, and
/// the fixture after it.
pub open spec fn run_recognition_event(
    fixture: FixtureView,
    step: StepView<RecognitionEventFetchView, TranslationRecognitionEventView>,
) -> (Result<TranslationRecognitionEventView, ErrorView>, FixtureView)
    decreases
            (match step {
                StepView::Ask(state, _) => state.rank(),
                StepView::Done(_) => 0,
            }),
    when step matches StepView::Ask(state, _) ==> state.wf()
{
    match step {
        StepView::Done(outcome) => (outcome, fixture),
        StepView::Ask(state, request) => {
            proof {
                state.lemma_progress(fixture.answer(request));
            }
            run_recognition_event(fixture.after(request), state.next(fixture.answer(request)))
        },
    }
}

/// The outcome of the reconstruction of a synthesis event from `step` on, and the
/// fixture after it.
pub open spec fn run_synthesis_event(
    fixture: FixtureView,
    step: StepView<SynthesisEventFetchView, TranslationSynthesisEventView>,
) -> (Result<TranslationSynthesisEventView, ErrorView>, FixtureView)
    decreases
            (match step {
                StepView::Ask(state, _) => state.rank(),
                StepView::Done(_) => 0,
            }),
{
    match step {
        StepView::Done(outcome) => (outcome, fixture),
        StepView::Ask(state, request) => {
            proof {
                state.lemma_progress(fixture.answer(request));
            }
            run_synthesis_event(fixture.after(request), state.next(fixture.answer(request)))
        },
    }
}

/// The outcome of the reconstruction of a canceled event from `step` on, and the
/// fixture after it.
pub open spec fn run_canceled_event(
    fixture: FixtureView,
    step: StepView<CanceledEventFetchView, TranslationRecognitionCanceledEventView>,
) -> (Result<TranslationRecognitionCanceledEventView, ErrorView>, FixtureView)
    decreases
            (match step {
                StepView::Ask(state, _) => state.rank(),
                StepView::Done(_) => 0,
            }),
    when step matches StepView::Ask(state, _) ==> state.wf()
{
    match step {
        StepView::Done(outcome) => (outcome, fixture),
        StepView::Ask(state, request) => {
            proof {
                state.lemma_progress(fixture.answer(request));
            }
            run_canceled_event(fixture.after(request), state.next(fixture.answer(request)))
        },
    }
}

/// The reconstruction of a recognition result changes nothing of the fixture but
/// its log, and releases nothing.
pub proof fn lemma_recognition_result_frame(
    fixture: FixtureView,
    state: RecognitionResultFetchView,
)
    requires
        state.wf(),
    ensures
        fixture.same_seed(run_recognition_result(fixture, state.ask()).1),
        forall|kind: Resource, handle: usize|
            run_recognition_result(fixture, state.ask()).1.released(kind, handle)
                == #[trigger] fixture.released(kind, handle),
    decreases state.rank(),
{
    let request = state.request();
    let reply = fixture.answer(request);
    state.lemma_progress(reply);
    reveal_with_fuel(run_recognition_result, 2);
    assert forall|kind: Resource, handle: usize|
        fixture.after(request).released(kind, handle) == #[trigger] fixture.released(
            kind,
            handle,
        ) by {
        lemma_count_push(fixture.log, request, RequestView::Release { kind, handle });
    }
    match state.next(reply) {
        StepView::Ask(following, _) => {
            lemma_recognition_result_frame(fixture.after(request), following);
        },
        StepView::Done(_) => {},
    }
}

/// The reconstruction of a synthesis result changes nothing of the fixture but its
/// log, and releases nothing.
pub proof fn lemma_synthesis_result_frame(fixture: FixtureView, state: SynthesisResultFetchView)
    ensures
        fixture.same_seed(run_synthesis_result(fixture, state.ask()).1),
        forall|kind: Resource, handle: usize|
            run_synthesis_result(fixture, state.ask()).1.released(kind, handle)
                == #[trigger] fixture.released(kind, handle),
    decreases state.rank(),
{
    let request = state.request();
    let reply = fixture.answer(request);
    state.lemma_progress(reply);
    reveal_with_fuel(run_synthesis_result, 2);
    assert forall|kind: Resource, handle: usize|
        fixture.after(request).released(kind, handle) == #[trigger] fixture.released(
            kind,
            handle,
        ) by {
        lemma_count_push(fixture.log, request, RequestView::Release { kind, handle });
    }
    match state.next(reply) {
        StepView::Ask(following, _) => {
            lemma_synthesis_result_frame(fixture.after(request), following);
        },
        StepView::Done(_) => {},
    }
}

/// The reconstruction of a recognition event changes nothing of the fixture but
/// its log.
pub proof fn lemma_recognition_event_frame(
    fixture: FixtureView,
    state: RecognitionEventFetchView,
    request: RequestView,
)
    requires
        state.wf(),
    ensures
        fixture.same_seed(run_recognition_event(fixture, StepView::Ask(state, request)).1),
    decreases state.rank(),
{
    let reply = fixture.answer(request);
    state.lemma_progress(reply);
    reveal_with_fuel(run_recognition_event, 2);
    match state.next(reply) {
        StepView::Ask(following, asked) => {
            lemma_recognition_event_frame(fixture.after(request), following, asked);
        },
        StepView::Done(_) => {},
    }
}

/// The fixture after a list of calls.
pub open spec fn after_all(fixture: FixtureView, requests: Seq<RequestView>) -> FixtureView {
    FixtureView { log: fixture.log + requests, ..fixture }
}

fn releases(request: &Request, kind: Resource, handle: usize) -> (b: bool)
    ensures
        b == (request@ == RequestView::Release { kind, handle }),
{
    match request {
        Request::Release { kind: k, handle: h } => *k == kind && *h == handle,
        _ => false,
    }
}

impl Fixture {
    /// Rebuilds the recognition result behind `handle` from the fixture. From a
    /// fixture whose texts are plain and fit their buffers the result is the one
    /// that the fixture was seeded with. Nothing is released on the way.
    pub fn recognition_result(&mut self, handle: usize) -> (outcome: Result<
        TranslationRecognitionResult,
        Error,
    >)
        ensures
            (outcome_view(outcome), final(self)@) == run_recognition_result(
                old(self)@,
                RecognitionResultFetchView::start(handle).ask(),
            ),
            handle == old(self)@.result && old(self)@.recognizable() ==> outcome_view(outcome)
                == Ok::<TranslationRecognitionResultView, ErrorView>(
                old(self)@.recognition_result(),
            ),
            released_exactly(old(self)@, final(self)@, Seq::empty()),
    {
        let mut step = TranslationRecognitionResult::from_handle(handle);
        loop
            invariant
                step matches Step::Ask(state, _) ==> state.wf(),
                run_recognition_result(self@, step@) == run_recognition_result(
                    old(self)@,
                    RecognitionResultFetchView::start(handle).ask(),
                ),
            decreases
                    (match step@ {
                        StepView::Ask(state, _) => state.rank(),
                        StepView::Done(_) => 0,
                    }),
        {
            match step {
                Step::Done(outcome) => {
                    proof {
                        lemma_recognition_result_releases(old(self)@, handle);
                        if handle == old(self)@.result && old(self)@.recognizable() {
                            lemma_recognition_result_round_trip(old(self)@);
                        }
                    }
                    return outcome;
                },
                Step::Ask(state, request) => {
                    let reply = self.perform(request);
                    proof {
                        state@.lemma_progress(reply@);
                    }
                    step = state.resume(reply);
                },
            }
        }
    }

    /// Rebuilds the synthesis result behind `handle` from the fixture. From a
    /// fixture whose identifier is plain and fits its buffer the result is the one
    /// that the fixture was seeded with, and the audio is fetched with one call
    /// where there is any and with none where there is none. Nothing is released on
    /// the way.
    pub fn synthesis_result(&mut self, handle: usize) -> (outcome: Result<
        TranslationSynthesisResult,
        Error,
    >)
        ensures
            (outcome_view(outcome), final(self)@) == run_synthesis_result(
                old(self)@,
                SynthesisResultFetchView::start(handle).ask(),
            ),
            handle == old(self)@.result && old(self)@.synthesizable() ==> outcome_view(outcome)
                == Ok::<TranslationSynthesisResultView, ErrorView>(old(self)@.synthesis_result())
                && final(self)@.log == old(self)@.log + old(self)@.synthesis_calls(),
            released_exactly(old(self)@, final(self)@, Seq::empty()),
    {
        let mut step = TranslationSynthesisResult::from_handle(handle);
        loop
            invariant
                run_synthesis_result(self@, step@) == run_synthesis_result(
                    old(self)@,
                    SynthesisResultFetchView::start(handle).ask(),
                ),
            decreases
                    (match step@ {
                        StepView::Ask(state, _) => state.rank(),
                        StepView::Done(_) => 0,
                    }),
        {
            match step {
                Step::Done(outcome) => {
                    proof {
                        lemma_synthesis_result_releases(old(self)@, handle);
                        if handle == old(self)@.result && old(self)@.synthesizable() {
                            lemma_synthesis_result_round_trip(old(self)@);
                        }
                    }
                    return outcome;
                },
                Step::Ask(state, request) => {
                    let reply = self.perform(request);
                    proof {
                        state@.lemma_progress(reply@);
                    }
                    step = state.resume(reply);
                },
            }
        }
    }

    /// Rebuilds the recognition event behind `handle` from the fixture. From a
    /// fixture whose texts are plain and fit their buffers the event is the one
    /// that the fixture was seeded with. Where the reconstruction fails, the event
    /// has been released once and nothing else; where it succeeds, nothing has been
    /// released.
    pub fn recognition_event(&mut self, handle: usize) -> (outcome: Result<
        TranslationRecognitionEvent,
        Error,
    >)
        ensures
            (outcome_view(outcome), final(self)@) == run_recognition_event(
                old(self)@,
                RecognitionEventFetchView::start(handle),
            ),
            handle == old(self)@.event && old(self)@.recognizable() ==> outcome_view(outcome)
                == Ok::<TranslationRecognitionEventView, ErrorView>(
                old(self)@.recognition_event(),
            ),
            released_exactly(
                old(self)@,
                final(self)@,
                if outcome is Ok {
                    Seq::empty()
                } else {
                    seq![event_handle(handle).release()]
                },
            ),
    {
        let mut step = TranslationRecognitionEvent::from_handle(handle);
        loop
            invariant
                step matches Step::Ask(state, _) ==> state.wf(),
                run_recognition_event(self@, step@) == run_recognition_event(
                    old(self)@,
                    RecognitionEventFetchView::start(handle),
                ),
            decreases
                    (match step@ {
                        StepView::Ask(state, _) => state.rank(),
                        StepView::Done(_) => 0,
                    }),
        {
            match step {
                Step::Done(outcome) => {
                    proof {
                        lemma_recognition_event_releases(old(self)@, handle);
                        if handle == old(self)@.event && old(self)@.recognizable() {
                            lemma_recognition_event_round_trip(old(self)@);
                        }
                    }
                    return outcome;
                },
                Step::Ask(state, request) => {
                    let reply = self.perform(request);
                    proof {
                        state@.lemma_progress(reply@);
                    }
                    step = state.resume(reply);
                },
            }
        }
    }

    /// Rebuilds the synthesis event behind `handle` from the fixture. From a
    /// fixture whose identifier is plain and fits its buffer the event is the one
    /// that the fixture was seeded with. Nothing is released on the way.
    pub fn synthesis_event(&mut self, handle: usize) -> (outcome: Result<
        TranslationSynthesisEvent,
        Error,
    >)
        ensures
            (outcome_view(outcome), final(self)@) == run_synthesis_event(
                old(self)@,
                SynthesisEventFetchView::start(handle),
            ),
            handle == old(self)@.event && old(self)@.synthesizable() ==> outcome_view(outcome)
                == Ok::<TranslationSynthesisEventView, ErrorView>(old(self)@.synthesis_event()),
            released_exactly(old(self)@, final(self)@, Seq::empty()),
    {
        let mut step = TranslationSynthesisEvent::from_handle(handle);
        loop
            invariant
                run_synthesis_event(self@, step@) == run_synthesis_event(
                    old(self)@,
                    SynthesisEventFetchView::start(handle),
                ),
            decreases
                    (match step@ {
                        StepView::Ask(state, _) => state.rank(),
                        StepView::Done(_) => 0,
                    }),
        {
            match step {
                Step::Done(outcome) => {
                    proof {
                        lemma_synthesis_event_releases(old(self)@, handle);
                        if handle == old(self)@.event && old(self)@.synthesizable() {
                            lemma_synthesis_event_round_trip(old(self)@);
                        }
                    }
                    return outcome;
                },
                Step::Ask(state, request) => {
                    let reply = self.perform(request);
                    proof {
                        state@.lemma_progress(reply@);
                    }
                    step = state.resume(reply);
                },
            }
        }
    }

    /// Rebuilds the canceled event behind `handle` from the fixture. From a
    /// fixture whose texts are plain and fit their buffers the event is the one
    /// that the fixture was seeded with, with empty error details where the bag
    /// holds none that can be read. Where the reconstruction fails, what it had come
    /// to own has been released once and nothing else; where it succeeds, nothing
    /// has been released.
    pub fn canceled_event(&mut self, handle: usize) -> (outcome: Result<
        TranslationRecognitionCanceledEvent,
        Error,
    >)
        ensures
            (outcome_view(outcome), final(self)@) == run_canceled_event(
                old(self)@,
                CanceledEventFetchView::start(handle),
            ),
            handle == old(self)@.event && old(self)@.recognizable() ==> outcome_view(outcome)
                == Ok::<TranslationRecognitionCanceledEventView, ErrorView>(
                old(self)@.canceled_event(),
            ),
            released_exactly(
                old(self)@,
                final(self)@,
                if outcome is Ok {
                    Seq::empty()
                } else {
                    owned_at_failure(old(self)@, handle)
                },
            ),
    {
        let mut step = TranslationRecognitionCanceledEvent::from_handle(handle);
        loop
            invariant
                step matches Step::Ask(state, _) ==> state.wf(),
                run_canceled_event(self@, step@) == run_canceled_event(
                    old(self)@,
                    CanceledEventFetchView::start(handle),
                ),
            decreases
                    (match step@ {
                        StepView::Ask(state, _) => state.rank(),
                        StepView::Done(_) => 0,
                    }),
        {
            match step {
                Step::Done(outcome) => {
                    proof {
                        lemma_canceled_event_releases(old(self)@, handle);
                        if handle == old(self)@.event && old(self)@.recognizable() {
                            lemma_canceled_event_round_trip(old(self)@);
                        }
                    }
                    return outcome;
                },
                Step::Ask(state, request) => {
                    let reply = self.perform(request);
                    proof {
                        state@.lemma_progress(reply@);
                    }
                    step = state.resume(reply);
                },
            }
        }
    }

    /// What the engine's trampoline does with the handle of a recognition event:
    /// the event is rebuilt, handed to the handler, and released before control
    /// goes back. Whether the event could be rebuilt or not, and whatever the
    /// handler does with it, every resource that came to be owned has been released
    /// exactly once at the end, and nothing else has.
    pub fn dispatch_recognition_event<F: FnOnce(&TranslationRecognitionEvent)>(
        &mut self,
        handle: usize,
        handler: F,
    ) -> (delivered: Result<(), Error>)
        requires
            forall|event: &TranslationRecognitionEvent| call_requires(handler, (event,)),
        ensures
            outcome_view(delivered) == (match run_recognition_event(
                old(self)@,
                RecognitionEventFetchView::start(handle),
            ).0 {
                Ok(_) => Ok(()),
                Err(error) => Err(error),
            }),
            released_exactly(
                old(self)@,
                final(self)@,
                match run_recognition_event(old(self)@, RecognitionEventFetchView::start(handle)).0 {
                    Ok(event) => event.releases(),
                    Err(_) => seq![event_handle(handle).release()],
                },
            ),
    {
        proof {
            lemma_recognition_event_releases(old(self)@, handle);
        }
        match self.recognition_event(handle) {
            Ok(event) => {
                handler(&event);
                self.release_all(event.release());
                Ok(())
            },
            Err(error) => Err(error),
        }
    }

    /// What the engine's trampoline does with the handle of a canceled event: the
    /// event is rebuilt, handed to the handler, and released before control goes
    /// back. Whether the event could be rebuilt or not, and whatever the handler
    /// does with it, every resource that came to be owned has been released exactly
    /// once at the end, and nothing else has.
    pub fn dispatch_canceled_event<F: FnOnce(&TranslationRecognitionCanceledEvent)>(
        &mut self,
        handle: usize,
        handler: F,
    ) -> (delivered: Result<(), Error>)
        requires
            forall|event: &TranslationRecognitionCanceledEvent| call_requires(handler, (event,)),
        ensures
            outcome_view(delivered) == (match run_canceled_event(
                old(self)@,
                CanceledEventFetchView::start(handle),
            ).0 {
                Ok(_) => Ok(()),
                Err(error) => Err(error),
            }),
            released_exactly(
                old(self)@,
                final(self)@,
                match run_canceled_event(old(self)@, CanceledEventFetchView::start(handle)).0 {
                    Ok(event) => event.releases(),
                    Err(_) => owned_at_failure(old(self)@, handle),
                },
            ),
    {
        proof {
            lemma_canceled_event_releases(old(self)@, handle);
        }
        match self.canceled_event(handle) {
            Ok(event) => {
                handler(&event);
                self.release_all(event.release());
                Ok(())
            },
            Err(error) => Err(error),
        }
    }

    /// What the engine's trampoline does with the handle of a synthesis event: the
    /// event is rebuilt, handed to the handler, and released before control goes
    /// back. Where the event could not be rebuilt, nothing was owned and nothing
    /// has been released; where it could, whatever the handler does with it, each
    /// of its resources has been released exactly once at the end, and nothing else
    /// has.
    pub fn dispatch_synthesis_event<F: FnOnce(&TranslationSynthesisEvent)>(
        &mut self,
        handle: usize,
        handler: F,
    ) -> (delivered: Result<(), Error>)
        requires
            forall|event: &TranslationSynthesisEvent| call_requires(handler, (event,)),
        ensures
            outcome_view(delivered) == (match run_synthesis_event(
                old(self)@,
                SynthesisEventFetchView::start(handle),
            ).0 {
                Ok(_) => Ok(()),
                Err(error) => Err(error),
            }),
            released_exactly(
                old(self)@,
                final(self)@,
                match run_synthesis_event(old(self)@, SynthesisEventFetchView::start(handle)).0 {
                    Ok(event) => event.releases(),
                    Err(_) => Seq::empty(),
                },
            ),
    {
        proof {
            lemma_synthesis_event_releases(old(self)@, handle);
        }
        match self.synthesis_event(handle) {
            Ok(event) => {
                handler(&event);
                self.release_all(event.release());
                Ok(())
            },
            Err(error) => Err(error),
        }
    }

    /// Looks a property up in a bag: the call is performed, and the value is the
    /// text that it leaves, or `default` where the lookup fails. Where the call is
    /// not scripted and the fixture's bag holds nothing under the property, the
    /// value is `default`.
    pub fn property(&mut self, bag: &PropertyCollection, id: PropertyId, default: &str) -> (value:
        String)
        ensures
            value@ == looked_up(
                old(self)@.answer(
                    RequestView::GetProperty {
                        bag: bag.handle@.handle,
                        id: id.spec_to_i32(),
                        default: default@,
                    },
                ),
                default@,
            ),
            final(self)@ == old(self)@.after(
                RequestView::GetProperty {
                    bag: bag.handle@.handle,
                    id: id.spec_to_i32(),
                    default: default@,
                },
            ),
            old(self)@.scripted() is None && old(self)@.stored(id.spec_to_i32()) is None
                && without_zero(default@) ==> value@ == default@,
    {
        proof {
            if self@.scripted() is None && self@.stored(id.spec_to_i32()) is None && without_zero(
                default@,
            ) && bag.handle@.handle == self@.bag {
                lemma_absent_property(self@, id.spec_to_i32(), default@);
            }
        }
        let reply = self.perform(bag.get_property(id, default));
        PropertyCollection::property_value(&reply, default.to_owned())
    }

    /// Performs the releases that the owner of a result or an event owes. Their
    /// statuses are not looked at.
    pub fn release_all(&mut self, requests: Vec<Request>)
        ensures
            final(self)@ == after_all(old(self)@, views(requests@)),
            released_exactly(old(self)@, final(self)@, views(requests@)),
    {
        proof {
            assert forall|kind: Resource, handle: usize| #[trigger]
                after_all(old(self)@, views(requests@)).released(kind, handle) == old(
                    self,
                )@.released(kind, handle) + count_of(
                    views(requests@),
                    RequestView::Release { kind, handle },
                ) by {
                lemma_count_add(
                    old(self)@.log,
                    views(requests@),
                    RequestView::Release { kind, handle },
                );
            }
        }
        let mut requests = requests;
        let ghost all = views(requests@);
        let ghost mut done: Seq<RequestView> = Seq::empty();
        assert(old(self)@.log + done =~= old(self)@.log);
        while requests.len() > 0
            invariant
                self@ == after_all(old(self)@, done),
                done + views(requests@) == all,
            decreases requests.len(),
        {
            let ghost rest = views(requests@);
            let request = requests.remove(0);
            proof {
                assert(views(requests@) =~= rest.drop_first());
                assert(done.push(request@) + views(requests@) =~= done + rest);
                assert(old(self)@.log + done.push(request@) =~= (old(self)@.log + done).push(
                    request@,
                ));
                done = done.push(request@);
            }
            let _ = self.perform(request);
        }
        assert(done =~= all);
    }

    /// How often a release of the resource has been asked of the fixture.
    pub fn released(&self, kind: Resource, handle: usize) -> (n: usize)
        ensures
            n == self@.released(kind, handle),
    {
        let mut n: usize = 0;
        let mut i: usize = 0;
        let ghost wanted = RequestView::Release { kind, handle };
        while i < self.log.len()
            invariant
                i <= self.log@.len(),
                n <= i,
                wanted == (RequestView::Release { kind, handle }),
                n == count_of(views(self.log@).take(i as int), wanted),
            decreases self.log.len() - i,
        {
            let ghost log = views(self.log@);
            assert(log.take(i + 1).drop_last() =~= log.take(i as int));
            assert(log.take(i + 1).last() == self.log@[i as int]@);
            if releases(&self.log[i], kind, handle) {
                n += 1;
            }
            i += 1;
        }
        assert(views(self.log@).take(i as int) =~= views(self.log@));
        n
    }
}

} // verus!

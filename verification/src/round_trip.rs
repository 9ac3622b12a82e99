//! What a reconstruction gives when the engine behaves: a result or an event
//! rebuilt from the fixture holds what the fixture was seeded with.

use crate::abi::{RequestView, Resource};
use crate::common::{CancellationErrorCode, CancellationReason, PropertyId, ResultReason};
use crate::error::ErrorView;
use crate::fixture::{size_for, written, FixtureView};
use crate::handle::SmartHandleView;
use crate::property::{bag_handle, looked_up};
use crate::reconstruct::{
    after_all, lemma_recognition_event_frame, run_canceled_event, run_recognition_event,
    run_recognition_result, run_synthesis_event, run_synthesis_result,
};
use crate::speech::event_handle;
use crate::step::StepView;
use crate::text::{
    c_text, decimal, decoded, lemma_terminated_text, lemma_text_round_trip, without_zero,
};
use crate::translation::translation_recognition_canceled_event::{
    CanceledEventFetchView, TranslationRecognitionCanceledEventView,
};
use crate::translation::translation_recognition_event::{
    RecognitionEventFetchView, TranslationRecognitionEventView,
};
use crate::translation::translation_recognition_result::{
    RecognitionResultFetchView, ResultPhase, TranslationRecognitionResultView, TEXT_CAPACITY,
};
use crate::translation::translation_synthesis_event::{
    synthesis_event_handle, SynthesisEventFetchView, TranslationSynthesisEventView,
};
use crate::translation::translation_synthesis_result::{
    SynthesisResultFetchView, TranslationSynthesisResultView, ID_CAPACITY,
};
use crate::translations::{distinct_languages, lemma_map_of_distinct, lemma_map_of_push, map_of};
use vstd::prelude::*;
use vstd::utf8::{decode_utf8, encode_utf8, valid_utf8};

verus! {

/// Bytes that can cross the boundary as a zero-terminated text: valid UTF-8 that
/// holds no zero byte.
pub open spec fn plain(text: Seq<u8>) -> bool {
    valid_utf8(text) && forall|i: int| 0 <= i < text.len() ==> text[i] != 0
}

/// A plain text that is written into a buffer with room for it and its terminator
/// is decoded as it was seeded.
pub proof fn lemma_written_text(text: Seq<u8>, capacity: int, context: Seq<char>)
    requires
        plain(text),
        text.len() < capacity,
    ensures
        decoded(written(text, capacity), context) == Ok::<Seq<char>, ErrorView>(decode_utf8(text)),
{
    lemma_terminated_text(text, Seq::empty());
    assert(text.push(0) + Seq::<u8>::empty() =~= text.push(0));
}

impl FixtureView {
    /// The translations as texts, each as (language, text).
    pub open spec fn texts(self) -> Seq<(Seq<char>, Seq<char>)> {
        Seq::new(
            self.translations.len(),
            |i: int| (decode_utf8(self.translations[i].0), decode_utf8(self.translations[i].1)),
        )
    }

    /// Every translation is a pair of plain texts whose sizes can be reported.
    pub open spec fn plain_translations(self) -> bool {
        &&& self.translations.len() <= usize::MAX
        &&& forall|i: int|
            0 <= i < self.translations.len() ==> {
                &&& plain(#[trigger] self.translations[i].0)
                &&& plain(self.translations[i].1)
                &&& self.translations[i].0.len() < usize::MAX
                &&& self.translations[i].1.len() < usize::MAX
            }
    }

    /// No call is scripted, and every text is plain and fits the buffer that a
    /// recognition result is read through.
    pub open spec fn recognizable(self) -> bool {
        &&& self.script.len() == 0
        &&& plain(self.result_id)
        &&& self.result_id.len() < TEXT_CAPACITY
        &&& plain(self.text)
        &&& self.text.len() < TEXT_CAPACITY
        &&& self.plain_translations()
    }

    /// The recognition result that the fixture was seeded with.
    pub open spec fn recognition_result(self) -> TranslationRecognitionResultView {
        TranslationRecognitionResultView {
            handle: SmartHandleView {
                name: "TranslationRecognitionResult"@,
                handle: self.result,
                kind: Resource::Result,
            },
            result_id: decode_utf8(self.result_id),
            reason: ResultReason::of_code(self.reason),
            text: decode_utf8(self.text),
            duration: decimal(self.duration as nat),
            offset: decimal(self.offset as nat),
            translations: map_of(self.texts()),
            properties: bag_handle(self.bag),
        }
    }
}

proof fn lemma_from_bag(fixture: FixtureView, state: RecognitionResultFetchView)
    requires
        fixture.script.len() == 0,
        state.phase == ResultPhase::Bag,
        state.handle == fixture.result,
    ensures
        run_recognition_result(fixture, state.ask()).0 == Ok::<
            TranslationRecognitionResultView,
            ErrorView,
        >(state.built(fixture.bag)),
{
    reveal_with_fuel(run_recognition_result, 2);
}

proof fn lemma_from_fill(fixture: FixtureView, state: RecognitionResultFetchView)
    requires
        fixture.script.len() == 0,
        fixture.plain_translations(),
        state.phase == ResultPhase::Fill,
        state.handle == fixture.result,
        state.count == fixture.translations.len(),
        state.index < state.count,
        forall|j: int|
            0 <= j < fixture.translations.len() ==> size_for(
                #[trigger] fixture.translations[j].0,
            ) <= state.language_size && size_for(fixture.translations[j].1) <= state.text_size,
        state.translations == map_of(fixture.texts().take(state.index as int)),
    ensures
        run_recognition_result(fixture, state.ask()).0 == Ok::<
            TranslationRecognitionResultView,
            ErrorView,
        >(
            (RecognitionResultFetchView { translations: map_of(fixture.texts()), ..state }).built(
                fixture.bag,
            ),
        ),
    decreases state.count - state.index,
{
    let i = state.index as int;
    let entry = fixture.translations[i];
    let texts = fixture.texts();
    let request = state.request();
    let reply = fixture.answer(request);
    assert(plain(entry.0) && plain(entry.1));
    assert(size_for(entry.0) <= state.language_size);
    lemma_written_text(entry.0, state.language_size as int, state.context());
    lemma_written_text(entry.1, state.text_size as int, state.context());
    assert(texts.take(i + 1) =~= texts.take(i).push(texts[i]));
    lemma_map_of_push(texts.take(i), texts[i]);
    let next = state.next(reply);
    assert(next matches StepView::Ask(s, q) && q == s.request() && s.translations == map_of(
        texts.take(i + 1),
    ));
    let following = next->Ask_0;
    if i + 1 < state.count {
        lemma_from_fill(fixture.after(request), following);
    } else {
        assert(texts.take(i + 1) =~= texts);
        lemma_from_bag(fixture.after(request), following);
    }
}

proof fn lemma_from_sizes(fixture: FixtureView, state: RecognitionResultFetchView)
    requires
        fixture.script.len() == 0,
        fixture.plain_translations(),
        state.phase == ResultPhase::Sizes,
        state.handle == fixture.result,
        state.count == fixture.translations.len(),
        state.index < state.count,
        forall|j: int|
            0 <= j < state.index ==> size_for(#[trigger] fixture.translations[j].0)
                <= state.language_size && size_for(fixture.translations[j].1) <= state.text_size,
        state.translations == Map::<Seq<char>, Seq<char>>::empty(),
    ensures
        run_recognition_result(fixture, state.ask()).0 == Ok::<
            TranslationRecognitionResultView,
            ErrorView,
        >(
            (RecognitionResultFetchView { translations: map_of(fixture.texts()), ..state }).built(
                fixture.bag,
            ),
        ),
    decreases state.count - state.index,
{
    let i = state.index as int;
    let request = state.request();
    let reply = fixture.answer(request);
    let next = state.next(reply);
    assert(next matches StepView::Ask(s, q) && q == s.request());
    let following = next->Ask_0;
    assert(reply.word == size_for(fixture.translations[i].0));
    assert(reply.second_word == size_for(fixture.translations[i].1));
    assert(following.language_size >= state.language_size && following.language_size
        >= reply.word);
    assert(following.text_size >= state.text_size && following.text_size >= reply.second_word);
    assert forall|j: int| 0 <= j < i + 1 implies size_for(#[trigger] fixture.translations[j].0)
        <= following.language_size && size_for(fixture.translations[j].1)
        <= following.text_size by {
        if j < i {
            assert(size_for(fixture.translations[j].0) <= state.language_size);
        }
    }
    if i + 1 < state.count {
        lemma_from_sizes(fixture.after(request), following);
    } else {
        assert(fixture.texts().take(0) =~= Seq::empty());
        lemma_from_fill(fixture.after(request), following);
    }
}

/// A recognition result that is rebuilt from a fixture whose texts are plain and
/// fit their buffers is the result that the fixture was seeded with: identifier,
/// reason, text, duration and offset, every translation under its language, and
/// the property bag.
pub proof fn lemma_recognition_result_round_trip(fixture: FixtureView)
    requires
        fixture.recognizable(),
    ensures
        run_recognition_result(
            fixture,
            RecognitionResultFetchView::start(fixture.result).ask(),
        ).0 == Ok::<TranslationRecognitionResultView, ErrorView>(fixture.recognition_result()),
{
    let id = RecognitionResultFetchView::start(fixture.result);
    lemma_written_text(fixture.result_id, TEXT_CAPACITY as int, id.context());
    let f1 = fixture.after(id.request());
    let reason = id.next(fixture.answer(id.request()))->Ask_0;
    let f2 = f1.after(reason.request());
    let text = reason.next(f1.answer(reason.request()))->Ask_0;
    lemma_written_text(fixture.text, TEXT_CAPACITY as int, text.context());
    let f3 = f2.after(text.request());
    let duration = text.next(f2.answer(text.request()))->Ask_0;
    let f4 = f3.after(duration.request());
    let offset = duration.next(f3.answer(duration.request()))->Ask_0;
    let f5 = f4.after(offset.request());
    let count = offset.next(f4.answer(offset.request()))->Ask_0;
    let f6 = f5.after(count.request());
    let following = count.next(f5.answer(count.request()))->Ask_0;
    reveal_with_fuel(run_recognition_result, 7);
    assert(run_recognition_result(fixture, id.ask()) == run_recognition_result(
        f6,
        following.ask(),
    ));
    if fixture.translations.len() == 0 {
        assert(fixture.texts() =~= Seq::empty());
        lemma_from_bag(f6, following);
    } else {
        lemma_from_sizes(f6, following);
    }
}

/// Of a fixture that holds N translations in N different languages, the rebuilt
/// result holds exactly N languages, and under each language the text that was
/// seeded with it.
pub proof fn lemma_translations_round_trip(fixture: FixtureView)
    requires
        fixture.recognizable(),
        distinct_languages(fixture.texts()),
    ensures
        run_recognition_result(
            fixture,
            RecognitionResultFetchView::start(fixture.result).ask(),
        ).0 matches Ok(result) && {
            &&& result.translations.dom().finite()
            &&& result.translations.dom().len() == fixture.translations.len()
            &&& forall|i: int|
                0 <= i < fixture.translations.len() ==> result.translations.contains_key(
                    #[trigger] fixture.texts()[i].0,
                ) && result.translations[fixture.texts()[i].0] == fixture.texts()[i].1
        },
{
    lemma_recognition_result_round_trip(fixture);
    lemma_map_of_distinct(fixture.texts());
}

impl FixtureView {
    /// No call is scripted, and the identifier is plain and fits the buffer that a
    /// synthesis result is read through.
    pub open spec fn synthesizable(self) -> bool {
        &&& self.script.len() == 0
        &&& plain(self.result_id)
        &&& self.result_id.len() < ID_CAPACITY
        &&& self.audio.len() <= usize::MAX
    }

    /// The synthesis result that the fixture was seeded with.
    pub open spec fn synthesis_result(self) -> TranslationSynthesisResultView {
        TranslationSynthesisResultView {
            handle: SmartHandleView {
                name: "TranslationSynthesisResult"@,
                handle: self.result,
                kind: Resource::Result,
            },
            result_id: decode_utf8(self.result_id),
            reason: ResultReason::of_code(self.reason),
            audio: self.audio,
            properties: bag_handle(self.bag),
        }
    }

    /// The calls that rebuild the synthesis result: the audio is fetched with one
    /// call where there is any, and with none where there is none.
    pub open spec fn synthesis_calls(self) -> Seq<RequestView> {
        seq![
            RequestView::ResultId { result: self.result, capacity: ID_CAPACITY },
            RequestView::Reason { result: self.result },
            RequestView::AudioLength { result: self.result },
        ] + (if self.audio.len() > 0 {
            seq![RequestView::Audio { result: self.result, length: self.audio.len() as usize }]
        } else {
            Seq::empty()
        }) + seq![RequestView::PropertyBag { result: self.result }]
    }

    /// The recognition event that the fixture was seeded with.
    pub open spec fn recognition_event(self) -> TranslationRecognitionEventView {
        TranslationRecognitionEventView {
            base: event_handle(self.event),
            result: self.recognition_result(),
        }
    }

    /// The synthesis event that the fixture was seeded with.
    pub open spec fn synthesis_event(self) -> TranslationSynthesisEventView {
        TranslationSynthesisEventView {
            handle: synthesis_event_handle(self.event),
            result: self.synthesis_result(),
        }
    }

    /// The call that asks the fixture's bag for the error details.
    pub open spec fn details_request(self) -> RequestView {
        RequestView::GetProperty {
            bag: self.bag,
            id: PropertyId::SpeechServiceResponseJsonErrorDetails.spec_to_i32(),
            default: Seq::empty(),
        }
    }

    /// The canceled event that the fixture was seeded with. The error details are
    /// what the bag holds for them where that is valid text, and empty otherwise.
    pub open spec fn canceled_event(self) -> TranslationRecognitionCanceledEventView {
        TranslationRecognitionCanceledEventView {
            base: self.recognition_event(),
            reason: CancellationReason::of_code(self.canceled_reason),
            error_code: CancellationErrorCode::of_code(self.canceled_error_code),
            error_details: looked_up(self.served(self.details_request()), Seq::empty()),
        }
    }
}

/// A synthesis result that is rebuilt from a fixture whose identifier is plain and
/// fits its buffer is the result that the fixture was seeded with, audio included,
/// and the calls made are the identifier, the reason, the length probe, the fetch of
/// the audio where there is any, and the property bag.
pub proof fn lemma_synthesis_result_round_trip(fixture: FixtureView)
    requires
        fixture.synthesizable(),
    ensures
        run_synthesis_result(fixture, SynthesisResultFetchView::start(fixture.result).ask()) == (
            Ok::<TranslationSynthesisResultView, ErrorView>(fixture.synthesis_result()),
            after_all(fixture, fixture.synthesis_calls()),
        ),
{
    let id = SynthesisResultFetchView::start(fixture.result);
    lemma_written_text(fixture.result_id, ID_CAPACITY as int, id.context());
    let f1 = fixture.after(id.request());
    let reason = id.next(fixture.answer(id.request()))->Ask_0;
    let f2 = f1.after(reason.request());
    let length = reason.next(f1.answer(reason.request()))->Ask_0;
    let f3 = f2.after(length.request());
    let probed = length.next(f2.answer(length.request()))->Ask_0;
    reveal_with_fuel(run_synthesis_result, 4);
    assert(run_synthesis_result(fixture, id.ask()) == run_synthesis_result(f3, probed.ask()));
    if fixture.audio.len() > 0 {
        let f4 = f3.after(probed.request());
        let bag = probed.next(f3.answer(probed.request()))->Ask_0;
        let f5 = f4.after(bag.request());
        assert(bag.audio =~= fixture.audio);
        assert(f5.log =~= fixture.log + fixture.synthesis_calls());
        assert(run_synthesis_result(f3, probed.ask()) == (
            Ok::<TranslationSynthesisResultView, ErrorView>(fixture.synthesis_result()),
            f5,
        ));
    } else {
        let f4 = f3.after(probed.request());
        assert(probed.audio =~= fixture.audio);
        assert(f4.log =~= fixture.log + fixture.synthesis_calls());
        assert(run_synthesis_result(f3, probed.ask()) == (
            Ok::<TranslationSynthesisResultView, ErrorView>(fixture.synthesis_result()),
            f4,
        ));
    }
}

/// A synthesis result without audio is rebuilt with empty audio, and with four
/// calls, none of which fetches audio: after the length probe has reported zero, the
/// next call asks for the property bag.
pub proof fn lemma_empty_audio_is_not_fetched(fixture: FixtureView)
    requires
        fixture.synthesizable(),
        fixture.audio.len() == 0,
    ensures
        run_synthesis_result(
            fixture,
            SynthesisResultFetchView::start(fixture.result).ask(),
        ).0 matches Ok(result) && result.audio == Seq::<u8>::empty(),
        run_synthesis_result(
            fixture,
            SynthesisResultFetchView::start(fixture.result).ask(),
        ).1.log == fixture.log + seq![
            RequestView::ResultId { result: fixture.result, capacity: ID_CAPACITY },
            RequestView::Reason { result: fixture.result },
            RequestView::AudioLength { result: fixture.result },
            RequestView::PropertyBag { result: fixture.result },
        ],
{
    lemma_synthesis_result_round_trip(fixture);
    assert(fixture.audio =~= Seq::empty());
    assert(fixture.synthesis_calls() =~= seq![
        RequestView::ResultId { result: fixture.result, capacity: ID_CAPACITY },
        RequestView::Reason { result: fixture.result },
        RequestView::AudioLength { result: fixture.result },
        RequestView::PropertyBag { result: fixture.result },
    ]);
}

/// The reconstruction of a recognition event, once it has come to the event's
/// result, ends as the reconstruction of the result ends: with the event around
/// the result, or with the result's failure after the event has been released.
pub proof fn lemma_event_follows_result(
    fixture: FixtureView,
    base: SmartHandleView,
    inner: RecognitionResultFetchView,
)
    requires
        inner.wf(),
    ensures
        run_recognition_event(
            fixture,
            StepView::Ask(RecognitionEventFetchView::Inner { base, inner }, inner.request()),
        ) == (match run_recognition_result(fixture, inner.ask()) {
            (Ok(result), after) => (Ok(TranslationRecognitionEventView { base, result }), after),
            (Err(error), after) => (Err(error), after.after(base.release())),
        }),
    decreases inner.rank(),
{
    let reply = fixture.answer(inner.request());
    inner.lemma_progress(reply);
    reveal_with_fuel(run_recognition_event, 3);
    reveal_with_fuel(run_recognition_result, 2);
    match inner.next(reply) {
        StepView::Ask(following, _) => {
            lemma_event_follows_result(fixture.after(inner.request()), base, following);
        },
        StepView::Done(_) => {},
    }
}

/// A recognition event that is rebuilt from a fixture whose texts are plain and
/// fit their buffers is the event that the fixture was seeded with.
pub proof fn lemma_recognition_event_round_trip(fixture: FixtureView)
    requires
        fixture.recognizable(),
    ensures
        run_recognition_event(fixture, RecognitionEventFetchView::start(fixture.event)).0 == Ok::<
            TranslationRecognitionEventView,
            ErrorView,
        >(fixture.recognition_event()),
{
    let request = RequestView::EventResult { event: fixture.event };
    let inner = RecognitionResultFetchView::start(fixture.result);
    reveal_with_fuel(run_recognition_event, 2);
    lemma_event_follows_result(fixture.after(request), event_handle(fixture.event), inner);
    lemma_recognition_result_round_trip(fixture.after(request));
}

/// The reconstruction of a synthesis event, once it has come to the event's
/// result, ends as the reconstruction of the result ends: with the event around
/// the result, or with the result's failure.
pub proof fn lemma_synthesis_event_follows_result(
    fixture: FixtureView,
    handle: usize,
    inner: SynthesisResultFetchView,
)
    ensures
        run_synthesis_event(
            fixture,
            StepView::Ask(SynthesisEventFetchView::Inner { handle, inner }, inner.request()),
        ) == (match run_synthesis_result(fixture, inner.ask()) {
            (Ok(result), after) => (
                Ok(
                    TranslationSynthesisEventView {
                        handle: synthesis_event_handle(handle),
                        result,
                    },
                ),
                after,
            ),
            (Err(error), after) => (Err(error), after),
        }),
    decreases inner.rank(),
{
    let reply = fixture.answer(inner.request());
    inner.lemma_progress(reply);
    reveal_with_fuel(run_synthesis_event, 2);
    reveal_with_fuel(run_synthesis_result, 2);
    match inner.next(reply) {
        StepView::Ask(following, _) => {
            lemma_synthesis_event_follows_result(fixture.after(inner.request()), handle, following);
        },
        StepView::Done(_) => {},
    }
}

/// A synthesis event that is rebuilt from a fixture whose identifier is plain and
/// fits its buffer is the event that the fixture was seeded with.
pub proof fn lemma_synthesis_event_round_trip(fixture: FixtureView)
    requires
        fixture.synthesizable(),
    ensures
        run_synthesis_event(fixture, SynthesisEventFetchView::start(fixture.event)).0 == Ok::<
            TranslationSynthesisEventView,
            ErrorView,
        >(fixture.synthesis_event()),
{
    let request = RequestView::EventResult { event: fixture.event };
    let inner = SynthesisResultFetchView::start(fixture.result);
    reveal_with_fuel(run_synthesis_event, 2);
    lemma_synthesis_event_follows_result(fixture.after(request), fixture.event, inner);
    lemma_synthesis_result_round_trip(fixture.after(request));
}

/// The reconstruction of a canceled event, while it rebuilds the event that it
/// extends, ends with that event's failure where that reconstruction fails, and
/// goes on to ask for the cancellation reason where it succeeds.
pub proof fn lemma_canceled_follows_event(
    fixture: FixtureView,
    inner: RecognitionEventFetchView,
    request: RequestView,
)
    requires
        inner.wf(),
    ensures
        run_canceled_event(
            fixture,
            StepView::Ask(CanceledEventFetchView::Inner { inner }, request),
        ) == (match run_recognition_event(fixture, StepView::Ask(inner, request)) {
            (Ok(base), after) => run_canceled_event(
                after,
                StepView::Ask(
                    CanceledEventFetchView::Reason { base },
                    RequestView::CanceledReason { result: base.result.handle.handle },
                ),
            ),
            (Err(error), after) => (Err(error), after),
        }),
    decreases inner.rank(),
{
    let reply = fixture.answer(request);
    inner.lemma_progress(reply);
    reveal_with_fuel(run_canceled_event, 2);
    reveal_with_fuel(run_recognition_event, 2);
    match inner.next(reply) {
        StepView::Ask(following, asked) => {
            lemma_canceled_follows_event(fixture.after(request), following, asked);
        },
        StepView::Done(_) => {},
    }
}

/// A canceled event that is rebuilt from a fixture whose texts are plain and fit
/// their buffers is the event that the fixture was seeded with, whatever the bag
/// holds for the error details.
pub proof fn lemma_canceled_event_round_trip(fixture: FixtureView)
    requires
        fixture.recognizable(),
    ensures
        run_canceled_event(fixture, CanceledEventFetchView::start(fixture.event)).0 == Ok::<
            TranslationRecognitionCanceledEventView,
            ErrorView,
        >(fixture.canceled_event()),
{
    let request = RequestView::EventResult { event: fixture.event };
    let inner = RecognitionEventFetchView::Result { base: event_handle(fixture.event) };
    lemma_canceled_follows_event(fixture, inner, request);
    lemma_recognition_event_round_trip(fixture);
    lemma_recognition_event_frame(fixture, inner, request);
    let base = fixture.recognition_event();
    let f0 = run_recognition_event(fixture, StepView::Ask(inner, request)).1;
    let reason = CanceledEventFetchView::Reason { base };
    let asked = RequestView::CanceledReason { result: fixture.result };
    assert(run_canceled_event(fixture, CanceledEventFetchView::start(fixture.event))
        == run_canceled_event(f0, StepView::Ask(reason, asked)));
    let f1 = f0.after(asked);
    let code = CanceledEventFetchView::ErrorCode { base, reason: fixture.canceled_reason };
    let asked_code = RequestView::CanceledErrorCode { result: fixture.result };
    assert(reason.next(f0.answer(asked)) == StepView::<
        CanceledEventFetchView,
        TranslationRecognitionCanceledEventView,
    >::Ask(code, asked_code));
    let f2 = f1.after(asked_code);
    let details = CanceledEventFetchView::Details {
        base,
        reason: fixture.canceled_reason,
        error_code: fixture.canceled_error_code,
    };
    assert(code.next(f1.answer(asked_code)) == StepView::<
        CanceledEventFetchView,
        TranslationRecognitionCanceledEventView,
    >::Ask(details, fixture.details_request()));
    assert(f2.answer(fixture.details_request()) == fixture.served(fixture.details_request()));
    assert(details.next(f2.answer(fixture.details_request())) == StepView::<
        CanceledEventFetchView,
        TranslationRecognitionCanceledEventView,
    >::Done(Ok(fixture.canceled_event())));
    reveal_with_fuel(run_canceled_event, 4);
}

/// Where the bag holds no error details, the rebuilt canceled event has empty
/// details, and is complete in everything else.
pub proof fn lemma_absent_details(fixture: FixtureView)
    requires
        fixture.recognizable(),
        fixture.stored(PropertyId::SpeechServiceResponseJsonErrorDetails.spec_to_i32()) is None,
    ensures
        run_canceled_event(fixture, CanceledEventFetchView::start(fixture.event)).0 == Ok::<
            TranslationRecognitionCanceledEventView,
            ErrorView,
        >(
            TranslationRecognitionCanceledEventView {
                error_details: Seq::empty(),
                ..fixture.canceled_event()
            },
        ),
{
    lemma_canceled_event_round_trip(fixture);
    lemma_absent_property(
        fixture,
        PropertyId::SpeechServiceResponseJsonErrorDetails.spec_to_i32(),
        Seq::empty(),
    );
}

/// A lookup of a property that the bag does not hold gives the caller's default.
pub proof fn lemma_absent_property(fixture: FixtureView, id: i32, default: Seq<char>)
    requires
        fixture.scripted() is None,
        fixture.stored(id) is None,
        without_zero(default),
    ensures
        looked_up(
            fixture.answer(RequestView::GetProperty { bag: fixture.bag, id, default }),
            default,
        ) == default,
{
    lemma_text_round_trip(default, Seq::empty(), Seq::empty());
    assert(encode_utf8(default).push(0) + Seq::<u8>::empty() =~= encode_utf8(default).push(0));
}

/// Where what the bag holds for the error details is not valid text, the rebuilt
/// canceled event has empty details, and is complete in everything else.
pub proof fn lemma_unreadable_details(fixture: FixtureView, held: Seq<u8>)
    requires
        fixture.recognizable(),
        fixture.stored(PropertyId::SpeechServiceResponseJsonErrorDetails.spec_to_i32()) == Some(
            held,
        ),
        !valid_utf8(c_text(held.push(0))),
    ensures
        run_canceled_event(fixture, CanceledEventFetchView::start(fixture.event)).0 == Ok::<
            TranslationRecognitionCanceledEventView,
            ErrorView,
        >(
            TranslationRecognitionCanceledEventView {
                error_details: Seq::empty(),
                ..fixture.canceled_event()
            },
        ),
{
    lemma_canceled_event_round_trip(fixture);
}

} // verus!

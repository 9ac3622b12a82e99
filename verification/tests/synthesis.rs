use speech_translation::abi::{Reply, Request, Resource};
use speech_translation::common::ResultReason;
use speech_translation::error::Error;
use speech_translation::fixture::{Fixture, INVALID_ARGUMENT};
use speech_translation::step::Step;
use speech_translation::translation::translation_synthesis_result::{
    SynthesisResultFetch, ID_CAPACITY, PREVIEW_LENGTH,
};
use speech_translation::translation::{TranslationSynthesisEvent, TranslationSynthesisResult};

fn seeded(audio: &[u8]) -> Fixture {
    let mut fixture = Fixture::new(1, 2, 3);
    fixture.result_id = b"synth-7".to_vec();
    fixture.reason = 8;
    fixture.audio = audio.to_vec();
    fixture
}

fn context(call: &str) -> String {
    format!("TranslationSynthesisResult::from_handle({}) error", call)
}

fn asked(step: Step<SynthesisResultFetch, TranslationSynthesisResult>) -> (SynthesisResultFetch, Request) {
    match step {
        Step::Ask(state, request) => (state, request),
        Step::Done(_) => panic!("the reconstruction ended early"),
    }
}

#[test]
fn synthesis_result_is_rebuilt_from_the_fixture() {
    let mut fixture = seeded(&[1, 2, 3, 4]);
    let result = fixture.synthesis_result(2).unwrap();
    assert_eq!(result.result_id, "synth-7");
    assert_eq!(result.reason, ResultReason::SynthesizingAudio);
    assert_eq!(result.audio, vec![1, 2, 3, 4]);
    assert_eq!(result.handle.inner(), 2);
    assert_eq!(result.handle.kind(), Resource::Result);
    assert_eq!(result.handle.name(), "TranslationSynthesisResult");
    assert_eq!(result.properties.handle.inner(), 3);
    assert_eq!(
        fixture.log,
        vec![
            Request::ResultId { result: 2, capacity: ID_CAPACITY },
            Request::Reason { result: 2 },
            Request::AudioLength { result: 2 },
            Request::Audio { result: 2, length: 4 },
            Request::PropertyBag { result: 2 },
        ]
    );
}

#[test]
fn empty_audio_is_not_fetched() {
    let mut fixture = seeded(&[]);
    let result = fixture.synthesis_result(2).unwrap();
    assert!(result.audio.is_empty());
    assert_eq!(
        fixture.log,
        vec![
            Request::ResultId { result: 2, capacity: 1023 },
            Request::Reason { result: 2 },
            Request::AudioLength { result: 2 },
            Request::PropertyBag { result: 2 },
        ]
    );
    assert!(!fixture.log.iter().any(|request| matches!(request, Request::Audio { .. })));
}

#[test]
fn long_audio_is_fetched_whole() {
    let audio: Vec<u8> = (0..100_000u32).map(|i| (i % 251) as u8).collect();
    let mut fixture = seeded(&audio);
    let result = fixture.synthesis_result(2).unwrap();
    assert_eq!(result.audio, audio);
    assert_eq!(fixture.log[3], Request::Audio { result: 2, length: 100_000 });
}

#[test]
fn audio_may_hold_zero_bytes() {
    let mut fixture = seeded(&[0, 0, 7, 0]);
    assert_eq!(fixture.synthesis_result(2).unwrap().audio, vec![0, 0, 7, 0]);
}

#[test]
fn status_of_the_length_probe_is_not_looked_at() {
    let (state, _) = asked(TranslationSynthesisResult::from_handle(2));
    let (state, _) = asked(state.resume(Reply::buffer(0, b"id\0".to_vec())));
    let (state, request) = asked(state.resume(Reply::number(0, 9)));
    assert_eq!(request, Request::AudioLength { result: 2 });
    let (state, request) = asked(state.resume(Reply::word(0x5, 3)));
    assert_eq!(request, Request::Audio { result: 2, length: 3 });
    let (state, request) = asked(state.resume(Reply::buffer(0, vec![9, 8, 7])));
    assert_eq!(request, Request::PropertyBag { result: 2 });
    match state.resume(Reply::word(0, 3)) {
        Step::Done(Ok(result)) => {
            assert_eq!(result.audio, vec![9, 8, 7]);
            assert_eq!(result.reason, ResultReason::SynthesizingAudioCompleted);
            assert_eq!(result.result_id, "id");
        }
        _ => panic!("the reconstruction did not end"),
    }
}

#[test]
fn refused_length_probe_without_a_length_means_no_audio() {
    let mut fixture = seeded(&[1, 2, 3]);
    fixture.fail(2, 0x8);
    let result = fixture.synthesis_result(2).unwrap();
    assert!(result.audio.is_empty());
    assert_eq!(fixture.log.len(), 4);
    assert_eq!(fixture.log[3], Request::PropertyBag { result: 2 });
}

#[test]
fn refused_fetch_of_the_audio_fails_the_result() {
    let mut fixture = seeded(&[1, 2, 3]);
    fixture.fail(3, 0x8);
    assert_eq!(
        fixture.synthesis_result(2).err(),
        Some(Error::Api { code: 8, context: context("translation_synthesis_result_get_audio_data") })
    );
    assert_eq!(fixture.log.len(), 4);
}

#[test]
fn each_other_failing_call_fails_the_synthesis_result_with_its_context() {
    for (at, call) in
        [(0, "result_get_result_id"), (1, "synth_result_get_reason"), (4, "result_get_property_bag")]
    {
        let mut fixture = seeded(&[1]);
        fixture.fail(at, 77);
        assert_eq!(
            fixture.synthesis_result(2).err(),
            Some(Error::Api { code: 77, context: context(call) })
        );
        assert_eq!(fixture.log.len(), at + 1);
    }
}

#[test]
fn synthesis_identifier_that_is_not_text_fails_the_result() {
    let mut fixture = seeded(&[1]);
    fixture.result_id = vec![0x80];
    assert_eq!(
        fixture.synthesis_result(2).err(),
        Some(Error::Decoding { context: context("result_get_result_id") })
    );
}

#[test]
fn identifier_longer_than_its_buffer_is_cut_by_the_engine() {
    let mut fixture = seeded(&[1]);
    fixture.result_id = vec![b'a'; 2000];
    let result = fixture.synthesis_result(2).unwrap();
    assert_eq!(result.result_id.len(), 1022);
    assert!(result.result_id.bytes().all(|byte| byte == b'a'));
}

#[test]
fn printed_audio_is_cut_to_ten_bytes() {
    assert_eq!(PREVIEW_LENGTH, 10);
    let audio: Vec<u8> = (1..=25).collect();
    let mut fixture = seeded(&audio);
    let result = fixture.synthesis_result(2).unwrap();
    assert_eq!(result.audio_truncated(), &[1, 2, 3, 4, 5, 6, 7, 8, 9, 10]);
    assert_eq!(result.audio.len(), 25);
}

#[test]
fn printed_audio_of_ten_bytes_or_fewer_is_whole() {
    for length in [0u8, 1, 9, 10] {
        let audio: Vec<u8> = (0..length).collect();
        let mut fixture = seeded(&audio);
        let result = fixture.synthesis_result(2).unwrap();
        assert_eq!(result.audio_truncated(), &audio[..]);
    }
    let audio: Vec<u8> = (0..11).collect();
    let mut fixture = seeded(&audio);
    assert_eq!(fixture.synthesis_result(2).unwrap().audio_truncated(), &audio[..10]);
}

#[test]
fn synthesis_event_is_rebuilt_from_the_fixture() {
    let mut fixture = seeded(&[5, 6]);
    let event = fixture.synthesis_event(1).unwrap();
    assert_eq!(event.handle.inner(), 1);
    assert_eq!(event.handle.kind(), Resource::Event);
    assert_eq!(event.handle.name(), "TranslationSynthesisEvent");
    assert_eq!(event.result.result_id, "synth-7");
    assert_eq!(event.result.audio, vec![5, 6]);
    assert_eq!(fixture.log[0], Request::EventResult { event: 1 });
    assert_eq!(fixture.log[1], Request::ResultId { result: 2, capacity: 1023 });
    assert_eq!(fixture.log.len(), 6);
}

#[test]
fn first_request_of_a_synthesis_event_asks_for_its_result() {
    match TranslationSynthesisEvent::from_handle(44) {
        Step::Ask(_, request) => assert_eq!(request, Request::EventResult { event: 44 }),
        Step::Done(_) => panic!("the reconstruction ended early"),
    }
}

#[test]
fn synthesis_event_without_a_result_fails_and_owns_nothing() {
    let mut fixture = seeded(&[5, 6]);
    assert_eq!(
        fixture.synthesis_event(9).err(),
        Some(Error::Api {
            code: INVALID_ARGUMENT,
            context: "TranslationSynthesisEvent::from_handle error".to_string()
        })
    );
    assert_eq!(fixture.log, vec![Request::EventResult { event: 9 }]);
}

#[test]
fn failure_of_the_result_fails_the_synthesis_event_and_releases_nothing() {
    for at in [1usize, 2, 4, 5] {
        let mut fixture = seeded(&[5, 6]);
        fixture.fail(at, 6);
        assert!(fixture.synthesis_event(1).is_err());
        for kind in [Resource::Event, Resource::Result, Resource::PropertyBag] {
            for handle in [1, 2, 3] {
                assert_eq!(fixture.released(kind, handle), 0);
            }
        }
    }
}

#[test]
fn releases_of_a_synthesis_event_are_event_result_and_bag() {
    let mut fixture = seeded(&[5, 6]);
    let event = fixture.synthesis_event(1).unwrap();
    let releases = event.release();
    assert_eq!(
        releases,
        vec![
            Request::Release { kind: Resource::Event, handle: 1 },
            Request::Release { kind: Resource::Result, handle: 2 },
            Request::Release { kind: Resource::PropertyBag, handle: 3 },
        ]
    );
    fixture.release_all(releases);
    assert_eq!(fixture.released(Resource::Event, 1), 1);
    assert_eq!(fixture.released(Resource::Result, 2), 1);
    assert_eq!(fixture.released(Resource::PropertyBag, 3), 1);
}

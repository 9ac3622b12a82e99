use speech_translation::abi::{Reply, Request, Resource};
use speech_translation::common::{
    CancellationErrorCode, CancellationReason, PropertyId, ResultReason,
};
use speech_translation::error::Error;
use speech_translation::fixture::{Fixture, INVALID_ARGUMENT};
use speech_translation::property::PropertyCollection;
use speech_translation::speech::RecognitionEvent;
use speech_translation::step::Step;
use speech_translation::translation::{
    TranslationRecognitionCanceledEvent, TranslationRecognitionEvent,
};

const DETAILS: i32 = 5001;

fn seeded() -> Fixture {
    let mut fixture = Fixture::new(10, 20, 30);
    fixture.result_id = b"r-1".to_vec();
    fixture.reason = 1;
    fixture.text = b"".to_vec();
    fixture.duration = 5;
    fixture.offset = 6;
    fixture.translations.push((b"en".to_vec(), b"hello".to_vec()));
    fixture.canceled_reason = 1;
    fixture.canceled_error_code = 5;
    fixture
}

fn released(fixture: &Fixture) -> (usize, usize, usize) {
    (
        fixture.released(Resource::Event, 10),
        fixture.released(Resource::Result, 20),
        fixture.released(Resource::PropertyBag, 30),
    )
}

#[test]
fn base_event_owns_the_event_handle() {
    let event = RecognitionEvent::from_handle(10);
    assert_eq!(event.handle.inner(), 10);
    assert_eq!(event.handle.kind(), Resource::Event);
    assert_eq!(event.handle.release(), Request::Release { kind: Resource::Event, handle: 10 });
}

#[test]
fn recognition_event_is_rebuilt_from_the_fixture() {
    let mut fixture = seeded();
    let event = fixture.recognition_event(10).unwrap();
    assert_eq!(event.base.handle.inner(), 10);
    assert_eq!(event.result.handle.inner(), 20);
    assert_eq!(event.result.result_id, "r-1");
    assert_eq!(event.result.reason, ResultReason::Canceled);
    assert_eq!(event.result.text, "");
    assert_eq!(event.result.duration, "5");
    assert_eq!(event.result.offset, "6");
    assert_eq!(event.result.translations.get("en"), Some(&"hello".to_string()));
    assert_eq!(event.result.properties.handle.inner(), 30);
    assert_eq!(fixture.log[0], Request::EventResult { event: 10 });
    assert_eq!(fixture.log.len(), 10);
    assert_eq!(released(&fixture), (0, 0, 0));
}

#[test]
fn first_request_of_a_recognition_event_asks_for_its_result() {
    match TranslationRecognitionEvent::from_handle(10) {
        Step::Ask(_, request) => assert_eq!(request, Request::EventResult { event: 10 }),
        Step::Done(_) => panic!("the reconstruction ended early"),
    }
    match TranslationRecognitionCanceledEvent::from_handle(10) {
        Step::Ask(_, request) => assert_eq!(request, Request::EventResult { event: 10 }),
        Step::Done(_) => panic!("the reconstruction ended early"),
    }
}

#[test]
fn recognition_event_without_a_result_fails_after_releasing_the_event() {
    let mut fixture = seeded();
    assert_eq!(
        fixture.recognition_event(11).err(),
        Some(Error::Api {
            code: INVALID_ARGUMENT,
            context: "TranslationRecognitionEvent::from_handle error".to_string()
        })
    );
    assert_eq!(
        fixture.log,
        vec![
            Request::EventResult { event: 11 },
            Request::Release { kind: Resource::Event, handle: 11 },
        ]
    );
}

#[test]
fn failure_is_not_reported_before_the_release_is_answered() {
    let state = match TranslationRecognitionEvent::from_handle(10) {
        Step::Ask(state, _) => state,
        Step::Done(_) => panic!("the reconstruction ended early"),
    };
    let state = match state.resume(Reply::status(4)) {
        Step::Ask(state, request) => {
            assert_eq!(request, Request::Release { kind: Resource::Event, handle: 10 });
            state
        }
        Step::Done(_) => panic!("the event was not released"),
    };
    match state.resume(Reply::status(0x99)) {
        Step::Done(Err(error)) => assert_eq!(
            error,
            Error::Api { code: 4, context: "TranslationRecognitionEvent::from_handle error".to_string() }
        ),
        _ => panic!("the reconstruction did not fail"),
    }
}

#[test]
fn recognition_event_is_released_once_wherever_it_fails() {
    for at in 0..10 {
        let mut fixture = seeded();
        fixture.fail(at, 3);
        let error = fixture.recognition_event(10).err().unwrap();
        assert!(matches!(error, Error::Api { code: 3, .. }));
        assert_eq!(released(&fixture), (1, 0, 0));
        assert_eq!(fixture.log.len(), at + 2);
        assert_eq!(fixture.log[at + 1], Request::Release { kind: Resource::Event, handle: 10 });
    }
}

#[test]
fn recognition_event_is_released_once_when_decoding_fails() {
    let mut fixture = seeded();
    fixture.text = vec![0xff];
    assert_eq!(
        fixture.recognition_event(10).err(),
        Some(Error::Decoding {
            context: "TranslationRecognitionResult::from_handle(result_get_text) error".to_string()
        })
    );
    assert_eq!(released(&fixture), (1, 0, 0));
}

#[test]
fn refused_release_does_not_change_the_failure() {
    let mut fixture = seeded();
    fixture.fail(1, 0x77);
    assert_eq!(
        fixture.recognition_event(11).err(),
        Some(Error::Api {
            code: INVALID_ARGUMENT,
            context: "TranslationRecognitionEvent::from_handle error".to_string()
        })
    );
    assert_eq!(fixture.released(Resource::Event, 11), 1);
}

#[test]
fn complete_recognition_event_is_released_once_by_its_owner() {
    let mut fixture = seeded();
    let event = fixture.recognition_event(10).unwrap();
    assert_eq!(released(&fixture), (0, 0, 0));
    let releases = event.release();
    assert_eq!(
        releases,
        vec![
            Request::Release { kind: Resource::Event, handle: 10 },
            Request::Release { kind: Resource::Result, handle: 20 },
            Request::Release { kind: Resource::PropertyBag, handle: 30 },
        ]
    );
    fixture.release_all(releases);
    assert_eq!(released(&fixture), (1, 1, 1));
}

#[test]
fn canceled_event_is_rebuilt_from_the_fixture() {
    let mut fixture = seeded();
    fixture.properties.push((DETAILS, b"{\"reason\":\"quota\"}".to_vec()));
    let event = fixture.canceled_event(10).unwrap();
    assert_eq!(event.reason, CancellationReason::Error);
    assert_eq!(event.error_code, CancellationErrorCode::ConnectionFailure);
    assert_eq!(event.error_details, "{\"reason\":\"quota\"}");
    assert_eq!(event.base.base.handle.inner(), 10);
    assert_eq!(event.base.result.result_id, "r-1");
    assert_eq!(event.base.result.translations.get("en"), Some(&"hello".to_string()));
    assert_eq!(
        fixture.log[10..],
        vec![
            Request::CanceledReason { result: 20 },
            Request::CanceledErrorCode { result: 20 },
            Request::GetProperty { bag: 30, id: 5001, default: String::new() },
        ]
    );
}

#[test]
fn canceled_event_without_details_has_empty_details() {
    let mut fixture = seeded();
    fixture.properties.push((PropertyId::SpeechServiceResponseJsonResult.to_i32(), b"{}".to_vec()));
    let event = fixture.canceled_event(10).unwrap();
    assert_eq!(event.error_details, "");
    assert_eq!(event.reason, CancellationReason::Error);
    assert_eq!(event.error_code, CancellationErrorCode::ConnectionFailure);
    assert_eq!(event.base.result.result_id, "r-1");
}

#[test]
fn canceled_event_survives_a_failing_lookup_of_the_details() {
    let mut fixture = seeded();
    fixture.canceled_reason = 2;
    fixture.canceled_error_code = 0;
    fixture.properties.push((DETAILS, b"details that are never seen".to_vec()));
    fixture.fail(12, 0x21);
    let event = fixture.canceled_event(10).unwrap();
    assert_eq!(event.error_details, "");
    assert_eq!(event.reason, CancellationReason::EndOfStream);
    assert_eq!(event.error_code, CancellationErrorCode::NoError);
    assert_eq!(event.base.base.handle.inner(), 10);
    assert_eq!(event.base.result.handle.inner(), 20);
    assert_eq!(event.base.result.result_id, "r-1");
    assert_eq!(event.base.result.reason, ResultReason::Canceled);
    assert_eq!(event.base.result.duration, "5");
    assert_eq!(event.base.result.offset, "6");
    assert_eq!(event.base.result.translations.len(), 1);
    assert_eq!(event.base.result.properties.handle.inner(), 30);
    assert_eq!(fixture.log.len(), 13);
    assert_eq!(released(&fixture), (0, 0, 0));
}

#[test]
fn canceled_event_survives_details_that_are_not_text() {
    let mut fixture = seeded();
    fixture.properties.push((DETAILS, vec![b'{', 0xff, b'}']));
    let event = fixture.canceled_event(10).unwrap();
    assert_eq!(event.error_details, "");
    assert_eq!(event.reason, CancellationReason::Error);
    assert_eq!(event.error_code, CancellationErrorCode::ConnectionFailure);
}

#[test]
fn canceled_event_fails_where_reason_or_error_code_is_refused() {
    let mut fixture = seeded();
    fixture.fail(10, 0x30);
    assert_eq!(
        fixture.canceled_event(10).err(),
        Some(Error::Api {
            code: 0x30,
            context: "TranslationRecognitionCanceledEvent::from_handle(result_get_reason_canceled) error"
                .to_string()
        })
    );
    let mut fixture = seeded();
    fixture.fail(11, 0x31);
    assert_eq!(
        fixture.canceled_event(10).err(),
        Some(Error::Api {
            code: 0x31,
            context:
                "TranslationRecognitionCanceledEvent::from_handle(result_get_canceled_error_code) error"
                    .to_string()
        })
    );
}

#[test]
fn canceled_event_releases_all_it_owns_where_it_fails_late() {
    for at in [10usize, 11] {
        let mut fixture = seeded();
        fixture.fail(at, 1);
        assert!(fixture.canceled_event(10).is_err());
        assert_eq!(released(&fixture), (1, 1, 1));
        assert_eq!(
            fixture.log[at + 1..],
            vec![
                Request::Release { kind: Resource::Event, handle: 10 },
                Request::Release { kind: Resource::Result, handle: 20 },
                Request::Release { kind: Resource::PropertyBag, handle: 30 },
            ]
        );
    }
}

#[test]
fn canceled_event_releases_the_event_alone_where_it_fails_early() {
    for at in 0..10 {
        let mut fixture = seeded();
        fixture.fail(at, 1);
        assert!(fixture.canceled_event(10).is_err());
        assert_eq!(released(&fixture), (1, 0, 0));
    }
}

#[test]
fn no_resource_is_ever_released_twice() {
    for at in 0..16 {
        for translations in [0usize, 1, 3] {
            let mut fixture = seeded();
            fixture.translations.clear();
            for i in 0..translations {
                fixture.translations.push((format!("l{}", i).into_bytes(), b"text".to_vec()));
            }
            fixture.fail(at, 9);
            if let Ok(event) = fixture.canceled_event(10) {
                assert_eq!(released(&fixture), (0, 0, 0));
                fixture.release_all(event.release());
                assert_eq!(released(&fixture), (1, 1, 1));
            }
            let (event, result, bag) = released(&fixture);
            assert_eq!(event, 1);
            assert!(result <= 1 && result == bag);
            let releases = fixture.log.iter().filter(|request| matches!(request, Request::Release { .. })).count();
            assert_eq!(releases, event + result + bag);
        }
    }
}

#[test]
fn complete_canceled_event_is_released_once_by_its_owner() {
    let mut fixture = seeded();
    let event = fixture.canceled_event(10).unwrap();
    fixture.release_all(event.release());
    assert_eq!(released(&fixture), (1, 1, 1));
    assert_eq!(fixture.released(Resource::Result, 10), 0);
    assert_eq!(fixture.released(Resource::Event, 20), 0);
}

#[test]
fn lookup_of_an_absent_property_gives_the_default() {
    let mut fixture = seeded();
    let bag = PropertyCollection::from_handle(30);
    let request = bag.get_property(PropertyId::SpeechServiceConnectionRegion, "westeurope");
    assert_eq!(
        request,
        Request::GetProperty { bag: 30, id: 1002, default: "westeurope".to_string() }
    );
    let reply = fixture.perform(request);
    assert_eq!(PropertyCollection::property_value(&reply, "westeurope".to_string()), "westeurope");
}

#[test]
fn lookup_of_a_stored_property_gives_its_value() {
    let mut fixture = seeded();
    fixture.properties.push((1002, "東日本".as_bytes().to_vec()));
    fixture.properties.push((1002, b"shadowed".to_vec()));
    let bag = PropertyCollection::from_handle(30);
    let reply =
        fixture.perform(bag.get_property(PropertyId::SpeechServiceConnectionRegion, "westeurope"));
    assert_eq!(PropertyCollection::property_value(&reply, "westeurope".to_string()), "東日本");
}

#[test]
fn refused_lookup_gives_the_default() {
    let mut fixture = seeded();
    fixture.properties.push((1002, b"stored".to_vec()));
    let bag = PropertyCollection::from_handle(31);
    let reply = fixture.perform(bag.get_property(PropertyId::SpeechServiceConnectionRegion, "fallback"));
    assert_eq!(reply.status, INVALID_ARGUMENT);
    assert_eq!(PropertyCollection::property_value(&reply, "fallback".to_string()), "fallback");
    assert_eq!(
        PropertyCollection::property_value(&Reply::buffer(7, b"stored\0".to_vec()), "fallback".to_string()),
        "fallback"
    );
}

#[test]
fn lookup_that_leaves_no_valid_text_gives_the_default() {
    assert_eq!(
        PropertyCollection::property_value(&Reply::buffer(0, vec![0xff, 0]), "fallback".to_string()),
        "fallback"
    );
    assert_eq!(
        PropertyCollection::property_value(&Reply::buffer(0, b"value\0".to_vec()), "fallback".to_string()),
        "value"
    );
}

#[test]
fn refused_store_fails_its_caller() {
    let mut fixture = seeded();
    let bag = PropertyCollection::from_handle(30);
    let request = bag.set_property(PropertyId::SpeechServiceConnectionKey, "secret");
    assert_eq!(request, Request::SetProperty { bag: 30, id: 1000, value: "secret".to_string() });
    assert_eq!(PropertyCollection::stored(&fixture.perform(request)), Ok(()));
    let request = bag.set_property_by_name("name", "value");
    assert_eq!(
        request,
        Request::SetPropertyByName { bag: 30, name: "name".to_string(), value: "value".to_string() }
    );
    assert_eq!(PropertyCollection::stored(&fixture.perform(request)), Ok(()));
    let stranger = PropertyCollection::from_handle(99);
    let reply = fixture.perform(stranger.set_property(PropertyId::SpeechServiceConnectionKey, "secret"));
    assert_eq!(
        PropertyCollection::stored(&reply),
        Err(Error::Api {
            code: INVALID_ARGUMENT,
            context: "PropertyCollection::set_property error".to_string()
        })
    );
}

#[test]
fn fixture_writes_texts_within_the_capacity() {
    let mut fixture = seeded();
    fixture.result_id = b"abcdef".to_vec();
    assert_eq!(fixture.perform(Request::ResultId { result: 20, capacity: 0 }).buffer, b"");
    assert_eq!(fixture.perform(Request::ResultId { result: 20, capacity: 1 }).buffer, b"\0");
    assert_eq!(fixture.perform(Request::ResultId { result: 20, capacity: 4 }).buffer, b"abc\0");
    assert_eq!(fixture.perform(Request::ResultId { result: 20, capacity: 6 }).buffer, b"abcde\0");
    assert_eq!(fixture.perform(Request::ResultId { result: 20, capacity: 7 }).buffer, b"abcdef\0");
    assert_eq!(fixture.perform(Request::ResultId { result: 20, capacity: 70 }).buffer, b"abcdef\0");
    assert_eq!(fixture.log.len(), 6);
}

#[test]
fn fixture_reports_sizes_with_room_for_the_terminator() {
    let mut fixture = seeded();
    let reply = fixture.perform(Request::TranslationSizes { result: 20, index: 0 });
    assert_eq!((reply.status, reply.word, reply.second_word), (0, 3, 6));
    let reply = fixture.perform(Request::TranslationSizes { result: 20, index: 1 });
    assert_eq!(reply.status, INVALID_ARGUMENT);
    let reply = fixture.perform(Request::TranslationCount { result: 20 });
    assert_eq!((reply.status, reply.word), (0, 1));
}

#[test]
fn scripted_reply_takes_the_place_of_the_seeded_answer() {
    let mut fixture = seeded();
    fixture.answer_with(1, Reply::number(0, 3));
    fixture.answer_with(1, Reply::number(0, 4));
    assert_eq!(fixture.perform(Request::Reason { result: 20 }).number, 1);
    assert_eq!(fixture.perform(Request::Reason { result: 20 }).number, 3);
    assert_eq!(fixture.perform(Request::Reason { result: 20 }).number, 1);
    assert_eq!(fixture.log.len(), 3);
}

#[test]
fn canceled_event_survives_any_answer_to_the_lookup_of_the_details() {
    for reply in [
        Reply::status(1),
        Reply::status(usize::MAX),
        Reply::buffer(0, vec![0xff, 0xff]),
        Reply::buffer(3, b"refused but written\0".to_vec()),
        Reply::buffer(0, Vec::new()),
        Reply::number(0, 12),
    ] {
        let mut fixture = seeded();
        fixture.properties.push((DETAILS, b"seeded".to_vec()));
        fixture.answer_with(12, reply);
        let event = fixture.canceled_event(10).unwrap();
        assert_eq!(event.error_details, "");
        assert_eq!(event.reason, CancellationReason::Error);
        assert_eq!(event.error_code, CancellationErrorCode::ConnectionFailure);
        assert_eq!(event.base.result.result_id, "r-1");
    }
    let mut fixture = seeded();
    fixture.answer_with(12, Reply::buffer(0, b"scripted\0".to_vec()));
    assert_eq!(fixture.canceled_event(10).unwrap().error_details, "scripted");
}

#[test]
fn every_release_is_made_once_whatever_the_engine_answers() {
    let answers = [
        Reply::status(7),
        Reply::word(0, 20),
        Reply::word(0, 2),
        Reply::sizes(0, 1, 1),
        Reply::buffer(0, vec![0xff]),
        Reply::buffers(0, b"xx\0".to_vec(), vec![0xc0]),
        Reply::number(0, 1),
    ];
    for at in 0..14 {
        for first in &answers {
            for second in &answers {
                let mut fixture = seeded();
                fixture.answer_with(at, first.clone());
                fixture.answer_with(at + 1, second.clone());
                if let Ok(event) = fixture.canceled_event(10) {
                    let owed = event.release();
                    assert_eq!(owed.len(), 3);
                    fixture.release_all(owed);
                }
                let releases: Vec<&Request> = fixture
                    .log
                    .iter()
                    .filter(|request| matches!(request, Request::Release { .. }))
                    .collect();
                for (i, release) in releases.iter().enumerate() {
                    assert!(!releases[..i].contains(release));
                }
                assert_eq!(fixture.released(Resource::Event, 10), 1);
                assert!(releases.len() == 1 || releases.len() == 3);
            }
        }
    }
}

#[test]
fn fixture_looks_a_property_up_in_one_call() {
    let mut fixture = seeded();
    fixture.properties.push((1000, b"key".to_vec()));
    let bag = PropertyCollection::from_handle(30);
    assert_eq!(fixture.property(&bag, PropertyId::SpeechServiceConnectionKey, "none"), "key");
    assert_eq!(fixture.property(&bag, PropertyId::SpeechServiceConnectionRegion, "none"), "none");
    assert_eq!(fixture.property(&bag, PropertyId::SpeechServiceConnectionRegion, ""), "");
    assert_eq!(fixture.property(&bag, PropertyId::SpeechServiceConnectionRegion, "默认"), "默认");
    let stranger = PropertyCollection::from_handle(31);
    assert_eq!(fixture.property(&stranger, PropertyId::SpeechServiceConnectionKey, "none"), "none");
    assert_eq!(fixture.log.len(), 5);
}

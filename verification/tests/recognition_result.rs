use speech_translation::abi::{Reply, Request, Resource};
use speech_translation::common::{PropertyId, ResultReason};
use speech_translation::error::Error;
use speech_translation::fixture::{Fixture, INVALID_ARGUMENT};
use speech_translation::property::PropertyCollection;
use speech_translation::step::Step;
use speech_translation::translation::translation_recognition_result::{
    RecognitionResultFetch, TEXT_CAPACITY,
};
use speech_translation::translation::TranslationRecognitionResult;

fn seeded() -> Fixture {
    let mut fixture = Fixture::new(10, 20, 30);
    fixture.result_id = b"r-1".to_vec();
    fixture.reason = 7;
    fixture.text = "你好".as_bytes().to_vec();
    fixture.duration = 1000;
    fixture.offset = 0;
    fixture.translations.push((b"en".to_vec(), b"hello".to_vec()));
    fixture
}

fn context(call: &str) -> String {
    format!("TranslationRecognitionResult::from_handle({}) error", call)
}

fn asked(step: Step<RecognitionResultFetch, TranslationRecognitionResult>) -> (RecognitionResultFetch, Request) {
    match step {
        Step::Ask(state, request) => (state, request),
        Step::Done(_) => panic!("the reconstruction ended early"),
    }
}

fn failure(step: Step<RecognitionResultFetch, TranslationRecognitionResult>) -> Error {
    match step {
        Step::Done(Err(error)) => error,
        _ => panic!("the reconstruction did not fail"),
    }
}

fn text(bytes: &[u8]) -> Vec<u8> {
    let mut buffer = bytes.to_vec();
    buffer.push(0);
    buffer
}

#[test]
fn result_is_rebuilt_from_the_fixture() {
    let mut fixture = seeded();
    let result = fixture.recognition_result(20).unwrap();
    assert_eq!(result.result_id, "r-1");
    assert_eq!(result.reason, ResultReason::RecognizedTranslation);
    assert_eq!(result.text, "你好");
    assert_eq!(result.duration, "1000");
    assert_eq!(result.offset, "0");
    assert_eq!(result.translations.len(), 1);
    assert_eq!(result.translations.get("en"), Some(&"hello".to_string()));
    assert_eq!(result.handle.inner(), 20);
    assert_eq!(result.handle.kind(), Resource::Result);
    assert_eq!(result.handle.name(), "TranslationRecognitionResult");
    assert_eq!(result.properties.handle.inner(), 30);
    assert_eq!(result.properties.handle.kind(), Resource::PropertyBag);
}

#[test]
fn property_bag_of_the_result_gives_the_default_for_what_is_not_stored() {
    let mut fixture = seeded();
    fixture.properties.push((PropertyId::SpeechServiceResponseJsonResult.to_i32(), b"{}".to_vec()));
    let result = fixture.recognition_result(20).unwrap();
    for id in [
        PropertyId::SpeechServiceConnectionKey,
        PropertyId::SpeechServiceConnectionRegion,
        PropertyId::SpeechServiceResponseJsonErrorDetails,
        PropertyId::CancellationDetailsReasonText,
    ] {
        let reply = fixture.perform(result.properties.get_property(id, "configured"));
        assert_eq!(PropertyCollection::property_value(&reply, "configured".to_string()), "configured");
    }
    let reply =
        fixture.perform(result.properties.get_property(PropertyId::SpeechServiceResponseJsonResult, "configured"));
    assert_eq!(PropertyCollection::property_value(&reply, "configured".to_string()), "{}");
}

#[test]
fn result_without_translations_is_neither_probed_nor_fetched_from() {
    let mut fixture = seeded();
    fixture.translations.clear();
    let result = fixture.recognition_result(20).unwrap();
    assert_eq!(result.translations.len(), 0);
    assert!(result.translations.is_empty());
    assert_eq!(
        fixture.log,
        vec![
            Request::ResultId { result: 20, capacity: TEXT_CAPACITY },
            Request::Reason { result: 20 },
            Request::Text { result: 20, capacity: TEXT_CAPACITY },
            Request::Duration { result: 20 },
            Request::Offset { result: 20 },
            Request::TranslationCount { result: 20 },
            Request::PropertyBag { result: 20 },
        ]
    );
}

#[test]
fn result_with_three_translations_holds_three_languages() {
    let mut fixture = seeded();
    fixture.translations.push((b"de".to_vec(), b"hallo".to_vec()));
    fixture.translations.push((b"zh-Hans".to_vec(), "你好".as_bytes().to_vec()));
    let result = fixture.recognition_result(20).unwrap();
    assert_eq!(result.translations.len(), 3);
    assert_eq!(result.translations.get("en"), Some(&"hello".to_string()));
    assert_eq!(result.translations.get("de"), Some(&"hallo".to_string()));
    assert_eq!(result.translations.get("zh-Hans"), Some(&"你好".to_string()));
    assert_eq!(result.translations.get("fr"), None);
}

#[test]
fn result_with_many_translations_holds_each_of_them() {
    for count in [0usize, 1, 2, 5, 17, 64] {
        let mut fixture = seeded();
        fixture.translations.clear();
        for i in 0..count {
            fixture
                .translations
                .push((format!("lang-{}", i).into_bytes(), format!("text number {}", i * i).into_bytes()));
        }
        let result = fixture.recognition_result(20).unwrap();
        assert_eq!(result.translations.len(), count);
        for i in 0..count {
            assert_eq!(
                result.translations.get(&format!("lang-{}", i)),
                Some(&format!("text number {}", i * i))
            );
        }
        assert_eq!(fixture.log.len(), 7 + 2 * count);
    }
}

#[test]
fn translations_are_probed_first_and_fetched_into_the_largest_sizes() {
    let mut fixture = seeded();
    fixture.translations.push((b"zh-Hans".to_vec(), b"hi".to_vec()));
    fixture.translations.push((b"de".to_vec(), b"guten Morgen".to_vec()));
    fixture.recognition_result(20).unwrap();
    assert_eq!(
        fixture.log[5..],
        vec![
            Request::TranslationCount { result: 20 },
            Request::TranslationSizes { result: 20, index: 0 },
            Request::TranslationSizes { result: 20, index: 1 },
            Request::TranslationSizes { result: 20, index: 2 },
            Request::Translation { result: 20, index: 0, language_capacity: 8, text_capacity: 13 },
            Request::Translation { result: 20, index: 1, language_capacity: 8, text_capacity: 13 },
            Request::Translation { result: 20, index: 2, language_capacity: 8, text_capacity: 13 },
            Request::PropertyBag { result: 20 },
        ]
    );
}

#[test]
fn repeated_language_keeps_the_later_text() {
    let mut fixture = seeded();
    fixture.translations.push((b"de".to_vec(), b"hallo".to_vec()));
    fixture.translations.push((b"en".to_vec(), b"good day".to_vec()));
    let result = fixture.recognition_result(20).unwrap();
    assert_eq!(result.translations.len(), 2);
    assert_eq!(result.translations.get("en"), Some(&"good day".to_string()));
    assert_eq!(result.translations.get("de"), Some(&"hallo".to_string()));
}

#[test]
fn duration_and_offset_are_written_in_decimal() {
    let mut fixture = seeded();
    fixture.duration = 12_345_678_901_234;
    fixture.offset = u64::MAX;
    let result = fixture.recognition_result(20).unwrap();
    assert_eq!(result.duration, "12345678901234");
    assert_eq!(result.offset, "18446744073709551615");
}

#[test]
fn reason_without_a_name_is_kept_as_its_code() {
    let mut fixture = seeded();
    fixture.reason = 99;
    assert_eq!(fixture.recognition_result(20).unwrap().reason, ResultReason::Other(99));
}

#[test]
fn each_failing_call_fails_the_result_with_its_context() {
    let contexts = [
        "result_get_result_id",
        "result_get_reason",
        "result_get_text",
        "result_get_duration",
        "result_get_offset",
        "translation_text_result_get_translation_count",
        "translation_text_result_get_translation - size",
        "translation_text_result_get_translation",
        "result_get_property_bag",
    ];
    for (at, call) in contexts.iter().enumerate() {
        let mut fixture = seeded();
        fixture.fail(at, 0x1b);
        assert_eq!(
            fixture.recognition_result(20).err(),
            Some(Error::Api { code: 0x1b, context: context(call) })
        );
        assert_eq!(fixture.log.len(), at + 1);
    }
}

#[test]
fn failure_of_a_later_probe_or_fetch_fails_the_result() {
    let mut fixture = seeded();
    fixture.translations.push((b"de".to_vec(), b"hallo".to_vec()));
    fixture.fail(7, 2);
    assert_eq!(
        fixture.recognition_result(20).err(),
        Some(Error::Api { code: 2, context: context("translation_text_result_get_translation - size") })
    );
    let mut fixture = seeded();
    fixture.translations.push((b"de".to_vec(), b"hallo".to_vec()));
    fixture.fail(9, 3);
    assert_eq!(
        fixture.recognition_result(20).err(),
        Some(Error::Api { code: 3, context: context("translation_text_result_get_translation") })
    );
}

#[test]
fn unknown_handle_fails_at_the_first_call() {
    let mut fixture = seeded();
    assert_eq!(
        fixture.recognition_result(21).err(),
        Some(Error::Api { code: INVALID_ARGUMENT, context: context("result_get_result_id") })
    );
    assert_eq!(fixture.log, vec![Request::ResultId { result: 21, capacity: TEXT_CAPACITY }]);
}

#[test]
fn identifier_that_is_not_text_fails_the_result() {
    let mut fixture = seeded();
    fixture.result_id = vec![0xc3, 0x28];
    assert_eq!(
        fixture.recognition_result(20).err(),
        Some(Error::Decoding { context: context("result_get_result_id") })
    );
    assert_eq!(fixture.log.len(), 1);
}

#[test]
fn text_that_is_not_text_fails_the_result() {
    let mut fixture = seeded();
    fixture.text = vec![0xff];
    assert_eq!(
        fixture.recognition_result(20).err(),
        Some(Error::Decoding { context: context("result_get_text") })
    );
    assert_eq!(fixture.log.len(), 3);
}

#[test]
fn language_or_translation_that_is_not_text_fails_the_result() {
    let mut fixture = seeded();
    fixture.translations.push((vec![0xff], b"hallo".to_vec()));
    assert_eq!(
        fixture.recognition_result(20).err(),
        Some(Error::Decoding { context: context("translation_text_result_get_translation") })
    );
    let mut fixture = seeded();
    fixture.translations.push((b"de".to_vec(), vec![0xe4, 0xbd]));
    assert_eq!(
        fixture.recognition_result(20).err(),
        Some(Error::Decoding { context: context("translation_text_result_get_translation") })
    );
}

#[test]
fn first_request_asks_for_the_identifier() {
    let (_, request) = asked(TranslationRecognitionResult::from_handle(5));
    assert_eq!(request, Request::ResultId { result: 5, capacity: 2047 });
}

#[test]
fn replies_lead_through_every_sub_fetch() {
    let (state, _) = asked(TranslationRecognitionResult::from_handle(5));
    let (state, request) = asked(state.resume(Reply::buffer(0, text(b"id"))));
    assert_eq!(request, Request::Reason { result: 5 });
    let (state, request) = asked(state.resume(Reply::number(0, 3)));
    assert_eq!(request, Request::Text { result: 5, capacity: 2047 });
    let (state, request) = asked(state.resume(Reply::buffer(0, text(b"spoken"))));
    assert_eq!(request, Request::Duration { result: 5 });
    let (state, request) = asked(state.resume(Reply::number(0, 250)));
    assert_eq!(request, Request::Offset { result: 5 });
    let (state, request) = asked(state.resume(Reply::number(0, 40)));
    assert_eq!(request, Request::TranslationCount { result: 5 });
    let (state, request) = asked(state.resume(Reply::word(0, 2)));
    assert_eq!(request, Request::TranslationSizes { result: 5, index: 0 });
    let (state, request) = asked(state.resume(Reply::sizes(0, 3, 9)));
    assert_eq!(request, Request::TranslationSizes { result: 5, index: 1 });
    let (state, request) = asked(state.resume(Reply::sizes(0, 6, 4)));
    assert_eq!(
        request,
        Request::Translation { result: 5, index: 0, language_capacity: 6, text_capacity: 9 }
    );
    let (state, request) = asked(state.resume(Reply::buffers(0, text(b"en"), text(b"spoken"))));
    assert_eq!(
        request,
        Request::Translation { result: 5, index: 1, language_capacity: 6, text_capacity: 9 }
    );
    let (state, request) =
        asked(state.resume(Reply::buffers(0, b"pt-BR\0n".to_vec(), b"dito\0ken".to_vec())));
    assert_eq!(request, Request::PropertyBag { result: 5 });
    let result = match state.resume(Reply::word(0, 77)) {
        Step::Done(Ok(result)) => result,
        _ => panic!("the reconstruction did not end"),
    };
    assert_eq!(result.result_id, "id");
    assert_eq!(result.reason, ResultReason::RecognizedSpeech);
    assert_eq!(result.text, "spoken");
    assert_eq!(result.duration, "250");
    assert_eq!(result.offset, "40");
    assert_eq!(result.translations.len(), 2);
    assert_eq!(result.translations.get("en"), Some(&"spoken".to_string()));
    assert_eq!(result.translations.get("pt-BR"), Some(&"dito".to_string()));
    assert_eq!(result.handle.inner(), 5);
    assert_eq!(result.properties.handle.inner(), 77);
}

#[test]
fn refused_call_ends_the_reconstruction_at_once() {
    let (state, _) = asked(TranslationRecognitionResult::from_handle(5));
    assert_eq!(
        failure(state.resume(Reply::buffer(9, text(b"id")))),
        Error::Api { code: 9, context: context("result_get_result_id") }
    );
}

#[test]
fn releases_of_a_result_are_the_result_and_then_its_bag() {
    let mut fixture = seeded();
    let result = fixture.recognition_result(20).unwrap();
    assert_eq!(
        result.release(),
        vec![
            Request::Release { kind: Resource::Result, handle: 20 },
            Request::Release { kind: Resource::PropertyBag, handle: 30 },
        ]
    );
}

#[test]
fn result_in_the_scenario_of_one_translation() {
    let mut fixture = Fixture::new(10, 20, 30);
    fixture.result_id = b"r-1".to_vec();
    fixture.reason = ResultReason::RecognizedTranslation.code();
    fixture.text = "你好".as_bytes().to_vec();
    fixture.duration = 1000;
    fixture.offset = 0;
    fixture.translations.push((b"en".to_vec(), b"hello".to_vec()));
    fixture.properties.push((PropertyId::SpeechServiceResponseJsonResult.to_i32(), b"{}".to_vec()));
    let result = fixture.recognition_result(20).unwrap();
    assert_eq!(result.result_id, "r-1");
    assert_eq!(result.reason, ResultReason::RecognizedTranslation);
    assert_eq!(result.text, "你好");
    assert_eq!(result.duration, "1000");
    assert_eq!(result.offset, "0");
    assert_eq!(
        result.translations.entries(),
        &vec![("en".to_string(), "hello".to_string())]
    );
    for id in [
        PropertyId::SpeechServiceConnectionKey,
        PropertyId::SpeechServiceConnectionEndpoint,
        PropertyId::SpeechServiceConnectionRegion,
        PropertyId::SpeechServiceAuthorizationToken,
        PropertyId::SpeechServiceResponseJsonErrorDetails,
        PropertyId::CancellationDetailsReason,
        PropertyId::CancellationDetailsReasonText,
        PropertyId::CancellationDetailsReasonDetailedText,
    ] {
        let reply = fixture.perform(result.properties.get_property(id, "the default"));
        assert_eq!(PropertyCollection::property_value(&reply, "the default".to_string()), "the default");
    }
}

#[test]
fn engine_that_reports_sizes_too_small_gets_its_texts_cut() {
    let mut fixture = seeded();
    fixture.answer_with(6, Reply::sizes(0, 2, 3));
    let result = fixture.recognition_result(20).unwrap();
    assert_eq!(
        fixture.log[7],
        Request::Translation { result: 20, index: 0, language_capacity: 2, text_capacity: 3 }
    );
    assert_eq!(result.translations.get("e"), Some(&"he".to_string()));
}

#[test]
fn engine_that_reports_more_translations_than_it_holds_fails_the_result() {
    let mut fixture = seeded();
    fixture.answer_with(5, Reply::word(0, 2));
    assert_eq!(
        fixture.recognition_result(20).err(),
        Some(Error::Api {
            code: INVALID_ARGUMENT,
            context: context("translation_text_result_get_translation - size")
        })
    );
    assert_eq!(fixture.log.len(), 8);
}

use speech_translation::abi::{Reply, Request, Resource};
use speech_translation::common::{
    CancellationErrorCode, CancellationReason, PropertyId, ResultReason,
};
use speech_translation::handle::SmartHandle;
use speech_translation::translations::Translations;

#[test]
fn result_reason_names_its_codes() {
    assert_eq!(ResultReason::from_code(0), ResultReason::NoMatch);
    assert_eq!(ResultReason::from_code(1), ResultReason::Canceled);
    assert_eq!(ResultReason::from_code(3), ResultReason::RecognizedSpeech);
    assert_eq!(ResultReason::from_code(6), ResultReason::RecognizingTranslation);
    assert_eq!(ResultReason::from_code(7), ResultReason::RecognizedTranslation);
    assert_eq!(ResultReason::from_code(8), ResultReason::SynthesizingAudio);
    assert_eq!(ResultReason::from_code(9), ResultReason::SynthesizingAudioCompleted);
    assert_eq!(ResultReason::from_code(12), ResultReason::SynthesizingAudioStarted);
}

#[test]
fn result_reason_keeps_a_code_without_a_name() {
    assert_eq!(ResultReason::from_code(13), ResultReason::Other(13));
    assert_eq!(ResultReason::from_code(u64::MAX), ResultReason::Other(u64::MAX));
}

#[test]
fn result_reason_code_undoes_from_code() {
    for code in 0..40u64 {
        assert_eq!(ResultReason::from_code(code).code(), code);
    }
}

#[test]
fn cancellation_reason_names_its_codes() {
    assert_eq!(CancellationReason::from_code(1), CancellationReason::Error);
    assert_eq!(CancellationReason::from_code(2), CancellationReason::EndOfStream);
    assert_eq!(CancellationReason::from_code(3), CancellationReason::CancelledByUser);
    assert_eq!(CancellationReason::from_code(0), CancellationReason::Other(0));
    assert_eq!(CancellationReason::from_code(4), CancellationReason::Other(4));
}

#[test]
fn cancellation_reason_code_undoes_from_code() {
    for code in 0..10u64 {
        assert_eq!(CancellationReason::from_code(code).code(), code);
    }
}

#[test]
fn cancellation_error_code_names_its_codes() {
    assert_eq!(CancellationErrorCode::from_code(0), CancellationErrorCode::NoError);
    assert_eq!(CancellationErrorCode::from_code(1), CancellationErrorCode::AuthenticationFailure);
    assert_eq!(CancellationErrorCode::from_code(5), CancellationErrorCode::ConnectionFailure);
    assert_eq!(CancellationErrorCode::from_code(9), CancellationErrorCode::RuntimeError);
    assert_eq!(CancellationErrorCode::from_code(10), CancellationErrorCode::Other(10));
}

#[test]
fn cancellation_error_code_code_undoes_from_code() {
    for code in 0..20u64 {
        assert_eq!(CancellationErrorCode::from_code(code).code(), code);
    }
}

#[test]
fn property_ids_have_their_integers() {
    assert_eq!(PropertyId::SpeechServiceConnectionKey.to_i32(), 1000);
    assert_eq!(PropertyId::SpeechServiceResponseJsonResult.to_i32(), 5000);
    assert_eq!(PropertyId::SpeechServiceResponseJsonErrorDetails.to_i32(), 5001);
    assert_eq!(PropertyId::CancellationDetailsReasonDetailedText.to_i32(), 6002);
}

#[test]
fn smart_handle_lends_its_handle_and_releases_it() {
    let handle = SmartHandle::create("Thing", 41, Resource::Result);
    assert_eq!(handle.inner(), 41);
    assert_eq!(handle.inner(), 41);
    assert_eq!(handle.name(), "Thing");
    assert_eq!(handle.kind(), Resource::Result);
    assert_eq!(handle.release(), Request::Release { kind: Resource::Result, handle: 41 });
}

#[test]
fn smart_handle_releases_by_kind() {
    assert_eq!(
        SmartHandle::create("Event", 1, Resource::Event).release(),
        Request::Release { kind: Resource::Event, handle: 1 }
    );
    assert_eq!(
        SmartHandle::create("Bag", 2, Resource::PropertyBag).release(),
        Request::Release { kind: Resource::PropertyBag, handle: 2 }
    );
}

#[test]
fn replies_hold_what_they_were_built_with() {
    let bare = Reply::status(3);
    assert_eq!((bare.status, bare.number, bare.word, bare.second_word), (3, 0, 0, 0));
    assert!(bare.buffer.is_empty() && bare.second_buffer.is_empty());
    assert_eq!(Reply::number(0, 9).number, 9);
    assert_eq!(Reply::word(0, 8).word, 8);
    let sizes = Reply::sizes(0, 3, 6);
    assert_eq!((sizes.word, sizes.second_word), (3, 6));
    assert_eq!(Reply::buffer(0, vec![1, 2]).buffer, vec![1, 2]);
    let pair = Reply::buffers(0, vec![1], vec![2, 3]);
    assert_eq!((pair.buffer, pair.second_buffer), (vec![1], vec![2, 3]));
}

#[test]
fn translations_start_empty() {
    let translations = Translations::new();
    assert_eq!(translations.len(), 0);
    assert!(translations.is_empty());
    assert_eq!(translations.get("en"), None);
    assert!(translations.entries().is_empty());
}

#[test]
fn translations_keep_each_language() {
    let mut translations = Translations::new();
    translations.insert("en".to_string(), "hello".to_string());
    translations.insert("de".to_string(), "hallo".to_string());
    translations.insert("fr".to_string(), "bonjour".to_string());
    assert_eq!(translations.len(), 3);
    assert!(!translations.is_empty());
    assert_eq!(translations.get("en"), Some(&"hello".to_string()));
    assert_eq!(translations.get("de"), Some(&"hallo".to_string()));
    assert_eq!(translations.get("fr"), Some(&"bonjour".to_string()));
    assert_eq!(translations.get("it"), None);
}

#[test]
fn translations_last_write_wins() {
    let mut translations = Translations::new();
    translations.insert("en".to_string(), "hello".to_string());
    translations.insert("de".to_string(), "hallo".to_string());
    translations.insert("en".to_string(), "good day".to_string());
    assert_eq!(translations.len(), 2);
    assert_eq!(translations.get("en"), Some(&"good day".to_string()));
    assert_eq!(translations.get("de"), Some(&"hallo".to_string()));
    assert_eq!(
        translations.entries(),
        &vec![
            ("en".to_string(), "good day".to_string()),
            ("de".to_string(), "hallo".to_string())
        ]
    );
}

#[test]
fn translations_tell_languages_apart_by_every_character() {
    let mut translations = Translations::new();
    translations.insert("zh-Hans".to_string(), "你好".to_string());
    translations.insert("zh-Hant".to_string(), "妳好".to_string());
    translations.insert("".to_string(), "none".to_string());
    assert_eq!(translations.len(), 3);
    assert_eq!(translations.get("zh-Hans"), Some(&"你好".to_string()));
    assert_eq!(translations.get("zh-Hant"), Some(&"妳好".to_string()));
    assert_eq!(translations.get(""), Some(&"none".to_string()));
    assert_eq!(translations.get("zh"), None);
}

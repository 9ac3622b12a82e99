use speech_translation::common::ResultReason;
use speech_translation::fixture::Fixture;
use speech_translation::text::byte_list;
use speech_translation::translation::translation_recognition_result::recognition_layout;
use speech_translation::translation::translation_synthesis_result::synthesis_layout;
use speech_translation::translations::Translations;

#[test]
fn byte_list_prints_as_a_list_of_numbers() {
    assert_eq!(byte_list(&[]), "[]");
    assert_eq!(byte_list(&[7]), "[7]");
    assert_eq!(byte_list(&[0, 10, 255]), "[0, 10, 255]");
}

#[test]
fn byte_list_agrees_with_the_standard_printing() {
    for bytes in [vec![], vec![0u8], vec![1, 2], (0..=255).collect::<Vec<u8>>()] {
        assert_eq!(byte_list(&bytes), format!("{:?}", bytes));
    }
}

#[test]
fn reasons_print_as_their_names() {
    assert_eq!(ResultReason::NoMatch.name(), "NoMatch");
    assert_eq!(ResultReason::RecognizedTranslation.name(), "RecognizedTranslation");
    assert_eq!(ResultReason::SynthesizingAudioCompleted.name(), "SynthesizingAudioCompleted");
    assert_eq!(ResultReason::Other(13).name(), "Other(13)");
    assert_eq!(ResultReason::Other(0).name(), "Other(0)");
}

#[test]
fn reason_names_agree_with_the_standard_printing() {
    for code in 0..20u64 {
        let reason = ResultReason::from_code(code);
        assert_eq!(reason.name(), format!("{:?}", reason));
    }
    let reason = ResultReason::Other(u64::MAX);
    assert_eq!(reason.name(), format!("{:?}", reason));
}

#[test]
fn translations_print_as_a_map() {
    let mut translations = Translations::new();
    assert_eq!(translations.debug_string(), "{}");
    translations.insert("en".to_string(), "hello".to_string());
    assert_eq!(translations.debug_string(), "{\"en\": \"hello\"}");
    translations.insert("de".to_string(), "sag \"hallo\"".to_string());
    assert_eq!(translations.debug_string(), "{\"en\": \"hello\", \"de\": \"sag \\\"hallo\\\"\"}");
    translations.insert("en".to_string(), "hi".to_string());
    assert_eq!(translations.debug_string(), "{\"en\": \"hi\", \"de\": \"sag \\\"hallo\\\"\"}");
}

#[test]
fn one_translation_prints_as_the_standard_map_does() {
    let mut translations = Translations::new();
    translations.insert("zh-Hans".to_string(), "你好\n".to_string());
    let mut map = std::collections::HashMap::new();
    map.insert("zh-Hans".to_string(), "你好\n".to_string());
    assert_eq!(translations.debug_string(), format!("{:?}", map));
}

#[test]
fn layouts_set_the_parts_in_their_places() {
    assert_eq!(
        synthesis_layout("I", "R", "A"),
        "TranslationSynthesisResult { result_id: I, reason: R, audio: A }"
    );
    assert_eq!(
        recognition_layout("I", "R", "T", "D", "O", "M"),
        "TranslationRecognitionResult { result_id: I, reason: R, text: T, duration: D, offset: O, translations: M }"
    );
}

#[test]
fn synthesis_result_prints_without_handles_and_with_short_audio() {
    let mut fixture = Fixture::new(1, 2, 3);
    fixture.result_id = b"synth-7".to_vec();
    fixture.reason = 8;
    fixture.audio = (1..=4).collect();
    let result = fixture.synthesis_result(2).unwrap();
    assert_eq!(
        result.debug_string(),
        "TranslationSynthesisResult { result_id: \"synth-7\", reason: SynthesizingAudio, audio: \"(Truncated): [1, 2, 3, 4]\" }"
    );
}

#[test]
fn synthesis_result_prints_at_most_ten_bytes_of_audio() {
    let mut fixture = Fixture::new(1, 2, 3);
    fixture.reason = 9;
    fixture.audio = (0..200).collect();
    let result = fixture.synthesis_result(2).unwrap();
    assert_eq!(
        result.debug_string(),
        "TranslationSynthesisResult { result_id: \"\", reason: SynthesizingAudioCompleted, audio: \"(Truncated): [0, 1, 2, 3, 4, 5, 6, 7, 8, 9]\" }"
    );
    fixture.audio.clear();
    let result = fixture.synthesis_result(2).unwrap();
    assert_eq!(
        result.debug_string(),
        "TranslationSynthesisResult { result_id: \"\", reason: SynthesizingAudioCompleted, audio: \"(Truncated): []\" }"
    );
}

#[test]
fn recognition_result_prints_without_handles() {
    let mut fixture = Fixture::new(10, 20, 30);
    fixture.result_id = b"r-1".to_vec();
    fixture.reason = 7;
    fixture.text = "你好".as_bytes().to_vec();
    fixture.duration = 1000;
    fixture.translations.push((b"en".to_vec(), b"hello".to_vec()));
    let result = fixture.recognition_result(20).unwrap();
    assert_eq!(
        result.debug_string(),
        "TranslationRecognitionResult { result_id: \"r-1\", reason: RecognizedTranslation, text: \"你好\", duration: \"1000\", offset: \"0\", translations: {\"en\": \"hello\"} }"
    );
}

#[test]
fn printed_texts_are_escaped() {
    let mut fixture = Fixture::new(10, 20, 30);
    fixture.result_id = b"a\"b\\c".to_vec();
    fixture.reason = 40;
    fixture.text = b"line\nbreak\ttab".to_vec();
    let result = fixture.recognition_result(20).unwrap();
    assert_eq!(
        result.debug_string(),
        format!(
            "TranslationRecognitionResult {{ result_id: {:?}, reason: Other(40), text: {:?}, duration: \"0\", offset: \"0\", translations: {{}} }}",
            "a\"b\\c", "line\nbreak\ttab"
        )
    );
    assert!(result.debug_string().contains("result_id: \"a\\\"b\\\\c\""));
    assert!(result.debug_string().contains("text: \"line\\nbreak\\ttab\""));
}

//! The results and events of speech translation, each rebuilt from the handle that
//! the engine hands to a callback.

pub mod translation_recognition_canceled_event;
pub mod translation_recognition_event;
pub mod translation_recognition_result;
pub mod translation_synthesis_event;
pub mod translation_synthesis_result;

pub use translation_recognition_canceled_event::TranslationRecognitionCanceledEvent;
pub use translation_recognition_event::TranslationRecognitionEvent;
pub use translation_recognition_result::TranslationRecognitionResult;
pub use translation_synthesis_event::TranslationSynthesisEvent;
pub use translation_synthesis_result::TranslationSynthesisResult;

//! The result of a translation recognition, and its reconstruction from a result
//! handle.

use crate::abi::{views, Reply, ReplyView, Request, RequestView, Resource};
use crate::common::ResultReason;
use crate::error::{Error, ErrorView, NO_ERROR};
use crate::handle::{SmartHandle, SmartHandleView};
use crate::property::{bag_handle, PropertyCollection};
use crate::step::{Step, StepView};
use crate::text::{decimal, decimal_string, decode_text, decoded, escaped, format_quoted};
use crate::translations::{map_text, Translations};
use vstd::prelude::*;

verus! {

/// How many bytes of the buffer for an identifier or a text the engine may use.
pub const TEXT_CAPACITY: u32 = 2047;

/// Represents translation recognition result contained within callback event *TranslationRecognitionEvent*.
#[derive(PartialEq, Eq)]
pub struct TranslationRecognitionResult {
    pub handle: SmartHandle,
    pub result_id: String,
    pub reason: ResultReason,
    pub text: String,
    pub duration: String,
    pub offset: String,
    pub translations: Translations,
    pub properties: PropertyCollection,
}

/// The mathematical content of a [`TranslationRecognitionResult`].
pub struct TranslationRecognitionResultView {
    pub handle: SmartHandleView,
    pub result_id: Seq<char>,
    pub reason: ResultReason,
    pub text: Seq<char>,
    pub duration: Seq<char>,
    pub offset: Seq<char>,
    pub translations: Map<Seq<char>, Seq<char>>,
    pub properties: SmartHandleView,
}

impl View for TranslationRecognitionResult {
    type V = TranslationRecognitionResultView;

    open spec fn view(&self) -> TranslationRecognitionResultView {
        TranslationRecognitionResultView {
            handle: self.handle@,
            result_id: self.result_id@,
            reason: self.reason,
            text: self.text@,
            duration: self.duration@,
            offset: self.offset@,
            translations: self.translations@,
            properties: self.properties.handle@,
        }
    }
}

impl TranslationRecognitionResultView {
    /// The releases that the owner of such a result owes, in the order in which
    /// they are made: the result first, then its property bag.
    pub open spec fn releases(self) -> Seq<RequestView> {
        seq![self.handle.release(), self.properties.release()]
    }
}

/// A printed recognition result, given its parts as they are printed. The handles
/// are left out.
pub open spec fn recognition_text(
    result_id: Seq<char>,
    reason: Seq<char>,
    text: Seq<char>,
    duration: Seq<char>,
    offset: Seq<char>,
    translations: Seq<char>,
) -> Seq<char> {
    "TranslationRecognitionResult { result_id: "@ + result_id + ", reason: "@ + reason
        + ", text: "@ + text + ", duration: "@ + duration + ", offset: "@ + offset
        + ", translations: "@ + translations + " }"@
}

/// Sets the printed parts of a recognition result into its printed form.
pub fn recognition_layout(
    result_id: &str,
    reason: &str,
    text: &str,
    duration: &str,
    offset: &str,
    translations: &str,
) -> (printed: String)
    ensures
        printed@ == recognition_text(
            result_id@,
            reason@,
            text@,
            duration@,
            offset@,
            translations@,
        ),
{
    "TranslationRecognitionResult { result_id: ".to_owned().concat(result_id).concat(
        ", reason: ",
    ).concat(reason).concat(", text: ").concat(text).concat(", duration: ").concat(
        duration,
    ).concat(", offset: ").concat(offset).concat(", translations: ").concat(translations).concat(
        " }",
    )
}

/// The sub-fetch that a reconstruction waits for.
#[derive(Debug, Clone, Copy, PartialEq, Eq, Structural)]
pub enum ResultPhase {
    Id,
    Reason,
    Text,
    Duration,
    Offset,
    Count,
    Sizes,
    Fill,
    Bag,
}

/// A reconstruction of a [`TranslationRecognitionResult`] that waits for the
/// engine's reply to its last request.
#[derive(Debug)]
pub struct RecognitionResultFetch {
    handle: usize,
    phase: ResultPhase,
    result_id: String,
    reason: ResultReason,
    text: String,
    duration: u64,
    offset: u64,
    count: usize,
    index: usize,
    language_size: usize,
    text_size: usize,
    translations: Translations,
}

/// The mathematical content of a [`RecognitionResultFetch`]: the result handle,
/// the sub-fetch that is awaited, and what the earlier sub-fetches gave.
pub struct RecognitionResultFetchView {
    pub handle: usize,
    pub phase: ResultPhase,
    pub result_id: Seq<char>,
    pub reason: ResultReason,
    pub text: Seq<char>,
    pub duration: u64,
    pub offset: u64,
    /// The number of translations, once known.
    pub count: usize,
    /// The translation that the awaited probe or fill is about.
    pub index: usize,
    /// The largest language size that the probes have reported so far.
    pub language_size: usize,
    /// The largest text size that the probes have reported so far.
    pub text_size: usize,
    pub translations: Map<Seq<char>, Seq<char>>,
}

impl View for RecognitionResultFetch {
    type V = RecognitionResultFetchView;

    closed spec fn view(&self) -> RecognitionResultFetchView {
        RecognitionResultFetchView {
            handle: self.handle,
            phase: self.phase,
            result_id: self.result_id@,
            reason: self.reason,
            text: self.text@,
            duration: self.duration,
            offset: self.offset,
            count: self.count,
            index: self.index,
            language_size: self.language_size,
            text_size: self.text_size,
            translations: self.translations@,
        }
    }
}

/// The larger of two sizes.
pub open spec fn larger(a: usize, b: usize) -> usize {
    if a >= b {
        a
    } else {
        b
    }
}

impl RecognitionResultFetchView {
    /// The state in which the reconstruction of the result behind `handle` starts.
    pub open spec fn start(handle: usize) -> RecognitionResultFetchView {
        RecognitionResultFetchView {
            handle,
            phase: ResultPhase::Id,
            result_id: Seq::empty(),
            reason: ResultReason::NoMatch,
            text: Seq::empty(),
            duration: 0,
            offset: 0,
            count: 0,
            index: 0,
            language_size: 0,
            text_size: 0,
            translations: Map::empty(),
        }
    }

    /// While translations are probed or fetched, the one that is awaited exists.
    pub open spec fn wf(self) -> bool {
        (self.phase == ResultPhase::Sizes || self.phase == ResultPhase::Fill) ==> self.index
            < self.count
    }

    /// The call whose reply the state waits for.
    pub open spec fn request(self) -> RequestView {
        match self.phase {
            ResultPhase::Id => RequestView::ResultId {
                result: self.handle,
                capacity: TEXT_CAPACITY,
            },
            ResultPhase::Reason => RequestView::Reason { result: self.handle },
            ResultPhase::Text => RequestView::Text { result: self.handle, capacity: TEXT_CAPACITY },
            ResultPhase::Duration => RequestView::Duration { result: self.handle },
            ResultPhase::Offset => RequestView::Offset { result: self.handle },
            ResultPhase::Count => RequestView::TranslationCount { result: self.handle },
            ResultPhase::Sizes => RequestView::TranslationSizes {
                result: self.handle,
                index: self.index,
            },
            ResultPhase::Fill => RequestView::Translation {
                result: self.handle,
                index: self.index,
                language_capacity: self.language_size,
                text_capacity: self.text_size,
            },
            ResultPhase::Bag => RequestView::PropertyBag { result: self.handle },
        }
    }

    /// The context that a failure of the awaited sub-fetch carries.
    pub open spec fn context(self) -> Seq<char> {
        match self.phase {
            ResultPhase::Id => "TranslationRecognitionResult::from_handle(result_get_result_id) error"@,
            ResultPhase::Reason => "TranslationRecognitionResult::from_handle(result_get_reason) error"@,
            ResultPhase::Text => "TranslationRecognitionResult::from_handle(result_get_text) error"@,
            ResultPhase::Duration => "TranslationRecognitionResult::from_handle(result_get_duration) error"@,
            ResultPhase::Offset => "TranslationRecognitionResult::from_handle(result_get_offset) error"@,
            ResultPhase::Count => "TranslationRecognitionResult::from_handle(translation_text_result_get_translation_count) error"@,
            ResultPhase::Sizes => "TranslationRecognitionResult::from_handle(translation_text_result_get_translation - size) error"@,
            ResultPhase::Fill => "TranslationRecognitionResult::from_handle(translation_text_result_get_translation) error"@,
            ResultPhase::Bag => "TranslationRecognitionResult::from_handle(result_get_property_bag) error"@,
        }
    }

    /// The step that asks for what the state waits for.
    pub open spec fn ask(self) -> StepView<
        RecognitionResultFetchView,
        TranslationRecognitionResultView,
    > {
        StepView::Ask(self, self.request())
    }

    /// The result that is complete once the engine has named the property bag.
    pub open spec fn built(self, bag: usize) -> TranslationRecognitionResultView {
        TranslationRecognitionResultView {
            handle: SmartHandleView {
                name: "TranslationRecognitionResult"@,
                handle: self.handle,
                kind: Resource::Result,
            },
            result_id: self.result_id,
            reason: self.reason,
            text: self.text,
            duration: decimal(self.duration as nat),
            offset: decimal(self.offset as nat),
            translations: self.translations,
            properties: bag_handle(bag),
        }
    }

    /// The step that follows the engine's reply. A status other than "no error", or
    /// a buffer that does not hold valid text, ends the reconstruction with a
    /// failure that names the sub-fetch. Otherwise the reply's output is kept and
    /// the next sub-fetch is asked for: identifier, reason, text, duration, offset
    /// and count; then one size probe for each translation, which keeps the largest
    /// sizes; then one fetch for each translation into buffers of those sizes,
    /// which stores the text under its language; then the property bag, with which
    /// the result is complete. A result without translations is neither probed nor
    /// fetched from.
    pub open spec fn next(self, reply: ReplyView) -> StepView<
        RecognitionResultFetchView,
        TranslationRecognitionResultView,
    > {
        if reply.status != NO_ERROR {
            StepView::Done(Err(ErrorView::Api { code: reply.status, context: self.context() }))
        } else {
            match self.phase {
                ResultPhase::Id => match decoded(reply.buffer, self.context()) {
                    Ok(result_id) => (RecognitionResultFetchView {
                        phase: ResultPhase::Reason,
                        result_id,
                        ..self
                    }).ask(),
                    Err(e) => StepView::Done(Err(e)),
                },
                ResultPhase::Reason => (RecognitionResultFetchView {
                    phase: ResultPhase::Text,
                    reason: ResultReason::of_code(reply.number),
                    ..self
                }).ask(),
                ResultPhase::Text => match decoded(reply.buffer, self.context()) {
                    Ok(text) => (RecognitionResultFetchView {
                        phase: ResultPhase::Duration,
                        text,
                        ..self
                    }).ask(),
                    Err(e) => StepView::Done(Err(e)),
                },
                ResultPhase::Duration => (RecognitionResultFetchView {
                    phase: ResultPhase::Offset,
                    duration: reply.number,
                    ..self
                }).ask(),
                ResultPhase::Offset => (RecognitionResultFetchView {
                    phase: ResultPhase::Count,
                    offset: reply.number,
                    ..self
                }).ask(),
                ResultPhase::Count => (RecognitionResultFetchView {
                    phase: if reply.word == 0 {
                        ResultPhase::Bag
                    } else {
                        ResultPhase::Sizes
                    },
                    count: reply.word,
                    index: 0,
                    ..self
                }).ask(),
                ResultPhase::Sizes => {
                    let probed = RecognitionResultFetchView {
                        language_size: larger(self.language_size, reply.word),
                        text_size: larger(self.text_size, reply.second_word),
                        ..self
                    };
                    if self.index + 1 < self.count {
                        (RecognitionResultFetchView {
                            index: (self.index + 1) as usize,
                            ..probed
                        }).ask()
                    } else {
                        (RecognitionResultFetchView {
                            phase: ResultPhase::Fill,
                            index: 0,
                            ..probed
                        }).ask()
                    }
                },
                ResultPhase::Fill => match decoded(reply.buffer, self.context()) {
                    Ok(language) => match decoded(reply.second_buffer, self.context()) {
                        Ok(text) => {
                            let filled = RecognitionResultFetchView {
                                translations: self.translations.insert(language, text),
                                ..self
                            };
                            if self.index + 1 < self.count {
                                (RecognitionResultFetchView {
                                    index: (self.index + 1) as usize,
                                    ..filled
                                }).ask()
                            } else {
                                (RecognitionResultFetchView {
                                    phase: ResultPhase::Bag,
                                    ..filled
                                }).ask()
                            }
                        },
                        Err(e) => StepView::Done(Err(e)),
                    },
                    Err(e) => StepView::Done(Err(e)),
                },
                ResultPhase::Bag => StepView::Done(Ok(self.built(reply.word))),
            }
        }
    }
}

impl RecognitionResultFetchView {
    /// A bound on the number of replies that the reconstruction still takes.
    pub open spec fn rank(self) -> nat {
        let left: nat = if self.index < self.count {
            (self.count - self.index) as nat
        } else {
            0
        };
        match self.phase {
            ResultPhase::Id => 2 * (usize::MAX as nat) + 9,
            ResultPhase::Reason => 2 * (usize::MAX as nat) + 8,
            ResultPhase::Text => 2 * (usize::MAX as nat) + 7,
            ResultPhase::Duration => 2 * (usize::MAX as nat) + 6,
            ResultPhase::Offset => 2 * (usize::MAX as nat) + 5,
            ResultPhase::Count => 2 * (usize::MAX as nat) + 4,
            ResultPhase::Sizes => self.count as nat + left + 2,
            ResultPhase::Fill => left + 1,
            ResultPhase::Bag => 1,
        }
    }

    /// Every reply brings the reconstruction nearer to its end.
    pub proof fn lemma_progress(self, reply: ReplyView)
        requires
            self.wf(),
        ensures
            self.next(reply) matches StepView::Ask(state, request) ==> state.wf() && state.rank()
                < self.rank() && request == state.request(),
    {
    }
}

impl RecognitionResultFetch {
    #[verifier::type_invariant]
    spec fn awaited_translation_exists(&self) -> bool {
        self@.wf()
    }

    fn context(&self) -> (context: &'static str)
        ensures
            context@ == self@.context(),
    {
        match self.phase {
            ResultPhase::Id => "TranslationRecognitionResult::from_handle(result_get_result_id) error",
            ResultPhase::Reason => "TranslationRecognitionResult::from_handle(result_get_reason) error",
            ResultPhase::Text => "TranslationRecognitionResult::from_handle(result_get_text) error",
            ResultPhase::Duration => "TranslationRecognitionResult::from_handle(result_get_duration) error",
            ResultPhase::Offset => "TranslationRecognitionResult::from_handle(result_get_offset) error",
            ResultPhase::Count => "TranslationRecognitionResult::from_handle(translation_text_result_get_translation_count) error",
            ResultPhase::Sizes => "TranslationRecognitionResult::from_handle(translation_text_result_get_translation - size) error",
            ResultPhase::Fill => "TranslationRecognitionResult::from_handle(translation_text_result_get_translation) error",
            ResultPhase::Bag => "TranslationRecognitionResult::from_handle(result_get_property_bag) error",
        }
    }

    fn request(&self) -> (request: Request)
        ensures
            request@ == self@.request(),
    {
        match self.phase {
            ResultPhase::Id => Request::ResultId { result: self.handle, capacity: TEXT_CAPACITY },
            ResultPhase::Reason => Request::Reason { result: self.handle },
            ResultPhase::Text => Request::Text { result: self.handle, capacity: TEXT_CAPACITY },
            ResultPhase::Duration => Request::Duration { result: self.handle },
            ResultPhase::Offset => Request::Offset { result: self.handle },
            ResultPhase::Count => Request::TranslationCount { result: self.handle },
            ResultPhase::Sizes => Request::TranslationSizes {
                result: self.handle,
                index: self.index,
            },
            ResultPhase::Fill => Request::Translation {
                result: self.handle,
                index: self.index,
                language_capacity: self.language_size,
                text_capacity: self.text_size,
            },
            ResultPhase::Bag => Request::PropertyBag { result: self.handle },
        }
    }

    fn ask(self) -> (step: Step<RecognitionResultFetch, TranslationRecognitionResult>)
        ensures
            step@ == self@.ask(),
    {
        let request = self.request();
        Step::Ask(self, request)
    }

    /// Whether the state satisfies what every state handed out by this module
    /// satisfies.
    pub open spec fn wf(&self) -> bool {
        self@.wf()
    }

    /// Takes the engine's reply to the request that came with this state.
    pub fn resume(self, reply: Reply) -> (step: Step<
        RecognitionResultFetch,
        TranslationRecognitionResult,
    >)
        ensures
            step@ == self@.next(reply@),
            step matches Step::Ask(state, _) ==> state.wf(),
    {
        proof {
            use_type_invariant(&self);
        }
        if reply.status != NO_ERROR {
            return Step::Done(
                Err(Error::Api { code: reply.status, context: self.context().to_owned() }),
            );
        }
        match self.phase {
            ResultPhase::Id => match decode_text(reply.buffer.as_slice(), self.context()) {
                Ok(result_id) => (RecognitionResultFetch {
                    phase: ResultPhase::Reason,
                    result_id,
                    ..self
                }).ask(),
                Err(e) => Step::Done(Err(e)),
            },
            ResultPhase::Reason => (RecognitionResultFetch {
                phase: ResultPhase::Text,
                reason: ResultReason::from_code(reply.number),
                ..self
            }).ask(),
            ResultPhase::Text => match decode_text(reply.buffer.as_slice(), self.context()) {
                Ok(text) => (RecognitionResultFetch {
                    phase: ResultPhase::Duration,
                    text,
                    ..self
                }).ask(),
                Err(e) => Step::Done(Err(e)),
            },
            ResultPhase::Duration => (RecognitionResultFetch {
                phase: ResultPhase::Offset,
                duration: reply.number,
                ..self
            }).ask(),
            ResultPhase::Offset => (RecognitionResultFetch {
                phase: ResultPhase::Count,
                offset: reply.number,
                ..self
            }).ask(),
            ResultPhase::Count => (RecognitionResultFetch {
                phase: if reply.word == 0 {
                    ResultPhase::Bag
                } else {
                    ResultPhase::Sizes
                },
                count: reply.word,
                index: 0,
                ..self
            }).ask(),
            ResultPhase::Sizes => {
                let language_size = if self.language_size >= reply.word {
                    self.language_size
                } else {
                    reply.word
                };
                let text_size = if self.text_size >= reply.second_word {
                    self.text_size
                } else {
                    reply.second_word
                };
                if self.index + 1 < self.count {
                    (RecognitionResultFetch {
                        index: self.index + 1,
                        language_size,
                        text_size,
                        ..self
                    }).ask()
                } else {
                    (RecognitionResultFetch {
                        phase: ResultPhase::Fill,
                        index: 0,
                        language_size,
                        text_size,
                        ..self
                    }).ask()
                }
            },
            ResultPhase::Fill => {
                let context = self.context();
                match decode_text(reply.buffer.as_slice(), context) {
                    Ok(language) => match decode_text(reply.second_buffer.as_slice(), context) {
                        Ok(text) => {
                            let mut translations = self.translations;
                            translations.insert(language, text);
                            if self.index + 1 < self.count {
                                (RecognitionResultFetch {
                                    handle: self.handle,
                                    phase: ResultPhase::Fill,
                                    result_id: self.result_id,
                                    reason: self.reason,
                                    text: self.text,
                                    duration: self.duration,
                                    offset: self.offset,
                                    count: self.count,
                                    index: self.index + 1,
                                    language_size: self.language_size,
                                    text_size: self.text_size,
                                    translations,
                                }).ask()
                            } else {
                                (RecognitionResultFetch {
                                    handle: self.handle,
                                    phase: ResultPhase::Bag,
                                    result_id: self.result_id,
                                    reason: self.reason,
                                    text: self.text,
                                    duration: self.duration,
                                    offset: self.offset,
                                    count: self.count,
                                    index: self.index,
                                    language_size: self.language_size,
                                    text_size: self.text_size,
                                    translations,
                                }).ask()
                            }
                        },
                        Err(e) => Step::Done(Err(e)),
                    },
                    Err(e) => Step::Done(Err(e)),
                }
            },
            ResultPhase::Bag => Step::Done(
                Ok(
                    TranslationRecognitionResult {
                        handle: SmartHandle::create(
                            "TranslationRecognitionResult",
                            self.handle,
                            Resource::Result,
                        ),
                        result_id: self.result_id,
                        reason: self.reason,
                        text: self.text,
                        duration: decimal_string(self.duration),
                        offset: decimal_string(self.offset),
                        translations: self.translations,
                        properties: PropertyCollection::from_handle(reply.word),
                    },
                ),
            ),
        }
    }
}

impl TranslationRecognitionResult {
    /// Starts the reconstruction of the result behind `handle`: the first call to
    /// make, and the state that takes its reply. Nothing is owned until the last
    /// sub-fetch has succeeded.
    pub fn from_handle(handle: usize) -> (step: Step<
        RecognitionResultFetch,
        TranslationRecognitionResult,
    >)
        ensures
            step@ == RecognitionResultFetchView::start(handle).ask(),
            step matches Step::Ask(state, _) && state.wf(),
    {
        (RecognitionResultFetch {
            handle,
            phase: ResultPhase::Id,
            result_id: String::new(),
            reason: ResultReason::NoMatch,
            text: String::new(),
            duration: 0,
            offset: 0,
            count: 0,
            index: 0,
            language_size: 0,
            text_size: 0,
            translations: Translations::new(),
        }).ask()
    }

    /// Writes the result as it is printed: every field but the handles, the texts
    /// quoted, the translations as a map.
    pub fn debug_string(&self) -> (printed: String)
        ensures
            printed@ == recognition_text(
                escaped(self.result_id@),
                self.reason.spec_name(),
                escaped(self.text@),
                escaped(self.duration@),
                escaped(self.offset@),
                map_text(self.translations.pairs()),
            ),
    {
        recognition_layout(
            format_quoted(self.result_id.as_str()).as_str(),
            self.reason.name().as_str(),
            format_quoted(self.text.as_str()).as_str(),
            format_quoted(self.duration.as_str()).as_str(),
            format_quoted(self.offset.as_str()).as_str(),
            self.translations.debug_string().as_str(),
        )
    }

    /// Ends the ownership of the result: the releases to make, in order. The
    /// statuses that the engine answers them with are of no consequence.
    pub fn release(self) -> (requests: Vec<Request>)
        ensures
            views(requests@) == self@.releases(),
    {
        let mut requests = Vec::new();
        requests.push(self.handle.release());
        requests.push(self.properties.handle.release());
        assert(views(requests@) =~= self@.releases());
        requests
    }
}

} // verus!

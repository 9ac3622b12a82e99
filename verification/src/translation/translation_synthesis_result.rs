//! The result of a translation synthesis, and its reconstruction from a result
//! handle.

use crate::abi::{views, Reply, ReplyView, Request, RequestView, Resource};
use crate::common::ResultReason;
use crate::error::{Error, ErrorView, NO_ERROR};
use crate::handle::{SmartHandle, SmartHandleView};
use crate::property::{bag_handle, PropertyCollection};
use crate::step::{Step, StepView};
use crate::text::{byte_list, decode_text, decoded, escaped, format_quoted, listed};
use vstd::prelude::*;
use vstd::slice::slice_subrange;

verus! {

/// How many bytes of the buffer for the identifier the engine may use.
pub const ID_CAPACITY: u32 = 1023;

/// How many bytes of audio a printed result shows at most.
pub const PREVIEW_LENGTH: usize = 10;

/// Represents translation synthesis result contained in TranslationSynthesisEvent callback event.
#[derive(PartialEq, Eq)]
pub struct TranslationSynthesisResult {
    pub handle: SmartHandle,
    pub result_id: String,
    pub reason: ResultReason,
    pub audio: Vec<u8>,
    pub properties: PropertyCollection,
}

/// The mathematical content of a [`TranslationSynthesisResult`].
pub struct TranslationSynthesisResultView {
    pub handle: SmartHandleView,
    pub result_id: Seq<char>,
    pub reason: ResultReason,
    pub audio: Seq<u8>,
    pub properties: SmartHandleView,
}

impl View for TranslationSynthesisResult {
    type V = TranslationSynthesisResultView;

    open spec fn view(&self) -> TranslationSynthesisResultView {
        TranslationSynthesisResultView {
            handle: self.handle@,
            result_id: self.result_id@,
            reason: self.reason,
            audio: self.audio@,
            properties: self.properties.handle@,
        }
    }
}

impl TranslationSynthesisResultView {
    /// The releases that the owner of such a result owes, in the order in which
    /// they are made: the result first, then its property bag.
    pub open spec fn releases(self) -> Seq<RequestView> {
        seq![self.handle.release(), self.properties.release()]
    }
}

/// The audio that a printed result shows: the first [`PREVIEW_LENGTH`] bytes, or
/// all of it where it is shorter.
pub open spec fn preview(audio: Seq<u8>) -> Seq<u8> {
    if audio.len() > PREVIEW_LENGTH {
        audio.take(PREVIEW_LENGTH as int)
    } else {
        audio
    }
}

/// A printed synthesis result, given its identifier, its reason and its audio as
/// they are printed. The handles are left out.
pub open spec fn synthesis_text(result_id: Seq<char>, reason: Seq<char>, audio: Seq<char>) -> Seq<
    char,
> {
    "TranslationSynthesisResult { result_id: "@ + result_id + ", reason: "@ + reason
        + ", audio: "@ + audio + " }"@
}

/// Sets the printed parts of a synthesis result into its printed form.
pub fn synthesis_layout(result_id: &str, reason: &str, audio: &str) -> (text: String)
    ensures
        text@ == synthesis_text(result_id@, reason@, audio@),
{
    "TranslationSynthesisResult { result_id: ".to_owned().concat(result_id).concat(
        ", reason: ",
    ).concat(reason).concat(", audio: ").concat(audio).concat(" }")
}

/// The sub-fetch that a reconstruction waits for.
#[derive(Debug, Clone, Copy, PartialEq, Eq, Structural)]
pub enum SynthesisPhase {
    Id,
    Reason,
    AudioLength,
    Audio,
    Bag,
}

/// A reconstruction of a [`TranslationSynthesisResult`] that waits for the
/// engine's reply to its last request.
#[derive(Debug)]
pub struct SynthesisResultFetch {
    handle: usize,
    phase: SynthesisPhase,
    result_id: String,
    reason: ResultReason,
    length: usize,
    audio: Vec<u8>,
}

/// The mathematical content of a [`SynthesisResultFetch`]: the result handle, the
/// sub-fetch that is awaited, and what the earlier sub-fetches gave.
pub struct SynthesisResultFetchView {
    pub handle: usize,
    pub phase: SynthesisPhase,
    pub result_id: Seq<char>,
    pub reason: ResultReason,
    /// The length of the audio, once probed.
    pub length: usize,
    pub audio: Seq<u8>,
}

impl View for SynthesisResultFetch {
    type V = SynthesisResultFetchView;

    closed spec fn view(&self) -> SynthesisResultFetchView {
        SynthesisResultFetchView {
            handle: self.handle,
            phase: self.phase,
            result_id: self.result_id@,
            reason: self.reason,
            length: self.length,
            audio: self.audio@,
        }
    }
}

impl SynthesisResultFetchView {
    /// The state in which the reconstruction of the result behind `handle` starts.
    pub open spec fn start(handle: usize) -> SynthesisResultFetchView {
        SynthesisResultFetchView {
            handle,
            phase: SynthesisPhase::Id,
            result_id: Seq::empty(),
            reason: ResultReason::NoMatch,
            length: 0,
            audio: Seq::empty(),
        }
    }

    /// The call whose reply the state waits for.
    pub open spec fn request(self) -> RequestView {
        match self.phase {
            SynthesisPhase::Id => RequestView::ResultId {
                result: self.handle,
                capacity: ID_CAPACITY,
            },
            SynthesisPhase::Reason => RequestView::Reason { result: self.handle },
            SynthesisPhase::AudioLength => RequestView::AudioLength { result: self.handle },
            SynthesisPhase::Audio => RequestView::Audio {
                result: self.handle,
                length: self.length,
            },
            SynthesisPhase::Bag => RequestView::PropertyBag { result: self.handle },
        }
    }

    /// The context that a failure of the awaited sub-fetch carries.
    pub open spec fn context(self) -> Seq<char> {
        match self.phase {
            SynthesisPhase::Id => "TranslationSynthesisResult::from_handle(result_get_result_id) error"@,
            SynthesisPhase::Reason => "TranslationSynthesisResult::from_handle(synth_result_get_reason) error"@,
            SynthesisPhase::AudioLength => "TranslationSynthesisResult::from_handle(translation_synthesis_result_get_audio_data) error"@,
            SynthesisPhase::Audio => "TranslationSynthesisResult::from_handle(translation_synthesis_result_get_audio_data) error"@,
            SynthesisPhase::Bag => "TranslationSynthesisResult::from_handle(result_get_property_bag) error"@,
        }
    }

    /// The step that asks for what the state waits for.
    pub open spec fn ask(self) -> StepView<
        SynthesisResultFetchView,
        TranslationSynthesisResultView,
    > {
        StepView::Ask(self, self.request())
    }

    /// The result that is complete once the engine has named the property bag.
    pub open spec fn built(self, bag: usize) -> TranslationSynthesisResultView {
        TranslationSynthesisResultView {
            handle: SmartHandleView {
                name: "TranslationSynthesisResult"@,
                handle: self.handle,
                kind: Resource::Result,
            },
            result_id: self.result_id,
            reason: self.reason,
            audio: self.audio,
            properties: bag_handle(bag),
        }
    }

    /// The step that follows the engine's reply. The length probe is the one call
    /// whose status is not looked at: the engine may answer it with an error status
    /// and still report the length. From every other call a status other than "no
    /// error" ends the reconstruction with a failure that names the sub-fetch, and
    /// so does an identifier that is not valid text. A probed length of zero means
    /// empty audio, and no call to fetch it is made; otherwise the audio is what the
    /// fetch leaves in a buffer of the probed length. The property bag completes
    /// the result.
    pub open spec fn next(self, reply: ReplyView) -> StepView<
        SynthesisResultFetchView,
        TranslationSynthesisResultView,
    > {
        match self.phase {
            SynthesisPhase::AudioLength => (SynthesisResultFetchView {
                phase: if reply.word == 0 {
                    SynthesisPhase::Bag
                } else {
                    SynthesisPhase::Audio
                },
                length: reply.word,
                ..self
            }).ask(),
            _ if reply.status != NO_ERROR => StepView::Done(
                Err(ErrorView::Api { code: reply.status, context: self.context() }),
            ),
            SynthesisPhase::Id => match decoded(reply.buffer, self.context()) {
                Ok(result_id) => (SynthesisResultFetchView {
                    phase: SynthesisPhase::Reason,
                    result_id,
                    ..self
                }).ask(),
                Err(e) => StepView::Done(Err(e)),
            },
            SynthesisPhase::Reason => (SynthesisResultFetchView {
                phase: SynthesisPhase::AudioLength,
                reason: ResultReason::of_code(reply.number),
                ..self
            }).ask(),
            SynthesisPhase::Audio => (SynthesisResultFetchView {
                phase: SynthesisPhase::Bag,
                audio: reply.buffer,
                ..self
            }).ask(),
            SynthesisPhase::Bag => StepView::Done(Ok(self.built(reply.word))),
        }
    }
}

impl SynthesisResultFetchView {
    /// A bound on the number of replies that the reconstruction still takes.
    pub open spec fn rank(self) -> nat {
        match self.phase {
            SynthesisPhase::Id => 5,
            SynthesisPhase::Reason => 4,
            SynthesisPhase::AudioLength => 3,
            SynthesisPhase::Audio => 2,
            SynthesisPhase::Bag => 1,
        }
    }

    /// Every reply brings the reconstruction nearer to its end.
    pub proof fn lemma_progress(self, reply: ReplyView)
        ensures
            self.next(reply) matches StepView::Ask(state, request) ==> state.rank() < self.rank()
                && request == state.request(),
    {
    }
}

impl SynthesisResultFetchView {
    /// A length probe that reports zero ends the retrieval of the audio, whatever
    /// its status: the audio stays as it is, and the next call asks for the
    /// property bag, not for audio.
    pub proof fn lemma_zero_length_is_final(self, reply: ReplyView)
        requires
            self.phase == SynthesisPhase::AudioLength,
            reply.word == 0,
        ensures
            self.next(reply) == StepView::<
                SynthesisResultFetchView,
                TranslationSynthesisResultView,
            >::Ask(
                SynthesisResultFetchView { phase: SynthesisPhase::Bag, length: 0, ..self },
                RequestView::PropertyBag { result: self.handle },
            ),
    {
    }
}

impl SynthesisResultFetch {
    fn context(&self) -> (context: &'static str)
        ensures
            context@ == self@.context(),
    {
        match self.phase {
            SynthesisPhase::Id => "TranslationSynthesisResult::from_handle(result_get_result_id) error",
            SynthesisPhase::Reason => "TranslationSynthesisResult::from_handle(synth_result_get_reason) error",
            SynthesisPhase::AudioLength => "TranslationSynthesisResult::from_handle(translation_synthesis_result_get_audio_data) error",
            SynthesisPhase::Audio => "TranslationSynthesisResult::from_handle(translation_synthesis_result_get_audio_data) error",
            SynthesisPhase::Bag => "TranslationSynthesisResult::from_handle(result_get_property_bag) error",
        }
    }

    fn request(&self) -> (request: Request)
        ensures
            request@ == self@.request(),
    {
        match self.phase {
            SynthesisPhase::Id => Request::ResultId { result: self.handle, capacity: ID_CAPACITY },
            SynthesisPhase::Reason => Request::Reason { result: self.handle },
            SynthesisPhase::AudioLength => Request::AudioLength { result: self.handle },
            SynthesisPhase::Audio => Request::Audio { result: self.handle, length: self.length },
            SynthesisPhase::Bag => Request::PropertyBag { result: self.handle },
        }
    }

    fn ask(self) -> (step: Step<SynthesisResultFetch, TranslationSynthesisResult>)
        ensures
            step@ == self@.ask(),
    {
        let request = self.request();
        Step::Ask(self, request)
    }

    /// Takes the engine's reply to the request that came with this state.
    pub fn resume(self, reply: Reply) -> (step: Step<
        SynthesisResultFetch,
        TranslationSynthesisResult,
    >)
        ensures
            step@ == self@.next(reply@),
    {
        match self.phase {
            SynthesisPhase::AudioLength => (SynthesisResultFetch {
                phase: if reply.word == 0 {
                    SynthesisPhase::Bag
                } else {
                    SynthesisPhase::Audio
                },
                length: reply.word,
                ..self
            }).ask(),
            _ if reply.status != NO_ERROR => Step::Done(
                Err(Error::Api { code: reply.status, context: self.context().to_owned() }),
            ),
            SynthesisPhase::Id => match decode_text(reply.buffer.as_slice(), self.context()) {
                Ok(result_id) => (SynthesisResultFetch {
                    phase: SynthesisPhase::Reason,
                    result_id,
                    ..self
                }).ask(),
                Err(e) => Step::Done(Err(e)),
            },
            SynthesisPhase::Reason => (SynthesisResultFetch {
                phase: SynthesisPhase::AudioLength,
                reason: ResultReason::from_code(reply.number),
                ..self
            }).ask(),
            SynthesisPhase::Audio => (SynthesisResultFetch {
                phase: SynthesisPhase::Bag,
                audio: reply.buffer,
                ..self
            }).ask(),
            SynthesisPhase::Bag => Step::Done(
                Ok(
                    TranslationSynthesisResult {
                        handle: SmartHandle::create(
                            "TranslationSynthesisResult",
                            self.handle,
                            Resource::Result,
                        ),
                        result_id: self.result_id,
                        reason: self.reason,
                        audio: self.audio,
                        properties: PropertyCollection::from_handle(reply.word),
                    },
                ),
            ),
        }
    }
}

impl TranslationSynthesisResult {
    /// Starts the reconstruction of the result behind `handle`: the first call to
    /// make, and the state that takes its reply. Nothing is owned until the last
    /// sub-fetch has succeeded.
    pub fn from_handle(handle: usize) -> (step: Step<
        SynthesisResultFetch,
        TranslationSynthesisResult,
    >)
        ensures
            step@ == SynthesisResultFetchView::start(handle).ask(),
    {
        (SynthesisResultFetch {
            handle,
            phase: SynthesisPhase::Id,
            result_id: String::new(),
            reason: ResultReason::NoMatch,
            length: 0,
            audio: Vec::new(),
        }).ask()
    }

    /// The audio that stands for the whole when the result is printed.
    pub fn audio_truncated(&self) -> (shown: &[u8])
        ensures
            shown@ == preview(self.audio@),
    {
        if self.audio.len() > PREVIEW_LENGTH {
            slice_subrange(self.audio.as_slice(), 0, PREVIEW_LENGTH)
        } else {
            self.audio.as_slice()
        }
    }

    /// Writes the result as it is printed: identifier and reason, and of the audio
    /// the bytes that [`TranslationSynthesisResult::audio_truncated`] shows, marked
    /// as truncated.
    pub fn debug_string(&self) -> (text: String)
        ensures
            text@ == synthesis_text(
                escaped(self.result_id@),
                self.reason.spec_name(),
                escaped("(Truncated): "@ + listed(preview(self.audio@))),
            ),
    {
        let shown = "(Truncated): ".to_owned().concat(byte_list(self.audio_truncated()).as_str());
        synthesis_layout(
            format_quoted(self.result_id.as_str()).as_str(),
            self.reason.name().as_str(),
            format_quoted(shown.as_str()).as_str(),
        )
    }

    /// Ends the ownership of the result: the releases to make, in order. The
    /// statuses that the engine answers them with are of no consequence.
    pub fn release(self) -> (requests: Vec<Request>)
        ensures
            views(requests@) == self@.releases(),
    {
        let mut requests = Vec::new();
        requests.push(self.handle.release());
        requests.push(self.properties.handle.release());
        assert(views(requests@) =~= self@.releases());
        requests
    }
}

} // verus!

//! The engine's call surface as data: each call this layer needs is a [`Request`],
//! and what the call leaves behind is a [`Reply`].

use vstd::prelude::*;

verus! {

/// The kinds of native resource that this layer owns and releases.
#[derive(Debug, Clone, Copy, PartialEq, Eq, Structural)]
pub enum Resource {
    Event,
    Result,
    PropertyBag,
}

/// One call on the engine.
#[derive(Debug, Clone, PartialEq, Eq)]
pub enum Request {
    /// Which result the event carries.
    EventResult { event: usize },
    /// The result's identifier, into a buffer of which `capacity` bytes may be used.
    ResultId { result: usize, capacity: u32 },
    /// The code of the result's reason.
    Reason { result: usize },
    /// The recognized text, into a buffer of which `capacity` bytes may be used.
    Text { result: usize, capacity: u32 },
    /// The result's duration.
    Duration { result: usize },
    /// The result's offset.
    Offset { result: usize },
    /// How many translations the result holds.
    TranslationCount { result: usize },
    /// The buffer sizes that the translation at `index` needs; no buffer is handed over.
    TranslationSizes { result: usize, index: usize },
    /// The language and text of the translation at `index`, into buffers of the
    /// given capacities.
    Translation { result: usize, index: usize, language_capacity: usize, text_capacity: usize },
    /// The length of the synthesized audio; no buffer is handed over.
    AudioLength { result: usize },
    /// The synthesized audio, into a buffer of `length` bytes.
    Audio { result: usize, length: usize },
    /// The property bag attached to the result.
    PropertyBag { result: usize },
    /// The code of the reason for which recognition was canceled.
    CanceledReason { result: usize },
    /// The code of the error behind a cancellation.
    CanceledErrorCode { result: usize },
    /// The value stored under a property, or `default` where the bag has none.
    GetProperty { bag: usize, id: i32, default: String },
    /// Stores `value` under a property.
    SetProperty { bag: usize, id: i32, value: String },
    /// Stores `value` under a property given by name.
    SetPropertyByName { bag: usize, name: String, value: String },
    /// Releases a resource. The engine does not promise that a second release of
    /// the same resource is harmless.
    Release { kind: Resource, handle: usize },
}

/// The mathematical content of a [`Request`].
pub enum RequestView {
    EventResult { event: usize },
    ResultId { result: usize, capacity: u32 },
    Reason { result: usize },
    Text { result: usize, capacity: u32 },
    Duration { result: usize },
    Offset { result: usize },
    TranslationCount { result: usize },
    TranslationSizes { result: usize, index: usize },
    Translation { result: usize, index: usize, language_capacity: usize, text_capacity: usize },
    AudioLength { result: usize },
    Audio { result: usize, length: usize },
    PropertyBag { result: usize },
    CanceledReason { result: usize },
    CanceledErrorCode { result: usize },
    GetProperty { bag: usize, id: i32, default: Seq<char> },
    SetProperty { bag: usize, id: i32, value: Seq<char> },
    SetPropertyByName { bag: usize, name: Seq<char>, value: Seq<char> },
    Release { kind: Resource, handle: usize },
}

impl View for Request {
    type V = RequestView;

    open spec fn view(&self) -> RequestView {
        match *self {
            Request::EventResult { event } => RequestView::EventResult { event },
            Request::ResultId { result, capacity } => RequestView::ResultId { result, capacity },
            Request::Reason { result } => RequestView::Reason { result },
            Request::Text { result, capacity } => RequestView::Text { result, capacity },
            Request::Duration { result } => RequestView::Duration { result },
            Request::Offset { result } => RequestView::Offset { result },
            Request::TranslationCount { result } => RequestView::TranslationCount { result },
            Request::TranslationSizes { result, index } => RequestView::TranslationSizes {
                result,
                index,
            },
            Request::Translation {
                result,
                index,
                language_capacity,
                text_capacity,
            } => RequestView::Translation { result, index, language_capacity, text_capacity },
            Request::AudioLength { result } => RequestView::AudioLength { result },
            Request::Audio { result, length } => RequestView::Audio { result, length },
            Request::PropertyBag { result } => RequestView::PropertyBag { result },
            Request::CanceledReason { result } => RequestView::CanceledReason { result },
            Request::CanceledErrorCode { result } => RequestView::CanceledErrorCode { result },
            Request::GetProperty { bag, id, default } => RequestView::GetProperty {
                bag,
                id,
                default: default@,
            },
            Request::SetProperty { bag, id, value } => RequestView::SetProperty {
                bag,
                id,
                value: value@,
            },
            Request::SetPropertyByName { bag, name, value } => RequestView::SetPropertyByName {
                bag,
                name: name@,
                value: value@,
            },
            Request::Release { kind, handle } => RequestView::Release { kind, handle },
        }
    }
}

/// The mathematical content of a list of requests.
pub open spec fn views(requests: Seq<Request>) -> Seq<RequestView> {
    requests.map_values(|request: Request| request@)
}

/// What one call leaves behind: its status and the contents of its output
/// parameters. A call writes only the outputs it has; the others are zero or empty,
/// as they were before the call.
#[derive(Debug, Clone, PartialEq, Eq)]
pub struct Reply {
    /// The status that the call returned.
    pub status: usize,
    /// A 64-bit output: a reason code, a duration, an offset.
    pub number: u64,
    /// A pointer-sized output: a handle, a count, a length, the first size of a probe.
    pub word: usize,
    /// The second size of a probe.
    pub second_word: usize,
    /// The first output buffer as the call left it.
    pub buffer: Vec<u8>,
    /// The second output buffer as the call left it.
    pub second_buffer: Vec<u8>,
}

/// The mathematical content of a [`Reply`].
pub struct ReplyView {
    pub status: usize,
    pub number: u64,
    pub word: usize,
    pub second_word: usize,
    pub buffer: Seq<u8>,
    pub second_buffer: Seq<u8>,
}

impl View for Reply {
    type V = ReplyView;

    open spec fn view(&self) -> ReplyView {
        ReplyView {
            status: self.status,
            number: self.number,
            word: self.word,
            second_word: self.second_word,
            buffer: self.buffer@,
            second_buffer: self.second_buffer@,
        }
    }
}

impl ReplyView {
    /// The reply of a call that wrote no output.
    pub open spec fn bare(status: usize) -> ReplyView {
        ReplyView {
            status,
            number: 0,
            word: 0,
            second_word: 0,
            buffer: Seq::empty(),
            second_buffer: Seq::empty(),
        }
    }
}

impl Reply {
    /// The reply of a call that wrote no output.
    pub fn status(status: usize) -> (r: Reply)
        ensures
            r@ == ReplyView::bare(status),
    {
        Reply {
            status,
            number: 0,
            word: 0,
            second_word: 0,
            buffer: Vec::new(),
            second_buffer: Vec::new(),
        }
    }

    /// The reply of a call that wrote a 64-bit number.
    pub fn number(status: usize, number: u64) -> (r: Reply)
        ensures
            r@ == (ReplyView { number, ..ReplyView::bare(status) }),
    {
        Reply {
            status,
            number,
            word: 0,
            second_word: 0,
            buffer: Vec::new(),
            second_buffer: Vec::new(),
        }
    }

    /// The reply of a call that wrote a handle, a count or a length.
    pub fn word(status: usize, word: usize) -> (r: Reply)
        ensures
            r@ == (ReplyView { word, ..ReplyView::bare(status) }),
    {
        Reply {
            status,
            number: 0,
            word,
            second_word: 0,
            buffer: Vec::new(),
            second_buffer: Vec::new(),
        }
    }

    /// The reply of a probe that wrote two sizes.
    pub fn sizes(status: usize, first: usize, second: usize) -> (r: Reply)
        ensures
            r@ == (ReplyView { word: first, second_word: second, ..ReplyView::bare(status) }),
    {
        Reply {
            status,
            number: 0,
            word: first,
            second_word: second,
            buffer: Vec::new(),
            second_buffer: Vec::new(),
        }
    }

    /// The reply of a call that filled one buffer.
    pub fn buffer(status: usize, buffer: Vec<u8>) -> (r: Reply)
        ensures
            r@ == (ReplyView { buffer: buffer@, ..ReplyView::bare(status) }),
    {
        Reply { status, number: 0, word: 0, second_word: 0, buffer, second_buffer: Vec::new() }
    }

    /// The reply of a call that filled two buffers.
    pub fn buffers(status: usize, first: Vec<u8>, second: Vec<u8>) -> (r: Reply)
        ensures
            r@ == (ReplyView {
                buffer: first@,
                second_buffer: second@,
                ..ReplyView::bare(status)
            }),
    {
        Reply { status, number: 0, word: 0, second_word: 0, buffer: first, second_buffer: second }
    }
}

} // verus!

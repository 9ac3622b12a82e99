//! A stand-in for the engine: one event that carries one result with one property
//! bag, all seeded by the caller, answering every call as the engine's interface
//! says and keeping a log of the calls. Any call can be scripted to be answered
//! otherwise, so that every way in which an engine can answer can be played.

use crate::abi::{views, Reply, ReplyView, Request, RequestView, Resource};
use crate::error::NO_ERROR;
use vstd::prelude::*;
use vstd::slice::{slice_subrange, slice_to_vec};
use vstd::utf8::encode_utf8;

verus! {

/// The status with which the stand-in answers a call on a handle, an index or a
/// property that it does not hold.
pub const INVALID_ARGUMENT: usize = 5;

/// The engine's stand-in. Its user seeds the fields, hands the fixture's handles
/// to a reconstruction, and reads the log afterwards.
#[derive(Debug)]
pub struct Fixture {
    /// The handle of the event.
    pub event: usize,
    /// The handle of the result that the event carries.
    pub result: usize,
    /// The handle of the result's property bag.
    pub bag: usize,
    /// The bytes of the result's identifier, without terminator.
    pub result_id: Vec<u8>,
    /// The code of the result's reason.
    pub reason: u64,
    /// The bytes of the recognized text, without terminator.
    pub text: Vec<u8>,
    pub duration: u64,
    pub offset: u64,
    /// The translations, each as the bytes of its language and of its text.
    pub translations: Vec<(Vec<u8>, Vec<u8>)>,
    /// The synthesized audio.
    pub audio: Vec<u8>,
    /// The code of the cancellation reason.
    pub canceled_reason: u64,
    /// The code of the cancellation error.
    pub canceled_error_code: u64,
    /// The properties that the bag holds, each as its identifier and the bytes of
    /// its value.
    pub properties: Vec<(i32, Vec<u8>)>,
    /// The calls that are answered otherwise than the seeded data say: each with
    /// its position in the log and the reply that it gets. Of two entries for one
    /// position the earlier one counts.
    pub script: Vec<(usize, Reply)>,
    /// Every call made so far, in order.
    pub log: Vec<Request>,
}

/// The mathematical content of a [`Fixture`].
pub struct FixtureView {
    pub event: usize,
    pub result: usize,
    pub bag: usize,
    pub result_id: Seq<u8>,
    pub reason: u64,
    pub text: Seq<u8>,
    pub duration: u64,
    pub offset: u64,
    pub translations: Seq<(Seq<u8>, Seq<u8>)>,
    pub audio: Seq<u8>,
    pub canceled_reason: u64,
    pub canceled_error_code: u64,
    pub properties: Seq<(i32, Seq<u8>)>,
    pub script: Seq<(usize, ReplyView)>,
    pub log: Seq<RequestView>,
}

impl View for Fixture {
    type V = FixtureView;

    open spec fn view(&self) -> FixtureView {
        FixtureView {
            event: self.event,
            result: self.result,
            bag: self.bag,
            result_id: self.result_id@,
            reason: self.reason,
            text: self.text@,
            duration: self.duration,
            offset: self.offset,
            translations: Seq::new(
                self.translations@.len(),
                |i: int| (self.translations@[i].0@, self.translations@[i].1@),
            ),
            audio: self.audio@,
            canceled_reason: self.canceled_reason,
            canceled_error_code: self.canceled_error_code,
            properties: Seq::new(
                self.properties@.len(),
                |i: int| (self.properties@[i].0, self.properties@[i].1@),
            ),
            script: Seq::new(
                self.script@.len(),
                |i: int| (self.script@[i].0, self.script@[i].1@),
            ),
            log: views(self.log@),
        }
    }
}

/// What a call leaves in a buffer of which `capacity` bytes may be used, when it
/// writes `text` there as the interface says: no more than `capacity - 1` bytes of
/// the text, then the terminator.
pub open spec fn written(text: Seq<u8>, capacity: int) -> Seq<u8> {
    if capacity <= 0 {
        Seq::empty()
    } else if text.len() < capacity {
        text.push(0)
    } else {
        text.take(capacity - 1).push(0)
    }
}

/// The buffer size that a probe reports for a text: room for the text and its
/// terminator.
pub open spec fn size_for(text: Seq<u8>) -> usize {
    if text.len() < usize::MAX {
        (text.len() + 1) as usize
    } else {
        usize::MAX
    }
}

/// The value stored under a property: that of the first entry with the identifier,
/// counted from `from`.
pub open spec fn stored_from(properties: Seq<(i32, Seq<u8>)>, id: i32, from: int) -> Option<
    Seq<u8>,
>
    decreases properties.len() - from,
{
    if from < 0 || from >= properties.len() {
        None
    } else if properties[from].0 == id {
        Some(properties[from].1)
    } else {
        stored_from(properties, id, from + 1)
    }
}

/// The reply that a script holds for the call at a position: that of the first
/// entry for the position, counted from `from`.
pub open spec fn scripted_from(script: Seq<(usize, ReplyView)>, at: nat, from: int) -> Option<
    ReplyView,
>
    decreases script.len() - from,
{
    if from < 0 || from >= script.len() {
        None
    } else if script[from].0 == at {
        Some(script[from].1)
    } else {
        scripted_from(script, at, from + 1)
    }
}

impl FixtureView {
    /// The value that the bag holds under a property, if any.
    pub open spec fn stored(self, id: i32) -> Option<Seq<u8>> {
        stored_from(self.properties, id, 0)
    }

    /// The reply to a call that is not scripted.
    pub open spec fn served(self, request: RequestView) -> ReplyView {
        let refused = ReplyView::bare(INVALID_ARGUMENT);
        let done = ReplyView::bare(NO_ERROR);
        match request {
            RequestView::EventResult { event } => if event == self.event {
                ReplyView { word: self.result, ..done }
            } else {
                refused
            },
            RequestView::ResultId { result, capacity } => if result == self.result {
                ReplyView { buffer: written(self.result_id, capacity as int), ..done }
            } else {
                refused
            },
            RequestView::Reason { result } => if result == self.result {
                ReplyView { number: self.reason, ..done }
            } else {
                refused
            },
            RequestView::Text { result, capacity } => if result == self.result {
                ReplyView { buffer: written(self.text, capacity as int), ..done }
            } else {
                refused
            },
            RequestView::Duration { result } => if result == self.result {
                ReplyView { number: self.duration, ..done }
            } else {
                refused
            },
            RequestView::Offset { result } => if result == self.result {
                ReplyView { number: self.offset, ..done }
            } else {
                refused
            },
            RequestView::TranslationCount { result } => if result == self.result
                && self.translations.len() <= usize::MAX {
                ReplyView { word: self.translations.len() as usize, ..done }
            } else {
                refused
            },
            RequestView::TranslationSizes { result, index } => if result == self.result && index
                < self.translations.len() {
                ReplyView {
                    word: size_for(self.translations[index as int].0),
                    second_word: size_for(self.translations[index as int].1),
                    ..done
                }
            } else {
                refused
            },
            RequestView::Translation {
                result,
                index,
                language_capacity,
                text_capacity,
            } => if result == self.result && index < self.translations.len() {
                ReplyView {
                    buffer: written(self.translations[index as int].0, language_capacity as int),
                    second_buffer: written(self.translations[index as int].1, text_capacity as int),
                    ..done
                }
            } else {
                refused
            },
            RequestView::AudioLength { result } => if result == self.result && self.audio.len()
                <= usize::MAX {
                ReplyView { word: self.audio.len() as usize, ..done }
            } else {
                refused
            },
            RequestView::Audio { result, length } => if result == self.result {
                ReplyView {
                    buffer: if length < self.audio.len() {
                        self.audio.take(length as int)
                    } else {
                        self.audio
                    },
                    ..done
                }
            } else {
                refused
            },
            RequestView::PropertyBag { result } => if result == self.result {
                ReplyView { word: self.bag, ..done }
            } else {
                refused
            },
            RequestView::CanceledReason { result } => if result == self.result {
                ReplyView { number: self.canceled_reason, ..done }
            } else {
                refused
            },
            RequestView::CanceledErrorCode { result } => if result == self.result {
                ReplyView { number: self.canceled_error_code, ..done }
            } else {
                refused
            },
            RequestView::GetProperty { bag, id, default } => if bag == self.bag {
                ReplyView {
                    buffer: match self.stored(id) {
                        Some(value) => value.push(0),
                        None => encode_utf8(default).push(0),
                    },
                    ..done
                }
            } else {
                refused
            },
            RequestView::SetProperty { bag, .. } => if bag == self.bag {
                done
            } else {
                refused
            },
            RequestView::SetPropertyByName { bag, .. } => if bag == self.bag {
                done
            } else {
                refused
            },
            RequestView::Release { .. } => done,
        }
    }

    /// The reply that the script holds for the next call, if any.
    pub open spec fn scripted(self) -> Option<ReplyView> {
        scripted_from(self.script, self.log.len(), 0)
    }

    /// The reply to the next call: the scripted one where the call is scripted;
    /// otherwise what the seeded data say. A call on a handle or an index that the
    /// fixture does not hold is refused. Texts are written with their terminator,
    /// within the capacity given; a probe reports the size that a text needs with
    /// its terminator; a property that the bag does not hold is answered with the
    /// caller's default; stores and releases are accepted.
    pub open spec fn answer(self, request: RequestView) -> ReplyView {
        match self.scripted() {
            Some(reply) => reply,
            None => self.served(request),
        }
    }

    /// The fixture after a call: the call is in the log, and nothing else changes.
    /// A store is logged, not applied.
    pub open spec fn after(self, request: RequestView) -> FixtureView {
        FixtureView { log: self.log.push(request), ..self }
    }

    /// How often a release of the resource is in the log.
    pub open spec fn released(self, kind: Resource, handle: usize) -> nat {
        count_of(self.log, RequestView::Release { kind, handle })
    }
}

/// How often a request occurs in a list.
pub open spec fn count_of(log: Seq<RequestView>, request: RequestView) -> nat
    decreases log.len(),
{
    if log.len() == 0 {
        0
    } else {
        count_of(log.drop_last(), request) + if log.last() == request {
            1nat
        } else {
            0nat
        }
    }
}

/// A request that is appended to a list is counted once more if it is the one
/// that is counted, and the others are counted as before.
pub proof fn lemma_count_push(log: Seq<RequestView>, added: RequestView, request: RequestView)
    ensures
        count_of(log.push(added), request) == count_of(log, request) + if added == request {
            1nat
        } else {
            0nat
        },
{
    assert(log.push(added).drop_last() =~= log);
}

/// In two lists set one after the other, a request occurs as often as in both
/// together.
pub proof fn lemma_count_add(log: Seq<RequestView>, more: Seq<RequestView>, request: RequestView)
    ensures
        count_of(log + more, request) == count_of(log, request) + count_of(more, request),
    decreases more.len(),
{
    if more.len() == 0 {
        assert(log + more =~= log);
    } else {
        assert((log + more).drop_last() =~= log + more.drop_last());
        lemma_count_add(log, more.drop_last(), request);
    }
}

impl FixtureView {
    /// Whether `other` is this fixture but for its log.
    pub open spec fn same_seed(self, other: FixtureView) -> bool {
        other == (FixtureView { log: other.log, ..self })
    }
}

fn write_text(text: &Vec<u8>, capacity: usize) -> (buffer: Vec<u8>)
    ensures
        buffer@ == written(text@, capacity as int),
{
    if capacity == 0 {
        return Vec::new();
    }
    let kept = if text.len() < capacity {
        text.len()
    } else {
        capacity - 1
    };
    let mut buffer = slice_to_vec(slice_subrange(text.as_slice(), 0, kept));
    buffer.push(0);
    assert(text@.take(text@.len() as int) =~= text@);
    buffer
}

fn room_for(text: &Vec<u8>) -> (size: usize)
    ensures
        size == size_for(text@),
{
    if text.len() < usize::MAX {
        text.len() + 1
    } else {
        usize::MAX
    }
}

fn terminated(text: &[u8]) -> (buffer: Vec<u8>)
    ensures
        buffer@ == text@.push(0),
{
    let mut buffer = slice_to_vec(text);
    buffer.push(0);
    buffer
}

fn copy_of(reply: &Reply) -> (copy: Reply)
    ensures
        copy@ == reply@,
{
    Reply {
        status: reply.status,
        number: reply.number,
        word: reply.word,
        second_word: reply.second_word,
        buffer: slice_to_vec(reply.buffer.as_slice()),
        second_buffer: slice_to_vec(reply.second_buffer.as_slice()),
    }
}

impl Fixture {
    /// A fixture with the given handles and nothing else: empty texts, zero codes,
    /// no translations, no audio, no properties, no script, an empty log.
    pub fn new(event: usize, result: usize, bag: usize) -> (fixture: Fixture)
        ensures
            fixture@ == (FixtureView {
                event,
                result,
                bag,
                result_id: Seq::empty(),
                reason: 0,
                text: Seq::empty(),
                duration: 0,
                offset: 0,
                translations: Seq::empty(),
                audio: Seq::empty(),
                canceled_reason: 0,
                canceled_error_code: 0,
                properties: Seq::empty(),
                script: Seq::empty(),
                log: Seq::empty(),
            }),
    {
        let fixture = Fixture {
            event,
            result,
            bag,
            result_id: Vec::new(),
            reason: 0,
            text: Vec::new(),
            duration: 0,
            offset: 0,
            translations: Vec::new(),
            audio: Vec::new(),
            canceled_reason: 0,
            canceled_error_code: 0,
            properties: Vec::new(),
            script: Vec::new(),
            log: Vec::new(),
        };
        assert(fixture@.translations =~= Seq::empty());
        assert(fixture@.properties =~= Seq::empty());
        assert(fixture@.script =~= Seq::empty());
        assert(fixture@.log =~= Seq::empty());
        fixture
    }

    /// Scripts the call at position `at` of the log to be answered with `reply`,
    /// unless a reply is scripted for it already.
    pub fn answer_with(&mut self, at: usize, reply: Reply)
        ensures
            final(self)@ == (FixtureView {
                script: old(self)@.script.push((at, reply@)),
                ..old(self)@
            }),
    {
        self.script.push((at, reply));
        assert(self@.script =~= old(self)@.script.push((at, reply@)));
        assert(self@.translations =~= old(self)@.translations);
        assert(self@.properties =~= old(self)@.properties);
    }

    /// Scripts the call at position `at` of the log to fail: to be answered with
    /// `status` and no output.
    pub fn fail(&mut self, at: usize, status: usize)
        ensures
            final(self)@ == (FixtureView {
                script: old(self)@.script.push((at, ReplyView::bare(status))),
                ..old(self)@
            }),
    {
        self.answer_with(at, Reply::status(status));
    }

    fn scripted(&self) -> (reply: Option<Reply>)
        ensures
            match reply {
                Some(r) => self@.scripted() == Some(r@),
                None => self@.scripted() is None,
            },
    {
        let at = self.log.len();
        let mut i: usize = 0;
        while i < self.script.len()
            invariant
                i <= self.script@.len(),
                at == self@.log.len(),
                self@.script.len() == self.script@.len(),
                self@.scripted() == scripted_from(self@.script, at as nat, i as int),
            decreases self.script.len() - i,
        {
            assert(self@.script[i as int] == (self.script@[i as int].0, self.script@[i as int].1@));
            if self.script[i].0 == at {
                return Some(copy_of(&self.script[i].1));
            }
            i += 1;
        }
        None
    }

    fn stored(&self, id: i32) -> (value: Option<&Vec<u8>>)
        ensures
            match value {
                Some(v) => self@.stored(id) == Some(v@),
                None => self@.stored(id) is None,
            },
    {
        let mut i: usize = 0;
        while i < self.properties.len()
            invariant
                i <= self.properties@.len(),
                self@.properties.len() == self.properties@.len(),
                self@.stored(id) == stored_from(self@.properties, id, i as int),
            decreases self.properties.len() - i,
        {
            assert(self@.properties[i as int] == (
                self.properties@[i as int].0,
                self.properties@[i as int].1@,
            ));
            if self.properties[i].0 == id {
                return Some(&self.properties[i].1);
            }
            i += 1;
        }
        None
    }

    fn serve(&self, request: &Request) -> (reply: Reply)
        ensures
            reply@ == self@.served(request@),
    {
        match request {
            Request::EventResult { event } => if *event == self.event {
                Reply::word(NO_ERROR, self.result)
            } else {
                Reply::status(INVALID_ARGUMENT)
            },
            Request::ResultId { result, capacity } => if *result == self.result {
                Reply::buffer(NO_ERROR, write_text(&self.result_id, *capacity as usize))
            } else {
                Reply::status(INVALID_ARGUMENT)
            },
            Request::Reason { result } => if *result == self.result {
                Reply::number(NO_ERROR, self.reason)
            } else {
                Reply::status(INVALID_ARGUMENT)
            },
            Request::Text { result, capacity } => if *result == self.result {
                Reply::buffer(NO_ERROR, write_text(&self.text, *capacity as usize))
            } else {
                Reply::status(INVALID_ARGUMENT)
            },
            Request::Duration { result } => if *result == self.result {
                Reply::number(NO_ERROR, self.duration)
            } else {
                Reply::status(INVALID_ARGUMENT)
            },
            Request::Offset { result } => if *result == self.result {
                Reply::number(NO_ERROR, self.offset)
            } else {
                Reply::status(INVALID_ARGUMENT)
            },
            Request::TranslationCount { result } => if *result == self.result {
                Reply::word(NO_ERROR, self.translations.len())
            } else {
                Reply::status(INVALID_ARGUMENT)
            },
            Request::TranslationSizes { result, index } => if *result == self.result && *index
                < self.translations.len() {
                assert(self@.translations[*index as int] == (
                    self.translations@[*index as int].0@,
                    self.translations@[*index as int].1@,
                ));
                Reply::sizes(
                    NO_ERROR,
                    room_for(&self.translations[*index].0),
                    room_for(&self.translations[*index].1),
                )
            } else {
                Reply::status(INVALID_ARGUMENT)
            },
            Request::Translation {
                result,
                index,
                language_capacity,
                text_capacity,
            } => if *result == self.result && *index < self.translations.len() {
                assert(self@.translations[*index as int] == (
                    self.translations@[*index as int].0@,
                    self.translations@[*index as int].1@,
                ));
                Reply::buffers(
                    NO_ERROR,
                    write_text(&self.translations[*index].0, *language_capacity),
                    write_text(&self.translations[*index].1, *text_capacity),
                )
            } else {
                Reply::status(INVALID_ARGUMENT)
            },
            Request::AudioLength { result } => if *result == self.result {
                Reply::word(NO_ERROR, self.audio.len())
            } else {
                Reply::status(INVALID_ARGUMENT)
            },
            Request::Audio { result, length } => if *result == self.result {
                if *length < self.audio.len() {
                    Reply::buffer(
                        NO_ERROR,
                        slice_to_vec(slice_subrange(self.audio.as_slice(), 0, *length)),
                    )
                } else {
                    Reply::buffer(NO_ERROR, slice_to_vec(self.audio.as_slice()))
                }
            } else {
                Reply::status(INVALID_ARGUMENT)
            },
            Request::PropertyBag { result } => if *result == self.result {
                Reply::word(NO_ERROR, self.bag)
            } else {
                Reply::status(INVALID_ARGUMENT)
            },
            Request::CanceledReason { result } => if *result == self.result {
                Reply::number(NO_ERROR, self.canceled_reason)
            } else {
                Reply::status(INVALID_ARGUMENT)
            },
            Request::CanceledErrorCode { result } => if *result == self.result {
                Reply::number(NO_ERROR, self.canceled_error_code)
            } else {
                Reply::status(INVALID_ARGUMENT)
            },
            Request::GetProperty { bag, id, default } => if *bag == self.bag {
                match self.stored(*id) {
                    Some(value) => Reply::buffer(NO_ERROR, terminated(value.as_slice())),
                    None => Reply::buffer(NO_ERROR, terminated(default.as_str().as_bytes())),
                }
            } else {
                Reply::status(INVALID_ARGUMENT)
            },
            Request::SetProperty { bag, .. } => if *bag == self.bag {
                Reply::status(NO_ERROR)
            } else {
                Reply::status(INVALID_ARGUMENT)
            },
            Request::SetPropertyByName { bag, .. } => if *bag == self.bag {
                Reply::status(NO_ERROR)
            } else {
                Reply::status(INVALID_ARGUMENT)
            },
            Request::Release { .. } => Reply::status(NO_ERROR),
        }
    }

    /// Performs a call: answers it and logs it.
    pub fn perform(&mut self, request: Request) -> (reply: Reply)
        ensures
            reply@ == old(self)@.answer(request@),
            final(self)@ == old(self)@.after(request@),
    {
        let reply = match self.scripted() {
            Some(reply) => reply,
            None => self.serve(&request),
        };
        self.log.push(request);
        assert(views(self.log@) =~= views(old(self).log@).push(request@));
        reply
    }
}

} // verus!

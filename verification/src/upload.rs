//! The upload as a conversation. The caller reads the multipart body and
//! reports what it finds as [`Event`]s; the machine tells after each what
//! it waits for next, and in the end gives the [`Reply`].
//!
//! Parts are taken in the order they arrive. A part named `image` is
//! collected chunk by chunk and, once complete, run through the pipeline,
//! unless it is empty; every other part is passed over. When the body
//! ends, the last image that came out is the reply.

use vstd::prelude::*;
use crate::reply::{status_of, Rejection, Reply, ReplyView};
use crate::transcode::{outcome, possible, transcode, TranscodeError};

verus! {

/// Name of the form field that carries the image.
pub const IMAGE_FIELD: &'static str = "image";

/// What the caller found in the request body.
#[derive(Debug, PartialEq, Eq)]
pub enum Event {
    /// A part begins. `name` is the field name it declares, if any.
    Part { name: Option<String> },
    /// The body holds no further part.
    End,
    /// The next part could not be read.
    Unreadable,
    /// The next chunk of the current part's content.
    Chunk { data: Vec<u8> },
    /// The current part's content is complete.
    PartEnd,
    /// The current part's content could not be read.
    ChunkFailed,
}

/// What the machine waits for.
#[derive(Clone, Copy, Debug, PartialEq, Eq, Structural)]
pub enum Action {
    /// Look for the next part and report `Part`, `End` or `Unreadable`.
    NextPart,
    /// Read on in the current part and report `Chunk`, `PartEnd` or
    /// `ChunkFailed`.
    NextChunk,
}

/// Where the conversation stands while no reply is given.
#[derive(Debug, PartialEq, Eq)]
pub enum Upload {
    /// Between parts. `output` is the JPEG made of the last image part,
    /// empty while there was none.
    Scanning { output: Vec<u8> },
    /// Inside a part named `image`, of which `body` has arrived so far.
    Reading { output: Vec<u8>, body: Vec<u8> },
}

/// What an event leads to: the conversation goes on, or it is over and
/// the reply is to be sent.
#[derive(Debug, PartialEq, Eq)]
pub enum Step {
    Continue(Upload),
    Finish(Reply),
}

/// An `Event` as a mathematical value.
pub enum EventView {
    Part { name: Option<Seq<char>> },
    End,
    Unreadable,
    Chunk { data: Seq<u8> },
    PartEnd,
    ChunkFailed,
}

/// An `Upload` as a mathematical value.
pub enum UploadView {
    Scanning { output: Seq<u8> },
    Reading { output: Seq<u8>, body: Seq<u8> },
}

/// A `Step` as a mathematical value.
pub enum StepView {
    Continue(UploadView),
    Finish(ReplyView),
}

impl View for Event {
    type V = EventView;

    open spec fn view(&self) -> EventView {
        match *self {
            Event::Part { name: Some(name) } => EventView::Part { name: Some(name@) },
            Event::Part { name: None } => EventView::Part { name: None },
            Event::End => EventView::End,
            Event::Unreadable => EventView::Unreadable,
            Event::Chunk { data } => EventView::Chunk { data: data@ },
            Event::PartEnd => EventView::PartEnd,
            Event::ChunkFailed => EventView::ChunkFailed,
        }
    }
}

impl View for Upload {
    type V = UploadView;

    open spec fn view(&self) -> UploadView {
        match *self {
            Upload::Scanning { output } => UploadView::Scanning { output: output@ },
            Upload::Reading { output, body } => UploadView::Reading {
                output: output@,
                body: body@,
            },
        }
    }
}

impl View for Step {
    type V = StepView;

    open spec fn view(&self) -> StepView {
        match *self {
            Step::Continue(upload) => StepView::Continue(upload@),
            Step::Finish(reply) => StepView::Finish(reply@),
        }
    }
}

/// The state in which every conversation starts: between parts, with no
/// image seen.
pub open spec fn fresh() -> UploadView {
    UploadView::Scanning { output: Seq::empty() }
}

/// What the machine waits for in a state: a part between parts, a chunk
/// inside the image part.
pub open spec fn awaited(state: UploadView) -> Action {
    match state {
        UploadView::Scanning { .. } => Action::NextPart,
        UploadView::Reading { .. } => Action::NextChunk,
    }
}

/// Whether a part with this declared name carries the image.
pub open spec fn names_image(name: Option<Seq<char>>) -> bool {
    name == Some(IMAGE_FIELD@)
}

/// The reply when the body ends: the last image that came out, or a
/// rejection where there is none.
pub open spec fn closing_reply(output: Seq<u8>) -> ReplyView {
    if output.len() == 0 {
        ReplyView::Rejected(Rejection::MissingImage)
    } else {
        ReplyView::Image(output)
    }
}

/// What follows an image part of which the pipeline made `result`: the
/// conversation goes on with the new JPEG, or it is over with the reply
/// that goes with the pipeline's error.
pub open spec fn part_outcome(result: Result<Seq<u8>, TranscodeError>) -> StepView {
    match result {
        Ok(jpeg) => StepView::Continue(UploadView::Scanning { output: jpeg }),
        Err(TranscodeError::InvalidImage) => StepView::Finish(
            ReplyView::Rejected(Rejection::InvalidFormat),
        ),
        Err(TranscodeError::EncodeFailed) => StepView::Finish(ReplyView::Failed),
    }
}

/// Whether `event` in `state` makes the machine run the pipeline: it is
/// the end of an image part that is not empty.
pub open spec fn runs_pipeline(state: UploadView, event: EventView) -> bool {
    state matches UploadView::Reading { body, .. } && body.len() > 0 && event
        == EventView::PartEnd
}

/// One step of the conversation. `result` is what the pipeline makes of
/// the image part's content; it is looked at only where `runs_pipeline`
/// holds. An image part without content counts as no part at all. An event
/// that the machine does not wait for changes nothing.
pub open spec fn advance(
    state: UploadView,
    event: EventView,
    result: Result<Seq<u8>, TranscodeError>,
) -> StepView {
    match state {
        UploadView::Scanning { output } => match event {
            EventView::Part { name } => if names_image(name) {
                StepView::Continue(UploadView::Reading { output, body: Seq::empty() })
            } else {
                StepView::Continue(state)
            },
            EventView::End | EventView::Unreadable => StepView::Finish(closing_reply(output)),
            _ => StepView::Continue(state),
        },
        UploadView::Reading { output, body } => match event {
            EventView::Chunk { data } => StepView::Continue(
                UploadView::Reading { output, body: body + data },
            ),
            EventView::ChunkFailed => StepView::Finish(
                ReplyView::Rejected(Rejection::BrokenUpload),
            ),
            EventView::PartEnd => if body.len() == 0 {
                StepView::Continue(UploadView::Scanning { output })
            } else {
                part_outcome(result)
            },
            _ => StepView::Continue(state),
        },
    }
}

/// An event together with what the pipeline makes of the image part when
/// the event ends one.
pub struct Turn {
    pub event: EventView,
    pub result: Result<Seq<u8>, TranscodeError>,
}

/// A whole conversation: where it stands after `turns`, taken in order
/// from `state`. It is over with the first reply.
pub open spec fn run(state: UploadView, turns: Seq<Turn>) -> StepView
    decreases turns.len(),
{
    if turns.len() == 0 {
        StepView::Continue(state)
    } else {
        match advance(state, turns.first().event, turns.first().result) {
            StepView::Continue(next) => run(next, turns.drop_first()),
            StepView::Finish(reply) => StepView::Finish(reply),
        }
    }
}

/// The bytes that the chunks among `turns` carry, joined in order.
pub open spec fn gathered(turns: Seq<Turn>) -> Seq<u8>
    decreases turns.len(),
{
    if turns.len() == 0 {
        Seq::empty()
    } else {
        match turns.first().event {
            EventView::Chunk { data } => data + gathered(turns.drop_first()),
            _ => gathered(turns.drop_first()),
        }
    }
}

/// Whether every one of `turns` brings a chunk.
pub open spec fn all_chunks(turns: Seq<Turn>) -> bool {
    forall|i: int| 0 <= i < turns.len() ==> #[trigger] turns[i].event is Chunk
}

/// Whether none of `turns` begins a part named `image`.
pub open spec fn no_image_part(turns: Seq<Turn>) -> bool {
    forall|i: int|
        0 <= i < turns.len() ==> !(#[trigger] turns[i].event matches EventView::Part { name }
            && names_image(name))
}

/// The reply to an upload with one image part whose content is `bytes`
/// and of which the pipeline made `result`: no content counts as no image;
/// then the pipeline's errors decide; else the JPEG is sent.
pub open spec fn decision(bytes: Seq<u8>, result: Result<Seq<u8>, TranscodeError>) -> ReplyView {
    if bytes.len() == 0 {
        ReplyView::Rejected(Rejection::MissingImage)
    } else {
        match result {
            Ok(jpeg) => closing_reply(jpeg),
            Err(TranscodeError::InvalidImage) => ReplyView::Rejected(Rejection::InvalidFormat),
            Err(TranscodeError::EncodeFailed) => ReplyView::Failed,
        }
    }
}

/// A conversation can be cut in two: while no reply is given, the second
/// part goes on from the state the first part left.
pub proof fn lemma_run_split(state: UploadView, first: Seq<Turn>, second: Seq<Turn>)
    ensures
        run(state, first + second) == match run(state, first) {
            StepView::Continue(next) => run(next, second),
            StepView::Finish(reply) => StepView::Finish(reply),
        },
    decreases first.len(),
{
    if first.len() == 0 {
        assert(first + second =~= second);
    } else {
        let all = first + second;
        assert(all.first() == first.first());
        assert(all.drop_first() =~= first.drop_first() + second);
        match advance(state, first.first().event, first.first().result) {
            StepView::Continue(next) => lemma_run_split(next, first.drop_first(), second),
            StepView::Finish(_) => {},
        }
    }
}

/// However an image part is cut into chunks, the machine holds the chunks
/// joined, after what it held before.
pub proof fn lemma_chunks_are_joined(output: Seq<u8>, body: Seq<u8>, turns: Seq<Turn>)
    requires
        all_chunks(turns),
    ensures
        run((UploadView::Reading { output, body }), turns) == StepView::Continue(
            UploadView::Reading { output, body: body + gathered(turns) },
        ),
    decreases turns.len(),
{
    if turns.len() == 0 {
        assert(body + gathered(turns) =~= body);
    } else {
        let rest = turns.drop_first();
        assert(turns[0].event is Chunk);
        let data = turns.first().event->Chunk_data;
        assert(forall|i: int| 0 <= i < rest.len() ==> rest[i] == turns[i + 1]);
        assert((body + data) + gathered(rest) =~= body + gathered(turns));
        lemma_chunks_are_joined(output, body + data, rest);
    }
}

/// Whatever else the body holds, while no part named `image` begins the
/// machine gives no reply but at the end of the body, and keeps what it
/// held.
pub proof fn lemma_other_parts_are_passed_over(output: Seq<u8>, turns: Seq<Turn>)
    requires
        no_image_part(turns),
    ensures
        run((UploadView::Scanning { output }), turns) == StepView::Continue(
            UploadView::Scanning { output },
        ) || run((UploadView::Scanning { output }), turns) == StepView::Finish(
            closing_reply(output),
        ),
        (forall|i: int|
            0 <= i < turns.len() ==> #[trigger] turns[i].event != EventView::End
                && turns[i].event != EventView::Unreadable) ==> run(
            (UploadView::Scanning { output }),
            turns,
        ) == StepView::Continue(UploadView::Scanning { output }),
    decreases turns.len(),
{
    if turns.len() > 0 {
        let rest = turns.drop_first();
        assert(turns.first() == turns[0]);
        assert(forall|i: int| 0 <= i < rest.len() ==> rest[i] == turns[i + 1]);
        lemma_other_parts_are_passed_over(output, rest);
    }
}

/// An upload with no part named `image` is answered, when the body ends or
/// can be read no further, with the rejection `MissingImage`, status 400,
/// whatever else the body holds.
pub proof fn lemma_missing_image_is_rejected(turns: Seq<Turn>, last: Turn)
    requires
        no_image_part(turns),
        last.event == EventView::End || last.event == EventView::Unreadable,
    ensures
        run(fresh(), turns.push(last)) == StepView::Finish(
            ReplyView::Rejected(Rejection::MissingImage),
        ),
        status_of(ReplyView::Rejected(Rejection::MissingImage)) == 400,
{
    let end = seq![last];
    assert(turns + end =~= turns.push(last));
    assert(end.first() == last);
    lemma_run_split(fresh(), turns, end);
    lemma_other_parts_are_passed_over(Seq::empty(), turns);
}

/// One part named `image`, from any state between parts: where it has no
/// content, the machine goes on as if there had been no such part; else it
/// does what goes with the pipeline's result.
pub proof fn lemma_image_part(output: Seq<u8>, begin: Turn, content: Seq<Turn>, end: Turn)
    requires
        begin.event == (EventView::Part { name: Some(IMAGE_FIELD@) }),
        all_chunks(content),
        end.event == EventView::PartEnd,
    ensures
        run((UploadView::Scanning { output }), (seq![begin] + content).push(end)) == if gathered(
            content,
        ).len() == 0 {
            StepView::Continue(UploadView::Scanning { output })
        } else {
            part_outcome(end.result)
        },
{
    let start = UploadView::Scanning { output };
    let empty = Seq::<u8>::empty();
    let reading = UploadView::Reading { output, body: empty };
    let first = seq![begin];
    let last = seq![end];
    assert(first.first() == begin);
    assert(run(reading, first.drop_first()) == StepView::Continue(reading));
    assert(run(start, first) == StepView::Continue(reading));
    assert((first + content).push(end) =~= first + (content + last));
    lemma_run_split(start, first, content + last);
    lemma_run_split(reading, content, last);
    lemma_chunks_are_joined(output, empty, content);
    assert(empty + gathered(content) =~= gathered(content));
    assert(last.first() == end);
    let full = UploadView::Reading { output, body: gathered(content) };
    match advance(full, end.event, end.result) {
        StepView::Continue(next) => {
            assert(run(next, last.drop_first()) == StepView::Continue(next));
        },
        StepView::Finish(_) => {},
    }
}

/// An `image` part that has content and that the decoder does not
/// recognise is answered with the rejection `InvalidFormat`, status 400,
/// whatever was uploaded before it and however it is cut into chunks.
pub proof fn lemma_unrecognised_image_is_rejected(
    output: Seq<u8>,
    begin: Turn,
    content: Seq<Turn>,
    end: Turn,
)
    requires
        begin.event == (EventView::Part { name: Some(IMAGE_FIELD@) }),
        all_chunks(content),
        gathered(content).len() > 0,
        end.event == EventView::PartEnd,
        end.result == Err::<Seq<u8>, TranscodeError>(TranscodeError::InvalidImage),
    ensures
        run((UploadView::Scanning { output }), (seq![begin] + content).push(end))
            == StepView::Finish(ReplyView::Rejected(Rejection::InvalidFormat)),
        status_of(ReplyView::Rejected(Rejection::InvalidFormat)) == 400,
{
    lemma_image_part(output, begin, content, end);
}

/// An upload of one `image` part, with other parts before and after it
/// and no failure between parts, is answered by the first of these that
/// applies: the part has no content, `MissingImage`; the decoder does not
/// recognise it, `InvalidFormat`; the encoder fails, `Failed`; else the
/// JPEG that the pipeline made, which is sent unless it is empty. The
/// status is 200 with the JPEG and 400 or 500 without.
pub proof fn lemma_one_image_upload(
    before: Seq<Turn>,
    begin: Turn,
    content: Seq<Turn>,
    end: Turn,
    after: Seq<Turn>,
    last: Turn,
)
    requires
        no_image_part(before),
        no_image_part(after),
        forall|i: int|
            0 <= i < before.len() ==> #[trigger] before[i].event != EventView::End
                && before[i].event != EventView::Unreadable,
        begin.event == (EventView::Part { name: Some(IMAGE_FIELD@) }),
        all_chunks(content),
        end.event == EventView::PartEnd,
        last.event == EventView::End || last.event == EventView::Unreadable,
    ensures
        run(fresh(), before + (seq![begin] + content).push(end) + after.push(last))
            == StepView::Finish(decision(gathered(content), end.result)),
        decision(gathered(content), end.result) is Image <==> status_of(
            decision(gathered(content), end.result),
        ) == 200,
        decision(gathered(content), end.result) is Image ==> gathered(content).len() > 0
            && end.result == Ok::<Seq<u8>, TranscodeError>(
            decision(gathered(content), end.result)->Image_0,
        ),
{
    let empty = Seq::<u8>::empty();
    let part = (seq![begin] + content).push(end);
    let tail = after.push(last);
    let close = seq![last];
    assert(before + part + tail =~= before + (part + tail));
    lemma_run_split(fresh(), before, part + tail);
    lemma_other_parts_are_passed_over(empty, before);
    lemma_run_split(fresh(), part, tail);
    lemma_image_part(empty, begin, content, end);
    assert(after + close =~= tail);
    assert(close.first() == last);
    match run(fresh(), part) {
        StepView::Continue(next) => {
            let kept = next->Scanning_output;
            lemma_run_split(next, after, close);
            lemma_other_parts_are_passed_over(kept, after);
            assert(run(next, close.drop_first()) == StepView::Continue(next));
        },
        StepView::Finish(_) => {},
    }
}

/// Tells whether a part with the declared `name` carries the image.
pub fn is_image_field(name: &Option<String>) -> (found: bool)
    ensures
        found == match *name {
            Some(n) => names_image(Some(n@)),
            None => false,
        },
{
    match name {
        Some(n) => {
            let wanted = IMAGE_FIELD.to_owned();
            *n == wanted
        },
        None => false,
    }
}

/// The reply when the body ends with `output` as the last JPEG made.
pub fn close(output: Vec<u8>) -> (reply: Reply)
    ensures
        reply@ == closing_reply(output@),
{
    if output.is_empty() {
        Reply::Rejected(Rejection::MissingImage)
    } else {
        Reply::Image(output)
    }
}

/// What follows an image part of which the pipeline made `result`.
pub fn part_done(result: Result<Vec<u8>, TranscodeError>) -> (next: Step)
    ensures
        next@ == part_outcome(outcome(result)),
{
    match result {
        Ok(jpeg) => Step::Continue(Upload::Scanning { output: jpeg }),
        Err(TranscodeError::InvalidImage) => Step::Finish(
            Reply::Rejected(Rejection::InvalidFormat),
        ),
        Err(TranscodeError::EncodeFailed) => Step::Finish(Reply::Failed),
    }
}

impl Upload {
    /// Starts a conversation: nothing was read, no image was seen.
    pub fn start() -> (upload: Upload)
        ensures
            upload@ == fresh(),
    {
        Upload::Scanning { output: Vec::new() }
    }

    /// What the caller is to do next.
    pub fn awaits(&self) -> (action: Action)
        ensures
            action == awaited(self@),
    {
        match self {
            Upload::Scanning { .. } => Action::NextPart,
            Upload::Reading { .. } => Action::NextChunk,
        }
    }

    /// Takes `event` and tells what it leads to. Where the event ends an
    /// image part that has content, the pipeline is run on that content,
    /// and the step is the one that goes with its result, of which
    /// `possible` holds; in particular a JPEG that is kept is not empty.
    /// Every other step is fixed by state and event alone.
    pub fn step(self, event: Event) -> (next: Step)
        ensures
            exists|result: Result<Seq<u8>, TranscodeError>|
                possible(result) && #[trigger] advance(self@, event@, result) == next@,
            !runs_pipeline(self@, event@) ==> forall|result: Result<Seq<u8>, TranscodeError>|
                #[trigger] advance(self@, event@, result) == next@,
    {
        let ghost before = self@;
        let ghost heard = event@;
        let ghost mut result: Result<Seq<u8>, TranscodeError> = Err(TranscodeError::InvalidImage);
        let next = match self {
            Upload::Scanning { output } => match event {
                Event::Part { name } => {
                    if is_image_field(&name) {
                        Step::Continue(Upload::Reading { output, body: Vec::new() })
                    } else {
                        Step::Continue(Upload::Scanning { output })
                    }
                },
                Event::End | Event::Unreadable => Step::Finish(close(output)),
                _ => Step::Continue(Upload::Scanning { output }),
            },
            Upload::Reading { output, body } => match event {
                Event::Chunk { data } => {
                    let mut body = body;
                    let mut data = data;
                    body.append(&mut data);
                    Step::Continue(Upload::Reading { output, body })
                },
                Event::ChunkFailed => Step::Finish(Reply::Rejected(Rejection::BrokenUpload)),
                Event::PartEnd => {
                    if body.is_empty() {
                        Step::Continue(Upload::Scanning { output })
                    } else {
                        let made = transcode(body.as_slice());
                        proof {
                            result = outcome(made);
                        }
                        part_done(made)
                    }
                },
                _ => Step::Continue(Upload::Reading { output, body }),
            },
        };
        assert(possible(result) && advance(before, heard, result) == next@);
        next
    }
}

} // verus!

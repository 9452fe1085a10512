//! One turn of the conversation: the user message is appended, the reply
//! arrives as a chunked byte stream, each payload line adds a fragment to the
//! reply, and the sentinel seals the reply into the transcript.
//!
//! The caller moves bytes and decodes payload text; every decision is made
//! here. Per line: `on_line` classifies it; a payload comes back as
//! `LineStep::Decode`, and the caller hands the decoded chunk (or `None`
//! where decoding failed) to `on_decoded`.

use crate::delta::{first_fragment, CompletionResponse};
use crate::error::StreamError;
use crate::framing::{frame_from, LineBuffer};
use crate::text::{classify_line, kind_of, line_body, LineKind};
use crate::transcript::{assistant_message, user_message, Conversation, Message};
use vstd::prelude::*;
use vstd::string::StringExecFns;
use vstd::utf8::{decode_utf8, valid_utf8};

verus! {

/// Where a turn stands.
#[derive(Debug, Clone, Copy, PartialEq, Eq, Structural)]
pub enum TurnStatus {
    /// Lines are being read.
    Streaming,
    /// A payload line was handed out and its decoded form is awaited.
    AwaitingDecode,
    /// The sentinel was seen and the reply is in the transcript.
    Sealed,
    /// An error ended the turn; the reply was dropped.
    Failed,
}

/// What the caller does after a line.
#[derive(Debug, PartialEq, Eq)]
pub enum LineStep {
    /// Nothing: the line was blank.
    Skip,
    /// The turn is over and the reply is in the transcript.
    Finished,
    /// Decode this text and pass the result to `on_decoded`.
    Decode(String),
}

/// The state of the reply being streamed.
pub struct StreamState {
    lines: LineBuffer,
    content: String,
    emitted: Ghost<Seq<Seq<char>>>,
    status: TurnStatus,
}

impl StreamState {
    /// The reply accumulated so far.
    pub closed spec fn content(&self) -> Seq<char> {
        self.content@
    }

    /// The fragments handed out so far, in order.
    pub closed spec fn emitted(&self) -> Seq<Seq<char>> {
        self.emitted@
    }

    pub closed spec fn status(&self) -> TurnStatus {
        self.status
    }

    /// The bytes of the line in progress.
    pub closed spec fn pending(&self) -> Seq<u8> {
        self.lines.pending()
    }

    /// The reply is exactly the fragments handed out, in order.
    pub closed spec fn wf(&self) -> bool {
        &&& self.lines.wf()
        &&& self.content@ == self.emitted@.flatten()
    }

    /// A state with nothing received.
    pub fn new() -> (r: StreamState)
        ensures
            r.wf(),
            r.status() == TurnStatus::Streaming,
            r.content() == Seq::<char>::empty(),
            r.emitted() == Seq::<Seq<char>>::empty(),
            r.pending() == Seq::<u8>::empty(),
    {
        let r = StreamState {
            lines: LineBuffer::new(),
            content: String::new(),
            emitted: Ghost(Seq::empty()),
            status: TurnStatus::Streaming,
        };
        assert(Seq::<Seq<char>>::empty().flatten() =~= Seq::<char>::empty());
        r
    }

    pub fn status_now(&self) -> (r: TurnStatus)
        ensures
            r == self.status(),
    {
        self.status
    }

    /// The reply accumulated so far.
    pub fn content_so_far(&self) -> (r: &str)
        ensures
            r@ == self.content(),
    {
        self.content.as_str()
    }

    /// Takes in a chunk of the stream and returns the lines it completes, in
    /// order and without their terminators.
    pub fn push_chunk(&mut self, chunk: &[u8]) -> (r: Vec<Vec<u8>>)
        requires
            old(self).wf(),
        ensures
            final(self).wf(),
            r@.map_values(|l: Vec<u8>| l@) == frame_from((Seq::empty(), old(self).pending()), chunk@).0,
            final(self).pending() == frame_from((Seq::empty(), old(self).pending()), chunk@).1,
            final(self).content() == old(self).content(),
            final(self).emitted() == old(self).emitted(),
            final(self).status() == old(self).status(),
    {
        self.lines.push_chunk(chunk)
    }

    /// The stream has ended: returns the unterminated last line, if any.
    pub fn end_of_stream(&mut self) -> (r: Option<Vec<u8>>)
        requires
            old(self).wf(),
        ensures
            final(self).wf(),
            final(self).pending() == Seq::<u8>::empty(),
            old(self).pending().len() == 0 ==> r is None,
            old(self).pending().len() > 0 ==> r is Some && r->0@ == old(self).pending(),
            final(self).content() == old(self).content(),
            final(self).emitted() == old(self).emitted(),
            final(self).status() == old(self).status(),
    {
        self.lines.finish()
    }

    /// Acts on one line of the stream.
    ///
    /// A blank line changes nothing. The sentinel appends the reply to
    /// `conv` as an assistant message and ends the turn. A payload line is
    /// handed back for decoding. A line that is not UTF-8 fails the turn.
    pub fn on_line(&mut self, conv: &mut Conversation, line: &[u8]) -> (r: Result<
        LineStep,
        StreamError,
    >)
        requires
            old(self).wf(),
            old(self).status() == TurnStatus::Streaming,
        ensures
            final(self).wf(),
            final(self).pending() == old(self).pending(),
            final(self).content() == old(self).content(),
            final(self).emitted() == old(self).emitted(),
            final(conv).model_id() == old(conv).model_id(),
            final(conv).streams() == old(conv).streams(),
            !valid_utf8(line@) ==> {
                &&& r == Err::<LineStep, StreamError>(StreamError::Encoding)
                &&& final(self).status() == TurnStatus::Failed
                &&& final(conv).transcript() == old(conv).transcript()
            },
            valid_utf8(line@) && kind_of(decode_utf8(line@)) is Blank ==> {
                &&& r == Ok::<LineStep, StreamError>(LineStep::Skip)
                &&& final(self).status() == TurnStatus::Streaming
                &&& final(conv).transcript() == old(conv).transcript()
            },
            valid_utf8(line@) && kind_of(decode_utf8(line@)) is Sentinel ==> {
                &&& r == Ok::<LineStep, StreamError>(LineStep::Finished)
                &&& final(self).status() == TurnStatus::Sealed
                &&& final(conv).transcript() == old(conv).transcript().push(
                    assistant_message(old(self).content()),
                )
            },
            valid_utf8(line@) && kind_of(decode_utf8(line@)) is Payload ==> {
                &&& r is Ok && r->Ok_0 is Decode
                &&& r->Ok_0->Decode_0@ == line_body(decode_utf8(line@))
                &&& final(self).status() == TurnStatus::AwaitingDecode
                &&& final(conv).transcript() == old(conv).transcript()
            },
    {
        match classify_line(line) {
            Err(e) => {
                self.status = TurnStatus::Failed;
                Err(e)
            },
            Ok(LineKind::Blank) => Ok(LineStep::Skip),
            Ok(LineKind::Sentinel) => {
                conv.append(Message::assistant(self.content.clone()));
                self.status = TurnStatus::Sealed;
                Ok(LineStep::Finished)
            },
            Ok(LineKind::Payload(text)) => {
                self.status = TurnStatus::AwaitingDecode;
                Ok(LineStep::Decode(text))
            },
        }
    }

    /// Acts on the decoded form of the payload line last handed out; `None`
    /// means that it did not decode.
    ///
    /// The content fragment of the first choice, where there is one, is
    /// added to the reply and returned for display. A line that did not
    /// decode, or has no choice, fails the turn.
    pub fn on_decoded(&mut self, resp: Option<&CompletionResponse>) -> (r: Result<
        Option<String>,
        StreamError,
    >)
        requires
            old(self).wf(),
            old(self).status() == TurnStatus::AwaitingDecode,
        ensures
            final(self).wf(),
            final(self).pending() == old(self).pending(),
            (resp is None || resp->0.choices@.len() == 0) <==> r is Err,
            r is Err ==> {
                &&& r->Err_0 == StreamError::ProtocolDecode
                &&& final(self).status() == TurnStatus::Failed
                &&& final(self).content() == old(self).content()
                &&& final(self).emitted() == old(self).emitted()
            },
            r is Ok ==> final(self).status() == TurnStatus::Streaming,
            r is Ok && resp->0.choices@[0].delta.content is None ==> {
                &&& r->Ok_0 is None
                &&& final(self).emitted() == old(self).emitted()
                &&& final(self).content() == old(self).content()
            },
            r is Ok && resp->0.choices@[0].delta.content is Some ==> {
                let f = resp->0.choices@[0].delta.content->0@;
                &&& r->Ok_0 is Some && r->Ok_0->0@ == f
                &&& final(self).emitted() == old(self).emitted().push(f)
                &&& final(self).content() == old(self).content() + f
            },
    {
        let resp = match resp {
            None => {
                self.status = TurnStatus::Failed;
                return Err(StreamError::ProtocolDecode);
            },
            Some(resp) => resp,
        };
        match first_fragment(resp) {
            Err(e) => {
                self.status = TurnStatus::Failed;
                Err(e)
            },
            Ok(None) => {
                self.status = TurnStatus::Streaming;
                Ok(None)
            },
            Ok(Some(f)) => {
                proof {
                    self.emitted@.lemma_flatten_push(f@);
                }
                self.content.append(f.as_str());
                self.emitted = Ghost(self.emitted@.push(f@));
                self.status = TurnStatus::Streaming;
                Ok(Some(f.clone()))
            },
        }
    }
}

/// Starts a turn: appends `question` to `conv` as a user message and returns
/// the state for the reply.
pub fn begin_turn(conv: &mut Conversation, question: &str) -> (r: StreamState)
    ensures
        final(conv).transcript() == old(conv).transcript().push(user_message(question@)),
        final(conv).model_id() == old(conv).model_id(),
        final(conv).streams() == old(conv).streams(),
        r.wf(),
        r.status() == TurnStatus::Streaming,
        r.content() == Seq::<char>::empty(),
        r.emitted() == Seq::<Seq<char>>::empty(),
        r.pending() == Seq::<u8>::empty(),
{
    conv.append(Message::user(question.to_owned()));
    StreamState::new()
}

/// The reply of a turn is the fragments handed out for display,
/// concatenated in the order in which their lines came.
pub proof fn lemma_reply_is_fragments(st: &StreamState)
    requires
        st.wf(),
    ensures
        st.content() == st.emitted().flatten(),
{
}

} // verus!

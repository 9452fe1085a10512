//! The decoded form of one payload line: a completion chunk with its list of
//! choices, each carrying a partial message.

use crate::error::StreamError;
use crate::transcript::Message;
use vstd::prelude::*;

verus! {

/// One choice of a completion chunk.
#[derive(Debug, PartialEq, Eq)]
pub struct Choice {
    pub delta: Message,
    pub index: usize,
}

/// One decoded completion chunk.
#[derive(Debug, PartialEq, Eq)]
pub struct CompletionResponse {
    pub id: String,
    pub choices: Vec<Choice>,
}

/// The content fragment of the first choice of `resp`; an error where there
/// is no choice at all.
pub fn first_fragment(resp: &CompletionResponse) -> (r: Result<Option<&String>, StreamError>)
    ensures
        resp.choices@.len() == 0 <==> r is Err,
        r is Err ==> r->Err_0 == StreamError::ProtocolDecode,
        r is Ok ==> match resp.choices@[0].delta.content {
            Some(f) => r->Ok_0 is Some && r->Ok_0->0@ == f@,
            None => r->Ok_0 is None,
        },
{
    if resp.choices.len() == 0 {
        Err(StreamError::ProtocolDecode)
    } else {
        match &resp.choices[0].delta.content {
            Some(f) => Ok(Some(f)),
            None => Ok(None),
        }
    }
}

} // verus!

//! What an entry point hands back: the bytes for the host and the failure
//! flag, ready to be packed once the bytes have a place in guest memory.

use vstd::prelude::*;
use vstd::string::StrSliceExecFns;
use vstd::utf8::encode_utf8;
use vstd::utf8::is_ascii_chars_encode_utf8;
use crate::fault::Fault;
use crate::packed::encode;
use crate::packed::failed_of;
use crate::packed::length_of;
use crate::packed::packed;
use crate::packed::pointer_of;
use crate::packed::LENGTH_LIMIT;

verus! {

/// The answer to one call. Its payload always fits the length field of a
/// packed word.
pub struct Reply {
    payload: Vec<u8>,
    failed: bool,
}

/// A reply as contracts see it.
pub struct ReplyView {
    pub payload: Seq<u8>,
    pub failed: bool,
}

/// The reply that reports `fault`: its diagnostic as payload, the flag set.
pub open spec fn failure_of(fault: Fault) -> ReplyView {
    ReplyView { payload: encode_utf8(fault.text()), failed: true }
}

/// The reply to a call that ended in `outcome`. A result that the length
/// field cannot hold is reported as a failure.
pub open spec fn reply_of(outcome: Result<Seq<u8>, Fault>) -> ReplyView {
    match outcome {
        Ok(payload) => if payload.len() < LENGTH_LIMIT {
            ReplyView { payload, failed: false }
        } else {
            failure_of(Fault::Oversized)
        },
        Err(fault) => failure_of(fault),
    }
}

/// Every reply fits the length field of a packed word, whatever the call
/// ended in.
pub proof fn lemma_reply_fits(outcome: Result<Seq<u8>, Fault>)
    ensures
        reply_of(outcome).payload.len() < LENGTH_LIMIT,
{
    let fault = match outcome {
        Ok(_) => Fault::Oversized,
        Err(fault) => fault,
    };
    fault.lemma_text_is_short();
    is_ascii_chars_encode_utf8(fault.text());
}

impl View for Reply {
    type V = ReplyView;

    closed spec fn view(&self) -> ReplyView {
        ReplyView { payload: self.payload@, failed: self.failed }
    }
}

impl Reply {
    #[verifier::type_invariant]
    spec fn fits(self) -> bool {
        self.payload@.len() < LENGTH_LIMIT
    }

    /// The reply that reports `fault`.
    pub fn failure(fault: Fault) -> (reply: Reply)
        ensures
            reply@ == failure_of(fault),
    {
        let text = fault.message();
        proof {
            lemma_reply_fits(Err(fault));
        }
        Reply { payload: text.as_bytes_vec(), failed: true }
    }

    /// The reply that carries a result, or reports that it is too long.
    pub fn answer(payload: Vec<u8>) -> (reply: Reply)
        ensures
            reply@ == reply_of(Ok(payload@)),
    {
        if payload.len() < LENGTH_LIMIT as usize {
            Reply { payload, failed: false }
        } else {
            Reply::failure(Fault::Oversized)
        }
    }

    /// The bytes for the host.
    pub fn payload(&self) -> (bytes: &[u8])
        ensures
            bytes@ == self@.payload,
    {
        self.payload.as_slice()
    }

    /// Whether the reply reports a failure.
    pub fn failed(&self) -> (failed: bool)
        ensures
            failed == self@.failed,
    {
        self.failed
    }

    /// The number of bytes for the host.
    pub fn len(&self) -> (length: u32)
        ensures
            length == self@.payload.len(),
            length < LENGTH_LIMIT,
    {
        proof {
            use_type_invariant(self);
        }
        self.payload.len() as u32
    }

    /// The packed word for this reply, once its bytes lie at `pointer`.
    pub fn pack(&self, pointer: u32) -> (word: u64)
        ensures
            word == packed(pointer, self@.payload.len() as u32, self@.failed),
            pointer_of(word) == pointer,
            length_of(word) == self@.payload.len(),
            failed_of(word) == self@.failed,
    {
        encode(pointer, self.len(), self.failed)
    }
}

} // verus!

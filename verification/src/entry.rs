//! The entry points, from the bytes the host wrote to the reply it gets.

use vstd::prelude::*;
use vstd::utf8::encode_utf8;
use crate::codec::decode;
use crate::codec::decoded;
use crate::codec::document_of;
use crate::codec::encode;
use crate::codec::encoded;
use crate::codec::lemma_decode_inverts_encode;
use crate::codec::reads_back;
use crate::codec::Message;
use crate::codec::MessageView;
use crate::fault::Fault;
use crate::packed::LENGTH_LIMIT;
use crate::reply::failure_of;
use crate::reply::reply_of;
use crate::reply::Reply;
use crate::text::upper;
use crate::text::upper_of;

verus! {

/// The message that `process` writes for a message it has read: the same
/// headers, the body in upper case.
pub open spec fn raised(message: MessageView) -> Result<MessageView, Fault> {
    match upper_of(message.body) {
        Some(body) => if body.len() < LENGTH_LIMIT {
            Ok(MessageView { headers: message.headers, body })
        } else {
            Err(Fault::Oversized)
        },
        None => Err(Fault::Text),
    }
}

/// The raised message that `input` leads to.
pub open spec fn raised_input(input: Seq<u8>) -> Result<MessageView, Fault> {
    match decoded(input) {
        Ok(message) => raised(message),
        Err(fault) => Err(fault),
    }
}

/// What `process` makes of `input`: the document of the raised message.
pub open spec fn processed(input: Seq<u8>) -> Result<Seq<u8>, Fault> {
    match raised_input(input) {
        Ok(output) => Ok(encoded(output)),
        Err(fault) => Err(fault),
    }
}

/// What `transform` makes of `input`: the raised body alone.
pub open spec fn transformed(input: Seq<u8>) -> Result<Seq<u8>, Fault> {
    match raised_input(input) {
        Ok(output) => Ok(output.body),
        Err(fault) => Err(fault),
    }
}

/// Raises the body of a message to upper case and keeps its headers. A body
/// that is no text, or whose upper case no reply could carry, is a fault.
pub fn raise(message: Message) -> (outcome: Result<Message, Fault>)
    ensures
        match outcome {
            Ok(output) => raised(message@) == Ok::<MessageView, Fault>(output@),
            Err(fault) => raised(message@) == Err::<MessageView, Fault>(fault),
        },
{
    match upper(message.body.as_slice()) {
        Some(body) => if body.len() < LENGTH_LIMIT as usize {
            Ok(Message { headers: message.headers, body })
        } else {
            Err(Fault::Oversized)
        },
        None => Err(Fault::Text),
    }
}

/// Reads a message and raises it.
fn read_and_raise(input: &[u8]) -> (outcome: Result<Message, Fault>)
    ensures
        match outcome {
            Ok(output) => raised_input(input@) == Ok::<MessageView, Fault>(output@),
            Err(fault) => raised_input(input@) == Err::<MessageView, Fault>(fault),
        },
{
    match decode(input) {
        Ok(message) => raise(message),
        Err(fault) => Err(fault),
    }
}

/// Answers with the whole message, its body in upper case and its headers
/// as they came. Input that cannot be handled is answered with a failure.
pub fn process(input: &[u8]) -> (reply: Reply)
    ensures
        reply@ == reply_of(processed(input@)),
        raised_input(input@) matches Ok(output) ==> (encoded(output).len() < LENGTH_LIMIT
            ==> reply@.payload == encoded(output) && !reply@.failed),
{
    match read_and_raise(input) {
        Ok(message) => Reply::answer(encode(message)),
        Err(fault) => Reply::failure(fault),
    }
}

/// Answers with the body in upper case and nothing else. Input that cannot
/// be handled is answered with a failure.
pub fn transform(input: &[u8]) -> (reply: Reply)
    ensures
        reply@ == reply_of(transformed(input@)),
        decoded(input@) matches Ok(message) ==> (upper_of(message.body) matches Some(body) ==> (
        body.len() < LENGTH_LIMIT ==> reply@.payload == body && !reply@.failed)),
        raised_input(input@) matches Err(fault) ==> reply@ == failure_of(fault),
{
    match read_and_raise(input) {
        Ok(message) => Reply::answer(message.body),
        Err(fault) => Reply::failure(fault),
    }
}

/// Answers with the fixed failure, whatever the arguments are.
pub fn fail(_ptr: u32, _len: u32) -> (reply: Reply)
    ensures
        reply@ == failure_of(Fault::Simulated),
        reply@.failed,
        reply@.payload == encode_utf8("this is an error"@),
{
    Reply::failure(Fault::Simulated)
}

/// The failing twin of `process`: the fixed failure, whatever the input.
pub fn process_err(ptr: u32, len: u32) -> (reply: Reply)
    ensures
        reply@ == failure_of(Fault::Simulated),
        reply@.failed,
        reply@.payload == encode_utf8("this is an error"@),
{
    fail(ptr, len)
}

/// The failing twin of `transform`: the fixed failure, whatever the input.
pub fn transform_err(ptr: u32, len: u32) -> (reply: Reply)
    ensures
        reply@ == failure_of(Fault::Simulated),
        reply@.failed,
        reply@.payload == encode_utf8("this is an error"@),
{
    fail(ptr, len)
}

/// What `process` writes decodes to the message that came in, with the same
/// headers and the body in upper case, wherever the JSON layer reads the
/// written document back as it was written.
pub proof fn lemma_process_keeps_headers(input: Seq<u8>)
    requires
        processed(input) is Ok,
        reads_back(document_of(raised_input(input)->Ok_0)),
    ensures
        decoded(input) matches Ok(message) && upper_of(message.body) matches Some(body) && decoded(
            processed(input)->Ok_0,
        ) == Ok::<MessageView, Fault>(MessageView { headers: message.headers, body }),
{
    lemma_decode_inverts_encode(raised_input(input)->Ok_0);
}

} // verus!

//! The message and its document: a JSON object with the headers under
//! `headers` and the body, as base64 text, under `body`.

use vstd::prelude::*;
use crate::b64::base64_bytes;
use crate::b64::base64_text;
use crate::b64::decode_text;
use crate::b64::encodable;
use crate::b64::lemma_bytes_of_text;
use crate::b64::standard_encode;
use crate::fault::Fault;
use crate::json::insert;
use crate::json::into_object;
use crate::json::into_text;
use crate::json::members_of;
use crate::json::new_object;
use crate::json::object_text;
use crate::json::object_value;
use crate::json::parse_object;
use crate::json::parsed_object;
use crate::json::remove;
use crate::json::text_value;
use crate::json::write_object;
use crate::json::Json;
use crate::json::Members;

verus! {

/// A message: headers that accompany a payload, and the payload.
pub struct Message {
    pub headers: serde_json::Map<String, serde_json::Value>,
    pub body: Vec<u8>,
}

/// A message as contracts see it.
pub struct MessageView {
    pub headers: Members,
    pub body: Seq<u8>,
}

impl View for Message {
    type V = MessageView;

    open spec fn view(&self) -> MessageView {
        MessageView { headers: members_of(self.headers), body: self.body@ }
    }
}

/// The members of the document that carries `message`.
pub open spec fn document_of(message: MessageView) -> Members {
    Members::empty().insert("headers"@, Json::Object(message.headers)).insert(
        "body"@,
        Json::Text(base64_text(message.body)),
    )
}

/// The message that a document with these members carries. Members other
/// than `headers` and `body` do not count.
pub open spec fn message_of(document: Members) -> Result<MessageView, Fault> {
    if !document.contains_key("headers"@) {
        Err(Fault::Headers)
    } else if !(document["headers"@] is Object) {
        Err(Fault::Headers)
    } else if !document.contains_key("body"@) {
        Err(Fault::Body)
    } else if !(document["body"@] is Text) {
        Err(Fault::Body)
    } else {
        match base64_bytes(document["body"@]->Text_0) {
            Some(body) => Ok(MessageView { headers: document["headers"@]->Object_0, body }),
            None => Err(Fault::Base64),
        }
    }
}

/// The bytes that `encode` writes for `message`.
pub open spec fn encoded(message: MessageView) -> Seq<u8> {
    object_text(document_of(message))
}

/// What `decode` makes of `text`.
pub open spec fn decoded(text: Seq<u8>) -> Result<MessageView, Fault> {
    match parsed_object(text) {
        Some(document) => message_of(document),
        None => Err(Fault::Syntax),
    }
}

/// Whether the JSON layer reads the text of these members back as the same
/// members. It does not where they nest deeper than its parser goes: such
/// text is written and then refused.
pub open spec fn reads_back(document: Members) -> bool {
    parsed_object(object_text(document)) == Some(document)
}

/// The message in a document that has been read.
pub fn read_document(document: serde_json::Map<String, serde_json::Value>) -> (outcome: Result<
    Message,
    Fault,
>)
    ensures
        match outcome {
            Ok(message) => message_of(members_of(document)) == Ok::<MessageView, Fault>(message@),
            Err(fault) => message_of(members_of(document)) == Err::<MessageView, Fault>(fault),
        },
{
    proof {
        reveal_strlit("headers");
        reveal_strlit("body");
    }
    let mut rest = document;
    let headers = match remove(&mut rest, "headers") {
        Some(value) => match into_object(value) {
            Some(headers) => headers,
            None => {
                return Err(Fault::Headers);
            },
        },
        None => {
            return Err(Fault::Headers);
        },
    };
    let text = match remove(&mut rest, "body") {
        Some(value) => match into_text(value) {
            Some(text) => text,
            None => {
                return Err(Fault::Body);
            },
        },
        None => {
            return Err(Fault::Body);
        },
    };
    match decode_text(text.as_str()) {
        Some(body) => Ok(Message { headers, body }),
        None => Err(Fault::Base64),
    }
}

/// Reads a message from the bytes of its document.
pub fn decode(text: &[u8]) -> (outcome: Result<Message, Fault>)
    ensures
        match outcome {
            Ok(message) => decoded(text@) == Ok::<MessageView, Fault>(message@),
            Err(fault) => decoded(text@) == Err::<MessageView, Fault>(fault),
        },
{
    match parse_object(text) {
        Ok(document) => read_document(document),
        Err(_) => Err(Fault::Syntax),
    }
}

/// The document that carries a message.
pub fn document(message: Message) -> (document: serde_json::Map<String, serde_json::Value>)
    requires
        encodable(message.body@.len()),
    ensures
        members_of(document) == document_of(message@),
{
    let text = standard_encode(message.body.as_slice());
    let mut document = new_object();
    insert(&mut document, "headers".to_owned(), object_value(message.headers));
    insert(&mut document, "body".to_owned(), text_value(text));
    document
}

/// Writes a message as the bytes of its document.
pub fn encode(message: Message) -> (text: Vec<u8>)
    requires
        encodable(message.body@.len()),
    ensures
        text@ == encoded(message@),
{
    let document = document(message);
    write_object(&document).unwrap()
}

/// A document that was made from a message carries that message: the
/// same headers and the same body.
pub proof fn lemma_document_carries_message(message: MessageView)
    ensures
        message_of(document_of(message)) == Ok::<MessageView, Fault>(message),
{
    reveal_strlit("headers");
    reveal_strlit("body");
    lemma_bytes_of_text(message.body);
    let document = document_of(message);
    assert("headers"@.len() == 7 && "body"@.len() == 4);
    assert(document.contains_key("headers"@));
    assert(document.contains_key("body"@));
    assert(document["headers"@] == Json::Object(message.headers));
    assert(document["body"@] == Json::Text(base64_text(message.body)));
}

/// Decoding what was encoded gives the message back, wherever the JSON layer
/// reads the document back as it was written.
pub proof fn lemma_decode_inverts_encode(message: MessageView)
    requires
        reads_back(document_of(message)),
    ensures
        decoded(encoded(message)) == Ok::<MessageView, Fault>(message),
{
    lemma_document_carries_message(message);
}

} // verus!

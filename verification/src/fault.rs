//! What can go wrong with a call, and what the host is told about it.

use vstd::prelude::*;
use vstd::utf8::is_ascii_chars;

verus! {

/// Why a call has no result to hand back.
#[derive(Clone, Copy, Debug, PartialEq, Eq, Structural)]
pub enum Fault {
    /// The input is no JSON object.
    Syntax,
    /// The document has no `headers`, or they are no object.
    Headers,
    /// The document has no `body`, or it is no string.
    Body,
    /// The body is no base64 text.
    Base64,
    /// The body is no UTF-8 text.
    Text,
    /// The result is too long for the length field of a packed word.
    Oversized,
    /// The failure that the demonstration entry points always report.
    Simulated,
}

impl Fault {
    /// The diagnostic that goes to the host in place of a result.
    pub open spec fn text(self) -> Seq<char> {
        match self {
            Fault::Syntax => "document is not well-formed"@,
            Fault::Headers => "headers are missing or not a mapping"@,
            Fault::Body => "body is missing or not a string"@,
            Fault::Base64 => "body is not valid base64"@,
            Fault::Text => "body is not valid text"@,
            Fault::Oversized => "result is too large"@,
            Fault::Simulated => "this is an error"@,
        }
    }

    /// Every diagnostic is a short line of ASCII.
    pub proof fn lemma_text_is_short(self)
        ensures
            self.text().len() <= 36,
            is_ascii_chars(self.text()),
    {
        reveal_strlit("document is not well-formed");
        reveal_strlit("headers are missing or not a mapping");
        reveal_strlit("body is missing or not a string");
        reveal_strlit("body is not valid base64");
        reveal_strlit("body is not valid text");
        reveal_strlit("result is too large");
        reveal_strlit("this is an error");
    }

    /// The diagnostic that goes to the host in place of a result.
    pub fn message(self) -> (text: &'static str)
        ensures
            text@ == self.text(),
    {
        match self {
            Fault::Syntax => "document is not well-formed",
            Fault::Headers => "headers are missing or not a mapping",
            Fault::Body => "body is missing or not a string",
            Fault::Base64 => "body is not valid base64",
            Fault::Text => "body is not valid text",
            Fault::Oversized => "result is too large",
            Fault::Simulated => "this is an error",
        }
    }
}

} // verus!

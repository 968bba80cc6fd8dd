//! What the service says at its text boundary: the messages of a request
//! and of a response, the replies to failed requests, and the steps of
//! the two requests that come before and after the store is asked.

use vstd::prelude::*;
use crate::encoding::url_safe_encoding;
use crate::fixed::{FixedByteArray, ParseError};
use crate::model;

verus! {

/// Why a request that reached the store could not be served.
#[derive(Clone, Copy, Debug, PartialEq, Eq, Structural)]
pub enum Error {
    DbError,
}

/// Identifier of a stream.
pub type StreamId = FixedByteArray<8>;

/// Signature over a message's data.
pub type MessageSignature = FixedByteArray<64>;

/// Payload of a message.
pub type MessageData = FixedByteArray<128>;

/// A message as it crosses the text boundary.
#[derive(Clone, Copy, Debug)]
pub struct Message {
    pub signature: MessageSignature,
    pub data: MessageData,
}

/// The two fields of a message.
#[derive(Clone, Copy, Debug, PartialEq, Eq, Structural)]
pub enum Field {
    Signature,
    Data,
}

/// A field of a message whose text could not be read.
#[derive(Clone, Copy, Debug, PartialEq, Eq, Structural)]
pub struct FieldError {
    pub field: Field,
    pub reason: ParseError,
}

/// The messages read from one stream.
#[derive(Debug)]
pub struct GetMessagesResponse {
    pub id: StreamId,
    pub messages: Vec<Message>,
}

/// Problem details of a failed request.
#[derive(Clone, Copy, Debug)]
pub struct ErrorResponse {
    pub _type: &'static str,
    pub title: &'static str,
    pub status: u16,
    pub detail: &'static str,
}

/// Where a request to read begins when it names no offset.
pub const DEFAULT_OFFSET: u32 = 0;

/// Where a request to read stops when it names no limit.
pub const DEFAULT_LIMIT: u8 = 100;

impl Message {
    /// Whether `self` holds the bytes of `stored`.
    pub open spec fn is_message(&self, stored: model::Message) -> bool {
        &&& self.signature@ == stored.signature@
        &&& self.data@ == stored.data@
    }

    /// The text of the message as a JSON object.
    pub open spec fn json(&self) -> Seq<char> {
        "{\"signature\":\""@ + url_safe_encoding(self.signature@) + "\",\"data\":\""@
            + url_safe_encoding(self.data@) + "\"}"@
    }

    /// Reads a message from the texts of its two fields. Where both are
    /// wrong, the signature is the one reported.
    pub fn from_texts(signature: &str, data: &str) -> (read: Result<Message, FieldError>)
        ensures
            match (MessageSignature::parsed(signature@), MessageData::parsed(data@)) {
                (Ok(s), Ok(d)) => read is Ok && read->Ok_0.signature@ == s && read->Ok_0.data@ == d,
                (Err(e), _) => read == Err::<Message, FieldError>(
                    FieldError { field: Field::Signature, reason: e },
                ),
                (Ok(_), Err(e)) => read == Err::<Message, FieldError>(
                    FieldError { field: Field::Data, reason: e },
                ),
            },
    {
        let signature = match MessageSignature::decode_text(signature) {
            Ok(signature) => signature,
            Err(reason) => {
                return Err(FieldError { field: Field::Signature, reason });
            },
        };
        match MessageData::decode_text(data) {
            Ok(data) => Ok(Message { signature, data }),
            Err(reason) => Err(FieldError { field: Field::Data, reason }),
        }
    }

    /// The message with the bytes of `stored`.
    pub fn from_model(stored: &model::Message) -> (message: Message)
        ensures
            message.is_message(*stored),
    {
        Message {
            data: MessageData::from(stored.data),
            signature: MessageSignature::from(stored.signature),
        }
    }

    /// The message as the store layer takes it.
    pub fn to_model(&self) -> (stored: model::Message)
        ensures
            self.is_message(stored),
    {
        model::Message { data: self.data.to_bytes(), signature: self.signature.to_bytes() }
    }

    /// Writes the message as a JSON object.
    pub fn to_json(&self) -> (text: String)
        ensures
            text@ == self.json(),
    {
        let mut text = String::from_str("{\"signature\":\"");
        text.append(self.signature.encode_text().as_str());
        text.append("\",\"data\":\"");
        text.append(self.data.encode_text().as_str());
        text.append("\"}");
        text
    }
}

/// The text of `messages` as the items of a JSON array, with a comma
/// between each two.
pub open spec fn messages_json(messages: Seq<Message>) -> Seq<char>
    decreases messages.len(),
{
    if messages.len() == 0 {
        Seq::empty()
    } else if messages.len() == 1 {
        messages[0].json()
    } else {
        messages_json(messages.drop_last()) + ","@ + messages.last().json()
    }
}

impl GetMessagesResponse {
    /// The text of the response as a JSON object.
    pub open spec fn json(&self) -> Seq<char> {
        "{\"id\":\""@ + url_safe_encoding(self.id@) + "\",\"messages\":["@ + messages_json(
            self.messages@,
        ) + "]}"@
    }

    /// Writes the response as a JSON object.
    pub fn to_json(&self) -> (text: String)
        ensures
            text@ == self.json(),
    {
        let mut text = String::from_str("{\"id\":\"");
        text.append(self.id.encode_text().as_str());
        text.append("\",\"messages\":[");
        let ghost head = text@;
        let mut i: usize = 0;
        while i < self.messages.len()
            invariant
                i <= self.messages@.len(),
                text@ == head + messages_json(self.messages@.take(i as int)),
            decreases self.messages@.len() - i,
        {
            let ghost done = self.messages@.take(i as int);
            let ghost next = self.messages@.take(i + 1);
            proof {
                assert(next.drop_last() =~= done);
                assert(next.last() == self.messages@[i as int]);
                assert(done.len() == 0 ==> messages_json(done) =~= Seq::<char>::empty());
            }
            if i > 0 {
                text.append(",");
            }
            text.append(self.messages[i].to_json().as_str());
            proof {
                assert(text@ =~= head + messages_json(next));
            }
            i += 1;
        }
        proof {
            assert(self.messages@.take(i as int) =~= self.messages@);
        }
        text.append("]}");
        text
    }
}

/// The positions that a request to read asks for: its own, or the
/// defaults where it names none.
pub fn requested_range(offset: Option<u32>, limit: Option<u8>) -> (range: (u32, u8))
    ensures
        range.0 == if let Some(o) = offset { o } else { DEFAULT_OFFSET },
        range.1 == if let Some(l) = limit { l } else { DEFAULT_LIMIT },
{
    let offset: u32 = match offset {
        Some(offset) => offset,
        None => DEFAULT_OFFSET,
    };
    let limit: u8 = match limit {
        Some(limit) => limit,
        None => DEFAULT_LIMIT,
    };
    (offset, limit)
}

/// What the store's answer means to the one who asked: any failure of the
/// store is the one `DbError`.
pub fn stored<T, E>(outcome: Result<T, E>) -> (served: Result<T, Error>)
    ensures
        match outcome {
            Ok(value) => served == Ok::<T, Error>(value),
            Err(_) => served == Err::<T, Error>(Error::DbError),
        },
{
    match outcome {
        Ok(value) => Ok(value),
        Err(_) => Err(Error::DbError),
    }
}

/// Answers a request to read the stream `stream_id`, given what the store
/// returned for it: the messages as they came, under the stream's
/// identifier.
pub fn get_messages<E>(stream_id: StreamId, stored: Result<Vec<model::Message>, E>) -> (response: Result<
    GetMessagesResponse,
    Error,
>)
    ensures
        match stored {
            Ok(read) => {
                &&& response is Ok
                &&& response->Ok_0.id == stream_id
                &&& response->Ok_0.messages@.len() == read@.len()
                &&& forall|i: int| 0 <= i < read@.len() ==>
                    (#[trigger] response->Ok_0.messages@[i]).is_message(read@[i])
            },
            Err(_) => response == Err::<GetMessagesResponse, Error>(Error::DbError),
        },
{
    let read = self::stored(stored)?;
    let mut messages: Vec<Message> = Vec::new();
    let mut i: usize = 0;
    while i < read.len()
        invariant
            i <= read@.len(),
            messages@.len() == i,
            forall|k: int| 0 <= k < i ==> (#[trigger] messages@[k]).is_message(read@[k]),
        decreases read@.len() - i,
    {
        messages.push(Message::from_model(&read[i]));
        i += 1;
    }
    Ok(GetMessagesResponse { id: stream_id, messages })
}

/// Prepares a request to append `message` to the stream `stream_id`: the
/// key and the message that go to the store.
pub fn create_message(stream_id: &StreamId, message: &Message) -> (append: (model::StreamId, model::Message))
    ensures
        append.0@ == stream_id@,
        message.is_message(append.1),
{
    (stream_id.to_bytes(), message.to_model())
}

/// The reply to a request that addresses nothing.
pub fn not_found() -> (reply: ErrorResponse)
    ensures
        reply.status == 404,
        reply._type@ == "urn:bitlog:errors:not_found"@,
        reply.title@ == "Resource Not Found"@,
        reply.detail@
            == "The requested URL and method combination is not a valid one.Please refer to the OAS Spec on https://bitlog.fm/openapi.json"@,
{
    ErrorResponse {
        _type: "urn:bitlog:errors:not_found",
        title: "Resource Not Found",
        status: 404,
        detail: "The requested URL and method combination is not a valid one.Please refer to the OAS Spec on https://bitlog.fm/openapi.json",
    }
}

/// The reply to a request whose body is well formed but holds a field
/// that cannot be read.
pub fn unprocessable_entity() -> (reply: ErrorResponse)
    ensures
        reply.status == 422,
        reply._type@ == "urn:bitlog:errors:unprocessable_entity"@,
        reply.title@ == "Unprocessable Entity"@,
        reply.detail@
            == "The request was well formed but the content one or more fields is incorrect.Please refer to the OAS Spec on https://bitlog.fm/openapi.json"@,
{
    ErrorResponse {
        _type: "urn:bitlog:errors:unprocessable_entity",
        title: "Unprocessable Entity",
        status: 422,
        detail: "The request was well formed but the content one or more fields is incorrect.Please refer to the OAS Spec on https://bitlog.fm/openapi.json",
    }
}

/// The reply to a request that the store failed.
pub fn server_error() -> (reply: ErrorResponse)
    ensures
        reply.status == 500,
        reply._type@ == "urn:bitlog:errors:internal_server_error"@,
        reply.title@ == "Internal Server Error"@,
        reply.detail@
            == "Something unexpected happened. This is our fault. We are sorry about that. Please try again later"@,
{
    ErrorResponse {
        _type: "urn:bitlog:errors:internal_server_error",
        title: "Internal Server Error",
        status: 500,
        detail: "Something unexpected happened. This is our fault. We are sorry about that. Please try again later",
    }
}

} // verus!

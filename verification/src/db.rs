//! The stored form of a message: one blob of 192 bytes, the data first and
//! the signature behind it.

use vstd::prelude::*;
use crate::model::{Message, StreamId};
use crate::store::{window, MessageLog};

verus! {

/// Length of a message's data.
pub const DATA_LEN: usize = 128;

/// Length of a message's signature.
pub const SIGNATURE_LEN: usize = 64;

/// Length of a stored message.
pub const BLOB_LEN: usize = 192;

/// A value read from the store, as far as a reader of messages can tell
/// one from another.
#[derive(Debug)]
pub enum Value {
    /// Binary data.
    Data(Vec<u8>),
    /// Anything else: nothing, an integer, a status, a nested list.
    Other,
}

impl View for Value {
    type V = Option<Seq<u8>>;

    open spec fn view(&self) -> Option<Seq<u8>> {
        match *self {
            Value::Data(bytes) => Some(bytes@),
            Value::Other => None,
        }
    }
}

impl Clone for Value {
    fn clone(&self) -> (copy: Value)
        ensures
            copy@ == self@,
    {
        match self {
            Value::Data(bytes) => Value::Data(vstd::slice::slice_to_vec(bytes.as_slice())),
            Value::Other => Value::Other,
        }
    }
}

/// The views of `values`, one for one.
pub open spec fn views(values: Seq<Value>) -> Seq<Option<Seq<u8>>> {
    Seq::new(values.len(), |i: int| values[i]@)
}

/// What a reader makes of a stored value: its bytes, where it is a
/// message's stored form.
pub open spec fn reading(value: Option<Seq<u8>>) -> Result<Seq<u8>, TypeError> {
    match value {
        Some(blob) => if blob.len() == BLOB_LEN {
            Ok(blob)
        } else {
            Err(TypeError::IncorrectSize)
        },
        None => Err(TypeError::IncorrectType),
    }
}

/// Why a stored value is not a message.
#[derive(Clone, Copy, Debug, PartialEq, Eq, Structural)]
pub enum TypeError {
    /// The value is binary data, but not of 192 bytes.
    IncorrectSize,
    /// The value is not binary data.
    IncorrectType,
}

impl TypeError {
    /// The error's text.
    pub fn message(&self) -> (text: &'static str)
        ensures
            text@ == match *self {
                TypeError::IncorrectSize => "Message size is incorrect"@,
                TypeError::IncorrectType => "Data type is incorrect for a message"@,
            },
    {
        match self {
            TypeError::IncorrectSize => "Message size is incorrect",
            TypeError::IncorrectType => "Data type is incorrect for a message",
        }
    }
}

impl Message {
    /// The stored form: the data, then the signature.
    pub open spec fn blob(&self) -> Seq<u8> {
        self.data@ + self.signature@
    }

    /// Writes the stored form.
    pub fn pack(&self) -> (bytes: Vec<u8>)
        ensures
            bytes@ == self.blob(),
            bytes@.len() == BLOB_LEN,
    {
        let mut bytes: Vec<u8> = Vec::with_capacity(BLOB_LEN);
        let mut i: usize = 0;
        while i < DATA_LEN
            invariant
                i <= DATA_LEN,
                bytes@ == self.data@.subrange(0, i as int),
            decreases DATA_LEN - i,
        {
            bytes.push(self.data[i]);
            i += 1;
        }
        let mut j: usize = 0;
        while j < SIGNATURE_LEN
            invariant
                j <= SIGNATURE_LEN,
                bytes@ == self.data@ + self.signature@.subrange(0, j as int),
            decreases SIGNATURE_LEN - j,
        {
            bytes.push(self.signature[j]);
            j += 1;
        }
        bytes
    }

    /// Reads the stored form back.
    pub fn unpack(blob: &[u8]) -> (read: Result<Message, TypeError>)
        ensures
            blob@.len() == BLOB_LEN ==> read is Ok && read->Ok_0.blob() == blob@,
            blob@.len() != BLOB_LEN ==> read == Err::<Message, TypeError>(TypeError::IncorrectSize),
    {
        if blob.len() == BLOB_LEN {
            let mut data: [u8; 128] = [0u8; 128];
            let mut signature: [u8; 64] = [0u8; 64];
            let mut i: usize = 0;
            while i < DATA_LEN
                invariant
                    i <= DATA_LEN,
                    blob@.len() == BLOB_LEN,
                    forall|k: int| 0 <= k < i ==> data@[k] == blob@[k],
                decreases DATA_LEN - i,
            {
                data[i] = blob[i];
                i += 1;
            }
            let mut j: usize = 0;
            while j < SIGNATURE_LEN
                invariant
                    j <= SIGNATURE_LEN,
                    blob@.len() == BLOB_LEN,
                    forall|k: int| 0 <= k < j ==> signature@[k] == blob@[DATA_LEN + k],
                decreases SIGNATURE_LEN - j,
            {
                signature[j] = blob[DATA_LEN + j];
                j += 1;
            }
            assert(data@ + signature@ =~= blob@);
            Ok(Message { signature, data })
        } else {
            Err(TypeError::IncorrectSize)
        }
    }

    /// Reads a message from a value of the store.
    pub fn from_redis_value(v: &Value) -> (read: Result<Message, TypeError>)
        ensures
            match reading(v@) {
                Ok(blob) => read is Ok && read->Ok_0.blob() == blob,
                Err(e) => read == Err::<Message, TypeError>(e),
            },
    {
        match v {
            Value::Data(data) => Message::unpack(data.as_slice()),
            Value::Other => Err(TypeError::IncorrectType),
        }
    }

    /// Appends the stored form to `out`, as its one argument to the store.
    pub fn write_redis_args(&self, out: &mut Vec<Vec<u8>>)
        ensures
            final(out)@.len() == old(out)@.len() + 1,
            final(out)@.subrange(0, old(out)@.len() as int) == old(out)@,
            final(out)@.last()@ == self.blob(),
    {
        out.push(self.pack());
    }
}

/// Whether `read` is what a reader makes of the list `values`: the
/// messages that they store, one for one and in their order, or the error
/// of the first value that stores none.
pub open spec fn is_reading_of(read: Result<Vec<Message>, TypeError>, values: Seq<Option<Seq<u8>>>) -> bool {
    match read {
        Ok(messages) => {
            &&& messages@.len() == values.len()
            &&& forall|i: int| 0 <= i < values.len() ==> reading(#[trigger] values[i]) is Ok
            &&& forall|i: int| 0 <= i < values.len() ==> (#[trigger] messages@[i]).blob() == values[i]->Some_0
        },
        Err(e) => exists|i: int| {
            &&& 0 <= i < values.len()
            &&& reading(#[trigger] values[i]) == Err::<Seq<u8>, TypeError>(e)
            &&& forall|j: int| 0 <= j < i ==> reading(#[trigger] values[j]) is Ok
        },
    }
}

/// Reads the messages that a list of stored values holds. The first value
/// that is not a message's stored form fails the whole reading.
pub fn read_messages(values: &Vec<Value>) -> (read: Result<Vec<Message>, TypeError>)
    ensures
        is_reading_of(read, views(values@)),
{
    let ghost stored = views(values@);
    let mut messages: Vec<Message> = Vec::new();
    let mut i: usize = 0;
    while i < values.len()
        invariant
            i <= values@.len(),
            stored == views(values@),
            messages@.len() == i,
            forall|k: int| 0 <= k < i ==> reading(#[trigger] stored[k]) is Ok,
            forall|k: int| 0 <= k < i ==> (#[trigger] messages@[k]).blob() == stored[k]->Some_0,
        decreases values@.len() - i,
    {
        assert(stored[i as int] == values@[i as int]@);
        match Message::from_redis_value(&values[i]) {
            Ok(message) => {
                messages.push(message);
            },
            Err(e) => {
                assert(reading(stored[i as int]) == Err::<Seq<u8>, TypeError>(e));
                return Err(e);
            },
        }
        i += 1;
    }
    Ok(messages)
}

/// Reads the stream `stream_id` from position `offset` to position
/// `limit`, both included: `limit` is where the reading stops, not how
/// many messages it returns.
pub fn get_messages(conn: &MessageLog, stream_id: &StreamId, offset: u32, limit: u8) -> (read: Result<
    Vec<Message>,
    TypeError,
>)
    ensures
        is_reading_of(read, window(conn.stream(stream_id@), offset as nat, limit as nat)),
{
    let values = conn.range(stream_id, offset, limit);
    read_messages(&values)
}

/// Appends `message` to the stream `stream_id`, which begins with it if it
/// was not there. No other stream changes.
pub fn add_message(conn: &mut MessageLog, stream_id: &StreamId, message: Message)
    ensures
        final(conn).stream(stream_id@) == old(conn).stream(stream_id@).push(Some(message.blob())),
        forall|other: Seq<u8>| other != stream_id@ ==> final(conn).stream(other) == old(conn).stream(other),
{
    conn.append(stream_id, Value::Data(message.pack()));
}

/// A stored form is 192 bytes long.
pub proof fn lemma_blob_len(message: Message)
    ensures
        message.blob().len() == BLOB_LEN,
{
}

/// Two messages with the same stored form are the same message.
pub proof fn lemma_same_blob(message: Message, other: Message)
    requires
        message.blob() == other.blob(),
    ensures
        message == other,
{
    assert(message.data@ =~= message.blob().subrange(0, DATA_LEN as int));
    assert(other.data@ =~= message.blob().subrange(0, DATA_LEN as int));
    assert(message.signature@ =~= message.blob().subrange(DATA_LEN as int, BLOB_LEN as int));
    assert(other.signature@ =~= message.blob().subrange(DATA_LEN as int, BLOB_LEN as int));
    assert(message.data =~= other.data);
    assert(message.signature =~= other.signature);
}

/// Reading gives back what writing wrote: whatever blob `pack` returns
/// for a message, `unpack` returns that message for it.
pub proof fn lemma_unpack_pack(
    message: Message,
    packed: Vec<u8>,
    blob: &[u8],
    read: Result<Message, TypeError>,
)
    requires
        call_ensures(Message::pack, (&message,), packed),
        blob@ == packed@,
        call_ensures(Message::unpack, (blob,), read),
    ensures
        read == Ok::<Message, TypeError>(message),
{
    lemma_same_blob(read->Ok_0, message);
}

} // verus!

use vstd::prelude::*;

verus! {

/// Key of a message stream in the store.
pub type StreamId = [u8; 8];

/// Signature over a message's data.
pub type MsgSignature = [u8; 64];

/// Payload of a message.
pub type MsgData = [u8; 128];

/// A message as the store layer handles it.
#[derive(Clone, Copy, Debug)]
pub struct Message {
    pub signature: MsgSignature,
    pub data: MsgData,
}

} // verus!

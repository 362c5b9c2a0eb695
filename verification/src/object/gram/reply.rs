//! The reply gram: a server's immediate answer to a gram it received, from a
//! client or from another server. Whoever receives a reply does not answer
//! it; when no reply arrives in time, the sender sends its gram again.
use std::sync::Arc;

use bytes::Bytes;
use vstd::prelude::*;

use crate::object::client::ClientID;
use crate::object::gram::message::MessageGram;
use crate::object::gram::{
    gram_key, size_of_align_data_gram, spec_gram_key, BitCommand, BitcommFlag, BitcommVersion,
    MessageType, BITCOMM_REPLY, BITCOMM_VERSION_0_1_0_1, RESP_MASK,
};
use crate::object::{DeviceID, MessageID};
use crate::payload::{bytes_as_slice, bytes_content};
use crate::wire::{
    bytes_to_words, lemma_bytes_words_roundtrip, lemma_words_to_bytes_at, read_u32, u32_at,
    words_to_bytes, write_u32,
};

verus! {

/// Bytes of a reply gram (alignment 4).
pub const REPLY_GRAM_SIZE: usize = 44;

/// A reply. On the wire every field is little-endian, at these offsets:
/// `bitcomm` 0, `version` 4, `command` 8, `device_id` 12, `sender` 16,
/// `message_type` 24, `message_id` 28, `receiver` 32, `data_time` 40.
#[derive(Debug, Clone, Copy, PartialEq, Eq, Structural)]
pub struct ReplyGram {
    pub bitcomm: BitcommFlag,
    pub version: BitcommVersion,
    pub command: BitCommand,
    pub device_id: DeviceID,
    pub sender: ClientID,
    pub message_type: MessageType,
    pub message_id: MessageID,
    pub receiver: ClientID,
    /// Time stamp.
    pub data_time: u32,
}

impl ReplyGram {
    /// The reply that the first `REPLY_GRAM_SIZE` bytes of `b` hold.
    pub open spec fn spec_from_bytes(b: Seq<u8>) -> ReplyGram {
        ReplyGram {
            bitcomm: u32_at(b, 0),
            version: u32_at(b, 4),
            command: u32_at(b, 8),
            device_id: u32_at(b, 12),
            sender: ClientID { planet: u32_at(b, 16), object: u32_at(b, 20) },
            message_type: u32_at(b, 24),
            message_id: u32_at(b, 28),
            receiver: ClientID { planet: u32_at(b, 32), object: u32_at(b, 36) },
            data_time: u32_at(b, 40),
        }
    }

    /// The header's fields as little-endian words, in wire order.
    pub open spec fn spec_words(self) -> Seq<u32> {
        seq![self.bitcomm, self.version, self.command, self.device_id, self.sender.planet, self.sender.object, self.message_type, self.message_id, self.receiver.planet, self.receiver.object, self.data_time]
    }

    /// The bytes of the gram on the wire.
    pub open spec fn spec_to_bytes(self) -> Seq<u8> {
        words_to_bytes(self.spec_words())
    }

    /// A gram put on the wire reads back as itself, and is recognised by its
    /// flag exactly when that flag is the gram's own.
    pub proof fn lemma_decode_encode(g: ReplyGram)
        ensures
            g.spec_to_bytes().len() == REPLY_GRAM_SIZE,
            Self::spec_from_bytes(g.spec_to_bytes()) == g,
            Self::spec_is_reply(g.spec_to_bytes()) <==> g.bitcomm == BITCOMM_REPLY,
    {
        lemma_words_to_bytes_at(g.spec_words(), 0);
        lemma_words_to_bytes_at(g.spec_words(), 1);
        lemma_words_to_bytes_at(g.spec_words(), 2);
        lemma_words_to_bytes_at(g.spec_words(), 3);
        lemma_words_to_bytes_at(g.spec_words(), 4);
        lemma_words_to_bytes_at(g.spec_words(), 5);
        lemma_words_to_bytes_at(g.spec_words(), 6);
        lemma_words_to_bytes_at(g.spec_words(), 7);
        lemma_words_to_bytes_at(g.spec_words(), 8);
        lemma_words_to_bytes_at(g.spec_words(), 9);
        lemma_words_to_bytes_at(g.spec_words(), 10);
    }

    /// A buffer of exactly one gram is the wire form of the gram it holds.
    pub proof fn lemma_encode_decode(b: Seq<u8>)
        requires
            b.len() == REPLY_GRAM_SIZE,
        ensures
            Self::spec_from_bytes(b).spec_to_bytes() == b,
    {
        assert(Self::spec_from_bytes(b).spec_words() =~= bytes_to_words(b, 11));
        lemma_bytes_words_roundtrip(b, 11);
    }

    /// `b` is exactly one reply gram.
    pub open spec fn spec_is_reply(b: Seq<u8>) -> bool {
        b.len() == REPLY_GRAM_SIZE && u32_at(b, 0) == BITCOMM_REPLY
    }

    /// The reply that the server sends back for `message`, with `data_time` as given.
    pub open spec fn spec_reply_to(message: MessageGram, data_time: u32) -> ReplyGram {
        ReplyGram {
            bitcomm: BITCOMM_REPLY,
            version: BITCOMM_VERSION_0_1_0_1,
            command: message.command | RESP_MASK,
            device_id: message.device_id,
            sender: message.sender,
            message_type: message.message_type,
            message_id: message.message_id,
            receiver: message.receiver,
            data_time,
        }
    }

    pub fn get_reply_gram_key(&self) -> (r: u128)
        ensures
            r == spec_gram_key(self.sender, self.receiver, self.message_id),
    {
        gram_key(self.sender, self.receiver, self.message_id)
    }

    /// `data_array` is exactly a four-byte reply flag.
    pub fn is_bitcomm_reply_flag(data_array: &[u8]) -> (r: bool)
        ensures
            r == (data_array@.len() == 4 && u32_at(data_array@, 0) == BITCOMM_REPLY),
    {
        if data_array.len() == 4 {
            return read_u32(data_array, 0) == BITCOMM_REPLY;
        }
        false
    }

    /// The flag in the first four bytes of `gram_buf`.
    pub fn get_bitcomm_flag_by_u8(gram_buf: &[u8]) -> (r: BitcommFlag)
        requires
            gram_buf@.len() >= 4,
        ensures
            r == u32_at(gram_buf@, 0),
    {
        read_u32(gram_buf, 0)
    }

    pub fn is_reply(data_array: &[u8]) -> (r: bool)
        ensures
            r == Self::spec_is_reply(data_array@),
    {
        if data_array.len() == Self::get_size() {
            read_u32(data_array, 0) == BITCOMM_REPLY
        } else {
            false
        }
    }

    /// The reply at the start of `gram_buf`.
    pub fn get_reply_gram_by_u8(gram_buf: &[u8]) -> (r: ReplyGram)
        requires
            gram_buf@.len() >= REPLY_GRAM_SIZE,
        ensures
            r == Self::spec_from_bytes(gram_buf@),
    {
        ReplyGram {
            bitcomm: read_u32(gram_buf, 0),
            version: read_u32(gram_buf, 4),
            command: read_u32(gram_buf, 8),
            device_id: read_u32(gram_buf, 12),
            sender: ClientID { planet: read_u32(gram_buf, 16), object: read_u32(gram_buf, 20) },
            message_type: read_u32(gram_buf, 24),
            message_id: read_u32(gram_buf, 28),
            receiver: ClientID { planet: read_u32(gram_buf, 32), object: read_u32(gram_buf, 36) },
            data_time: read_u32(gram_buf, 40),
        }
    }

    /// The reply at the start of a shared buffer.
    pub fn get_reply_gram_by_bytes(gram_buf: &Arc<Bytes>) -> (r: ReplyGram)
        requires
            bytes_content(**gram_buf).len() >= REPLY_GRAM_SIZE,
        ensures
            r == Self::spec_from_bytes(bytes_content(**gram_buf)),
    {
        let bytes: &Bytes = &**gram_buf;
        Self::get_reply_gram_by_u8(bytes_as_slice(bytes))
    }

    /// Writes every field of `self` into the first `REPLY_GRAM_SIZE` bytes of
    /// `gram_buf`; the bytes after them stay as they were.
    pub fn write_to_u8(&self, gram_buf: &mut [u8])
        requires
            old(gram_buf)@.len() >= REPLY_GRAM_SIZE,
        ensures
            final(gram_buf)@.len() == old(gram_buf)@.len(),
            Self::spec_from_bytes(final(gram_buf)@) == *self,
            forall|i: int|
                REPLY_GRAM_SIZE <= i < old(gram_buf)@.len() ==> final(gram_buf)@[i] == old(gram_buf)@[i],
    {
        write_u32(gram_buf, 0, self.bitcomm);
        write_u32(gram_buf, 4, self.version);
        write_u32(gram_buf, 8, self.command);
        write_u32(gram_buf, 12, self.device_id);
        write_u32(gram_buf, 16, self.sender.planet);
        write_u32(gram_buf, 20, self.sender.object);
        write_u32(gram_buf, 24, self.message_type);
        write_u32(gram_buf, 28, self.message_id);
        write_u32(gram_buf, 32, self.receiver.planet);
        write_u32(gram_buf, 36, self.receiver.object);
        write_u32(gram_buf, 40, self.data_time);
    }

    /// The same as `create_reply_gram_by_mut_u8` on the vector's bytes.
    pub fn create_reply_gram_by_mut_vec8(byte_array: &mut Vec<u8>) -> (r: ReplyGram)
        requires
            old(byte_array)@.len() >= REPLY_GRAM_SIZE,
        ensures
            final(byte_array)@.len() == old(byte_array)@.len(),
            r == Self::spec_from_bytes(final(byte_array)@),
            r == (ReplyGram { bitcomm: BITCOMM_REPLY, ..Self::spec_from_bytes(old(byte_array)@) }),
            forall|i: int| 4 <= i < old(byte_array)@.len() ==> final(byte_array)@[i] == old(byte_array)@[i],
    {
        let gram_buf: &mut [u8] = byte_array.as_mut_slice();
        Self::create_reply_gram_by_mut_u8(gram_buf)
    }

    /// Marks the start of `gram_buf` as a reply (only the flag is written)
    /// and returns the reply the buffer now holds.
    pub fn create_reply_gram_by_mut_u8(gram_buf: &mut [u8]) -> (r: ReplyGram)
        requires
            old(gram_buf)@.len() >= REPLY_GRAM_SIZE,
        ensures
            final(gram_buf)@.len() == old(gram_buf)@.len(),
            r == Self::spec_from_bytes(final(gram_buf)@),
            r == (ReplyGram { bitcomm: BITCOMM_REPLY, ..Self::spec_from_bytes(old(gram_buf)@) }),
            forall|i: int| 4 <= i < old(gram_buf)@.len() ==> final(gram_buf)@[i] == old(gram_buf)@[i],
    {
        write_u32(gram_buf, 0, BITCOMM_REPLY);
        Self::get_reply_gram_by_u8(gram_buf)
    }

    pub fn get_size() -> (r: usize)
        ensures
            r == REPLY_GRAM_SIZE,
    {
        size_of_align_data_gram(REPLY_GRAM_SIZE, 4)
    }

    /// A zeroed buffer for a reply and `data_size` more bytes.
    pub fn create_gram_buf(data_size: usize) -> (r: Vec<u8>)
        requires
            data_size + REPLY_GRAM_SIZE <= usize::MAX,
        ensures
            r@ == Seq::new((data_size + REPLY_GRAM_SIZE) as nat, |i: int| 0u8),
    {
        let vec_u8: Vec<u8> = vec![0x00; data_size + Self::get_size()];
        assert(vec_u8@ =~= Seq::new((data_size + REPLY_GRAM_SIZE) as nat, |i: int| 0u8));
        vec_u8
    }

    /// Writes into `gram_buf` the reply to `message`; the time stamp already
    /// in the buffer is kept. Returns the reply.
    pub fn create_reply_from_message(gram_buf: &mut [u8], message: &MessageGram) -> (r: ReplyGram)
        requires
            old(gram_buf)@.len() >= REPLY_GRAM_SIZE,
        ensures
            r == Self::spec_reply_to(*message, u32_at(old(gram_buf)@, 40)),
            final(gram_buf)@.len() == old(gram_buf)@.len(),
            Self::spec_from_bytes(final(gram_buf)@) == r,
            forall|i: int| 40 <= i < old(gram_buf)@.len() ==> final(gram_buf)@[i] == old(gram_buf)@[i],
    {
        let mut reply = Self::create_reply_gram_by_mut_u8(gram_buf);
        reply.bitcomm = BITCOMM_REPLY;
        reply.command = message.command | RESP_MASK;
        reply.version = BITCOMM_VERSION_0_1_0_1;
        reply.device_id = message.device_id;
        reply.sender = message.sender;
        reply.message_type = message.message_type;
        reply.message_id = message.message_id;
        reply.receiver = message.receiver;
        let ghost mid = gram_buf@;
        reply.write_to_u8(gram_buf);
        proof {
            crate::wire::lemma_u32_at_injective(gram_buf@, mid, 40);
        }
        reply
    }
}


/// Field accessors.
impl ReplyGram {
    pub fn bitcomm(&self) -> (r: BitcommFlag)
        ensures
            r == self.bitcomm,
    {
        self.bitcomm
    }

    pub fn set_bitcomm(&mut self, val: BitcommFlag)
        ensures
            *final(self) == (ReplyGram { bitcomm: val, ..*old(self) }),
    {
        self.bitcomm = val;
    }

    pub fn version(&self) -> (r: BitcommVersion)
        ensures
            r == self.version,
    {
        self.version
    }

    pub fn set_version(&mut self, val: BitcommVersion)
        ensures
            *final(self) == (ReplyGram { version: val, ..*old(self) }),
    {
        self.version = val;
    }

    pub fn command(&self) -> (r: BitCommand)
        ensures
            r == self.command,
    {
        self.command
    }

    pub fn set_command(&mut self, val: BitCommand)
        ensures
            *final(self) == (ReplyGram { command: val, ..*old(self) }),
    {
        self.command = val;
    }

    pub fn device_id(&self) -> (r: DeviceID)
        ensures
            r == self.device_id,
    {
        self.device_id
    }

    pub fn set_device_id(&mut self, val: DeviceID)
        ensures
            *final(self) == (ReplyGram { device_id: val, ..*old(self) }),
    {
        self.device_id = val;
    }

    pub fn sender(&self) -> (r: ClientID)
        ensures
            r == self.sender,
    {
        self.sender
    }

    pub fn set_sender(&mut self, val: ClientID)
        ensures
            *final(self) == (ReplyGram { sender: val, ..*old(self) }),
    {
        self.sender = val;
    }

    pub fn message_type(&self) -> (r: MessageType)
        ensures
            r == self.message_type,
    {
        self.message_type
    }

    pub fn set_message_type(&mut self, val: MessageType)
        ensures
            *final(self) == (ReplyGram { message_type: val, ..*old(self) }),
    {
        self.message_type = val;
    }

    pub fn message_id(&self) -> (r: MessageID)
        ensures
            r == self.message_id,
    {
        self.message_id
    }

    pub fn set_message_id(&mut self, val: MessageID)
        ensures
            *final(self) == (ReplyGram { message_id: val, ..*old(self) }),
    {
        self.message_id = val;
    }

    pub fn receiver(&self) -> (r: ClientID)
        ensures
            r == self.receiver,
    {
        self.receiver
    }

    pub fn set_receiver(&mut self, val: ClientID)
        ensures
            *final(self) == (ReplyGram { receiver: val, ..*old(self) }),
    {
        self.receiver = val;
    }

    pub fn data_time(&self) -> (r: u32)
        ensures
            r == self.data_time,
    {
        self.data_time
    }

    pub fn set_data_time(&mut self, val: u32)
        ensures
            *final(self) == (ReplyGram { data_time: val, ..*old(self) }),
    {
        self.data_time = val;
    }

}

} // verus!

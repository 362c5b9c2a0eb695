//! The receipt gram: the receiver's acknowledgement of a message.
use vstd::prelude::*;

use crate::object::client::ClientID;
use crate::object::gram::{
    gram_key, size_of_align_data_gram, spec_gram_key, BitCommand, BitcommFlag, BitcommVersion,
    MessageType, BITCOMM_RECEIPT, BITCOMM_VERSION_0_1_0_1, RESP_MASK,
};
use crate::object::{DeviceID, MessageID};
use crate::wire::{
    bytes_to_words, lemma_bytes_words_roundtrip, lemma_words_to_bytes_at, read_u32, u32_at,
    words_to_bytes, write_u32,
};

verus! {

/// Bytes of a receipt gram (alignment 4).
pub const RECEIPT_GRAM_SIZE: usize = 48;

/// A receipt. On the wire every field is little-endian, at these offsets:
/// `bitcomm` 0, `version` 4, `command` 8, `device_id` 12, `sender` 16,
/// `message_type` 24, `message_id` 28, `ref_message_id` 32, `receiver` 36,
/// `data_time` 44.
#[derive(Debug, Clone, Copy, PartialEq, Eq, Structural)]
pub struct ReceiptGram {
    pub bitcomm: BitcommFlag,
    pub version: BitcommVersion,
    pub command: BitCommand,
    pub device_id: DeviceID,
    pub sender: ClientID,
    pub message_type: MessageType,
    pub message_id: MessageID,
    pub ref_message_id: MessageID,
    pub receiver: ClientID,
    /// Time stamp.
    pub data_time: u32,
}

impl ReceiptGram {
    /// The receipt that the first `RECEIPT_GRAM_SIZE` bytes of `b` hold.
    pub open spec fn spec_from_bytes(b: Seq<u8>) -> ReceiptGram {
        ReceiptGram {
            bitcomm: u32_at(b, 0),
            version: u32_at(b, 4),
            command: u32_at(b, 8),
            device_id: u32_at(b, 12),
            sender: ClientID { planet: u32_at(b, 16), object: u32_at(b, 20) },
            message_type: u32_at(b, 24),
            message_id: u32_at(b, 28),
            ref_message_id: u32_at(b, 32),
            receiver: ClientID { planet: u32_at(b, 36), object: u32_at(b, 40) },
            data_time: u32_at(b, 44),
        }
    }

    /// The header's fields as little-endian words, in wire order.
    pub open spec fn spec_words(self) -> Seq<u32> {
        seq![self.bitcomm, self.version, self.command, self.device_id, self.sender.planet, self.sender.object, self.message_type, self.message_id, self.ref_message_id, self.receiver.planet, self.receiver.object, self.data_time]
    }

    /// The bytes of the gram on the wire.
    pub open spec fn spec_to_bytes(self) -> Seq<u8> {
        words_to_bytes(self.spec_words())
    }

    /// A gram put on the wire reads back as itself, and is recognised by its
    /// flag exactly when that flag is the gram's own.
    pub proof fn lemma_decode_encode(g: ReceiptGram)
        ensures
            g.spec_to_bytes().len() == RECEIPT_GRAM_SIZE,
            Self::spec_from_bytes(g.spec_to_bytes()) == g,
            Self::spec_is_receipt(g.spec_to_bytes()) <==> g.bitcomm == BITCOMM_RECEIPT,
    {
        lemma_words_to_bytes_at(g.spec_words(), 0);
        lemma_words_to_bytes_at(g.spec_words(), 1);
        lemma_words_to_bytes_at(g.spec_words(), 2);
        lemma_words_to_bytes_at(g.spec_words(), 3);
        lemma_words_to_bytes_at(g.spec_words(), 4);
        lemma_words_to_bytes_at(g.spec_words(), 5);
        lemma_words_to_bytes_at(g.spec_words(), 6);
        lemma_words_to_bytes_at(g.spec_words(), 7);
        lemma_words_to_bytes_at(g.spec_words(), 8);
        lemma_words_to_bytes_at(g.spec_words(), 9);
        lemma_words_to_bytes_at(g.spec_words(), 10);
        lemma_words_to_bytes_at(g.spec_words(), 11);
    }

    /// A buffer of exactly one gram is the wire form of the gram it holds.
    pub proof fn lemma_encode_decode(b: Seq<u8>)
        requires
            b.len() == RECEIPT_GRAM_SIZE,
        ensures
            Self::spec_from_bytes(b).spec_to_bytes() == b,
    {
        assert(Self::spec_from_bytes(b).spec_words() =~= bytes_to_words(b, 12));
        lemma_bytes_words_roundtrip(b, 12);
    }

    /// `b` is exactly one receipt gram.
    pub open spec fn spec_is_receipt(b: Seq<u8>) -> bool {
        b.len() == RECEIPT_GRAM_SIZE && u32_at(b, 0) == BITCOMM_RECEIPT
    }

    pub fn get_receipt_gram_key(&self) -> (r: u128)
        ensures
            r == spec_gram_key(self.sender, self.receiver, self.message_id),
    {
        gram_key(self.sender, self.receiver, self.message_id)
    }

    /// The flag in the first four bytes of `gram_buf`.
    pub fn get_bitcomm_flag_by_u8(gram_buf: &[u8]) -> (r: BitcommFlag)
        requires
            gram_buf@.len() >= 4,
        ensures
            r == u32_at(gram_buf@, 0),
    {
        read_u32(gram_buf, 0)
    }

    pub fn is_receipt(data_array: &[u8]) -> (r: bool)
        ensures
            r == Self::spec_is_receipt(data_array@),
    {
        if data_array.len() == Self::get_size() {
            read_u32(data_array, 0) == BITCOMM_RECEIPT
        } else {
            false
        }
    }

    /// The receipt at the start of `gram_buf`.
    pub fn get_receipt_gram_by_u8(gram_buf: &[u8]) -> (r: ReceiptGram)
        requires
            gram_buf@.len() >= RECEIPT_GRAM_SIZE,
        ensures
            r == Self::spec_from_bytes(gram_buf@),
    {
        ReceiptGram {
            bitcomm: read_u32(gram_buf, 0),
            version: read_u32(gram_buf, 4),
            command: read_u32(gram_buf, 8),
            device_id: read_u32(gram_buf, 12),
            sender: ClientID { planet: read_u32(gram_buf, 16), object: read_u32(gram_buf, 20) },
            message_type: read_u32(gram_buf, 24),
            message_id: read_u32(gram_buf, 28),
            ref_message_id: read_u32(gram_buf, 32),
            receiver: ClientID { planet: read_u32(gram_buf, 36), object: read_u32(gram_buf, 40) },
            data_time: read_u32(gram_buf, 44),
        }
    }

    /// Writes every field of `self` into the first `RECEIPT_GRAM_SIZE` bytes of
    /// `gram_buf`; the bytes after them stay as they were.
    pub fn write_to_u8(&self, gram_buf: &mut [u8])
        requires
            old(gram_buf)@.len() >= RECEIPT_GRAM_SIZE,
        ensures
            final(gram_buf)@.len() == old(gram_buf)@.len(),
            Self::spec_from_bytes(final(gram_buf)@) == *self,
            forall|i: int|
                RECEIPT_GRAM_SIZE <= i < old(gram_buf)@.len() ==> final(gram_buf)@[i] == old(gram_buf)@[i],
    {
        write_u32(gram_buf, 0, self.bitcomm);
        write_u32(gram_buf, 4, self.version);
        write_u32(gram_buf, 8, self.command);
        write_u32(gram_buf, 12, self.device_id);
        write_u32(gram_buf, 16, self.sender.planet);
        write_u32(gram_buf, 20, self.sender.object);
        write_u32(gram_buf, 24, self.message_type);
        write_u32(gram_buf, 28, self.message_id);
        write_u32(gram_buf, 32, self.ref_message_id);
        write_u32(gram_buf, 36, self.receiver.planet);
        write_u32(gram_buf, 40, self.receiver.object);
        write_u32(gram_buf, 44, self.data_time);
    }

    /// Marks the start of `gram_buf` as a receipt of the current version and
    /// returns the receipt the buffer now holds.
    pub fn create_receipt_gram_by_mut_u8(gram_buf: &mut [u8]) -> (r: ReceiptGram)
        requires
            old(gram_buf)@.len() >= RECEIPT_GRAM_SIZE,
        ensures
            final(gram_buf)@.len() == old(gram_buf)@.len(),
            r == Self::spec_from_bytes(final(gram_buf)@),
            r == (ReceiptGram {
                bitcomm: BITCOMM_RECEIPT,
                version: BITCOMM_VERSION_0_1_0_1,
                ..Self::spec_from_bytes(old(gram_buf)@)
            }),
            forall|i: int|
                8 <= i < old(gram_buf)@.len() ==> final(gram_buf)@[i] == old(gram_buf)@[i],
    {
        write_u32(gram_buf, 0, BITCOMM_RECEIPT);
        write_u32(gram_buf, 4, BITCOMM_VERSION_0_1_0_1);
        Self::get_receipt_gram_by_u8(gram_buf)
    }

    /// The same as `create_receipt_gram_by_mut_u8` on the vector's bytes.
    pub fn create_receipt_gram_by_mut_vec8(byte_array: &mut Vec<u8>) -> (r: ReceiptGram)
        requires
            old(byte_array)@.len() >= RECEIPT_GRAM_SIZE,
        ensures
            final(byte_array)@.len() == old(byte_array)@.len(),
            r == Self::spec_from_bytes(final(byte_array)@),
            r == (ReceiptGram {
                bitcomm: BITCOMM_RECEIPT,
                version: BITCOMM_VERSION_0_1_0_1,
                ..Self::spec_from_bytes(old(byte_array)@)
            }),
            forall|i: int|
                8 <= i < old(byte_array)@.len() ==> final(byte_array)@[i] == old(byte_array)@[i],
    {
        let gram_buf: &mut [u8] = byte_array.as_mut_slice();
        Self::create_receipt_gram_by_mut_u8(gram_buf)
    }

    pub fn get_size() -> (r: usize)
        ensures
            r == RECEIPT_GRAM_SIZE,
    {
        size_of_align_data_gram(RECEIPT_GRAM_SIZE, 4)
    }

    /// A zeroed buffer for a receipt and `data_size` more bytes.
    pub fn create_gram_buf(data_size: usize) -> (r: Vec<u8>)
        requires
            data_size + RECEIPT_GRAM_SIZE <= usize::MAX,
        ensures
            r@ == Seq::new((data_size + RECEIPT_GRAM_SIZE) as nat, |i: int| 0u8),
    {
        let vec_u8: Vec<u8> = vec![0x00; data_size + Self::get_size()];
        assert(vec_u8@ =~= Seq::new((data_size + RECEIPT_GRAM_SIZE) as nat, |i: int| 0u8));
        vec_u8
    }

    /// Writes into `buf` the answer to `value`: the same receipt with the
    /// response bit set in `command`; returns it.
    pub fn create_receipt_gram_from_gram(buf: &mut [u8], value: &ReceiptGram) -> (r: ReceiptGram)
        requires
            old(buf)@.len() >= RECEIPT_GRAM_SIZE,
        ensures
            r == (ReceiptGram { command: value.command | RESP_MASK, ..*value }),
            final(buf)@.len() == old(buf)@.len(),
            Self::spec_from_bytes(final(buf)@) == r,
            forall|i: int| RECEIPT_GRAM_SIZE <= i < old(buf)@.len() ==> final(buf)@[i] == old(buf)@[i],
    {
        let _ = Self::create_receipt_gram_by_mut_u8(buf);
        let mut receipt = *value;
        receipt.bitcomm = value.bitcomm;
        receipt.command = value.command | RESP_MASK;
        receipt.write_to_u8(buf);
        receipt
    }
}


/// Field accessors.
impl ReceiptGram {
    pub fn bitcomm(&self) -> (r: BitcommFlag)
        ensures
            r == self.bitcomm,
    {
        self.bitcomm
    }

    pub fn set_bitcomm(&mut self, val: BitcommFlag)
        ensures
            *final(self) == (ReceiptGram { bitcomm: val, ..*old(self) }),
    {
        self.bitcomm = val;
    }

    pub fn version(&self) -> (r: BitcommVersion)
        ensures
            r == self.version,
    {
        self.version
    }

    pub fn set_version(&mut self, val: BitcommVersion)
        ensures
            *final(self) == (ReceiptGram { version: val, ..*old(self) }),
    {
        self.version = val;
    }

    pub fn command(&self) -> (r: BitCommand)
        ensures
            r == self.command,
    {
        self.command
    }

    pub fn set_command(&mut self, val: BitCommand)
        ensures
            *final(self) == (ReceiptGram { command: val, ..*old(self) }),
    {
        self.command = val;
    }

    pub fn device_id(&self) -> (r: DeviceID)
        ensures
            r == self.device_id,
    {
        self.device_id
    }

    pub fn set_device_id(&mut self, val: DeviceID)
        ensures
            *final(self) == (ReceiptGram { device_id: val, ..*old(self) }),
    {
        self.device_id = val;
    }

    pub fn sender(&self) -> (r: ClientID)
        ensures
            r == self.sender,
    {
        self.sender
    }

    pub fn set_sender(&mut self, val: ClientID)
        ensures
            *final(self) == (ReceiptGram { sender: val, ..*old(self) }),
    {
        self.sender = val;
    }

    pub fn message_type(&self) -> (r: MessageType)
        ensures
            r == self.message_type,
    {
        self.message_type
    }

    pub fn set_message_type(&mut self, val: MessageType)
        ensures
            *final(self) == (ReceiptGram { message_type: val, ..*old(self) }),
    {
        self.message_type = val;
    }

    pub fn message_id(&self) -> (r: MessageID)
        ensures
            r == self.message_id,
    {
        self.message_id
    }

    pub fn set_message_id(&mut self, val: MessageID)
        ensures
            *final(self) == (ReceiptGram { message_id: val, ..*old(self) }),
    {
        self.message_id = val;
    }

    pub fn ref_message_id(&self) -> (r: MessageID)
        ensures
            r == self.ref_message_id,
    {
        self.ref_message_id
    }

    pub fn set_ref_message_id(&mut self, val: MessageID)
        ensures
            *final(self) == (ReceiptGram { ref_message_id: val, ..*old(self) }),
    {
        self.ref_message_id = val;
    }

    pub fn receiver(&self) -> (r: ClientID)
        ensures
            r == self.receiver,
    {
        self.receiver
    }

    pub fn set_receiver(&mut self, val: ClientID)
        ensures
            *final(self) == (ReceiptGram { receiver: val, ..*old(self) }),
    {
        self.receiver = val;
    }

    pub fn data_time(&self) -> (r: u32)
        ensures
            r == self.data_time,
    {
        self.data_time
    }

    pub fn set_data_time(&mut self, val: u32)
        ensures
            *final(self) == (ReceiptGram { data_time: val, ..*old(self) }),
    {
        self.data_time = val;
    }

}

} // verus!

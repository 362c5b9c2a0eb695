//! The message gram: a header of `MESSAGE_GRAM_SIZE` bytes followed by the
//! message's data.
use vstd::prelude::*;

use crate::object::client::ClientID;
use crate::object::gram::{
    gram_key, size_of_align_data_gram, spec_gram_key, BitCommand, BitcommFlag, BitcommVersion,
    MessageType, BITCOMM_MESSAGE, BITCOMM_VERSION_0_1_0_1, RESP_MASK,
};
use crate::object::{DeviceID, MessageID};
use crate::wire::{read_u32, read_u64, u32_at, u64_at, write_u32, write_u64};

verus! {

/// Bytes of a message gram header (alignment 8).
pub const MESSAGE_GRAM_SIZE: usize = 80;

/// The header of a message. On the wire every field is little-endian, at
/// these offsets: `bitcomm` 0, `version` 4, `command` 8, `device_id` 12,
/// `sender` 16 (planet, then object), `message_type` 24, `message_id` 28,
/// `ref_message_id` 32, `receiver` 36, four bytes of padding at 44,
/// `reserve1` 48, `reserve2` 56, `reserve3` 64, `reserve4` 68, `data_time`
/// 72, `data_size` 76.
#[derive(Debug, Clone, Copy, PartialEq, Eq, Structural)]
pub struct MessageGram {
    pub bitcomm: BitcommFlag,
    pub version: BitcommVersion,
    pub command: BitCommand,
    pub device_id: DeviceID,
    pub sender: ClientID,
    pub message_type: MessageType,
    pub message_id: MessageID,
    pub ref_message_id: MessageID,
    pub receiver: ClientID,
    pub reserve1: u64,
    pub reserve2: u64,
    pub reserve3: u32,
    pub reserve4: u32,
    /// Time stamp.
    pub data_time: u32,
    pub data_size: u32,
}

impl MessageGram {
    /// The header that the first `MESSAGE_GRAM_SIZE` bytes of `b` hold.
    pub open spec fn spec_from_bytes(b: Seq<u8>) -> MessageGram {
        MessageGram {
            bitcomm: u32_at(b, 0),
            version: u32_at(b, 4),
            command: u32_at(b, 8),
            device_id: u32_at(b, 12),
            sender: ClientID { planet: u32_at(b, 16), object: u32_at(b, 20) },
            message_type: u32_at(b, 24),
            message_id: u32_at(b, 28),
            ref_message_id: u32_at(b, 32),
            receiver: ClientID { planet: u32_at(b, 36), object: u32_at(b, 40) },
            reserve1: u64_at(b, 48),
            reserve2: u64_at(b, 56),
            reserve3: u32_at(b, 64),
            reserve4: u32_at(b, 68),
            data_time: u32_at(b, 72),
            data_size: u32_at(b, 76),
        }
    }

    /// Byte `i` of the header belongs to a field (not to the padding at 44).
    pub open spec fn is_field_byte(i: int) -> bool {
        0 <= i < 44 || 48 <= i < 80
    }

    /// `b` holds a message gram: it is long enough and starts with the flag.
    pub open spec fn spec_is_message(b: Seq<u8>) -> bool {
        b.len() >= MESSAGE_GRAM_SIZE && u32_at(b, 0) == BITCOMM_MESSAGE
    }

    /// sender's identity | receiver's object | message id
    pub fn get_message_gram_key(&self) -> (r: u128)
        ensures
            r == spec_gram_key(self.sender, self.receiver, self.message_id),
    {
        gram_key(self.sender, self.receiver, self.message_id)
    }

    /// Copies `src_data` into `des_data` from offset `data_size` to its end.
    pub fn copy_data2tail(&self, src_data: &[u8], des_data: &mut [u8])
        requires
            self.data_size <= old(des_data)@.len(),
            src_data@.len() == old(des_data)@.len() - self.data_size,
        ensures
            final(des_data)@ == old(des_data)@.subrange(0, self.data_size as int) + src_data@,
    {
        let begin_index = self.data_size as usize;
        let end_index = des_data.len();
        let mut i: usize = 0;
        while begin_index + i < end_index
            invariant
                begin_index == self.data_size,
                end_index == des_data@.len(),
                end_index == old(des_data)@.len(),
                src_data@.len() == end_index - begin_index,
                begin_index + i <= end_index,
                des_data@ =~= old(des_data)@.subrange(0, begin_index as int) + src_data@.subrange(
                    0,
                    i as int,
                ) + old(des_data)@.subrange(begin_index + i, end_index as int),
            decreases end_index - begin_index - i,
        {
            des_data[begin_index + i] = src_data[i];
            i = i + 1;
        }
        assert(src_data@.subrange(0, i as int) =~= src_data@);
    }

    pub fn get_size() -> (r: usize)
        ensures
            r == MESSAGE_GRAM_SIZE,
    {
        size_of_align_data_gram(MESSAGE_GRAM_SIZE, 8)
    }

    pub fn is_message(data_array: &[u8]) -> (r: bool)
        ensures
            r == Self::spec_is_message(data_array@),
    {
        if data_array.len() >= Self::get_size() {
            read_u32(data_array, 0) == BITCOMM_MESSAGE
        } else {
            false
        }
    }

    /// A buffer of a zeroed header followed by `source`.
    pub fn create_gram_data_buf(source: &[u8]) -> (r: Vec<u8>)
        requires
            source@.len() + MESSAGE_GRAM_SIZE <= usize::MAX,
        ensures
            r@ == Seq::new(MESSAGE_GRAM_SIZE as nat, |i: int| 0u8) + source@,
    {
        let md_len = Self::get_size();
        let mut vec_u8: Vec<u8> = vec![0x00; source.len() + md_len];
        let mut i: usize = 0;
        while i < source.len()
            invariant
                md_len == MESSAGE_GRAM_SIZE,
                source@.len() + MESSAGE_GRAM_SIZE <= usize::MAX,
                vec_u8@.len() == source@.len() + md_len,
                i <= source@.len(),
                forall|k: int| 0 <= k < md_len ==> vec_u8@[k] == 0u8,
                forall|k: int| md_len <= k < md_len + i ==> vec_u8@[k] == source@[k - md_len],
                forall|k: int| md_len + i <= k < vec_u8@.len() ==> vec_u8@[k] == 0u8,
            decreases source@.len() - i,
        {
            vec_u8.set(md_len + i, source[i]);
            i = i + 1;
        }
        assert(vec_u8@ =~= Seq::new(MESSAGE_GRAM_SIZE as nat, |i: int| 0u8) + source@);
        vec_u8
    }

    /// A zeroed buffer for a header and `data_size` bytes of data.
    pub fn create_gram_buf(data_size: usize) -> (r: Vec<u8>)
        requires
            data_size + MESSAGE_GRAM_SIZE <= usize::MAX,
        ensures
            r@ == Seq::new((data_size + MESSAGE_GRAM_SIZE) as nat, |i: int| 0u8),
    {
        let vec_u8: Vec<u8> = vec![0x00; data_size + Self::get_size()];
        assert(vec_u8@ =~= Seq::new((data_size + MESSAGE_GRAM_SIZE) as nat, |i: int| 0u8));
        vec_u8
    }

    /// Writes every field of `self` into the header at the start of `gram_buf`;
    /// the padding and the data after the header stay as they were.
    pub fn write_to_u8(&self, gram_buf: &mut [u8])
        requires
            old(gram_buf)@.len() >= MESSAGE_GRAM_SIZE,
        ensures
            final(gram_buf)@.len() == old(gram_buf)@.len(),
            Self::spec_from_bytes(final(gram_buf)@) == *self,
            forall|i: int|
                0 <= i < old(gram_buf)@.len() && !Self::is_field_byte(i) ==> final(gram_buf)@[i]
                    == old(gram_buf)@[i],
    {
        write_u32(gram_buf, 0, self.bitcomm);
        write_u32(gram_buf, 4, self.version);
        write_u32(gram_buf, 8, self.command);
        write_u32(gram_buf, 12, self.device_id);
        write_u32(gram_buf, 16, self.sender.planet);
        write_u32(gram_buf, 20, self.sender.object);
        write_u32(gram_buf, 24, self.message_type);
        write_u32(gram_buf, 28, self.message_id);
        write_u32(gram_buf, 32, self.ref_message_id);
        write_u32(gram_buf, 36, self.receiver.planet);
        write_u32(gram_buf, 40, self.receiver.object);
        write_u64(gram_buf, 48, self.reserve1);
        write_u64(gram_buf, 56, self.reserve2);
        write_u32(gram_buf, 64, self.reserve3);
        write_u32(gram_buf, 68, self.reserve4);
        write_u32(gram_buf, 72, self.data_time);
        write_u32(gram_buf, 76, self.data_size);
    }

    /// Marks the header at the start of `gram_buf` as a message of the current
    /// version whose data is the rest of the buffer (its length, as a `u32`,
    /// goes into `data_size`), and returns the header the buffer now holds.
    pub fn create_message_data_gram_by_mut_u8(gram_buf: &mut [u8]) -> (r: MessageGram)
        requires
            old(gram_buf)@.len() >= MESSAGE_GRAM_SIZE,
        ensures
            final(gram_buf)@.len() == old(gram_buf)@.len(),
            r == Self::spec_from_bytes(final(gram_buf)@),
            r == (MessageGram {
                bitcomm: BITCOMM_MESSAGE,
                version: BITCOMM_VERSION_0_1_0_1,
                data_size: (old(gram_buf)@.len() - MESSAGE_GRAM_SIZE) as u32,
                ..Self::spec_from_bytes(old(gram_buf)@)
            }),
            forall|i: int|
                0 <= i < old(gram_buf)@.len() && !(0 <= i < 8) && !(76 <= i < 80) ==> final(gram_buf)@[i] == old(gram_buf)@[i],
    {
        let data_size = (gram_buf.len() - Self::get_size()) as u32;
        write_u32(gram_buf, 0, BITCOMM_MESSAGE);
        write_u32(gram_buf, 4, BITCOMM_VERSION_0_1_0_1);
        write_u32(gram_buf, 76, data_size);
        Self::get_message_gram_by_u8(gram_buf)
    }

    /// The same as `create_message_data_gram_by_mut_u8` on the vector's bytes.
    pub fn create_message_data_gram_by_mut_vec8(byte_array: &mut Vec<u8>) -> (r: MessageGram)
        requires
            old(byte_array)@.len() >= MESSAGE_GRAM_SIZE,
        ensures
            final(byte_array)@.len() == old(byte_array)@.len(),
            r == Self::spec_from_bytes(final(byte_array)@),
            r == (MessageGram {
                bitcomm: BITCOMM_MESSAGE,
                version: BITCOMM_VERSION_0_1_0_1,
                data_size: (old(byte_array)@.len() - MESSAGE_GRAM_SIZE) as u32,
                ..Self::spec_from_bytes(old(byte_array)@)
            }),
            forall|i: int|
                0 <= i < old(byte_array)@.len() && !(0 <= i < 8) && !(76 <= i < 80) ==> final(byte_array)@[i] == old(byte_array)@[i],
    {
        let gram_buf: &mut [u8] = byte_array.as_mut_slice();
        Self::create_message_data_gram_by_mut_u8(gram_buf)
    }

    /// The header at the start of `gram_buf`.
    pub fn get_message_gram_by_u8(gram_buf: &[u8]) -> (r: MessageGram)
        requires
            gram_buf@.len() >= MESSAGE_GRAM_SIZE,
        ensures
            r == Self::spec_from_bytes(gram_buf@),
    {
        MessageGram {
            bitcomm: read_u32(gram_buf, 0),
            version: read_u32(gram_buf, 4),
            command: read_u32(gram_buf, 8),
            device_id: read_u32(gram_buf, 12),
            sender: ClientID { planet: read_u32(gram_buf, 16), object: read_u32(gram_buf, 20) },
            message_type: read_u32(gram_buf, 24),
            message_id: read_u32(gram_buf, 28),
            ref_message_id: read_u32(gram_buf, 32),
            receiver: ClientID { planet: read_u32(gram_buf, 36), object: read_u32(gram_buf, 40) },
            reserve1: read_u64(gram_buf, 48),
            reserve2: read_u64(gram_buf, 56),
            reserve3: read_u32(gram_buf, 64),
            reserve4: read_u32(gram_buf, 68),
            data_time: read_u32(gram_buf, 72),
            data_size: read_u32(gram_buf, 76),
        }
    }

    /// Writes into `gram_buf` the answer to `value`: the same header with the
    /// response bit set in `command` and the whole buffer's length in
    /// `data_size`; returns that header.
    pub fn create_message_gram_from_msg_u8(gram_buf: &mut [u8], value: &MessageGram) -> (r:
        MessageGram)
        requires
            old(gram_buf)@.len() >= MESSAGE_GRAM_SIZE,
        ensures
            r == (MessageGram {
                command: value.command | RESP_MASK,
                data_size: old(gram_buf)@.len() as u32,
                ..*value
            }),
            final(gram_buf)@.len() == old(gram_buf)@.len(),
            Self::spec_from_bytes(final(gram_buf)@) == r,
            forall|i: int|
                0 <= i < old(gram_buf)@.len() && !Self::is_field_byte(i) ==> final(gram_buf)@[i]
                    == old(gram_buf)@[i],
    {
        let mut message = *value;
        message.bitcomm = value.bitcomm;
        message.command = value.command | RESP_MASK;
        message.data_size = gram_buf.len() as u32;
        message.write_to_u8(gram_buf);
        message
    }
}


/// Field accessors.
impl MessageGram {
    pub fn bitcomm(&self) -> (r: BitcommFlag)
        ensures
            r == self.bitcomm,
    {
        self.bitcomm
    }

    pub fn set_bitcomm(&mut self, val: BitcommFlag)
        ensures
            *final(self) == (MessageGram { bitcomm: val, ..*old(self) }),
    {
        self.bitcomm = val;
    }

    pub fn version(&self) -> (r: BitcommVersion)
        ensures
            r == self.version,
    {
        self.version
    }

    pub fn set_version(&mut self, val: BitcommVersion)
        ensures
            *final(self) == (MessageGram { version: val, ..*old(self) }),
    {
        self.version = val;
    }

    pub fn command(&self) -> (r: BitCommand)
        ensures
            r == self.command,
    {
        self.command
    }

    pub fn set_command(&mut self, val: BitCommand)
        ensures
            *final(self) == (MessageGram { command: val, ..*old(self) }),
    {
        self.command = val;
    }

    pub fn device_id(&self) -> (r: DeviceID)
        ensures
            r == self.device_id,
    {
        self.device_id
    }

    pub fn set_device_id(&mut self, val: DeviceID)
        ensures
            *final(self) == (MessageGram { device_id: val, ..*old(self) }),
    {
        self.device_id = val;
    }

    pub fn sender(&self) -> (r: ClientID)
        ensures
            r == self.sender,
    {
        self.sender
    }

    pub fn set_sender(&mut self, val: ClientID)
        ensures
            *final(self) == (MessageGram { sender: val, ..*old(self) }),
    {
        self.sender = val;
    }

    pub fn message_type(&self) -> (r: MessageType)
        ensures
            r == self.message_type,
    {
        self.message_type
    }

    pub fn set_message_type(&mut self, val: MessageType)
        ensures
            *final(self) == (MessageGram { message_type: val, ..*old(self) }),
    {
        self.message_type = val;
    }

    pub fn message_id(&self) -> (r: MessageID)
        ensures
            r == self.message_id,
    {
        self.message_id
    }

    pub fn set_message_id(&mut self, val: MessageID)
        ensures
            *final(self) == (MessageGram { message_id: val, ..*old(self) }),
    {
        self.message_id = val;
    }

    pub fn ref_message_id(&self) -> (r: MessageID)
        ensures
            r == self.ref_message_id,
    {
        self.ref_message_id
    }

    pub fn set_ref_message_id(&mut self, val: MessageID)
        ensures
            *final(self) == (MessageGram { ref_message_id: val, ..*old(self) }),
    {
        self.ref_message_id = val;
    }

    pub fn receiver(&self) -> (r: ClientID)
        ensures
            r == self.receiver,
    {
        self.receiver
    }

    pub fn set_receiver(&mut self, val: ClientID)
        ensures
            *final(self) == (MessageGram { receiver: val, ..*old(self) }),
    {
        self.receiver = val;
    }

    pub fn data_time(&self) -> (r: u32)
        ensures
            r == self.data_time,
    {
        self.data_time
    }

    pub fn set_data_time(&mut self, val: u32)
        ensures
            *final(self) == (MessageGram { data_time: val, ..*old(self) }),
    {
        self.data_time = val;
    }

    pub fn data_size(&self) -> (r: u32)
        ensures
            r == self.data_size,
    {
        self.data_size
    }

    pub fn set_data_size(&mut self, val: u32)
        ensures
            *final(self) == (MessageGram { data_size: val, ..*old(self) }),
    {
        self.data_size = val;
    }

}

} // verus!

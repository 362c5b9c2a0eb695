//! The command gram (login, logout, answers with a return code), and the
//! four-byte ping and pong grams.
use vstd::prelude::*;

use crate::object::client::ClientID;
use crate::object::gram::message::MessageGram;
use crate::object::gram::{
    size_of_align_data_gram, BitCommand, BitcommFlag, BitcommVersion, MessageType, ReturnCode,
    BITCOMM_COMMAND, BITCOMM_PING, BITCOMM_PONG, BITCOMM_VERSION_0_1_0_1, RESP_MASK,
};
use crate::object::{DeviceID, MessageID};
use crate::wire::{
    bytes_to_words, lemma_bytes_words_roundtrip, lemma_words_to_bytes_at, read_u32, u32_at,
    words_to_bytes, write_u32,
};

verus! {

/// Bytes of a command gram (alignment 4).
pub const COMMAND_GRAM_SIZE: usize = 44;

/// A command. On the wire every field is little-endian, at these offsets:
/// `bitcomm` 0, `version` 4, `command` 8, `device_id` 12, `sender` 16,
/// `message_type` 24, `message_id` 28, `return_code` 32, `data_time` 36,
/// `data_size` 40.
#[derive(Debug, Clone, Copy, PartialEq, Eq, Structural)]
pub struct CommandGram {
    pub bitcomm: BitcommFlag,
    pub version: BitcommVersion,
    pub command: BitCommand,
    pub device_id: DeviceID,
    pub sender: ClientID,
    pub message_type: MessageType,
    pub message_id: MessageID,
    pub return_code: ReturnCode,
    /// Time stamp.
    pub data_time: u32,
    pub data_size: u32,
}

impl CommandGram {
    /// The command that the first `COMMAND_GRAM_SIZE` bytes of `b` hold.
    pub open spec fn spec_from_bytes(b: Seq<u8>) -> CommandGram {
        CommandGram {
            bitcomm: u32_at(b, 0),
            version: u32_at(b, 4),
            command: u32_at(b, 8),
            device_id: u32_at(b, 12),
            sender: ClientID { planet: u32_at(b, 16), object: u32_at(b, 20) },
            message_type: u32_at(b, 24),
            message_id: u32_at(b, 28),
            return_code: u32_at(b, 32),
            data_time: u32_at(b, 36),
            data_size: u32_at(b, 40),
        }
    }

    /// The header's fields as little-endian words, in wire order.
    pub open spec fn spec_words(self) -> Seq<u32> {
        seq![self.bitcomm, self.version, self.command, self.device_id, self.sender.planet, self.sender.object, self.message_type, self.message_id, self.return_code, self.data_time, self.data_size]
    }

    /// The bytes of the gram on the wire.
    pub open spec fn spec_to_bytes(self) -> Seq<u8> {
        words_to_bytes(self.spec_words())
    }

    /// A gram put on the wire reads back as itself, and is recognised by its
    /// flag exactly when that flag is the gram's own.
    pub proof fn lemma_decode_encode(g: CommandGram)
        ensures
            g.spec_to_bytes().len() == COMMAND_GRAM_SIZE,
            Self::spec_from_bytes(g.spec_to_bytes()) == g,
            Self::spec_is_command(g.spec_to_bytes()) <==> g.bitcomm == BITCOMM_COMMAND,
    {
        lemma_words_to_bytes_at(g.spec_words(), 0);
        lemma_words_to_bytes_at(g.spec_words(), 1);
        lemma_words_to_bytes_at(g.spec_words(), 2);
        lemma_words_to_bytes_at(g.spec_words(), 3);
        lemma_words_to_bytes_at(g.spec_words(), 4);
        lemma_words_to_bytes_at(g.spec_words(), 5);
        lemma_words_to_bytes_at(g.spec_words(), 6);
        lemma_words_to_bytes_at(g.spec_words(), 7);
        lemma_words_to_bytes_at(g.spec_words(), 8);
        lemma_words_to_bytes_at(g.spec_words(), 9);
        lemma_words_to_bytes_at(g.spec_words(), 10);
    }

    /// A buffer of exactly one gram is the wire form of the gram it holds.
    pub proof fn lemma_encode_decode(b: Seq<u8>)
        requires
            b.len() == COMMAND_GRAM_SIZE,
        ensures
            Self::spec_from_bytes(b).spec_to_bytes() == b,
    {
        assert(Self::spec_from_bytes(b).spec_words() =~= bytes_to_words(b, 11));
        lemma_bytes_words_roundtrip(b, 11);
    }

    /// `b` is exactly one command gram.
    pub open spec fn spec_is_command(b: Seq<u8>) -> bool {
        b.len() == COMMAND_GRAM_SIZE && u32_at(b, 0) == BITCOMM_COMMAND
    }

    /// `b` is exactly a four-byte ping or pong flag.
    pub open spec fn spec_is_pingpong(b: Seq<u8>) -> bool {
        b.len() == 4 && (u32_at(b, 0) == BITCOMM_PING || u32_at(b, 0) == BITCOMM_PONG)
    }

    /// The command gram a server writes into a buffer that held `old` to
    /// answer `message`: the answer bit set, the message's identity copied,
    /// the rest of `old` kept, and `data_size` the length after the header.
    pub open spec fn spec_answer_to_message(
        message: MessageGram,
        old: CommandGram,
        buf_len: int,
    ) -> CommandGram {
        CommandGram {
            bitcomm: BITCOMM_COMMAND,
            version: message.version,
            command: message.command | RESP_MASK,
            device_id: message.device_id,
            sender: message.sender,
            message_type: message.message_type,
            message_id: message.message_id,
            return_code: old.return_code,
            data_time: old.data_time,
            data_size: (buf_len - COMMAND_GRAM_SIZE) as u32,
        }
    }

    pub fn is_pingpong(data_array: &[u8]) -> (r: bool)
        ensures
            r == Self::spec_is_pingpong(data_array@),
    {
        if data_array.len() == 4 {
            let bitcomm_flag = read_u32(data_array, 0);
            return bitcomm_flag == BITCOMM_PING || bitcomm_flag == BITCOMM_PONG;
        }
        false
    }

    /// The flag in the first four bytes of `gram_buf`.
    pub fn get_bitcomm_flag_by_u8(gram_buf: &[u8]) -> (r: BitcommFlag)
        requires
            gram_buf@.len() >= 4,
        ensures
            r == u32_at(gram_buf@, 0),
    {
        read_u32(gram_buf, 0)
    }

    pub fn is_command(data_array: &[u8]) -> (r: bool)
        ensures
            r == Self::spec_is_command(data_array@),
    {
        if data_array.len() == Self::get_size() {
            read_u32(data_array, 0) == BITCOMM_COMMAND
        } else {
            false
        }
    }

    /// The command at the start of `gram_buf`.
    pub fn get_command_gram_by_u8(gram_buf: &[u8]) -> (r: CommandGram)
        requires
            gram_buf@.len() >= COMMAND_GRAM_SIZE,
        ensures
            r == Self::spec_from_bytes(gram_buf@),
    {
        CommandGram {
            bitcomm: read_u32(gram_buf, 0),
            version: read_u32(gram_buf, 4),
            command: read_u32(gram_buf, 8),
            device_id: read_u32(gram_buf, 12),
            sender: ClientID { planet: read_u32(gram_buf, 16), object: read_u32(gram_buf, 20) },
            message_type: read_u32(gram_buf, 24),
            message_id: read_u32(gram_buf, 28),
            return_code: read_u32(gram_buf, 32),
            data_time: read_u32(gram_buf, 36),
            data_size: read_u32(gram_buf, 40),
        }
    }

    /// Writes every field of `self` into the first `COMMAND_GRAM_SIZE` bytes of
    /// `gram_buf`; the bytes after them stay as they were.
    pub fn write_to_u8(&self, gram_buf: &mut [u8])
        requires
            old(gram_buf)@.len() >= COMMAND_GRAM_SIZE,
        ensures
            final(gram_buf)@.len() == old(gram_buf)@.len(),
            Self::spec_from_bytes(final(gram_buf)@) == *self,
            forall|i: int|
                COMMAND_GRAM_SIZE <= i < old(gram_buf)@.len() ==> final(gram_buf)@[i] == old(gram_buf)@[i],
    {
        write_u32(gram_buf, 0, self.bitcomm);
        write_u32(gram_buf, 4, self.version);
        write_u32(gram_buf, 8, self.command);
        write_u32(gram_buf, 12, self.device_id);
        write_u32(gram_buf, 16, self.sender.planet);
        write_u32(gram_buf, 20, self.sender.object);
        write_u32(gram_buf, 24, self.message_type);
        write_u32(gram_buf, 28, self.message_id);
        write_u32(gram_buf, 32, self.return_code);
        write_u32(gram_buf, 36, self.data_time);
        write_u32(gram_buf, 40, self.data_size);
    }

    /// The same as `create_command_gram_by_mut_u8` on the vector's bytes.
    pub fn create_command_gram_by_mut_vec8(byte_array: &mut Vec<u8>) -> (r: CommandGram)
        requires
            old(byte_array)@.len() >= COMMAND_GRAM_SIZE,
        ensures
            final(byte_array)@.len() == old(byte_array)@.len(),
            r == Self::spec_from_bytes(final(byte_array)@),
            r == (CommandGram {
                bitcomm: BITCOMM_COMMAND,
                version: BITCOMM_VERSION_0_1_0_1,
                data_size: (old(byte_array)@.len() - COMMAND_GRAM_SIZE) as u32,
                ..Self::spec_from_bytes(old(byte_array)@)
            }),
            forall|i: int|
                0 <= i < old(byte_array)@.len() && !(0 <= i < 8) && !(40 <= i < 44) ==> final(byte_array)@[i] == old(byte_array)@[i],
    {
        let gram_buf: &mut [u8] = byte_array.as_mut_slice();
        Self::create_command_gram_by_mut_u8(gram_buf)
    }

    /// Marks the start of `gram_buf` as a command of the current version whose
    /// data is the rest of the buffer (its length, as a `u32`, goes into
    /// `data_size`), and returns the command the buffer now holds.
    pub fn create_command_gram_by_mut_u8(gram_buf: &mut [u8]) -> (r: CommandGram)
        requires
            old(gram_buf)@.len() >= COMMAND_GRAM_SIZE,
        ensures
            final(gram_buf)@.len() == old(gram_buf)@.len(),
            r == Self::spec_from_bytes(final(gram_buf)@),
            r == (CommandGram {
                bitcomm: BITCOMM_COMMAND,
                version: BITCOMM_VERSION_0_1_0_1,
                data_size: (old(gram_buf)@.len() - COMMAND_GRAM_SIZE) as u32,
                ..Self::spec_from_bytes(old(gram_buf)@)
            }),
            forall|i: int|
                0 <= i < old(gram_buf)@.len() && !(0 <= i < 8) && !(40 <= i < 44) ==> final(gram_buf)@[i] == old(gram_buf)@[i],
    {
        let data_size = (gram_buf.len() - Self::get_size()) as u32;
        write_u32(gram_buf, 40, data_size);
        write_u32(gram_buf, 0, BITCOMM_COMMAND);
        write_u32(gram_buf, 4, BITCOMM_VERSION_0_1_0_1);
        Self::get_command_gram_by_u8(gram_buf)
    }

    pub fn get_size() -> (r: usize)
        ensures
            r == COMMAND_GRAM_SIZE,
    {
        size_of_align_data_gram(COMMAND_GRAM_SIZE, 4)
    }

    /// A zeroed buffer for a command and `data_size` bytes of data.
    pub fn create_gram_buf(data_size: usize) -> (r: Vec<u8>)
        requires
            data_size + COMMAND_GRAM_SIZE <= usize::MAX,
        ensures
            r@ == Seq::new((data_size + COMMAND_GRAM_SIZE) as nat, |i: int| 0u8),
    {
        let vec_u8: Vec<u8> = vec![0x00; data_size + Self::get_size()];
        assert(vec_u8@ =~= Seq::new((data_size + COMMAND_GRAM_SIZE) as nat, |i: int| 0u8));
        vec_u8
    }

    /// Writes into `buf` the answer to `value`: the same command with the
    /// response bit set in `command`; returns it.
    pub fn create_command_gram_from_gram(buf: &mut [u8], value: &CommandGram) -> (r: CommandGram)
        requires
            old(buf)@.len() >= COMMAND_GRAM_SIZE,
        ensures
            r == (CommandGram { command: value.command | RESP_MASK, ..*value }),
            final(buf)@.len() == old(buf)@.len(),
            Self::spec_from_bytes(final(buf)@) == r,
            forall|i: int| COMMAND_GRAM_SIZE <= i < old(buf)@.len() ==> final(buf)@[i] == old(buf)@[i],
    {
        let _ = Self::create_command_gram_by_mut_u8(buf);
        let mut command = *value;
        command.bitcomm = value.bitcomm;
        command.command = value.command | RESP_MASK;
        command.write_to_u8(buf);
        command
    }

    /// Writes into `buf` the command that answers `value` (see
    /// `spec_answer_to_message`); returns it.
    pub fn create_command_gram_from_message_gram(buf: &mut [u8], value: &MessageGram) -> (r:
        CommandGram)
        requires
            old(buf)@.len() >= COMMAND_GRAM_SIZE,
        ensures
            r == Self::spec_answer_to_message(
                *value,
                Self::spec_from_bytes(old(buf)@),
                old(buf)@.len() as int,
            ),
            final(buf)@.len() == old(buf)@.len(),
            Self::spec_from_bytes(final(buf)@) == r,
            forall|i: int| COMMAND_GRAM_SIZE <= i < old(buf)@.len() ==> final(buf)@[i] == old(buf)@[i],
    {
        let mut command = Self::create_command_gram_by_mut_u8(buf);
        command.bitcomm = BITCOMM_COMMAND;
        command.command = value.command | RESP_MASK;
        command.sender = value.sender;
        command.message_id = value.message_id;
        command.message_type = value.message_type;
        command.version = value.version;
        command.device_id = value.device_id;
        command.write_to_u8(buf);
        command
    }
}


/// Field accessors.
impl CommandGram {
    pub fn bitcomm(&self) -> (r: BitcommFlag)
        ensures
            r == self.bitcomm,
    {
        self.bitcomm
    }

    pub fn set_bitcomm(&mut self, val: BitcommFlag)
        ensures
            *final(self) == (CommandGram { bitcomm: val, ..*old(self) }),
    {
        self.bitcomm = val;
    }

    pub fn version(&self) -> (r: BitcommVersion)
        ensures
            r == self.version,
    {
        self.version
    }

    pub fn set_version(&mut self, val: BitcommVersion)
        ensures
            *final(self) == (CommandGram { version: val, ..*old(self) }),
    {
        self.version = val;
    }

    pub fn command(&self) -> (r: BitCommand)
        ensures
            r == self.command,
    {
        self.command
    }

    pub fn set_command(&mut self, val: BitCommand)
        ensures
            *final(self) == (CommandGram { command: val, ..*old(self) }),
    {
        self.command = val;
    }

    pub fn device_id(&self) -> (r: DeviceID)
        ensures
            r == self.device_id,
    {
        self.device_id
    }

    pub fn set_device_id(&mut self, val: DeviceID)
        ensures
            *final(self) == (CommandGram { device_id: val, ..*old(self) }),
    {
        self.device_id = val;
    }

    pub fn sender(&self) -> (r: ClientID)
        ensures
            r == self.sender,
    {
        self.sender
    }

    pub fn set_sender(&mut self, val: ClientID)
        ensures
            *final(self) == (CommandGram { sender: val, ..*old(self) }),
    {
        self.sender = val;
    }

    pub fn message_type(&self) -> (r: MessageType)
        ensures
            r == self.message_type,
    {
        self.message_type
    }

    pub fn set_message_type(&mut self, val: MessageType)
        ensures
            *final(self) == (CommandGram { message_type: val, ..*old(self) }),
    {
        self.message_type = val;
    }

    pub fn message_id(&self) -> (r: MessageID)
        ensures
            r == self.message_id,
    {
        self.message_id
    }

    pub fn set_message_id(&mut self, val: MessageID)
        ensures
            *final(self) == (CommandGram { message_id: val, ..*old(self) }),
    {
        self.message_id = val;
    }

    pub fn return_code(&self) -> (r: ReturnCode)
        ensures
            r == self.return_code,
    {
        self.return_code
    }

    pub fn set_return_code(&mut self, val: ReturnCode)
        ensures
            *final(self) == (CommandGram { return_code: val, ..*old(self) }),
    {
        self.return_code = val;
    }

    pub fn data_time(&self) -> (r: u32)
        ensures
            r == self.data_time,
    {
        self.data_time
    }

    pub fn set_data_time(&mut self, val: u32)
        ensures
            *final(self) == (CommandGram { data_time: val, ..*old(self) }),
    {
        self.data_time = val;
    }

    pub fn data_size(&self) -> (r: u32)
        ensures
            r == self.data_size,
    {
        self.data_size
    }

    pub fn set_data_size(&mut self, val: u32)
        ensures
            *final(self) == (CommandGram { data_size: val, ..*old(self) }),
    {
        self.data_size = val;
    }

}

} // verus!

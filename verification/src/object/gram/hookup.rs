//! The hookup gram: the handshake between two servers.
use vstd::prelude::*;

use crate::object::gram::{
    size_of_align_data_gram, BitCommand, BitcommFlag, BitcommVersion, MessageType, ReturnCode,
    BITCOMM_COMMAND, BITCOMM_HOOKUP, BITCOMM_VERSION_0_1_0_1, RESP_MASK,
};
use crate::object::MessageID;
use crate::wire::{
    bytes_to_words, lemma_bytes_words_roundtrip, lemma_words_to_bytes_at, read_u32, u32_at,
    words_to_bytes, write_u32,
};

verus! {

/// Bytes of a hookup gram (alignment 4).
pub const HOOKUP_GRAM_SIZE: usize = 36;

/// A hookup. On the wire every field is little-endian, at these offsets:
/// `bitcomm` 0, `version` 4, `command` 8, `send_server_id` 12,
/// `recv_server_id` 16, `message_type` 20, `message_id` 24, `return_code`
/// 28, `data_time` 32.
#[derive(Debug, Clone, Copy, PartialEq, Eq, Structural)]
pub struct S2SHookupGram {
    pub bitcomm: BitcommFlag,
    pub version: BitcommVersion,
    pub command: BitCommand,
    pub send_server_id: u32,
    pub recv_server_id: u32,
    pub message_type: MessageType,
    pub message_id: MessageID,
    pub return_code: ReturnCode,
    /// Time stamp.
    pub data_time: u32,
}

impl S2SHookupGram {
    /// The hookup that the first `HOOKUP_GRAM_SIZE` bytes of `b` hold.
    pub open spec fn spec_from_bytes(b: Seq<u8>) -> S2SHookupGram {
        S2SHookupGram {
            bitcomm: u32_at(b, 0),
            version: u32_at(b, 4),
            command: u32_at(b, 8),
            send_server_id: u32_at(b, 12),
            recv_server_id: u32_at(b, 16),
            message_type: u32_at(b, 20),
            message_id: u32_at(b, 24),
            return_code: u32_at(b, 28),
            data_time: u32_at(b, 32),
        }
    }

    /// The header's fields as little-endian words, in wire order.
    pub open spec fn spec_words(self) -> Seq<u32> {
        seq![self.bitcomm, self.version, self.command, self.send_server_id, self.recv_server_id, self.message_type, self.message_id, self.return_code, self.data_time]
    }

    /// The bytes of the gram on the wire.
    pub open spec fn spec_to_bytes(self) -> Seq<u8> {
        words_to_bytes(self.spec_words())
    }

    /// A gram put on the wire reads back as itself, and is recognised by its
    /// flag exactly when that flag is the gram's own.
    pub proof fn lemma_decode_encode(g: S2SHookupGram)
        ensures
            g.spec_to_bytes().len() == HOOKUP_GRAM_SIZE,
            Self::spec_from_bytes(g.spec_to_bytes()) == g,
            Self::spec_is_hookup(g.spec_to_bytes()) <==> g.bitcomm == BITCOMM_HOOKUP,
    {
        lemma_words_to_bytes_at(g.spec_words(), 0);
        lemma_words_to_bytes_at(g.spec_words(), 1);
        lemma_words_to_bytes_at(g.spec_words(), 2);
        lemma_words_to_bytes_at(g.spec_words(), 3);
        lemma_words_to_bytes_at(g.spec_words(), 4);
        lemma_words_to_bytes_at(g.spec_words(), 5);
        lemma_words_to_bytes_at(g.spec_words(), 6);
        lemma_words_to_bytes_at(g.spec_words(), 7);
        lemma_words_to_bytes_at(g.spec_words(), 8);
    }

    /// A buffer of exactly one gram is the wire form of the gram it holds.
    pub proof fn lemma_encode_decode(b: Seq<u8>)
        requires
            b.len() == HOOKUP_GRAM_SIZE,
        ensures
            Self::spec_from_bytes(b).spec_to_bytes() == b,
    {
        assert(Self::spec_from_bytes(b).spec_words() =~= bytes_to_words(b, 9));
        lemma_bytes_words_roundtrip(b, 9);
    }

    /// `b` is exactly one hookup gram.
    pub open spec fn spec_is_hookup(b: Seq<u8>) -> bool {
        b.len() == HOOKUP_GRAM_SIZE && u32_at(b, 0) == BITCOMM_HOOKUP
    }

    pub fn is_hookup(data_array: &[u8]) -> (r: bool)
        ensures
            r == Self::spec_is_hookup(data_array@),
    {
        if data_array.len() == Self::get_size() {
            read_u32(data_array, 0) == BITCOMM_HOOKUP
        } else {
            false
        }
    }

    /// The hookup at the start of `gram_buf`.
    pub fn get_hookup_gram_by_u8(gram_buf: &[u8]) -> (r: S2SHookupGram)
        requires
            gram_buf@.len() >= HOOKUP_GRAM_SIZE,
        ensures
            r == Self::spec_from_bytes(gram_buf@),
    {
        S2SHookupGram {
            bitcomm: read_u32(gram_buf, 0),
            version: read_u32(gram_buf, 4),
            command: read_u32(gram_buf, 8),
            send_server_id: read_u32(gram_buf, 12),
            recv_server_id: read_u32(gram_buf, 16),
            message_type: read_u32(gram_buf, 20),
            message_id: read_u32(gram_buf, 24),
            return_code: read_u32(gram_buf, 28),
            data_time: read_u32(gram_buf, 32),
        }
    }

    /// Writes every field of `self` into the first `HOOKUP_GRAM_SIZE` bytes of
    /// `gram_buf`; the bytes after them stay as they were.
    pub fn write_to_u8(&self, gram_buf: &mut [u8])
        requires
            old(gram_buf)@.len() >= HOOKUP_GRAM_SIZE,
        ensures
            final(gram_buf)@.len() == old(gram_buf)@.len(),
            Self::spec_from_bytes(final(gram_buf)@) == *self,
            forall|i: int|
                HOOKUP_GRAM_SIZE <= i < old(gram_buf)@.len() ==> final(gram_buf)@[i] == old(gram_buf)@[i],
    {
        write_u32(gram_buf, 0, self.bitcomm);
        write_u32(gram_buf, 4, self.version);
        write_u32(gram_buf, 8, self.command);
        write_u32(gram_buf, 12, self.send_server_id);
        write_u32(gram_buf, 16, self.recv_server_id);
        write_u32(gram_buf, 20, self.message_type);
        write_u32(gram_buf, 24, self.message_id);
        write_u32(gram_buf, 28, self.return_code);
        write_u32(gram_buf, 32, self.data_time);
    }

    /// The same as `create_hookup_gram_by_mut_u8` on the vector's bytes.
    pub fn create_hookup_gram_by_mut_vec8(byte_array: &mut Vec<u8>) -> (r: S2SHookupGram)
        requires
            old(byte_array)@.len() >= HOOKUP_GRAM_SIZE,
        ensures
            final(byte_array)@.len() == old(byte_array)@.len(),
            r == Self::spec_from_bytes(final(byte_array)@),
            r == (S2SHookupGram {
                bitcomm: BITCOMM_COMMAND,
                version: BITCOMM_VERSION_0_1_0_1,
                ..Self::spec_from_bytes(old(byte_array)@)
            }),
            forall|i: int| 8 <= i < old(byte_array)@.len() ==> final(byte_array)@[i] == old(byte_array)@[i],
    {
        let gram_buf: &mut [u8] = byte_array.as_mut_slice();
        Self::create_hookup_gram_by_mut_u8(gram_buf)
    }

    /// Writes the command flag and the current version at the start of
    /// `gram_buf` and returns the hookup the buffer now holds. (The flag
    /// written is `BITCOMM_COMMAND`; a caller that sends a hookup sets
    /// `BITCOMM_HOOKUP` itself.)
    pub fn create_hookup_gram_by_mut_u8(gram_buf: &mut [u8]) -> (r: S2SHookupGram)
        requires
            old(gram_buf)@.len() >= HOOKUP_GRAM_SIZE,
        ensures
            final(gram_buf)@.len() == old(gram_buf)@.len(),
            r == Self::spec_from_bytes(final(gram_buf)@),
            r == (S2SHookupGram {
                bitcomm: BITCOMM_COMMAND,
                version: BITCOMM_VERSION_0_1_0_1,
                ..Self::spec_from_bytes(old(gram_buf)@)
            }),
            forall|i: int| 8 <= i < old(gram_buf)@.len() ==> final(gram_buf)@[i] == old(gram_buf)@[i],
    {
        write_u32(gram_buf, 0, BITCOMM_COMMAND);
        write_u32(gram_buf, 4, BITCOMM_VERSION_0_1_0_1);
        Self::get_hookup_gram_by_u8(gram_buf)
    }

    pub fn get_size() -> (r: usize)
        ensures
            r == HOOKUP_GRAM_SIZE,
    {
        size_of_align_data_gram(HOOKUP_GRAM_SIZE, 4)
    }

    /// A zeroed buffer for a hookup and `data_size` more bytes.
    pub fn create_gram_buf(data_size: usize) -> (r: Vec<u8>)
        requires
            data_size + HOOKUP_GRAM_SIZE <= usize::MAX,
        ensures
            r@ == Seq::new((data_size + HOOKUP_GRAM_SIZE) as nat, |i: int| 0u8),
    {
        let vec_u8: Vec<u8> = vec![0x00; data_size + Self::get_size()];
        assert(vec_u8@ =~= Seq::new((data_size + HOOKUP_GRAM_SIZE) as nat, |i: int| 0u8));
        vec_u8
    }

    /// Writes into `buf` the answer to `value`: the same hookup with the
    /// response bit set in `command`; returns it.
    pub fn create_hookup_gram_from_gram(buf: &mut [u8], value: &S2SHookupGram) -> (r:
        S2SHookupGram)
        requires
            old(buf)@.len() >= HOOKUP_GRAM_SIZE,
        ensures
            r == (S2SHookupGram { command: value.command | RESP_MASK, ..*value }),
            final(buf)@.len() == old(buf)@.len(),
            Self::spec_from_bytes(final(buf)@) == r,
            forall|i: int| HOOKUP_GRAM_SIZE <= i < old(buf)@.len() ==> final(buf)@[i] == old(buf)@[i],
    {
        let _ = Self::create_hookup_gram_by_mut_u8(buf);
        let mut hookup = *value;
        hookup.bitcomm = value.bitcomm;
        hookup.command = value.command | RESP_MASK;
        hookup.write_to_u8(buf);
        hookup
    }
}


/// Field accessors.
impl S2SHookupGram {
    pub fn bitcomm(&self) -> (r: BitcommFlag)
        ensures
            r == self.bitcomm,
    {
        self.bitcomm
    }

    pub fn set_bitcomm(&mut self, val: BitcommFlag)
        ensures
            *final(self) == (S2SHookupGram { bitcomm: val, ..*old(self) }),
    {
        self.bitcomm = val;
    }

    pub fn version(&self) -> (r: BitcommVersion)
        ensures
            r == self.version,
    {
        self.version
    }

    pub fn set_version(&mut self, val: BitcommVersion)
        ensures
            *final(self) == (S2SHookupGram { version: val, ..*old(self) }),
    {
        self.version = val;
    }

    pub fn command(&self) -> (r: BitCommand)
        ensures
            r == self.command,
    {
        self.command
    }

    pub fn set_command(&mut self, val: BitCommand)
        ensures
            *final(self) == (S2SHookupGram { command: val, ..*old(self) }),
    {
        self.command = val;
    }

    pub fn send_server_id(&self) -> (r: u32)
        ensures
            r == self.send_server_id,
    {
        self.send_server_id
    }

    pub fn set_send_server_id(&mut self, val: u32)
        ensures
            *final(self) == (S2SHookupGram { send_server_id: val, ..*old(self) }),
    {
        self.send_server_id = val;
    }

    pub fn recv_server_id(&self) -> (r: u32)
        ensures
            r == self.recv_server_id,
    {
        self.recv_server_id
    }

    pub fn set_recv_server_id(&mut self, val: u32)
        ensures
            *final(self) == (S2SHookupGram { recv_server_id: val, ..*old(self) }),
    {
        self.recv_server_id = val;
    }

    pub fn message_type(&self) -> (r: MessageType)
        ensures
            r == self.message_type,
    {
        self.message_type
    }

    pub fn set_message_type(&mut self, val: MessageType)
        ensures
            *final(self) == (S2SHookupGram { message_type: val, ..*old(self) }),
    {
        self.message_type = val;
    }

    pub fn message_id(&self) -> (r: MessageID)
        ensures
            r == self.message_id,
    {
        self.message_id
    }

    pub fn set_message_id(&mut self, val: MessageID)
        ensures
            *final(self) == (S2SHookupGram { message_id: val, ..*old(self) }),
    {
        self.message_id = val;
    }

    pub fn return_code(&self) -> (r: ReturnCode)
        ensures
            r == self.return_code,
    {
        self.return_code
    }

    pub fn set_return_code(&mut self, val: ReturnCode)
        ensures
            *final(self) == (S2SHookupGram { return_code: val, ..*old(self) }),
    {
        self.return_code = val;
    }

    pub fn data_time(&self) -> (r: u32)
        ensures
            r == self.data_time,
    {
        self.data_time
    }

    pub fn set_data_time(&mut self, val: u32)
        ensures
            *final(self) == (S2SHookupGram { data_time: val, ..*old(self) }),
    {
        self.data_time = val;
    }

}

} // verus!

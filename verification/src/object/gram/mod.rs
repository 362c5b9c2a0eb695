//! The grams of the protocol: fixed-size little-endian headers, recognised by
//! the flag in their first four bytes.
pub mod command;
pub mod hookup;
pub mod message;
pub mod receipt;
pub mod reply;

use std::sync::Arc;

use bytes::Bytes;
use vstd::arithmetic::div_mod::{
    lemma_fundamental_div_mod, lemma_mod_multiples_basic, lemma_mod_self_0, lemma_small_mod,
};
use vstd::prelude::*;

use self::command::CommandGram;
use self::hookup::S2SHookupGram;
use self::message::MessageGram;
use self::receipt::ReceiptGram;
use self::reply::ReplyGram;
use crate::object::client::ClientID;

verus! {

/// Result code carried by a command gram.
pub type ReturnCode = u32;

pub const RETURN_OK: ReturnCode = 0x00000000;

pub const RETURN_NOT_LOGIN: ReturnCode = 0x00000001;

pub const RETURN_TWO_SESSION_NO_SAME: ReturnCode = 0x00000002;

/// The flag in the first four bytes of a gram, which names its kind.
pub type BitcommFlag = u32;

/// "BTCM"
pub const BITCOMM_MESSAGE: BitcommFlag = 0x4D435442;

/// "BTRT"
pub const BITCOMM_RECEIPT: BitcommFlag = 0x54525442;

/// "BTRL"
pub const BITCOMM_REPLY: BitcommFlag = 0x4C525442;

/// "BTCC"
pub const BITCOMM_COMMAND: BitcommFlag = 0x43435442;

/// "BTPI"
pub const BITCOMM_PING: BitcommFlag = 0x49505442;

/// "BTPO"
pub const BITCOMM_PONG: BitcommFlag = 0x4F505442;

/// "BTHK": the handshake between two servers.
pub const BITCOMM_HOOKUP: BitcommFlag = 0x4B485442;

pub const BITCOMM_NODEF: BitcommFlag = 0xFFFFFFFF;

/// Protocol version.
pub type BitcommVersion = u32;

/// 0.1.0.1
pub const BITCOMM_VERSION_0_1_0_1: BitcommVersion = 0x00010001;

/// Command bits of a gram.
pub type BitCommand = u32;

/// Set on every answer to a gram.
pub const RESP_MASK: BitCommand = 0x80000000;

pub const LOGIN_COMMAND: BitCommand = 0x00000001;

pub const LOGOUT_COMMAND: BitCommand = 0x00000002;

pub const SEND_MESS: BitCommand = 0x00000004;

pub const SEND_PING: BitCommand = 0x10000000;

/// `SEND_PING | RESP_MASK`
pub const RESP_PONG: BitCommand = 0x90000000;

pub const HOOKUP_SERVER: BitCommand = 0x20000000;

/// Kind of the content of a message.
pub type MessageType = u32;

pub const MESS_TEXT: MessageType = 0x00000001;

pub const MESS_IMAGES: MessageType = 0x00000002;

pub const MESS_VIDEO: MessageType = 0x00000003;

pub const MESS_FILES: MessageType = 0x00000004;

pub const MESS_POSTION: MessageType = 0x00000005;

/// The size of a record of `size` bytes padded up to a multiple of `align`.
pub open spec fn spec_size_of_align(size: int, align: int) -> int {
    size + (align - size % align) % align
}

/// The size of a record of `size` bytes padded to the next multiple of
/// `align`: the least multiple of `align` that is not below `size`.
pub fn size_of_align_data_gram(size: usize, align: usize) -> (r: usize)
    requires
        align > 0,
        spec_size_of_align(size as int, align as int) <= usize::MAX,
    ensures
        r == spec_size_of_align(size as int, align as int),
        r % align == 0,
        size <= r < size + align,
{
    let padding = (align - (size % align)) % align;
    proof {
        let s = size as int;
        let a = align as int;
        let q = s / a;
        let r = s % a;
        lemma_fundamental_div_mod(s, a);
        assert(0 <= r < a);
        if r == 0 {
            lemma_mod_self_0(a);
            assert(padding == 0);
            assert(s == q * a) by (nonlinear_arith)
                requires
                    s == a * q + r,
                    r == 0,
            ;
            lemma_mod_multiples_basic(q, a);
        } else {
            lemma_small_mod((a - r) as nat, a as nat);
            assert(padding == a - r);
            assert(s + padding == (q + 1) * a) by (nonlinear_arith)
                requires
                    s == a * q + r,
                    padding == a - r,
            ;
            lemma_mod_multiples_basic(q + 1, a);
        }
    }
    size + padding
}

/// The key under which a gram waits for its answer: the sender's identity in
/// the high 64 bits, then the receiver's object number, then the message id.
pub open spec fn spec_gram_key(sender: ClientID, receiver: ClientID, message_id: u32) -> u128 {
    (sender.spec_guid() as int * 18446744073709551616 + receiver.object as int * 4294967296
        + message_id as int) as u128
}

/// The key of a gram from its sender, its receiver and its message id.
pub fn gram_key(sender: ClientID, receiver: ClientID, message_id: u32) -> (r: u128)
    ensures
        r == spec_gram_key(sender, receiver, message_id),
{
    let high = sender.get_guid() as u128;
    let low = (receiver.object as u128) * 4294967296 + (message_id as u128);
    high * 18446744073709551616 + low
}

/// A gram recognised in a received buffer, together with that buffer.
#[allow(inconsistent_fields)]
#[derive(Debug)]
pub enum BitcommDataGram {
    Command { data_buff: Arc<Bytes>, data_gram: Arc<CommandGram> },
    Message { data_buff: Arc<Bytes>, data_gram: Arc<MessageGram> },
    Receipt { data_buff: Arc<Bytes>, data_gram: Arc<ReceiptGram> },
    Reply { data_buff: Arc<Bytes>, data_gram: Arc<ReplyGram> },
    Pingpong(Arc<BitcommFlag>),
    S2SHookup { data_buff: Arc<Bytes>, data_gram: Arc<S2SHookupGram> },
}

/// An error about a gram: a code and a description.
#[derive(Debug)]
pub struct DataGramError {
    pub error_code: u32,
    pub details: String,
}

impl DataGramError {
    pub fn new(code: u32, tails: &str) -> (r: Self)
        ensures
            r.error_code == code,
            r.details@ == tails@,
    {
        DataGramError { error_code: code, details: tails.to_owned() }
    }

    pub fn error_code(&self) -> (r: &u32)
        ensures
            *r == self.error_code,
    {
        &self.error_code
    }

    pub fn details(&self) -> (r: &String)
        ensures
            r@ == self.details@,
    {
        &self.details
    }

    pub fn set_error_code(&mut self, code: u32)
        ensures
            final(self).error_code == code,
            final(self).details@ == old(self).details@,
    {
        self.error_code = code;
    }

    pub fn set_details(&mut self, details: String)
        ensures
            final(self).error_code == old(self).error_code,
            final(self).details@ == details@,
    {
        self.details = details;
    }

    /// The description of the error, which is its details.
    pub fn description(&self) -> (r: &str)
        ensures
            r@ == self.details@,
    {
        self.details.as_str()
    }
}

} // verus!

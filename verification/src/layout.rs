//! The wire layout of every gram, stated byte offset by byte offset, and the
//! fields of every gram that a server builds to answer another one.
//!
//! These laws fix the layout independently of the readers and writers: each
//! field sits little-endian at its offset, and each flag is the four ASCII
//! letters that name the gram.
use vstd::prelude::*;

use crate::exserver::connect::spec_hookup_request;
use crate::exserver::hookup::spec_hookup_reply;
use crate::exserver::message::spec_server_reply;
use crate::imserver::message::spec_message_answer;
use crate::object::gram::command::CommandGram;
use crate::object::gram::hookup::S2SHookupGram;
use crate::object::gram::message::MessageGram;
use crate::object::gram::receipt::ReceiptGram;
use crate::object::gram::reply::ReplyGram;
use crate::wire::{u32_at, u64_at};

verus! {

/// A message header: `bitcomm` at 0, `version` 4, `command` 8, `device_id`
/// 12, sender's planet 16 and object 20, `message_type` 24, `message_id` 28,
/// `ref_message_id` 32, receiver's planet 36 and object 40, `reserve1` 48,
/// `reserve2` 56, `reserve3` 64, `reserve4` 68, `data_time` 72, `data_size`
/// 76; a buffer is a message when it holds at least 80 bytes and starts with
/// "BTCM".
pub proof fn law_message_layout(b: Seq<u8>)
    ensures
        ({
            let g = MessageGram::spec_from_bytes(b);
            &&& g.bitcomm == u32_at(b, 0)
            &&& g.version == u32_at(b, 4)
            &&& g.command == u32_at(b, 8)
            &&& g.device_id == u32_at(b, 12)
            &&& g.sender.planet == u32_at(b, 16)
            &&& g.sender.object == u32_at(b, 20)
            &&& g.message_type == u32_at(b, 24)
            &&& g.message_id == u32_at(b, 28)
            &&& g.ref_message_id == u32_at(b, 32)
            &&& g.receiver.planet == u32_at(b, 36)
            &&& g.receiver.object == u32_at(b, 40)
            &&& g.reserve1 == u64_at(b, 48)
            &&& g.reserve2 == u64_at(b, 56)
            &&& g.reserve3 == u32_at(b, 64)
            &&& g.reserve4 == u32_at(b, 68)
            &&& g.data_time == u32_at(b, 72)
            &&& g.data_size == u32_at(b, 76)
        }),
        forall|i: int| MessageGram::is_field_byte(i) <==> (0 <= i < 44 || 48 <= i < 80),
        MessageGram::spec_is_message(b) <==> (b.len() >= 80 && u32_at(b, 0) == 0x4D435442),
{
}

/// A receipt: `bitcomm` at 0, `version` 4, `command` 8, `device_id` 12,
/// sender 16 and 20, `message_type` 24, `message_id` 28, `ref_message_id` 32,
/// receiver 36 and 40, `data_time` 44; a buffer is a receipt when it holds
/// exactly 48 bytes and starts with "BTRT".
pub proof fn law_receipt_layout(b: Seq<u8>)
    ensures
        ({
            let g = ReceiptGram::spec_from_bytes(b);
            &&& g.bitcomm == u32_at(b, 0)
            &&& g.version == u32_at(b, 4)
            &&& g.command == u32_at(b, 8)
            &&& g.device_id == u32_at(b, 12)
            &&& g.sender.planet == u32_at(b, 16)
            &&& g.sender.object == u32_at(b, 20)
            &&& g.message_type == u32_at(b, 24)
            &&& g.message_id == u32_at(b, 28)
            &&& g.ref_message_id == u32_at(b, 32)
            &&& g.receiver.planet == u32_at(b, 36)
            &&& g.receiver.object == u32_at(b, 40)
            &&& g.data_time == u32_at(b, 44)
        }),
        ReceiptGram::spec_is_receipt(b) <==> (b.len() == 48 && u32_at(b, 0) == 0x54525442),
{
}

/// A reply: `bitcomm` at 0, `version` 4, `command` 8, `device_id` 12, sender
/// 16 and 20, `message_type` 24, `message_id` 28, receiver 32 and 36,
/// `data_time` 40; a buffer is a reply when it holds exactly 44 bytes and
/// starts with "BTRL".
pub proof fn law_reply_layout(b: Seq<u8>)
    ensures
        ({
            let g = ReplyGram::spec_from_bytes(b);
            &&& g.bitcomm == u32_at(b, 0)
            &&& g.version == u32_at(b, 4)
            &&& g.command == u32_at(b, 8)
            &&& g.device_id == u32_at(b, 12)
            &&& g.sender.planet == u32_at(b, 16)
            &&& g.sender.object == u32_at(b, 20)
            &&& g.message_type == u32_at(b, 24)
            &&& g.message_id == u32_at(b, 28)
            &&& g.receiver.planet == u32_at(b, 32)
            &&& g.receiver.object == u32_at(b, 36)
            &&& g.data_time == u32_at(b, 40)
        }),
        ReplyGram::spec_is_reply(b) <==> (b.len() == 44 && u32_at(b, 0) == 0x4C525442),
{
}

/// A command: `bitcomm` at 0, `version` 4, `command` 8, `device_id` 12,
/// sender 16 and 20, `message_type` 24, `message_id` 28, `return_code` 32,
/// `data_time` 36, `data_size` 40; a buffer is a command when it holds
/// exactly 44 bytes and starts with "BTCC", and a ping or pong when it is
/// exactly the four bytes "BTPI" or "BTPO".
pub proof fn law_command_layout(b: Seq<u8>)
    ensures
        ({
            let g = CommandGram::spec_from_bytes(b);
            &&& g.bitcomm == u32_at(b, 0)
            &&& g.version == u32_at(b, 4)
            &&& g.command == u32_at(b, 8)
            &&& g.device_id == u32_at(b, 12)
            &&& g.sender.planet == u32_at(b, 16)
            &&& g.sender.object == u32_at(b, 20)
            &&& g.message_type == u32_at(b, 24)
            &&& g.message_id == u32_at(b, 28)
            &&& g.return_code == u32_at(b, 32)
            &&& g.data_time == u32_at(b, 36)
            &&& g.data_size == u32_at(b, 40)
        }),
        CommandGram::spec_is_command(b) <==> (b.len() == 44 && u32_at(b, 0) == 0x43435442),
        CommandGram::spec_is_pingpong(b) <==> (b.len() == 4 && (u32_at(b, 0) == 0x49505442
            || u32_at(b, 0) == 0x4F505442)),
{
}

/// A hookup: `bitcomm` at 0, `version` 4, `command` 8, `send_server_id` 12,
/// `recv_server_id` 16, `message_type` 20, `message_id` 24, `return_code`
/// 28, `data_time` 32; a buffer is a hookup when it holds exactly 36 bytes
/// and starts with "BTHK".
pub proof fn law_hookup_layout(b: Seq<u8>)
    ensures
        ({
            let g = S2SHookupGram::spec_from_bytes(b);
            &&& g.bitcomm == u32_at(b, 0)
            &&& g.version == u32_at(b, 4)
            &&& g.command == u32_at(b, 8)
            &&& g.send_server_id == u32_at(b, 12)
            &&& g.recv_server_id == u32_at(b, 16)
            &&& g.message_type == u32_at(b, 20)
            &&& g.message_id == u32_at(b, 24)
            &&& g.return_code == u32_at(b, 28)
            &&& g.data_time == u32_at(b, 32)
        }),
        S2SHookupGram::spec_is_hookup(b) <==> (b.len() == 36 && u32_at(b, 0) == 0x4B485442),
{
}

/// The reply that `ReplyGram::create_reply_from_message` builds for message
/// `m` (keeping the time stamp `t` of its buffer) carries every identity
/// field of the message: device, sender, receiver, message type and id, and
/// the message's command with the answer bit set; it is flagged "BTRL" and of
/// version 0.1.0.1.
pub proof fn law_reply_to_message_copies_identity(m: MessageGram, t: u32)
    ensures
        ({
            let r = ReplyGram::spec_reply_to(m, t);
            &&& r.bitcomm == 0x4C525442
            &&& r.version == 0x00010001
            &&& r.command == m.command | 0x80000000
            &&& r.device_id == m.device_id
            &&& r.sender == m.sender
            &&& r.message_type == m.message_type
            &&& r.message_id == m.message_id
            &&& r.receiver == m.receiver
            &&& r.data_time == t
        }),
{
}

/// The bytes of the reply that a server sends for a message from another
/// server (`get_reply_buff`): 44 bytes, "BTRL", the message's version, its
/// command with the answer bit, and its device, sender, message type, message
/// id and receiver, each at its offset; no time stamp.
pub proof fn law_server_reply_bytes(m: MessageGram)
    ensures
        ({
            let b = spec_server_reply(m).spec_to_bytes();
            &&& b.len() == 44
            &&& u32_at(b, 0) == 0x4C525442
            &&& u32_at(b, 4) == m.version
            &&& u32_at(b, 8) == m.command | 0x80000000
            &&& u32_at(b, 12) == m.device_id
            &&& u32_at(b, 16) == m.sender.planet
            &&& u32_at(b, 20) == m.sender.object
            &&& u32_at(b, 24) == m.message_type
            &&& u32_at(b, 28) == m.message_id
            &&& u32_at(b, 32) == m.receiver.planet
            &&& u32_at(b, 36) == m.receiver.object
            &&& u32_at(b, 40) == 0
        }),
{
    let r = spec_server_reply(m);
    ReplyGram::lemma_decode_encode(r);
    law_reply_layout(r.spec_to_bytes());
}

/// The command that `CommandGram::create_command_gram_from_message_gram`
/// writes for message `m` into a buffer of `len` bytes that held `old`:
/// "BTCC", the message's version, command with the answer bit, device,
/// sender, message type and id; the return code and time stamp of `old`; and
/// the data size `len - 44`.
pub proof fn law_command_answer_copies_identity(m: MessageGram, old: CommandGram, len: int)
    ensures
        ({
            let c = CommandGram::spec_answer_to_message(m, old, len);
            &&& c.bitcomm == 0x43435442
            &&& c.version == m.version
            &&& c.command == m.command | 0x80000000
            &&& c.device_id == m.device_id
            &&& c.sender == m.sender
            &&& c.message_type == m.message_type
            &&& c.message_id == m.message_id
            &&& c.return_code == old.return_code
            &&& c.data_time == old.data_time
            &&& c.data_size == (len - 44) as u32
        }),
{
}

/// The bytes of the command that answers a client's message `m` with `code`
/// (`get_message_return_buff`): 44 bytes, "BTCC", the message's version, its
/// command with the answer bit, its device, sender, message type and id, the
/// code, and no time stamp or data.
pub proof fn law_message_answer_bytes(m: MessageGram, code: u32)
    ensures
        ({
            let b = spec_message_answer(m, code).spec_to_bytes();
            &&& b.len() == 44
            &&& u32_at(b, 0) == 0x43435442
            &&& u32_at(b, 4) == m.version
            &&& u32_at(b, 8) == m.command | 0x80000000
            &&& u32_at(b, 12) == m.device_id
            &&& u32_at(b, 16) == m.sender.planet
            &&& u32_at(b, 20) == m.sender.object
            &&& u32_at(b, 24) == m.message_type
            &&& u32_at(b, 28) == m.message_id
            &&& u32_at(b, 32) == code
            &&& u32_at(b, 36) == 0
            &&& u32_at(b, 40) == 0
        }),
{
    let c = spec_message_answer(m, code);
    CommandGram::lemma_decode_encode(c);
    law_command_layout(c.spec_to_bytes());
}

/// The bytes of the answer that server `local` sends to hookup `g`
/// (`get_hookup_reply_buff`): 36 bytes, `g`'s flag and version, its command
/// with the answer bit, `local` as sender and `g`'s sender as receiver, and
/// `g`'s message type, id, return code and time stamp.
pub proof fn law_hookup_reply_bytes(g: S2SHookupGram, local: u32)
    ensures
        ({
            let b = spec_hookup_reply(g, local).spec_to_bytes();
            &&& b.len() == 36
            &&& u32_at(b, 0) == g.bitcomm
            &&& u32_at(b, 4) == g.version
            &&& u32_at(b, 8) == g.command | 0x80000000
            &&& u32_at(b, 12) == local
            &&& u32_at(b, 16) == g.send_server_id
            &&& u32_at(b, 20) == g.message_type
            &&& u32_at(b, 24) == g.message_id
            &&& u32_at(b, 28) == g.return_code
            &&& u32_at(b, 32) == g.data_time
        }),
{
    let h = spec_hookup_reply(g, local);
    S2SHookupGram::lemma_decode_encode(h);
    law_hookup_layout(h.spec_to_bytes());
}

/// The bytes of the hookup that server `send` sends to server `recv`
/// (`get_hookup_buff`): 36 bytes, "BTHK", version 0.1.0.1, the command
/// `HOOKUP_SERVER`, the two servers, and zeros after them.
pub proof fn law_hookup_request_bytes(send: u32, recv: u32)
    ensures
        ({
            let b = spec_hookup_request(send, recv).spec_to_bytes();
            &&& b.len() == 36
            &&& u32_at(b, 0) == 0x4B485442
            &&& u32_at(b, 4) == 0x00010001
            &&& u32_at(b, 8) == 0x20000000
            &&& u32_at(b, 12) == send
            &&& u32_at(b, 16) == recv
            &&& u32_at(b, 20) == 0
            &&& u32_at(b, 24) == 0
            &&& u32_at(b, 28) == 0
            &&& u32_at(b, 32) == 0
        }),
{
    let h = spec_hookup_request(send, recv);
    S2SHookupGram::lemma_decode_encode(h);
    law_hookup_layout(h.spec_to_bytes());
}


/// A `u32` field is stored little-endian: its lowest byte first.
pub proof fn law_u32_little_endian(b: Seq<u8>, off: int)
    requires
        0 <= off && off + 4 <= b.len(),
    ensures
        u32_at(b, off) as int == b[off] as int + 256 * (b[off + 1] as int) + 65536 * (b[off
            + 2] as int) + 16777216 * (b[off + 3] as int),
{
}

/// A `u64` field is stored little-endian: its low word first.
pub proof fn law_u64_little_endian(b: Seq<u8>, off: int)
    requires
        0 <= off && off + 8 <= b.len(),
    ensures
        u64_at(b, off) as int == u32_at(b, off) as int + 4294967296 * (u32_at(b, off + 4) as int),
{
}

/// The numbers of the protocol: the flags (the ASCII letters "BTCM", "BTRT",
/// "BTRL", "BTCC", "BTPI", "BTPO", "BTHK" read little-endian), the version,
/// the command bits, the return codes, the gram sizes, and the supervisor's
/// thresholds.
pub proof fn law_protocol_constants()
    ensures
        crate::object::gram::BITCOMM_MESSAGE == 0x4D435442,
        crate::object::gram::BITCOMM_RECEIPT == 0x54525442,
        crate::object::gram::BITCOMM_REPLY == 0x4C525442,
        crate::object::gram::BITCOMM_COMMAND == 0x43435442,
        crate::object::gram::BITCOMM_PING == 0x49505442,
        crate::object::gram::BITCOMM_PONG == 0x4F505442,
        crate::object::gram::BITCOMM_HOOKUP == 0x4B485442,
        crate::object::gram::BITCOMM_NODEF == 0xFFFFFFFF,
        crate::object::gram::BITCOMM_VERSION_0_1_0_1 == 0x00010001,
        crate::object::gram::RESP_MASK == 0x80000000,
        crate::object::gram::LOGIN_COMMAND == 1,
        crate::object::gram::LOGOUT_COMMAND == 2,
        crate::object::gram::SEND_MESS == 4,
        crate::object::gram::SEND_PING == 0x10000000,
        crate::object::gram::RESP_PONG == 0x90000000,
        crate::object::gram::HOOKUP_SERVER == 0x20000000,
        crate::object::gram::RETURN_OK == 0,
        crate::object::gram::RETURN_NOT_LOGIN == 1,
        crate::object::gram::RETURN_TWO_SESSION_NO_SAME == 2,
        crate::object::gram::message::MESSAGE_GRAM_SIZE == 80,
        crate::object::gram::receipt::RECEIPT_GRAM_SIZE == 48,
        crate::object::gram::reply::REPLY_GRAM_SIZE == 44,
        crate::object::gram::command::COMMAND_GRAM_SIZE == 44,
        crate::object::gram::hookup::HOOKUP_GRAM_SIZE == 36,
        crate::net::quic::slowloris::CONNECTION_COUNT_THRESHOLD == 1000,
        crate::net::quic::slowloris::MIN_THROUGHPUT == 500,
        crate::queue::EVENT_QUEUE_LEN == 1024,
{
}

} // verus!

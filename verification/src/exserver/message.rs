//! The reply a server sends back for a message from another server.
use vstd::prelude::*;

use crate::object::gram::message::MessageGram;
use crate::object::gram::reply::ReplyGram;
use crate::object::gram::{BITCOMM_REPLY, RESP_MASK};

verus! {

/// The reply to `m`: the flag of a reply, the message's own version, the
/// answer bit set in its command, its identity fields, and no time stamp.
pub open spec fn spec_server_reply(m: MessageGram) -> ReplyGram {
    ReplyGram {
        bitcomm: BITCOMM_REPLY,
        version: m.version,
        command: m.command | RESP_MASK,
        device_id: m.device_id,
        sender: m.sender,
        message_type: m.message_type,
        message_id: m.message_id,
        receiver: m.receiver,
        data_time: 0,
    }
}

/// The bytes of the reply to `data_gram`.
pub fn get_reply_buff(data_gram: &MessageGram) -> (r: Vec<u8>)
    ensures
        r@ == spec_server_reply(*data_gram).spec_to_bytes(),
{
    let mut rct_buff: Vec<u8> = ReplyGram::create_gram_buf(0);
    let mut rct_gram = ReplyGram::create_reply_gram_by_mut_vec8(&mut rct_buff);
    rct_gram.bitcomm = BITCOMM_REPLY;
    rct_gram.version = data_gram.version;
    rct_gram.command = data_gram.command | RESP_MASK;
    rct_gram.device_id = data_gram.device_id;
    rct_gram.sender = data_gram.sender;
    rct_gram.receiver = data_gram.receiver;
    rct_gram.message_type = data_gram.message_type;
    rct_gram.message_id = data_gram.message_id;
    rct_gram.write_to_u8(rct_buff.as_mut_slice());
    proof {
        ReplyGram::lemma_encode_decode(rct_buff@);
    }
    rct_buff
}

} // verus!

//! Recognising the grams that arrive from a client.
use std::sync::Arc;

use bytes::Bytes;
use vstd::prelude::*;

use crate::object::gram::command::CommandGram;
use crate::object::gram::message::MessageGram;
use crate::object::gram::receipt::ReceiptGram;
use crate::object::gram::BitcommDataGram;
use crate::payload::{bytes_as_slice, bytes_content};
use crate::wire::u32_at;

verus! {

/// The gram a server recognises in a buffer from a client: a ping or pong
/// flag, a command, a receipt or a message, tried in that order (at most one
/// can match), with the buffer itself; `None` when it is none of them.
pub open spec fn spec_client_gram_matches(
    data_buff: Arc<Bytes>,
    r: Option<BitcommDataGram>,
) -> bool {
    let b = bytes_content(*data_buff);
    if CommandGram::spec_is_pingpong(b) {
        r matches Some(BitcommDataGram::Pingpong(f)) && *f == u32_at(b, 0)
    } else if CommandGram::spec_is_command(b) {
        r matches Some(BitcommDataGram::Command { data_buff: d, data_gram: g }) && d == data_buff
            && *g == CommandGram::spec_from_bytes(b)
    } else if ReceiptGram::spec_is_receipt(b) {
        r matches Some(BitcommDataGram::Receipt { data_buff: d, data_gram: g }) && d == data_buff
            && *g == ReceiptGram::spec_from_bytes(b)
    } else if MessageGram::spec_is_message(b) {
        r matches Some(BitcommDataGram::Message { data_buff: d, data_gram: g }) && d == data_buff
            && *g == MessageGram::spec_from_bytes(b)
    } else {
        r is None
    }
}

/// Recognises the gram in a buffer received from a client.
pub fn prepare_data_buffer(data_buff: Arc<Bytes>) -> (r: Option<BitcommDataGram>)
    ensures
        spec_client_gram_matches(data_buff, r),
{
    let bts: &[u8] = bytes_as_slice(&*data_buff);
    if CommandGram::is_pingpong(bts) {
        let bitcomm_flag = CommandGram::get_bitcomm_flag_by_u8(bts);
        return Some(BitcommDataGram::Pingpong(Arc::new(bitcomm_flag)));
    }
    if CommandGram::is_command(bts) {
        let command_gram = CommandGram::get_command_gram_by_u8(bts);
        return Some(BitcommDataGram::Command { data_buff, data_gram: Arc::new(command_gram) });
    }
    if ReceiptGram::is_receipt(bts) {
        let receipt_gram = ReceiptGram::get_receipt_gram_by_u8(bts);
        return Some(BitcommDataGram::Receipt { data_buff, data_gram: Arc::new(receipt_gram) });
    }
    if MessageGram::is_message(bts) {
        let message_gram = MessageGram::get_message_gram_by_u8(bts);
        return Some(BitcommDataGram::Message { data_buff, data_gram: Arc::new(message_gram) });
    }
    None
}

} // verus!

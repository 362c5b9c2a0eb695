//! Recognising the grams that arrive from another server.
use std::sync::Arc;

use bytes::Bytes;
use vstd::prelude::*;

use crate::object::gram::hookup::S2SHookupGram;
use crate::object::gram::message::MessageGram;
use crate::object::gram::receipt::ReceiptGram;
use crate::object::gram::reply::ReplyGram;
use crate::object::gram::BitcommDataGram;
use crate::payload::{bytes_as_slice, bytes_content};

verus! {

/// The gram a server recognises in a buffer from another server: a reply, a
/// hookup, a receipt or a message, tried in that order (at most one can
/// match), with the buffer itself; `None` when it is none of them.
pub open spec fn spec_server_gram_matches(
    data_buff: Arc<Bytes>,
    r: Option<BitcommDataGram>,
) -> bool {
    let b = bytes_content(*data_buff);
    if ReplyGram::spec_is_reply(b) {
        r matches Some(BitcommDataGram::Reply { data_buff: d, data_gram: g }) && d == data_buff && *g
            == ReplyGram::spec_from_bytes(b)
    } else if S2SHookupGram::spec_is_hookup(b) {
        r matches Some(BitcommDataGram::S2SHookup { data_buff: d, data_gram: g }) && d == data_buff
            && *g == S2SHookupGram::spec_from_bytes(b)
    } else if ReceiptGram::spec_is_receipt(b) {
        r matches Some(BitcommDataGram::Receipt { data_buff: d, data_gram: g }) && d == data_buff
            && *g == ReceiptGram::spec_from_bytes(b)
    } else if MessageGram::spec_is_message(b) {
        r matches Some(BitcommDataGram::Message { data_buff: d, data_gram: g }) && d == data_buff
            && *g == MessageGram::spec_from_bytes(b)
    } else {
        r is None
    }
}

/// Recognises the gram in a buffer received from another server.
pub fn prepare_data_buffer(data_buff: Arc<Bytes>) -> (r: Option<BitcommDataGram>)
    ensures
        spec_server_gram_matches(data_buff, r),
{
    let bts: &[u8] = bytes_as_slice(&*data_buff);
    if ReplyGram::is_reply(bts) {
        let reply_gram = ReplyGram::get_reply_gram_by_u8(bts);
        return Some(BitcommDataGram::Reply { data_buff, data_gram: Arc::new(reply_gram) });
    }
    if S2SHookupGram::is_hookup(bts) {
        let hookup_gram = S2SHookupGram::get_hookup_gram_by_u8(bts);
        return Some(BitcommDataGram::S2SHookup { data_buff, data_gram: Arc::new(hookup_gram) });
    }
    if ReceiptGram::is_receipt(bts) {
        let receipt_gram = ReceiptGram::get_receipt_gram_by_u8(bts);
        return Some(BitcommDataGram::Receipt { data_buff, data_gram: Arc::new(receipt_gram) });
    }
    if MessageGram::is_message(bts) {
        let message_gram = MessageGram::get_message_gram_by_u8(bts);
        return Some(BitcommDataGram::Message { data_buff, data_gram: Arc::new(message_gram) });
    }
    None
}

} // verus!

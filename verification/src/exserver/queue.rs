//! What a server puts on its queue for another server, and into its resend
//! buffer.
use std::sync::Arc;

use bytes::Bytes;
use vstd::prelude::*;

use crate::object::gram::message::MessageGram;
use crate::object::gram::receipt::ReceiptGram;
use crate::object::gram::spec_gram_key;
use crate::payload::{bytes_as_slice, bytes_content, share};
use crate::queue::{order_after_push, GramBufferPool, GramEvent};

verus! {

/// The event for a buffer to forward: a message or a receipt with its
/// header, tried in that order; `None` for anything else.
pub fn gram_event_for_buffer(data_buff: &Arc<Bytes>) -> (r: Option<GramEvent>)
    ensures
        ({
            let b = bytes_content(**data_buff);
            if MessageGram::spec_is_message(b) {
                r matches Some(GramEvent::MessagGramEvent { data_buff: d, data_gram: g }) && d
                    == *data_buff && *g == MessageGram::spec_from_bytes(b)
            } else if ReceiptGram::spec_is_receipt(b) {
                r matches Some(GramEvent::ReceiptGramEvent { data_buff: d, data_gram: g }) && d
                    == *data_buff && *g == ReceiptGram::spec_from_bytes(b)
            } else {
                r is None
            }
        }),
{
    let bts: &[u8] = bytes_as_slice(&**data_buff);
    if MessageGram::is_message(bts) {
        let data_gram = Arc::new(MessageGram::get_message_gram_by_u8(bts));
        return Some(GramEvent::MessagGramEvent { data_buff: share(data_buff), data_gram });
    }
    if ReceiptGram::is_receipt(bts) {
        let data_gram = Arc::new(ReceiptGram::get_receipt_gram_by_u8(bts));
        return Some(GramEvent::ReceiptGramEvent { data_buff: share(data_buff), data_gram });
    }
    None
}

/// Keeps a sent message in the resend buffer under its key.
pub fn send_message2buffer(
    buffer: &mut GramBufferPool,
    data_buff: &Arc<Bytes>,
    data_gram: &MessageGram,
)
    requires
        old(buffer).wf(),
    ensures
        final(buffer).wf(),
        final(buffer)@.order == order_after_push(
            old(buffer)@.order,
            old(buffer)@.capacity,
            spec_gram_key(data_gram.sender, data_gram.receiver, data_gram.message_id),
        ),
        final(buffer)@.stored == old(buffer)@.stored.insert(
            spec_gram_key(data_gram.sender, data_gram.receiver, data_gram.message_id),
            *data_buff,
        ),
        final(buffer)@.capacity == old(buffer)@.capacity,
{
    buffer.push(share(data_buff), data_gram.get_message_gram_key());
}

/// Keeps a sent receipt in the resend buffer under its key.
pub fn send_receipt2buffer(
    buffer: &mut GramBufferPool,
    data_buff: &Arc<Bytes>,
    data_gram: &ReceiptGram,
)
    requires
        old(buffer).wf(),
    ensures
        final(buffer).wf(),
        final(buffer)@.order == order_after_push(
            old(buffer)@.order,
            old(buffer)@.capacity,
            spec_gram_key(data_gram.sender, data_gram.receiver, data_gram.message_id),
        ),
        final(buffer)@.stored == old(buffer)@.stored.insert(
            spec_gram_key(data_gram.sender, data_gram.receiver, data_gram.message_id),
            *data_buff,
        ),
        final(buffer)@.capacity == old(buffer)@.capacity,
{
    buffer.push(share(data_buff), data_gram.get_receipt_gram_key());
}

} // verus!

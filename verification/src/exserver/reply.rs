//! A reply from the other server answers a gram waiting in the resend buffer.
use std::sync::Arc;

use bytes::Bytes;
use vstd::prelude::*;

use crate::object::gram::reply::ReplyGram;
use crate::object::gram::spec_gram_key;
use crate::queue::{lookup, GramBufferPool};

verus! {

/// Removes from the resend buffer the gram that `data_gram` answers.
pub fn remove_buffer(message_buffer: &mut GramBufferPool, data_gram: &ReplyGram) -> (r: Option<
    Arc<Bytes>,
>)
    requires
        old(message_buffer).wf(),
    ensures
        final(message_buffer).wf(),
        final(message_buffer)@.order == old(message_buffer)@.order,
        final(message_buffer)@.stored == old(message_buffer)@.stored.remove(
            spec_gram_key(data_gram.sender, data_gram.receiver, data_gram.message_id),
        ),
        final(message_buffer)@.capacity == old(message_buffer)@.capacity,
        r == lookup(
            old(message_buffer)@.stored,
            spec_gram_key(data_gram.sender, data_gram.receiver, data_gram.message_id),
        ),
{
    let key = data_gram.get_reply_gram_key();
    message_buffer.remove(&key)
}

} // verus!

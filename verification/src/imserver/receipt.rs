//! A client's receipt: forwarded only when it comes on the client's own
//! session; it answers the message waiting in the resend buffer.
use std::sync::Arc;

use bytes::Bytes;
use vstd::prelude::*;

use super::SessionCheck;
use crate::object::gram::receipt::ReceiptGram;
use crate::object::gram::spec_gram_key;
use crate::queue::{lookup, GramBufferPool};

verus! {

/// A receipt is put on the receipt queue only when it comes on the client's
/// own session; otherwise nothing is done with it.
pub fn client_receipt_forwarded(session: SessionCheck) -> (r: bool)
    ensures
        r == (session == SessionCheck::SameSession),
{
    match session {
        SessionCheck::SameSession => true,
        _ => false,
    }
}

/// Removes from the resend buffer the message that `data_gram` answers.
pub fn remove_buffer(buffer: &mut GramBufferPool, data_gram: &ReceiptGram) -> (r: Option<
    Arc<Bytes>,
>)
    requires
        old(buffer).wf(),
    ensures
        final(buffer).wf(),
        final(buffer)@.order == old(buffer)@.order,
        final(buffer)@.stored == old(buffer)@.stored.remove(
            spec_gram_key(data_gram.sender, data_gram.receiver, data_gram.message_id),
        ),
        final(buffer)@.capacity == old(buffer)@.capacity,
        r == lookup(
            old(buffer)@.stored,
            spec_gram_key(data_gram.sender, data_gram.receiver, data_gram.message_id),
        ),
{
    let key = data_gram.get_receipt_gram_key();
    buffer.remove(&key)
}

} // verus!

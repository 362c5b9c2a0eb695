//! A client's message: queued when it comes on the client's own session,
//! answered with a return code otherwise; and messages sent again from the
//! resend buffer.
use std::sync::Arc;

use bytes::Bytes;
use vstd::prelude::*;

use super::SessionCheck;
use crate::object::gram::command::CommandGram;
use crate::object::gram::message::{MessageGram, MESSAGE_GRAM_SIZE};
use crate::object::gram::{
    ReturnCode, BITCOMM_COMMAND, RESP_MASK, RETURN_NOT_LOGIN, RETURN_TWO_SESSION_NO_SAME,
};
use crate::payload::{bytes_as_slice, bytes_content};
use crate::queue::GramEvent;

verus! {

/// What becomes of a client's message.
#[derive(Debug, Clone, Copy, PartialEq, Eq, Structural)]
pub enum ClientMessageAction {
    /// Put it on the message queue (and refresh the client's time-out).
    Queue,
    /// Do not queue it; answer the client with a command carrying this code.
    Answer(ReturnCode),
}

/// A message on the client's own session is queued; on another session it is
/// answered with `RETURN_TWO_SESSION_NO_SAME`; from a client that is not
/// logged in, with `RETURN_NOT_LOGIN`.
pub fn client_message_action(session: SessionCheck) -> (r: ClientMessageAction)
    ensures
        r == (match session {
            SessionCheck::SameSession => ClientMessageAction::Queue,
            SessionCheck::OtherSession => ClientMessageAction::Answer(RETURN_TWO_SESSION_NO_SAME),
            SessionCheck::NotLoggedIn => ClientMessageAction::Answer(RETURN_NOT_LOGIN),
        }),
{
    match session {
        SessionCheck::SameSession => ClientMessageAction::Queue,
        SessionCheck::OtherSession => ClientMessageAction::Answer(RETURN_TWO_SESSION_NO_SAME),
        SessionCheck::NotLoggedIn => ClientMessageAction::Answer(RETURN_NOT_LOGIN),
    }
}

/// The command that answers message `m` with `code`.
pub open spec fn spec_message_answer(m: MessageGram, code: ReturnCode) -> CommandGram {
    CommandGram {
        bitcomm: BITCOMM_COMMAND,
        version: m.version,
        command: m.command | RESP_MASK,
        device_id: m.device_id,
        sender: m.sender,
        message_type: m.message_type,
        message_id: m.message_id,
        return_code: code,
        data_time: 0,
        data_size: 0,
    }
}

/// The bytes of the command that answers `reqmsggram` with `code`.
pub fn get_message_return_buff(reqmsggram: &MessageGram, code: ReturnCode) -> (r: Vec<u8>)
    ensures
        r@ == spec_message_answer(*reqmsggram, code).spec_to_bytes(),
{
    let mut vecu8 = CommandGram::create_gram_buf(0);
    let mut cdg = CommandGram::create_command_gram_from_message_gram(
        vecu8.as_mut_slice(),
        reqmsggram,
    );
    cdg.return_code = code;
    cdg.write_to_u8(vecu8.as_mut_slice());
    proof {
        CommandGram::lemma_encode_decode(vecu8@);
    }
    vecu8
}

/// The event that sends again a message kept in the resend buffer.
pub fn resend_message_event(data_buff: Arc<Bytes>) -> (r: GramEvent)
    requires
        bytes_content(*data_buff).len() >= MESSAGE_GRAM_SIZE,
    ensures
        r matches GramEvent::MessagGramEvent { data_buff: d, data_gram: g } && d == data_buff && *g
            == MessageGram::spec_from_bytes(bytes_content(*data_buff)),
{
    let mg = MessageGram::get_message_gram_by_u8(bytes_as_slice(&*data_buff));
    GramEvent::MessagGramEvent { data_buff, data_gram: Arc::new(mg) }
}

} // verus!

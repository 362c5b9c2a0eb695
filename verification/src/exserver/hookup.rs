//! The answer to a hookup: only the listening side sends one.
use vstd::prelude::*;

use super::EXServerType;
use crate::object::gram::hookup::S2SHookupGram;
use crate::object::gram::RESP_MASK;

verus! {

/// The server that listened answers a hookup; the one that connected does not.
pub fn hookup_reply_needed(exserver_type: &EXServerType) -> (r: bool)
    ensures
        r == (*exserver_type == EXServerType::Server),
{
    match exserver_type {
        EXServerType::Server => true,
        EXServerType::Client => false,
    }
}

/// The answer to hookup `g` from the server `local_server_id`: the answer bit
/// set, the sender and receiver exchanged, everything else copied.
pub open spec fn spec_hookup_reply(g: S2SHookupGram, local_server_id: u32) -> S2SHookupGram {
    S2SHookupGram {
        bitcomm: g.bitcomm,
        version: g.version,
        command: g.command | RESP_MASK,
        send_server_id: local_server_id,
        recv_server_id: g.send_server_id,
        message_type: g.message_type,
        message_id: g.message_id,
        return_code: g.return_code,
        data_time: g.data_time,
    }
}

/// The bytes of the answer to `data_gram`.
pub fn get_hookup_reply_buff(data_gram: &S2SHookupGram, local_server_id: u32) -> (r: Vec<u8>)
    ensures
        r@ == spec_hookup_reply(*data_gram, local_server_id).spec_to_bytes(),
{
    let mut rct_buff: Vec<u8> = S2SHookupGram::create_gram_buf(0);
    let mut rct_gram = S2SHookupGram::create_hookup_gram_by_mut_vec8(&mut rct_buff);
    rct_gram.bitcomm = data_gram.bitcomm;
    rct_gram.version = data_gram.version;
    rct_gram.command = data_gram.command | RESP_MASK;
    rct_gram.send_server_id = local_server_id;
    rct_gram.recv_server_id = data_gram.send_server_id;
    rct_gram.message_type = data_gram.message_type;
    rct_gram.message_id = data_gram.message_id;
    rct_gram.return_code = data_gram.return_code;
    rct_gram.data_time = data_gram.data_time;
    rct_gram.write_to_u8(rct_buff.as_mut_slice());
    proof {
        S2SHookupGram::lemma_encode_decode(rct_buff@);
    }
    rct_buff
}

} // verus!

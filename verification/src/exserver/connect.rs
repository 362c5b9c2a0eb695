//! The hookup a server sends when it connects to another.
use vstd::prelude::*;

use crate::object::gram::hookup::S2SHookupGram;
use crate::object::gram::{BITCOMM_HOOKUP, BITCOMM_VERSION_0_1_0_1, HOOKUP_SERVER};

verus! {

/// The hookup from `send_server_id` to `recv_server_id`.
pub open spec fn spec_hookup_request(send_server_id: u32, recv_server_id: u32) -> S2SHookupGram {
    S2SHookupGram {
        bitcomm: BITCOMM_HOOKUP,
        version: BITCOMM_VERSION_0_1_0_1,
        command: HOOKUP_SERVER,
        send_server_id,
        recv_server_id,
        message_type: 0,
        message_id: 0,
        return_code: 0,
        data_time: 0,
    }
}

/// The bytes of the hookup from `send_server_id` to `recv_server_id`.
pub fn get_hookup_buff(send_server_id: u32, recv_server_id: u32) -> (r: Vec<u8>)
    ensures
        r@ == spec_hookup_request(send_server_id, recv_server_id).spec_to_bytes(),
{
    let mut rct_buff: Vec<u8> = S2SHookupGram::create_gram_buf(0);
    let mut rct_gram = S2SHookupGram::create_hookup_gram_by_mut_vec8(&mut rct_buff);
    rct_gram.bitcomm = BITCOMM_HOOKUP;
    rct_gram.version = BITCOMM_VERSION_0_1_0_1;
    rct_gram.command = HOOKUP_SERVER;
    rct_gram.send_server_id = send_server_id;
    rct_gram.recv_server_id = recv_server_id;
    rct_gram.write_to_u8(rct_buff.as_mut_slice());
    proof {
        S2SHookupGram::lemma_encode_decode(rct_buff@);
    }
    rct_buff
}

} // verus!

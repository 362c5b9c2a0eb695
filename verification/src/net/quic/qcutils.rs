//! Endpoint addresses.
use vstd::prelude::*;
use vstd::string::StringExecFns;

use crate::strings::string_push;

verus! {

/// The address `server:port` of an endpoint.
pub fn get_im_server_port(server: &str, port: &str) -> (r: String)
    ensures
        r@ == server@ + seq![':'] + port@,
{
    let mut address = server.to_owned();
    string_push(&mut address, ':');
    address.append(port);
    address
}

} // verus!

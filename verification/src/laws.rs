//! Properties of the library as a whole: what the grams look like on the
//! wire to the side that reads them, how their keys identify them, and how
//! the resend buffer behaves over several operations.
use std::sync::Arc;

use bytes::Bytes;
use vstd::arithmetic::div_mod::lemma_fundamental_div_mod;
use vstd::prelude::*;

use crate::exserver::connect::spec_hookup_request;
use crate::exserver::hookup::spec_hookup_reply;
use crate::exserver::message::spec_server_reply;
use crate::exserver::receive::spec_server_gram_matches;
use crate::imserver::message::spec_message_answer;
use crate::imserver::receive::spec_client_gram_matches;
use crate::object::client::{hex_digit, spec_lower_hex, ClientID};
use crate::object::gram::command::CommandGram;
use crate::object::gram::hookup::S2SHookupGram;
use crate::object::gram::message::{MessageGram, MESSAGE_GRAM_SIZE};
use crate::object::gram::receipt::{ReceiptGram, RECEIPT_GRAM_SIZE};
use crate::object::gram::reply::ReplyGram;
use crate::object::gram::{
    spec_gram_key, BitcommDataGram, BITCOMM_HOOKUP, BITCOMM_MESSAGE, BITCOMM_RECEIPT,
};
use crate::payload::bytes_content;
use crate::queue::{lookup, order_after_push, pool_bound, GramPoolState};
use crate::wire::{lemma_u32_at_injective, lemma_u64_at_injective, u32_at};

verus! {

/// No buffer is two kinds of gram: the kinds differ in their flag, and the
/// reply and the command, which have the same size, differ in their flag.
pub proof fn law_gram_kinds_exclusive(b: Seq<u8>)
    ensures
        ReplyGram::spec_is_reply(b) ==> !S2SHookupGram::spec_is_hookup(b)
            && !ReceiptGram::spec_is_receipt(b) && !MessageGram::spec_is_message(b)
            && !CommandGram::spec_is_command(b) && !CommandGram::spec_is_pingpong(b),
        S2SHookupGram::spec_is_hookup(b) ==> !ReceiptGram::spec_is_receipt(b)
            && !MessageGram::spec_is_message(b) && !CommandGram::spec_is_command(b)
            && !CommandGram::spec_is_pingpong(b),
        ReceiptGram::spec_is_receipt(b) ==> !MessageGram::spec_is_message(b)
            && !CommandGram::spec_is_command(b) && !CommandGram::spec_is_pingpong(b),
        MessageGram::spec_is_message(b) ==> !CommandGram::spec_is_command(b)
            && !CommandGram::spec_is_pingpong(b),
        CommandGram::spec_is_command(b) ==> !CommandGram::spec_is_pingpong(b),
{
}

/// Reading a message header and writing it back leaves the buffer as it was:
/// two buffers of the same length that hold the same header and agree on
/// every byte outside its fields are equal.
pub proof fn law_message_header_determines_bytes(before: Seq<u8>, after: Seq<u8>)
    requires
        before.len() >= MESSAGE_GRAM_SIZE,
        after.len() == before.len(),
        MessageGram::spec_from_bytes(after) == MessageGram::spec_from_bytes(before),
        forall|i: int|
            0 <= i < before.len() && !MessageGram::is_field_byte(i) ==> after[i] == before[i],
    ensures
        after == before,
{
    let a = MessageGram::spec_from_bytes(after);
    let c = MessageGram::spec_from_bytes(before);
    assert(a.bitcomm == c.bitcomm && a.version == c.version && a.command == c.command);
    assert(a.device_id == c.device_id && a.sender == c.sender && a.message_type
        == c.message_type);
    assert(a.message_id == c.message_id && a.ref_message_id == c.ref_message_id && a.receiver
        == c.receiver);
    lemma_u32_at_injective(after, before, 0);
    lemma_u32_at_injective(after, before, 4);
    lemma_u32_at_injective(after, before, 8);
    lemma_u32_at_injective(after, before, 12);
    lemma_u32_at_injective(after, before, 16);
    lemma_u32_at_injective(after, before, 20);
    lemma_u32_at_injective(after, before, 24);
    lemma_u32_at_injective(after, before, 28);
    lemma_u32_at_injective(after, before, 32);
    lemma_u32_at_injective(after, before, 36);
    lemma_u32_at_injective(after, before, 40);
    assert(a.reserve1 == c.reserve1 && a.reserve2 == c.reserve2);
    lemma_u64_at_injective(after, before, 48);
    lemma_u64_at_injective(after, before, 56);
    assert(a.reserve3 == c.reserve3 && a.reserve4 == c.reserve4);
    lemma_u32_at_injective(after, before, 64);
    lemma_u32_at_injective(after, before, 68);
    assert(a.data_time == c.data_time && a.data_size == c.data_size);
    lemma_u32_at_injective(after, before, 72);
    lemma_u32_at_injective(after, before, 76);
    assert forall|i: int| 0 <= i < before.len() implies after[i] == before[i] by {
        if !MessageGram::is_field_byte(i) {
        } else if i < 4 {
        } else if i < 8 {
        } else if i < 12 {
        } else if i < 16 {
        } else if i < 20 {
        } else if i < 24 {
        } else if i < 28 {
        } else if i < 32 {
        } else if i < 36 {
        } else if i < 40 {
        } else if i < 44 {
        } else if i < 56 {
        } else if i < 64 {
        } else if i < 68 {
        } else if i < 72 {
        } else if i < 76 {
        } else {
        }
    }
    assert(after =~= before);
}

/// Two clients have the same 64-bit identity only when they are the same client.
pub proof fn law_guid_identifies_client(c1: ClientID, c2: ClientID)
    ensures
        c1.spec_guid() == c2.spec_guid() <==> c1 == c2,
{
}

/// Two grams wait under the same key exactly when they have the same sender,
/// the same receiver object and the same message id.
pub proof fn law_gram_key_identifies_gram(
    s1: ClientID,
    r1: ClientID,
    m1: u32,
    s2: ClientID,
    r2: ClientID,
    m2: u32,
)
    ensures
        spec_gram_key(s1, r1, m1) == spec_gram_key(s2, r2, m2) <==> (s1 == s2 && r1.object
            == r2.object && m1 == m2),
{
    let g1 = s1.spec_guid() as int;
    let g2 = s2.spec_guid() as int;
    let o1 = r1.object as int;
    let o2 = r2.object as int;
    let i1 = m1 as int;
    let i2 = m2 as int;
    if spec_gram_key(s1, r1, m1) == spec_gram_key(s2, r2, m2) {
        assert(g1 == g2 && o1 == o2 && i1 == i2) by (nonlinear_arith)
            requires
                0 <= g1 < 18446744073709551616,
                0 <= g2 < 18446744073709551616,
                0 <= o1 < 4294967296,
                0 <= o2 < 4294967296,
                0 <= i1 < 4294967296,
                0 <= i2 < 4294967296,
                g1 * 18446744073709551616 + o1 * 4294967296 + i1 == g2 * 18446744073709551616 + o2
                    * 4294967296 + i2,
        ;
    }
}

/// A reply answers exactly the message it was made from: its key is the
/// message's key, so it removes that message from the resend buffer.
pub proof fn law_reply_has_message_key(m: MessageGram, data_time: u32)
    ensures
        ({
            let r = ReplyGram::spec_reply_to(m, data_time);
            spec_gram_key(r.sender, r.receiver, r.message_id) == spec_gram_key(
                m.sender,
                m.receiver,
                m.message_id,
            )
        }),
        ({
            let r = spec_server_reply(m);
            spec_gram_key(r.sender, r.receiver, r.message_id) == spec_gram_key(
                m.sender,
                m.receiver,
                m.message_id,
            )
        }),
{
}

/// The server that receives the reply to a message reads it as a reply,
/// and reads back exactly the reply that was sent.
pub proof fn law_server_reply_is_read_as_reply(
    m: MessageGram,
    data_buff: Arc<Bytes>,
    r: Option<BitcommDataGram>,
)
    requires
        bytes_content(*data_buff) == spec_server_reply(m).spec_to_bytes(),
        spec_server_gram_matches(data_buff, r),
    ensures
        r matches Some(BitcommDataGram::Reply { data_buff: d, data_gram: g }) && d == data_buff
            && *g == spec_server_reply(m),
{
    ReplyGram::lemma_decode_encode(spec_server_reply(m));
}

/// The server that receives a hookup request reads it as a hookup, and reads
/// back exactly the request that was sent.
pub proof fn law_hookup_request_is_read_as_hookup(
    send_server_id: u32,
    recv_server_id: u32,
    data_buff: Arc<Bytes>,
    r: Option<BitcommDataGram>,
)
    requires
        bytes_content(*data_buff) == spec_hookup_request(send_server_id, recv_server_id).spec_to_bytes(),
        spec_server_gram_matches(data_buff, r),
    ensures
        r matches Some(BitcommDataGram::S2SHookup { data_buff: d, data_gram: g }) && d == data_buff
            && *g == spec_hookup_request(send_server_id, recv_server_id),
{
    let g = spec_hookup_request(send_server_id, recv_server_id);
    S2SHookupGram::lemma_decode_encode(g);
    ReplyGram::lemma_decode_encode(ReplyGram::spec_from_bytes(g.spec_to_bytes()));
}

/// The answer to a hookup is read as a hookup too, from the answering server
/// back to the one that sent the hookup.
pub proof fn law_hookup_reply_is_read_as_hookup(
    g: S2SHookupGram,
    local_server_id: u32,
    data_buff: Arc<Bytes>,
    r: Option<BitcommDataGram>,
)
    requires
        g.bitcomm == BITCOMM_HOOKUP,
        bytes_content(*data_buff) == spec_hookup_reply(g, local_server_id).spec_to_bytes(),
        spec_server_gram_matches(data_buff, r),
    ensures
        r matches Some(BitcommDataGram::S2SHookup { data_buff: d, data_gram: h }) && d == data_buff
            && *h == spec_hookup_reply(g, local_server_id) && h.send_server_id == local_server_id
            && h.recv_server_id == g.send_server_id,
{
    S2SHookupGram::lemma_decode_encode(spec_hookup_reply(g, local_server_id));
}

/// The client that receives the answer to its message reads it as a command
/// carrying the return code, for the message it sent.
pub proof fn law_message_answer_is_read_as_command(
    m: MessageGram,
    code: u32,
    data_buff: Arc<Bytes>,
    r: Option<BitcommDataGram>,
)
    requires
        bytes_content(*data_buff) == spec_message_answer(m, code).spec_to_bytes(),
        spec_client_gram_matches(data_buff, r),
    ensures
        r matches Some(BitcommDataGram::Command { data_buff: d, data_gram: g }) && d == data_buff
            && *g == spec_message_answer(m, code) && g.return_code == code && g.message_id
            == m.message_id && g.sender == m.sender,
{
    CommandGram::lemma_decode_encode(spec_message_answer(m, code));
}

/// A push keeps the resend buffer's order within its bound.
pub proof fn law_push_keeps_bound(order: Seq<u128>, capacity: usize, key: u128)
    requires
        order.len() <= pool_bound(capacity),
    ensures
        order_after_push(order, capacity, key).len() <= pool_bound(capacity),
        order_after_push(order, capacity, key).last() == key,
{
}

/// What is pushed under a key is what a removal by that key gives back.
pub proof fn law_push_then_remove(st: GramPoolState, data: Arc<Bytes>, key: u128)
    ensures
        lookup(st.stored.insert(key, data), key) == Some(data),
        !st.stored.insert(key, data).remove(key).contains_key(key),
{
}

/// First in, first out: into an empty buffer that holds at least two keys,
/// two buffers pushed under different keys are popped in the order they
/// were pushed.
pub proof fn law_pop_in_push_order(
    capacity: usize,
    d1: Arc<Bytes>,
    k1: u128,
    d2: Arc<Bytes>,
    k2: u128,
)
    requires
        capacity >= 2,
        k1 != k2,
    ensures
        ({
            let order1 = order_after_push(Seq::empty(), capacity, k1);
            let stored1 = Map::<u128, Arc<Bytes>>::empty().insert(k1, d1);
            let order2 = order_after_push(order1, capacity, k2);
            let stored2 = stored1.insert(k2, d2);
            &&& order2 == seq![k1, k2]
            &&& lookup(stored2, order2[0]) == Some(d1)
            &&& order2.drop_first() == seq![k2]
            &&& lookup(stored2.remove(order2[0]), order2.drop_first()[0]) == Some(d2)
        }),
{
    let order1 = order_after_push(Seq::empty(), capacity, k1);
    let order2 = order_after_push(order1, capacity, k2);
    assert(order1 =~= seq![k1]);
    assert(order2 =~= seq![k1, k2]);
    assert(order2.drop_first() =~= seq![k2]);
}

/// A buffer answered before its turn comes to be resent is skipped: the key
/// still leaves the order, but nothing is stored under it any more.
pub proof fn law_answered_gram_is_not_resent(st: GramPoolState, key: u128)
    requires
        st.order.len() > 0,
        st.order[0] == key,
    ensures
        lookup(st.stored.remove(key), st.order[0]) is None,
{
}


/// A buffer marked as a message (its flag written at the start of a buffer
/// that holds a full header) is recognised as a message.
pub proof fn law_marked_message_is_recognised(b: Seq<u8>)
    requires
        b.len() >= MESSAGE_GRAM_SIZE,
        MessageGram::spec_from_bytes(b).bitcomm == BITCOMM_MESSAGE,
    ensures
        MessageGram::spec_is_message(b),
        !ReplyGram::spec_is_reply(b) && !ReceiptGram::spec_is_receipt(b)
            && !CommandGram::spec_is_command(b) && !S2SHookupGram::spec_is_hookup(b),
{
}

/// A buffer of exactly one receipt, marked as a receipt, is recognised as one;
/// a longer buffer is not.
pub proof fn law_marked_receipt_is_recognised(b: Seq<u8>)
    requires
        ReceiptGram::spec_from_bytes(b).bitcomm == BITCOMM_RECEIPT,
        b.len() >= RECEIPT_GRAM_SIZE,
    ensures
        ReceiptGram::spec_is_receipt(b) <==> b.len() == RECEIPT_GRAM_SIZE,
{
}


/// What a server reads in a buffer from a client, by the buffer's bytes: the
/// four bytes "BTPI" or "BTPO" are a ping or pong carrying that flag; 44
/// bytes starting with "BTCC" a command; 48 bytes starting with "BTRT" a
/// receipt; at least 80 bytes starting with "BTCM" a message (each with the
/// header the buffer holds and the buffer itself); anything else is dropped.
pub proof fn law_client_buffer_reading(data_buff: Arc<Bytes>, r: Option<BitcommDataGram>)
    requires
        spec_client_gram_matches(data_buff, r),
    ensures
        ({
            let b = bytes_content(*data_buff);
            let flag = u32_at(b, 0);
            &&& (b.len() == 4 && (flag == 0x49505442 || flag == 0x4F505442)) ==> (r matches Some(
                BitcommDataGram::Pingpong(f),
            ) && *f == flag)
            &&& (b.len() == 44 && flag == 0x43435442) ==> (r matches Some(
                BitcommDataGram::Command { data_buff: d, data_gram: g },
            ) && d == data_buff && *g == CommandGram::spec_from_bytes(b))
            &&& (b.len() == 48 && flag == 0x54525442) ==> (r matches Some(
                BitcommDataGram::Receipt { data_buff: d, data_gram: g },
            ) && d == data_buff && *g == ReceiptGram::spec_from_bytes(b))
            &&& (b.len() >= 80 && flag == 0x4D435442) ==> (r matches Some(
                BitcommDataGram::Message { data_buff: d, data_gram: g },
            ) && d == data_buff && *g == MessageGram::spec_from_bytes(b))
            &&& !(b.len() == 4 && (flag == 0x49505442 || flag == 0x4F505442)) && !(b.len() == 44
                && flag == 0x43435442) && !(b.len() == 48 && flag == 0x54525442) && !(b.len() >= 80
                && flag == 0x4D435442) ==> r is None
        }),
{
}

/// What a server reads in a buffer from another server, by the buffer's
/// bytes: 44 bytes starting with "BTRL" are a reply; 36 bytes starting with
/// "BTHK" a hookup; 48 bytes starting with "BTRT" a receipt; at least 80
/// bytes starting with "BTCM" a message (each with the header the buffer
/// holds and the buffer itself); anything else is dropped.
pub proof fn law_server_buffer_reading(data_buff: Arc<Bytes>, r: Option<BitcommDataGram>)
    requires
        spec_server_gram_matches(data_buff, r),
    ensures
        ({
            let b = bytes_content(*data_buff);
            let flag = u32_at(b, 0);
            &&& (b.len() == 44 && flag == 0x4C525442) ==> (r matches Some(
                BitcommDataGram::Reply { data_buff: d, data_gram: g },
            ) && d == data_buff && *g == ReplyGram::spec_from_bytes(b))
            &&& (b.len() == 36 && flag == 0x4B485442) ==> (r matches Some(
                BitcommDataGram::S2SHookup { data_buff: d, data_gram: g },
            ) && d == data_buff && *g == S2SHookupGram::spec_from_bytes(b))
            &&& (b.len() == 48 && flag == 0x54525442) ==> (r matches Some(
                BitcommDataGram::Receipt { data_buff: d, data_gram: g },
            ) && d == data_buff && *g == ReceiptGram::spec_from_bytes(b))
            &&& (b.len() >= 80 && flag == 0x4D435442) ==> (r matches Some(
                BitcommDataGram::Message { data_buff: d, data_gram: g },
            ) && d == data_buff && *g == MessageGram::spec_from_bytes(b))
            &&& !(b.len() == 44 && flag == 0x4C525442) && !(b.len() == 36 && flag == 0x4B485442)
                && !(b.len() == 48 && flag == 0x54525442) && !(b.len() >= 80 && flag
                == 0x4D435442) ==> r is None
        }),
{
}


/// The 64-bit identity of a client: its planet in the high 32 bits, its
/// object in the low 32 bits.
pub proof fn law_guid_value(c: ClientID)
    ensures
        c.spec_guid() as int == c.planet as int * 4294967296 + c.object as int,
{
}

/// The key of a gram, bit by bit from the top: the sender's planet (bits
/// 96..128), the sender's object (64..96), the receiver's object (32..64)
/// and the message id (0..32).
pub proof fn law_gram_key_value(sender: ClientID, receiver: ClientID, message_id: u32)
    ensures
        spec_gram_key(sender, receiver, message_id) as int == sender.planet as int
            * 79228162514264337593543950336 + sender.object as int * 18446744073709551616
            + receiver.object as int * 4294967296 + message_id as int,
{
    let p = sender.planet as int;
    let o = sender.object as int;
    assert((p * 4294967296 + o) * 18446744073709551616 == p * 79228162514264337593543950336 + o
        * 18446744073709551616) by (nonlinear_arith);
}

/// The value of a lower-case hexadecimal digit.
pub open spec fn hex_digit_value(c: char) -> int {
    if '0' <= c <= '9' {
        c as int - 48
    } else {
        c as int - 87
    }
}

/// The value of a hexadecimal numeral, its most significant digit first.
pub open spec fn hex_numeral_value(s: Seq<char>) -> int
    decreases s.len(),
{
    if s.len() == 0 {
        0
    } else {
        hex_numeral_value(s.drop_last()) * 16 + hex_digit_value(s.last())
    }
}

/// The hexadecimal form of an identity (`ClientID::get_hex`) is a numeral of
/// lower-case digits `0-9a-f` whose value is the number, with no leading zero
/// (zero is "0").
pub proof fn law_lower_hex_numeral(n: nat)
    ensures
        spec_lower_hex(n).len() >= 1,
        forall|i: int|
            0 <= i < spec_lower_hex(n).len() ==> ('0' <= #[trigger] spec_lower_hex(n)[i] <= '9'
                || 'a' <= spec_lower_hex(n)[i] <= 'f'),
        hex_numeral_value(spec_lower_hex(n)) == n,
        n > 0 ==> spec_lower_hex(n)[0] != '0',
        n == 0 ==> spec_lower_hex(n) == seq!['0'],
    decreases n,
{
    let s = spec_lower_hex(n);
    if n < 16 {
        assert(s.drop_last() =~= Seq::<char>::empty());
        assert(hex_numeral_value(s.drop_last()) == 0);
        if n < 10 {
            assert(hex_digit(n) as int == n + 48);
        } else {
            assert(hex_digit(n) as int == n + 87);
        }
        assert(hex_digit_value(hex_digit(n)) == n);
    } else {
        let q = n / 16;
        let d = n % 16;
        law_lower_hex_numeral(q);
        assert(s.drop_last() =~= spec_lower_hex(q));
        if d < 10 {
            assert(hex_digit(d) as int == d + 48);
        } else {
            assert(hex_digit(d) as int == d + 87);
        }
        assert(hex_digit_value(hex_digit(d)) == d);
        assert(s.last() == hex_digit(d));
        lemma_fundamental_div_mod(n as int, 16);
        assert(hex_numeral_value(s) == q * 16 + d);
        assert(q > 0);
        assert(s[0] == spec_lower_hex(q)[0]);
        assert forall|i: int| 0 <= i < s.len() implies ('0' <= #[trigger] s[i] <= '9' || 'a' <= s[i]
            <= 'f') by {
            if i < s.len() - 1 {
                assert(s[i] == spec_lower_hex(q)[i]);
            }
        }
    }
}

/// A push appends the key to the order; when the order already holds
/// `capacity` keys or more (and is not empty), its oldest key leaves.
pub proof fn law_push_order(order: Seq<u128>, capacity: usize, key: u128)
    ensures
        (order.len() < capacity || order.len() == 0) ==> order_after_push(order, capacity, key)
            == order.push(key),
        (order.len() >= capacity && order.len() > 0) ==> order_after_push(order, capacity, key)
            == order.subrange(1, order.len() as int).push(key),
        (capacity > 0 && order.len() <= capacity) ==> order_after_push(order, capacity, key).len()
            <= capacity,
        order.len() <= 1 && capacity == 0 ==> order_after_push(order, capacity, key) == seq![key],
{
    if order.len() <= 1 && capacity == 0 {
        if order.len() == 0 {
            assert(order.push(key) =~= seq![key]);
        } else {
            assert(order.subrange(1, 1).push(key) =~= seq![key]);
        }
    }
}

/// Looking up a key that nothing is stored under gives nothing; looking up a
/// stored key gives what is stored.
pub proof fn law_lookup(stored: Map<u128, Arc<Bytes>>, key: u128)
    ensures
        !stored.contains_key(key) ==> lookup(stored, key) is None,
        stored.contains_key(key) ==> lookup(stored, key) == Some(stored[key]),
{
}

} // verus!

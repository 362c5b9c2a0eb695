use std::sync::Arc;

use bitcomm::exserver::connect::get_hookup_buff;
use bitcomm::exserver::hookup::{get_hookup_reply_buff, hookup_reply_needed};
use bitcomm::exserver::message::get_reply_buff;
use bitcomm::exserver::queue::{gram_event_for_buffer, send_message2buffer, send_receipt2buffer};
use bitcomm::exserver::EXServerType;
use bitcomm::imserver::command::{command_route, CommandRoute};
use bitcomm::imserver::message::{
    client_message_action, get_message_return_buff, resend_message_event, ClientMessageAction,
};
use bitcomm::imserver::receipt::client_receipt_forwarded;
use bitcomm::imserver::SessionCheck;
use bitcomm::net::quic::qcutils::get_im_server_port;
use bitcomm::net::quic::slowloris::{MyConnectionSupervisor, SupervisorOutcome};
use bitcomm::object::client::ClientID;
use bitcomm::object::gram::command::CommandGram;
use bitcomm::object::gram::hookup::S2SHookupGram;
use bitcomm::object::gram::message::MessageGram;
use bitcomm::object::gram::receipt::ReceiptGram;
use bitcomm::object::gram::reply::ReplyGram;
use bitcomm::object::gram::{
    BitcommDataGram, BITCOMM_HOOKUP, BITCOMM_PING, BITCOMM_REPLY, BITCOMM_VERSION_0_1_0_1,
    HOOKUP_SERVER, LOGIN_COMMAND, LOGOUT_COMMAND, RESP_MASK, RETURN_NOT_LOGIN,
    RETURN_TWO_SESSION_NO_SAME, SEND_MESS,
};
use bitcomm::queue::{resend_buffer_step, GramBufferPool, GramEvent, ResendStep};
use bitcomm::utils::{get_md5_u32id, md5_u32id_from_digest};
use bytes::Bytes;

fn shared(v: Vec<u8>) -> Arc<Bytes> {
    Arc::new(Bytes::from(v))
}

fn message_bytes(id: u32) -> (Vec<u8>, MessageGram) {
    let mut buf = MessageGram::create_gram_buf(2);
    let mut m = MessageGram::create_message_data_gram_by_mut_vec8(&mut buf);
    m.command = SEND_MESS;
    m.sender = ClientID::new(1, 2);
    m.receiver = ClientID::new(3, 4);
    m.message_id = id;
    m.write_to_u8(&mut buf);
    (buf, m)
}

fn receipt_bytes() -> Vec<u8> {
    let mut buf = ReceiptGram::create_gram_buf(0);
    ReceiptGram::create_receipt_gram_by_mut_vec8(&mut buf);
    buf
}

#[test]
fn pool_pops_in_push_order() {
    let mut pool = GramBufferPool::new(4);
    let a = shared(vec![1]);
    let b = shared(vec![2]);
    pool.push(a.clone(), 10);
    pool.push(b.clone(), 20);
    assert_eq!(pool.get_buffer_size(), 2);
    assert_eq!(pool.pop().unwrap().as_ref(), &Bytes::from(vec![1]));
    assert_eq!(pool.pop().unwrap().as_ref(), &Bytes::from(vec![2]));
    assert!(pool.pop().is_none());
    assert_eq!(pool.get_buffer_size(), 0);
}

#[test]
fn pool_evicts_the_oldest_key_but_keeps_its_buffer() {
    let mut pool = GramBufferPool::new(2);
    pool.push(shared(vec![1]), 1);
    pool.push(shared(vec![2]), 2);
    pool.push(shared(vec![3]), 3);
    assert_eq!(pool.get_buffer_size(), 2);
    // key 1 left the order, but what was stored under it is still there
    assert_eq!(pool.remove(&1).unwrap().as_ref(), &Bytes::from(vec![1]));
    assert_eq!(pool.pop().unwrap().as_ref(), &Bytes::from(vec![2]));
    assert_eq!(pool.pop().unwrap().as_ref(), &Bytes::from(vec![3]));
}

#[test]
fn pool_of_capacity_zero_holds_one_key() {
    let mut pool = GramBufferPool::new(0);
    pool.push(shared(vec![1]), 1);
    assert_eq!(pool.get_buffer_size(), 1);
    pool.push(shared(vec![2]), 2);
    assert_eq!(pool.get_buffer_size(), 1);
    assert_eq!(pool.pop().unwrap().as_ref(), &Bytes::from(vec![2]));
    assert_eq!(pool.capacity(), 0);
}

#[test]
fn removed_buffer_is_skipped_by_the_resend_loop() {
    let mut pool = GramBufferPool::new(4);
    assert!(matches!(resend_buffer_step(&mut pool), ResendStep::Wait));
    pool.push(shared(vec![1]), 1);
    pool.push(shared(vec![2]), 2);
    assert_eq!(pool.remove(&1).unwrap().as_ref(), &Bytes::from(vec![1]));
    assert!(pool.remove(&1).is_none());
    assert_eq!(pool.get_buffer_size(), 2);
    assert!(matches!(resend_buffer_step(&mut pool), ResendStep::Skip));
    match resend_buffer_step(&mut pool) {
        ResendStep::Resend(d) => assert_eq!(d.as_ref(), &Bytes::from(vec![2])),
        _ => panic!("expected a resend"),
    }
    assert!(matches!(resend_buffer_step(&mut pool), ResendStep::Wait));
}

#[test]
fn a_reply_removes_the_message_it_answers() {
    let (buf, m) = message_bytes(5);
    let data = shared(buf);
    let mut pool = GramBufferPool::new(8);
    send_message2buffer(&mut pool, &data, &m);
    let reply = ReplyGram::get_reply_gram_by_u8(&get_reply_buff(&m));
    let removed = bitcomm::exserver::reply::remove_buffer(&mut pool, &reply);
    assert_eq!(removed.unwrap().as_ref(), data.as_ref());
    assert!(matches!(resend_buffer_step(&mut pool), ResendStep::Skip));
}

#[test]
fn a_receipt_removes_the_gram_with_its_key() {
    let mut buf = receipt_bytes();
    let mut r = ReceiptGram::get_receipt_gram_by_u8(&buf);
    r.sender = ClientID::new(1, 2);
    r.receiver = ClientID::new(3, 4);
    r.message_id = 9;
    r.write_to_u8(&mut buf);
    let data = shared(buf);
    let mut pool = GramBufferPool::new(8);
    send_receipt2buffer(&mut pool, &data, &r);
    assert!(bitcomm::imserver::receipt::remove_buffer(&mut pool, &r).is_some());
    assert!(bitcomm::imserver::receipt::remove_buffer(&mut pool, &r).is_none());
}

#[test]
fn server_side_recognises_each_kind() {
    let (mbuf, m) = message_bytes(5);
    match bitcomm::exserver::receive::prepare_data_buffer(shared(mbuf)) {
        Some(BitcommDataGram::Message { data_gram, .. }) => assert_eq!(*data_gram, m),
        _ => panic!("expected a message"),
    }
    let reply = get_reply_buff(&m);
    match bitcomm::exserver::receive::prepare_data_buffer(shared(reply)) {
        Some(BitcommDataGram::Reply { data_gram, .. }) => {
            assert_eq!(data_gram.message_id, 5);
            assert_eq!(data_gram.bitcomm, BITCOMM_REPLY);
        }
        _ => panic!("expected a reply"),
    }
    match bitcomm::exserver::receive::prepare_data_buffer(shared(get_hookup_buff(7, 8))) {
        Some(BitcommDataGram::S2SHookup { data_gram, .. }) => {
            assert_eq!(data_gram.send_server_id, 7);
            assert_eq!(data_gram.recv_server_id, 8);
        }
        _ => panic!("expected a hookup"),
    }
    assert!(matches!(
        bitcomm::exserver::receive::prepare_data_buffer(shared(receipt_bytes())),
        Some(BitcommDataGram::Receipt { .. })
    ));
    assert!(bitcomm::exserver::receive::prepare_data_buffer(shared(b"hello".to_vec())).is_none());
    // a command is not a gram between servers
    let answer = get_message_return_buff(&m, RETURN_NOT_LOGIN);
    assert!(bitcomm::exserver::receive::prepare_data_buffer(shared(answer)).is_none());
}

#[test]
fn client_side_recognises_each_kind() {
    match bitcomm::imserver::receive::prepare_data_buffer(shared(b"BTPI".to_vec())) {
        Some(BitcommDataGram::Pingpong(f)) => assert_eq!(*f, BITCOMM_PING),
        _ => panic!("expected a ping"),
    }
    let (mbuf, m) = message_bytes(3);
    assert!(matches!(
        bitcomm::imserver::receive::prepare_data_buffer(shared(mbuf)),
        Some(BitcommDataGram::Message { .. })
    ));
    match bitcomm::imserver::receive::prepare_data_buffer(shared(get_message_return_buff(
        &m,
        RETURN_TWO_SESSION_NO_SAME,
    ))) {
        Some(BitcommDataGram::Command { data_gram, .. }) => {
            assert_eq!(data_gram.return_code, RETURN_TWO_SESSION_NO_SAME)
        }
        _ => panic!("expected a command"),
    }
    assert!(matches!(
        bitcomm::imserver::receive::prepare_data_buffer(shared(receipt_bytes())),
        Some(BitcommDataGram::Receipt { .. })
    ));
    // a reply is not read from a client
    assert!(bitcomm::imserver::receive::prepare_data_buffer(shared(get_reply_buff(&m))).is_none());
    assert!(bitcomm::imserver::receive::prepare_data_buffer(shared(Vec::new())).is_none());
}

#[test]
fn queue_events_for_messages_and_receipts_only() {
    let (mbuf, m) = message_bytes(4);
    match gram_event_for_buffer(&shared(mbuf)) {
        Some(GramEvent::MessagGramEvent { data_gram, .. }) => assert_eq!(*data_gram, m),
        _ => panic!("expected a message event"),
    }
    assert!(matches!(
        gram_event_for_buffer(&shared(receipt_bytes())),
        Some(GramEvent::ReceiptGramEvent { .. })
    ));
    assert!(gram_event_for_buffer(&shared(get_hookup_buff(1, 2))).is_none());
}

#[test]
fn reply_buffer_bytes() {
    let (_, m) = message_bytes(5);
    let buf = get_reply_buff(&m);
    assert_eq!(buf.len(), 44);
    assert_eq!(&buf[0..4], b"BTRL");
    let r = ReplyGram::get_reply_gram_by_u8(&buf);
    assert_eq!(r.version, m.version);
    assert_eq!(r.command, SEND_MESS | RESP_MASK);
    assert_eq!(r.sender, m.sender);
    assert_eq!(r.receiver, m.receiver);
    assert_eq!(r.data_time, 0);
}

#[test]
fn hookup_request_and_answer() {
    let buf = get_hookup_buff(100, 0);
    assert_eq!(buf.len(), 36);
    let h = S2SHookupGram::get_hookup_gram_by_u8(&buf);
    assert_eq!(h.bitcomm, BITCOMM_HOOKUP);
    assert_eq!(h.version, BITCOMM_VERSION_0_1_0_1);
    assert_eq!(h.command, HOOKUP_SERVER);
    assert_eq!(h.send_server_id, 100);
    assert_eq!(h.message_id, 0);
    let answer = S2SHookupGram::get_hookup_gram_by_u8(&get_hookup_reply_buff(&h, 200));
    assert_eq!(answer.bitcomm, BITCOMM_HOOKUP);
    assert_eq!(answer.command, HOOKUP_SERVER | RESP_MASK);
    assert_eq!(answer.send_server_id, 200);
    assert_eq!(answer.recv_server_id, 100);
    assert!(hookup_reply_needed(&EXServerType::Server));
    assert!(!hookup_reply_needed(&EXServerType::Client));
}

#[test]
fn message_answers_carry_the_return_code() {
    let (_, m) = message_bytes(6);
    let buf = get_message_return_buff(&m, RETURN_NOT_LOGIN);
    assert_eq!(buf.len(), 44);
    assert!(CommandGram::is_command(&buf));
    let c = CommandGram::get_command_gram_by_u8(&buf);
    assert_eq!(c.return_code, RETURN_NOT_LOGIN);
    assert_eq!(c.message_id, 6);
    assert_eq!(c.command, SEND_MESS | RESP_MASK);
    assert_eq!(c.data_size, 0);
}

#[test]
fn decisions_about_client_grams() {
    assert_eq!(client_message_action(SessionCheck::SameSession), ClientMessageAction::Queue);
    assert_eq!(
        client_message_action(SessionCheck::OtherSession),
        ClientMessageAction::Answer(RETURN_TWO_SESSION_NO_SAME)
    );
    assert_eq!(
        client_message_action(SessionCheck::NotLoggedIn),
        ClientMessageAction::Answer(RETURN_NOT_LOGIN)
    );
    assert!(client_receipt_forwarded(SessionCheck::SameSession));
    assert!(!client_receipt_forwarded(SessionCheck::OtherSession));
    assert!(!client_receipt_forwarded(SessionCheck::NotLoggedIn));
    assert_eq!(command_route(LOGIN_COMMAND), CommandRoute::Login);
    assert_eq!(command_route(LOGOUT_COMMAND), CommandRoute::Logout);
    assert_eq!(command_route(SEND_MESS), CommandRoute::Ignore);
}

#[test]
fn resent_message_event_holds_its_header() {
    let (buf, m) = message_bytes(8);
    let data = shared(buf);
    match resend_message_event(data.clone()) {
        GramEvent::MessagGramEvent { data_buff, data_gram } => {
            assert_eq!(*data_gram, m);
            assert_eq!(data_buff.as_ref(), data.as_ref());
        }
        _ => panic!("expected a message event"),
    }
}

#[test]
fn server_address() {
    assert_eq!(get_im_server_port("127.0.0.1", "4433"), "127.0.0.1:4433");
    assert_eq!(get_im_server_port("", ""), ":");
}

#[test]
fn md5_identity() {
    // md5("") = d41d8cd98f00b204e9800998ecf8427e
    assert_eq!(get_md5_u32id(""), 0xd98c1dd4);
    // md5("abc") = 900150983cd24fb0d6963f7d28e17f72
    assert_eq!(get_md5_u32id("abc"), 0x98500190);
    let mut digest = [0u8; 16];
    digest[0] = 1;
    digest[3] = 2;
    assert_eq!(md5_u32id_from_digest(&digest), 0x02000001);
}

#[test]
fn slowloris_decisions() {
    let s = MyConnectionSupervisor;
    assert!(!s.needs_throughput_check(false, 1000));
    assert!(s.needs_throughput_check(false, 1001));
    assert!(!s.needs_throughput_check(true, 5000));
    assert_eq!(s.outcome_for_throughput(499), SupervisorOutcome::ImmediateClose);
    assert_eq!(s.outcome_for_throughput(500), SupervisorOutcome::Continue);
}

use bitcomm::object::client::{ClientID, DeviceConnInfo, STATE_OFFLINE, STATE_ONLINE};
use bitcomm::object::gram::command::CommandGram;
use bitcomm::object::gram::hookup::S2SHookupGram;
use bitcomm::object::gram::message::MessageGram;
use bitcomm::object::gram::receipt::ReceiptGram;
use bitcomm::object::gram::reply::ReplyGram;
use bitcomm::object::gram::{
    size_of_align_data_gram, DataGramError, BITCOMM_COMMAND, BITCOMM_HOOKUP, BITCOMM_MESSAGE,
    BITCOMM_RECEIPT, BITCOMM_REPLY, BITCOMM_VERSION_0_1_0_1, RESP_MASK, SEND_MESS,
};

fn sample_message() -> MessageGram {
    let mut buf = MessageGram::create_gram_buf(0);
    let mut m = MessageGram::create_message_data_gram_by_mut_vec8(&mut buf);
    m.command = SEND_MESS;
    m.device_id = 7;
    m.sender = ClientID::new(1, 2);
    m.receiver = ClientID::new(3, 4);
    m.message_type = 1;
    m.message_id = 5;
    m.ref_message_id = 6;
    m.data_time = 99;
    m
}

#[test]
fn sizes_are_the_wire_sizes() {
    assert_eq!(MessageGram::get_size(), 80);
    assert_eq!(ReceiptGram::get_size(), 48);
    assert_eq!(ReplyGram::get_size(), 44);
    assert_eq!(CommandGram::get_size(), 44);
    assert_eq!(S2SHookupGram::get_size(), 36);
}

#[test]
fn size_of_align_rounds_up_to_the_alignment() {
    assert_eq!(size_of_align_data_gram(10, 8), 16);
    assert_eq!(size_of_align_data_gram(16, 8), 16);
    assert_eq!(size_of_align_data_gram(0, 4), 0);
    assert_eq!(size_of_align_data_gram(45, 4), 48);
    assert_eq!(size_of_align_data_gram(7, 1), 7);
}

#[test]
fn message_flag_spells_btcm_on_the_wire() {
    let mut buf = MessageGram::create_gram_buf(3);
    assert_eq!(buf.len(), 83);
    assert!(buf.iter().all(|b| *b == 0));
    assert!(!MessageGram::is_message(&buf));
    let m = MessageGram::create_message_data_gram_by_mut_vec8(&mut buf);
    assert_eq!(&buf[0..4], b"BTCM");
    assert_eq!(m.bitcomm, BITCOMM_MESSAGE);
    assert_eq!(m.version, BITCOMM_VERSION_0_1_0_1);
    assert_eq!(m.data_size, 3);
    assert_eq!(&buf[76..80], &[3, 0, 0, 0]);
    assert!(MessageGram::is_message(&buf));
    assert_eq!(MessageGram::get_message_gram_by_u8(&buf), m);
}

#[test]
fn message_is_recognised_only_with_a_full_header() {
    let mut buf = MessageGram::create_gram_buf(0);
    MessageGram::create_message_data_gram_by_mut_vec8(&mut buf);
    assert!(MessageGram::is_message(&buf));
    assert!(!MessageGram::is_message(&buf[0..79]));
    buf[0] = b'X';
    assert!(!MessageGram::is_message(&buf));
}

#[test]
fn message_write_then_read_gives_the_same_header() {
    let mut m = sample_message();
    m.reserve1 = 0x0102030405060708;
    m.reserve2 = u64::MAX;
    m.reserve3 = 11;
    m.reserve4 = 12;
    m.data_size = 0xdeadbeef;
    let mut buf = vec![0xAAu8; 90];
    m.write_to_u8(&mut buf);
    assert_eq!(MessageGram::get_message_gram_by_u8(&buf), m);
    // the padding after the receiver and the data after the header are untouched
    assert_eq!(&buf[44..48], &[0xAA; 4]);
    assert_eq!(&buf[80..90], &[0xAA; 10]);
    assert_eq!(&buf[48..56], &[8, 7, 6, 5, 4, 3, 2, 1]);
    assert_eq!(&buf[16..24], &[1, 0, 0, 0, 2, 0, 0, 0]);
}

#[test]
fn message_key_is_sender_receiver_object_and_id() {
    let m = sample_message();
    let expected: u128 = (((1u128 << 32) | 2) << 64) | (4u128 << 32) | 5;
    assert_eq!(m.get_message_gram_key(), expected);
}

#[test]
fn copy_data2tail_fills_the_data_part() {
    let mut buf = MessageGram::create_gram_buf(3);
    let m = MessageGram::create_message_data_gram_by_mut_vec8(&mut buf);
    let mut head_only = m;
    head_only.data_size = 80;
    head_only.copy_data2tail(&[9, 8, 7], &mut buf);
    assert_eq!(&buf[80..83], &[9, 8, 7]);
    assert_eq!(&buf[0..4], b"BTCM");
}

#[test]
fn create_gram_data_buf_puts_the_data_after_a_zero_header() {
    let buf = MessageGram::create_gram_data_buf(&[1, 2, 3]);
    assert_eq!(buf.len(), 83);
    assert!(buf[0..80].iter().all(|b| *b == 0));
    assert_eq!(&buf[80..], &[1, 2, 3]);
}

#[test]
fn answering_a_message_sets_the_response_bit_and_the_buffer_length() {
    let m = sample_message();
    let mut buf = vec![0u8; 100];
    let a = MessageGram::create_message_gram_from_msg_u8(&mut buf, &m);
    assert_eq!(a.command, SEND_MESS | RESP_MASK);
    assert_eq!(a.data_size, 100);
    assert_eq!(a.sender, m.sender);
    assert_eq!(MessageGram::get_message_gram_by_u8(&buf), a);
}

#[test]
fn receipt_needs_the_exact_size() {
    let mut buf = ReceiptGram::create_gram_buf(0);
    let r = ReceiptGram::create_receipt_gram_by_mut_vec8(&mut buf);
    assert_eq!(r.bitcomm, BITCOMM_RECEIPT);
    assert_eq!(&buf[0..4], b"BTRT");
    assert!(ReceiptGram::is_receipt(&buf));
    assert_eq!(ReceiptGram::get_bitcomm_flag_by_u8(&buf), BITCOMM_RECEIPT);
    let mut longer = ReceiptGram::create_gram_buf(1);
    ReceiptGram::create_receipt_gram_by_mut_vec8(&mut longer);
    assert!(!ReceiptGram::is_receipt(&longer));
}

#[test]
fn receipt_answer_and_key() {
    let mut buf = ReceiptGram::create_gram_buf(0);
    let mut r = ReceiptGram::create_receipt_gram_by_mut_vec8(&mut buf);
    r.command = 3;
    r.sender = ClientID::new(1, 2);
    r.receiver = ClientID::new(3, 4);
    r.message_id = 5;
    let mut out = ReceiptGram::create_gram_buf(0);
    let a = ReceiptGram::create_receipt_gram_from_gram(&mut out, &r);
    assert_eq!(a.command, 3 | RESP_MASK);
    assert_eq!(ReceiptGram::get_receipt_gram_by_u8(&out), a);
    assert_eq!(a.get_receipt_gram_key(), sample_message().get_message_gram_key());
}

#[test]
fn reply_from_message_copies_the_identity() {
    let m = sample_message();
    let mut buf = ReplyGram::create_gram_buf(0);
    buf[40] = 0x11;
    let r = ReplyGram::create_reply_from_message(&mut buf, &m);
    assert_eq!(r.bitcomm, BITCOMM_REPLY);
    assert_eq!(r.version, BITCOMM_VERSION_0_1_0_1);
    assert_eq!(r.command, SEND_MESS | RESP_MASK);
    assert_eq!(r.sender, m.sender);
    assert_eq!(r.receiver, m.receiver);
    assert_eq!(r.message_id, 5);
    assert_eq!(r.device_id, 7);
    assert_eq!(r.data_time, 0x11);
    assert!(ReplyGram::is_reply(&buf));
    assert_eq!(r.get_reply_gram_key(), m.get_message_gram_key());
    let shared = std::sync::Arc::new(bytes::Bytes::from(buf.clone()));
    assert_eq!(ReplyGram::get_reply_gram_by_bytes(&shared), r);
}

#[test]
fn reply_flag_alone() {
    assert!(ReplyGram::is_bitcomm_reply_flag(b"BTRL"));
    assert!(!ReplyGram::is_bitcomm_reply_flag(b"BTRLx"));
    assert!(!ReplyGram::is_bitcomm_reply_flag(b"BTRT"));
    assert_eq!(ReplyGram::get_bitcomm_flag_by_u8(b"BTRL"), BITCOMM_REPLY);
    let mut buf = ReplyGram::create_gram_buf(0);
    let r = ReplyGram::create_reply_gram_by_mut_vec8(&mut buf);
    // only the flag is written
    assert_eq!(r.version, 0);
}

#[test]
fn pingpong_is_a_lone_flag() {
    assert!(CommandGram::is_pingpong(b"BTPI"));
    assert!(CommandGram::is_pingpong(b"BTPO"));
    assert!(!CommandGram::is_pingpong(b"BTPX"));
    assert!(!CommandGram::is_pingpong(b"BTPIBTPI"));
}

#[test]
fn command_gram_data_size_and_answers() {
    let mut buf = CommandGram::create_gram_buf(6);
    let c = CommandGram::create_command_gram_by_mut_vec8(&mut buf);
    assert_eq!(c.bitcomm, BITCOMM_COMMAND);
    assert_eq!(c.data_size, 6);
    assert!(!CommandGram::is_command(&buf));
    assert!(CommandGram::is_command(&buf[0..44]));
    let m = sample_message();
    let mut out = CommandGram::create_gram_buf(0);
    let a = CommandGram::create_command_gram_from_message_gram(&mut out, &m);
    assert_eq!(a.bitcomm, BITCOMM_COMMAND);
    assert_eq!(a.command, SEND_MESS | RESP_MASK);
    assert_eq!(a.sender, m.sender);
    assert_eq!(a.message_id, 5);
    assert_eq!(a.data_size, 0);
    assert_eq!(CommandGram::get_command_gram_by_u8(&out), a);
    let mut again = CommandGram::create_gram_buf(0);
    let b = CommandGram::create_command_gram_from_gram(&mut again, &a);
    assert_eq!(b.command, a.command | RESP_MASK);
    assert_eq!(CommandGram::get_bitcomm_flag_by_u8(&again), BITCOMM_COMMAND);
}

#[test]
fn hookup_creation_writes_the_command_flag() {
    let mut buf = S2SHookupGram::create_gram_buf(0);
    let h = S2SHookupGram::create_hookup_gram_by_mut_vec8(&mut buf);
    assert_eq!(h.bitcomm, BITCOMM_COMMAND);
    assert!(!S2SHookupGram::is_hookup(&buf));
    let mut g = h;
    g.bitcomm = BITCOMM_HOOKUP;
    g.send_server_id = 10;
    g.recv_server_id = 20;
    g.command = 1;
    let mut out = S2SHookupGram::create_gram_buf(0);
    let a = S2SHookupGram::create_hookup_gram_from_gram(&mut out, &g);
    assert_eq!(a.command, 1 | RESP_MASK);
    assert!(S2SHookupGram::is_hookup(&out));
    assert_eq!(S2SHookupGram::get_hookup_gram_by_u8(&out), a);
}

#[test]
fn client_identity_and_hex() {
    let c = ClientID::new(1, 0xab);
    assert_eq!(c.get_guid(), 0x1_0000_00ab);
    assert_eq!(c.get_hex(), "1000000ab");
    assert_eq!(ClientID::new(0, 0).get_hex(), "0");
    assert_eq!(ClientID::new(u32::MAX, u32::MAX).get_hex(), "ffffffffffffffff");
    let v: u64 = c.into();
    assert_eq!(v, 0x1_0000_00ab);
}

#[test]
fn data_gram_error_keeps_code_and_details() {
    let mut e = DataGramError::new(3, "bad gram");
    assert_eq!(*e.error_code(), 3);
    assert_eq!(e.details(), "bad gram");
    assert_eq!(e.description(), "bad gram");
    e.set_error_code(4);
    e.set_details(String::from("other"));
    assert_eq!(*e.error_code(), 4);
    assert_eq!(e.description(), "other");
}

#[test]
fn reading_a_header_and_writing_it_back_changes_nothing() {
    let mut buf: Vec<u8> = (0..100u32).map(|i| (i * 7 % 251) as u8).collect();
    let before = buf.clone();
    let m = MessageGram::get_message_gram_by_u8(&buf);
    m.write_to_u8(&mut buf);
    assert_eq!(buf, before);
    let mut r = buf[0..48].to_vec();
    ReceiptGram::get_receipt_gram_by_u8(&r).write_to_u8(&mut r);
    assert_eq!(r, before[0..48].to_vec());
}

#[test]
fn keys_differ_for_different_grams() {
    let mut a = sample_message();
    let b = a;
    a.set_message_id(6);
    assert_ne!(a.get_message_gram_key(), b.get_message_gram_key());
    let mut c = b;
    c.set_receiver(ClientID::new(9, 4));
    // the receiver's planet is not part of the key
    assert_eq!(c.get_message_gram_key(), b.get_message_gram_key());
    let mut d = b;
    d.set_sender(ClientID::new(2, 1));
    assert_ne!(d.get_message_gram_key(), b.get_message_gram_key());
    assert_eq!(d.sender().planet(), 2);
}

#[test]
fn device_info_accessors() {
    let mut d = DeviceConnInfo::new(3, STATE_ONLINE);
    assert_eq!(d.device_id(), 3);
    d.set_device_state(STATE_OFFLINE);
    assert_eq!(d.device_state(), STATE_OFFLINE);
    d.set_device_id(4);
    assert_eq!(d, DeviceConnInfo::new(4, STATE_OFFLINE));
}

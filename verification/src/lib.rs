//! The wire grams of a messaging network (messages, receipts, replies,
//! commands, server hookups), the resend buffer that keeps sent grams until
//! they are answered, and what the messaging and exchange servers decide
//! about the grams they receive.
pub mod exserver;
pub mod imserver;
pub mod laws;
pub mod layout;
pub mod net;
pub mod object;
pub mod payload;
pub mod queue;
pub mod strings;
pub mod utils;
pub mod wire;

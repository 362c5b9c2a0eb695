//! QUIC endpoints: addresses, and the decisions of the slowloris supervisor.
pub mod quic;

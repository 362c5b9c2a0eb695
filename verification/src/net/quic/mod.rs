pub mod qcutils;
pub mod slowloris;

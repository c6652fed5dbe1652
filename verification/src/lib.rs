//! Verified core of rkik: NTS error classification, CSV rendering and
//! the command-line decision logic.
pub mod cli;
pub mod config;
pub mod csv;
pub mod error;
pub mod nts;
pub mod text;

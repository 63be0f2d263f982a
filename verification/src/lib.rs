//! Host-side protocol core for the zoom65 v3 auxiliary screen module.
//!
//! This crate holds the verified heart of the driver: command frame
//! construction, response validation, the chunked media upload planner and
//! the screen navigation planner. The HID transport itself (device
//! discovery, writes and blocking reads) lives outside, in an unverified
//! shell that exchanges the frames built here and hands the raw responses
//! back for validation.

pub mod checksum;
pub mod consts;
pub mod frame;
pub mod ops;
pub mod planner;
pub mod types;
pub mod upload;

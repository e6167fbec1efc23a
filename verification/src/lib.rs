//! A sequential scanner that walks backward through the decimal digits of a
//! named constant, one fixed-length window at a time, and stops at the first
//! window whose byte entropy is suspiciously low.
//!
//! The crate holds the decisions of the scan and none of its input or
//! output: a caller fetches windows, measures entropy, sleeps, draws and
//! stores, and tells the controller what happened.
//!
//! - [`controller`] is the scan itself: one `step` from event to directive.
//!   [`machine`] is its mathematical model, [`protocol`] the events and
//!   directives, [`config`] the parameters, and [`laws`] what is proved of
//!   every scan.
//! - [`encoding`] turns a window of digits into the bytes to be measured,
//!   with the arithmetic of [`bignum`].
//! - [`entropy`] holds entropy samples and the anomaly test, [`history`] the
//!   rolling history that is drawn.
//! - [`source`] judges what the digit source answered, and [`store`] chooses
//!   where a scan starts.

pub mod bignum;
pub mod config;
pub mod controller;
pub mod encoding;
pub mod entropy;
pub mod history;
pub mod laws;
pub mod machine;
pub mod protocol;
pub mod source;
pub mod store;

//! Acquisition, decoding and normalisation of power telemetry.
//!
//! The library decodes what the embedded sensor controller and the
//! power-source registry report, of the host and of companion devices, and
//! brings it to one record with bounded histories. It takes every decision
//! and touches nothing: a caller makes the calls to the controller and to
//! the device transport, and hands each reply in.
//!
//! A sensor value is held as its payload gives it, without rounding. What
//! is reckoned with and shown is a whole number of thousandths of its unit
//! ([`milli`]).
//!
//! - [`ffi::smc`]: the controller's key/value protocol, the metadata cache
//!   and the decoding of payloads.
//! - [`property_list`], [`codec`], [`de`]: property lists and the registry
//!   snapshot in them, under either spelling of the field names.
//! - [`ffi::wrapper`], [`device`]: the staged preparation of a companion
//!   device and the table of the devices in session.
//! - [`provider`]: the normalised record, the sources and the statistics.
//! - [`local`]: the host's polling loop and the status text.
//! - [`history`]: charging sessions and their summaries.
pub mod codec;
pub mod de;
pub mod device;
pub mod event;
pub mod ffi;
pub mod history;
pub mod local;
pub mod milli;
pub mod property_list;
pub mod provider;
pub mod util;

//! SysEx transaction engine and device-program codec for the Akai LPD8
//! pad/knob controller.
//!
//! The crate is organised after the components of the engine: a pure
//! wire codec for the device's fixed-layout messages, the
//! response-matching rule of the transaction engine, the identity check
//! of the discovery flow, the port registry's name resolution, and the
//! device session that holds the selected port pair and the four
//! program slots.  The transport itself — sending bytes, listening on
//! callbacks, waiting out timeouts — stays with the caller; everything
//! it decides by, and everything it stores, is here.

pub mod codec;
pub mod discovery;
pub mod engine;
pub mod registry;
pub mod session;

//! Protocol and codec core for commissioning a Pico FIDO security key.
//!
//! The device speaks two independent wire protocols: a smart-card APDU
//! channel (the "Rescue" applet) and a FIDO2/CTAPHID channel over raw 64-byte
//! HID reports.  This crate holds the verified heart of both: APDU
//! construction and status-word gating, the TLV codec for the physical
//! configuration blob, CTAPHID packet framing and reassembly, canonical CBOR
//! encoding for the vendor configuration commands, and the decision logic
//! that picks between the two channels.  Blocking device I/O (PC/SC, HID)
//! stays outside; callers drive the state machines here with the raw bytes
//! they read and write.

pub mod cbor;
pub mod ctaphid;
pub mod fido;
pub mod fido_consts;
pub mod hexstr;
pub mod orchestrate;
pub mod presets;
pub mod rescue;
pub mod rescue_consts;
pub mod tlv;
pub mod types;

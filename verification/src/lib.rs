//! Verified drivers for a microcontroller peripheral layer.
//!
//! The core is the AES-256 hardware-accelerator driver: it sequences a
//! stateful cryptographic peripheral through register-level handshakes
//! (mode selection, key loading, FIFO push/pop, flush) while enforcing
//! invariants the hardware itself does not check. The register files are
//! modelled as typed, mock-backed read/modify/write abstractions so the
//! protocol logic can be stated and proved over plain values.

pub mod aes;
pub mod cipher;
pub mod codec;
pub mod gcr;
pub mod simo;
pub mod wdt;

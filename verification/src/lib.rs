//! Clock synchronisation for a USB HID keyboard with an onboard clock display.
//!
//! The crate holds the decisions of a synchronisation run and leaves the
//! transfers themselves to the caller:
//!
//! * [`selector`] picks the one vendor-command interface out of an enumeration;
//! * [`codec`] lays out the fixed 65-byte feature reports;
//! * [`sequencer`] is the state machine of the four-stage handshake;
//! * [`session`] is the state machine of a whole run, from selection to the end;
//! * [`clock`] reads calendar fields out of a `chrono` timestamp;
//! * [`error`] is the error taxonomy shared by all of them.

pub mod clock;
pub mod codec;
pub mod error;
pub mod selector;
pub mod sequencer;
pub mod session;

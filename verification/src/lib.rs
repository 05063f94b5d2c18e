//! Translation layer between a host operating system's native input-event
//! vocabulary (virtual keys, hardware scan codes, axis deltas) and the
//! canonical USB-HID-style wire vocabulary (HID key usages, modifier and
//! mouse-button bitmasks, signed 8-bit axis deltas) used by an input-sharing
//! receiver.
//!
//! Every operation here is a pure, stateless function of its arguments:
//! lookups return `None` for native values with no canonical equivalent,
//! which is an expected outcome, not an error.

pub mod axis;
pub mod conversions;
pub mod hid;
pub mod keys;
pub mod masks;


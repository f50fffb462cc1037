//! Validation of New Zealand National Health Index (NHI) numbers.
//!
//! An NHI number is seven characters long and comes in two formats: three
//! letters and four digits, or three letters, two digits and two letters. Its
//! last character is a check character computed from the first six. The
//! letters `I` and `O` are never used.
//!
//! A string that passes the check need not have been assigned to anybody.

pub mod alphabet;
pub mod case;
pub mod checksum;
pub mod format;
pub mod laws;
pub mod nhi;
pub mod order;

pub use crate::alphabet::char_code;
pub use crate::checksum::checksum;
pub use crate::nhi::{is_nhi, NHIParseError, NHI};

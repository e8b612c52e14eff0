//! Adapter between a C-style tagged error struct and a host-native `Result`.
//!
//! A native library reports failure by filling a caller-supplied struct that
//! holds a tag (no error, exception, or validation error) and an owned,
//! optional message. This crate wraps one such struct in [`result::NvimResult`],
//! keeps its invariant (a message is present exactly when the tag reports an
//! error), and converts it to and from the host-native
//! `Result<(), NvimError>` shape without losing the message.

pub mod result;

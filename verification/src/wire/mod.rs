//! Signed objects as they travel: framing, signing and meaning.
pub mod frame;
pub mod message;
pub mod sign;

//! Deferred unwind relay: an error raised inside a callback that a foreign
//! runtime invokes is captured at the boundary, held in a single pending slot,
//! and handed back to native code once control returns there.

pub mod relay;
pub mod adapter;
pub mod utf16;

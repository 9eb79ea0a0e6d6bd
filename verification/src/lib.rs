//! Safety boundary between protocol objects and foreign callers.
//!
//! Foreign callers hold raw addresses and have no ownership system of their
//! own. This library states, over plain values, what every boundary function
//! does with such addresses: when an argument counts as null, what is written
//! through an out-parameter and what is left alone, and which boundary error
//! comes back.

pub mod error;
pub mod handle;
pub mod ffi;
pub mod bridge;
pub mod laws;
pub mod rules;

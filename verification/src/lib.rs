//! Lending positions: borrowing capacity, the liquidation test, and the
//! fixed-width binary form of a position.
//!
//! A [`ShieldedPosition`] is a plain value of five unsigned 64-bit fields.
//! Every executable function here carries a contract over mathematical
//! integers and byte sequences, and Verus proves each body against it.

pub mod position;
pub mod wire;

pub use position::ShieldedPosition;
pub use wire::DecodeError;

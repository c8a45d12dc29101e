//! A constant-product automated market maker: curve arithmetic, the pool's
//! persistent record, the instruction wire format, account validation and the
//! four instruction handlers, each stated and proved against its contract.

pub mod error;
pub mod curve;
pub mod codec;
pub mod instruction;
pub mod state;
pub mod accounts;
pub mod processor;

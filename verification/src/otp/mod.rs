//! One-time-programmable (OTP) memory of the AST1060: its regions, session
//! and protection state, and the controller logic around the hardware
//! accesses.

pub mod common;
pub mod hal;

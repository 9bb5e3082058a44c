//! Verified core of the ASPEED AST1060 driver kit: the SPI monitor
//! configuration types, the NOR-flash adapter over a SPI NOR device, the
//! chip-select transaction sequencing, and the OTP session and region logic.

pub mod otp;
pub mod spi;
pub mod spimonitor;

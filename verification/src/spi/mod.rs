//! SPI: NOR-flash access over a SPI NOR device, and chip-select devices.

pub mod aspeed_norflash;
pub mod device;
pub mod norflash;

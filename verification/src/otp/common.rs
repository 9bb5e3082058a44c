//! OTP types shared by the controller and its users.

use vstd::prelude::*;

verus! {

/// Highest DWORD address of the OTP data region accepted by a write.
pub const OTP_MEM_LIMIT: u32 = 0x3fff;

/// Errors of OTP operations.
#[derive(Debug, Clone, Copy, PartialEq, Eq, Structural)]
pub enum OtpError {
    /// The OTP memory is locked against programming.
    MemoryLocked,
    /// The address lies beyond the OTP memory.
    InvalidAddress,
    /// The session request does not match the session state.
    NoSession,
    /// Data does not fit the buffer meant to hold it.
    BoundaryError,
    /// The caller's buffer is too small for the region read.
    InvalidBufSize,
}

/// The regions of the OTP memory.
#[derive(Debug, Clone, Copy, PartialEq, Eq, Structural)]
pub enum AspeedOtpRegion {
    Data,
    Configuration,
    Strap,
    ScuProtection,
}

/// Chip identification reported by the OTP controller.
#[derive(Debug, Clone, Copy, PartialEq, Eq, Structural)]
pub enum AspeedChipVersion {
    Ast1030A0,
    Ast1030A1,
    Ast1060A1,
    Ast1060A2,
    Unknown,
}

/// Protection state of the OTP regions.
#[derive(Debug, Clone, Copy, PartialEq, Eq, Structural)]
pub struct ProtectionStatus {
    pub memory_locked: bool,
    pub key_protected: bool,
    pub strap_protected: bool,
    pub config_protected: bool,
    pub user_ecc_protected: bool,
    pub security_protected: bool,
    pub security_size: u32,
}

/// State of one hardware strap bit as recorded in OTP.
#[derive(Debug, Clone, Copy)]
pub struct StrapStatus {
    pub value: bool,
    pub protected: bool,
    pub options: [u8; 7],
    pub remaining_writes: u8,
    pub writable_option: u8,
}

/// What an OTP session reports when it is established.
#[derive(Debug, Clone, Copy)]
pub struct SessionInfo {
    pub chip_version: AspeedChipVersion,
    pub version_name: [u8; 10],
    pub protection_status: ProtectionStatus,
    pub tool_version: [u8; 32],
    pub software_revision: u32,
    pub key_count: u32,
}

} // verus!

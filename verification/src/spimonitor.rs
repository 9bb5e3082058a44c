//! SPI monitor (SPIPF) configuration types and control interfaces.

use vstd::prelude::*;

verus! {

/// The four SPI monitor (filter) instances of the AST1060.
#[derive(Debug, Copy, Clone, PartialEq, Eq, Structural)]
pub enum SpiMonitorNum {
    SPIM0,
    SPIM1,
    SPIM2,
    SPIM3,
}

/// Hardware index of a SPI monitor instance.
pub open spec fn spim_index(v: SpiMonitorNum) -> u32 {
    match v {
        SpiMonitorNum::SPIM0 => 0,
        SpiMonitorNum::SPIM1 => 1,
        SpiMonitorNum::SPIM2 => 2,
        SpiMonitorNum::SPIM3 => 3,
    }
}

/// The monitors are numbered 0 to 3 in order, each number used once.
pub proof fn lemma_spim_index_numbers_monitors(a: SpiMonitorNum, b: SpiMonitorNum)
    ensures
        spim_index(SpiMonitorNum::SPIM0) == 0,
        spim_index(SpiMonitorNum::SPIM1) == 1,
        spim_index(SpiMonitorNum::SPIM2) == 2,
        spim_index(SpiMonitorNum::SPIM3) == 3,
        spim_index(a) == spim_index(b) ==> a == b,
{
}

impl From<SpiMonitorNum> for u32 {
    /// The instance's hardware index, 0 to 3.
    fn from(v: SpiMonitorNum) -> (r: u32) {
        match v {
            SpiMonitorNum::SPIM0 => 0,
            SpiMonitorNum::SPIM1 => 1,
            SpiMonitorNum::SPIM2 => 2,
            SpiMonitorNum::SPIM3 => 3,
        }
    }
}

impl vstd::std_specs::convert::FromSpecImpl<SpiMonitorNum> for u32 {
    open spec fn obeys_from_spec() -> bool {
        true
    }

    open spec fn from_spec(v: SpiMonitorNum) -> u32 {
        spim_index(v)
    }
}

/// Which SPI master a monitor routes when detouring the SPI controller.
#[derive(Copy, Clone, Debug, PartialEq, Eq, Structural)]
pub enum SpimSpiMaster {
    SPI1,
    SPI2,
}

/// Passthrough mode of a monitor.
#[derive(Copy, Clone, Debug, PartialEq, Eq, Structural)]
pub enum SpimPassthroughMode {
    SinglePassthrough,
    MultiPassthrough,
}

/// External multiplexer selection of a monitor.
#[derive(Copy, Clone, Debug, PartialEq, Eq, Structural)]
pub enum SpimExtMuxSel {
    SpimExtMuxSel0,
    SpimExtMuxSel1,
}

impl SpimExtMuxSel {
    /// The level that drives the external multiplexer select line:
    /// `false` for selection 0, `true` for selection 1.
    #[must_use]
    pub fn to_bool(self) -> (r: bool)
        ensures
            r <==> self == SpimExtMuxSel::SpimExtMuxSel1,
    {
        match self {
            SpimExtMuxSel::SpimExtMuxSel0 => false,
            SpimExtMuxSel::SpimExtMuxSel1 => true,
        }
    }
}

/// Behaviour of a monitor when it blocks a command.
#[derive(Copy, Clone, Debug, PartialEq, Eq, Structural)]
pub enum SpimBlockMode {
    SpimDeassertCsEearly,
    SpimBlockExtraClk,
}

/// Selects the read or the write address privilege table.
#[derive(Copy, Clone, Debug, PartialEq, Eq, Structural)]
pub enum AddrPrivRWSel {
    AddrPrivReadSel,
    AddrPrivWriteSel,
}

/// Whether an address privilege operation grants or revokes access.
#[derive(Copy, Clone, Debug, PartialEq, Eq, Structural)]
pub enum AddrPriOp {
    FlagAddrPrivEnable,
    FlagAddrPrivDisable,
}

/// Errors of the SPI monitor's command and address tables.
#[derive(Copy, Clone, Debug, PartialEq, Eq, Structural)]
pub enum SpiMonitorError {
    CommandNotFound(u8),
    NoAllowCmdSlotAvail(u32),
    InvalidCmdSlotIndex(u32),
    AllowCmdSlotLocked(u32),
    AllowCmdSlotInvalid(u32),
    AddressInvalid(u32),
    LengthInvalid(u32),
    AddrTblRegsLocked(u32),
}

/// A flash address range guarded by a monitor.
#[derive(Debug, Clone, Copy)]
pub struct RegionInfo {
    pub start: u32,
    pub length: u32,
}

/// Number of entries of the allow-command table.
pub const SPIM_CMD_TABLE_NUM: usize = 32;

/// Largest valid index into the allow-command table.
pub const MAX_CMD_INDEX: usize = 31;

/// Number of blocked regions kept for reads and for writes.
pub const BLOCK_REGION_NUM: usize = 32;

/// Bring-up of a SPI monitor.
pub trait SpiMonitorInit {
    fn init(&mut self);

    fn sw_reset(&mut self);

    fn ext_mux_config(&mut self, mux_sel: SpimExtMuxSel);
}

/// Run-time operation of a SPI monitor.
pub trait SpiMonitorOps {
    fn enable(&mut self);

    fn diable(&mut self);

    fn passthrough_config(&mut self, passthrough_en: bool, mode: SpimPassthroughMode);

    fn spi_ctrl_detour_enable(&mut self, spi_master: SpimSpiMaster, enable: bool);

    fn block_mode_config(&mut self, block_mode: SpimBlockMode);

    fn lock_common(&mut self);
}

/// Address privilege tables of a SPI monitor.
pub trait PrivilegeCtrl {
    fn addr_priv_enable(&mut self, rw: AddrPrivRWSel);

    fn address_privilege_config(&mut self, rw: AddrPrivRWSel, op: AddrPriOp, addr: u32, len: u32);

    fn lock_rw_privilege_table(&mut self, rw: AddrPrivRWSel);
}

/// Allow-command table of a SPI monitor.
pub trait AllowCmdCtrl {
    fn get_cmd_table_val(&mut self, cmd: u8) -> Result<u32, SpiMonitorError>;

    fn set_cmd_table(&mut self, cmd_list: &[u8], cmd_num: u8);

    fn init_allow_cmd_table(&mut self, cmd_list: &[u8], cmd_num: u8, flags: u32);

    fn first_empty_slot(&mut self) -> Result<u32, SpiMonitorError>;

    fn find_allow_cmd_slot(&mut self, cmd: u8, start_offset: u32) -> Result<u32, SpiMonitorError>;

    fn add_allow_cmd(&mut self, cmd: u8, flags: u32) -> Result<u32, SpiMonitorError>;

    fn remove_allow_cmd(&mut self, cmd: u8) -> Result<u32, SpiMonitorError>;

    fn lock_allow_cmd(&mut self, cmd: u8, flags: u32) -> Result<u32, SpiMonitorError>;
}

} // verus!

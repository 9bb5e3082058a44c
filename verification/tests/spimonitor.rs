use aspeed_ddk::spimonitor::{SpiMonitorNum, SpimExtMuxSel, RegionInfo, SPIM_CMD_TABLE_NUM, MAX_CMD_INDEX};

#[test]
fn ext_mux_selection_drives_line_level() {
    assert!(!SpimExtMuxSel::SpimExtMuxSel0.to_bool());
    assert!(SpimExtMuxSel::SpimExtMuxSel1.to_bool());
}

#[test]
fn monitor_number_converts_to_hardware_index() {
    assert_eq!(u32::from(SpiMonitorNum::SPIM0), 0);
    assert_eq!(u32::from(SpiMonitorNum::SPIM1), 1);
    assert_eq!(u32::from(SpiMonitorNum::SPIM2), 2);
    assert_eq!(u32::from(SpiMonitorNum::SPIM3), 3);
}

#[test]
fn command_table_geometry() {
    assert_eq!(MAX_CMD_INDEX + 1, SPIM_CMD_TABLE_NUM);
    let r = RegionInfo { start: 0x1000, length: 0x100 };
    assert_eq!(r.start + r.length, 0x1100);
}

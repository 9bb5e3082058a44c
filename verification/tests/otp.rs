use aspeed_ddk::otp::common::{
    AspeedChipVersion, AspeedOtpRegion, OtpError, ProtectionStatus, StrapStatus, OTP_MEM_LIMIT,
};
use aspeed_ddk::otp::hal::{OtpController, RegionRead, RegionWrite};

fn protection() -> ProtectionStatus {
    ProtectionStatus {
        memory_locked: false,
        key_protected: true,
        strap_protected: false,
        config_protected: true,
        user_ecc_protected: false,
        security_protected: false,
        security_size: 0x40,
    }
}

fn straps(set: &[usize]) -> [StrapStatus; 64] {
    let mut st = [StrapStatus {
        value: false,
        protected: false,
        options: [0; 7],
        remaining_writes: 6,
        writable_option: 0xff,
    }; 64];
    for &i in set {
        st[i].value = true;
    }
    st
}

#[test]
fn write_to_locked_memory_is_refused() {
    let c = OtpController::new(true);
    assert_eq!(c.write_target(0), Err(OtpError::MemoryLocked));
    assert_eq!(c.write_target(0x10_0000), Err(OtpError::MemoryLocked));
}

#[test]
fn write_past_limit_is_invalid_address() {
    let c = OtpController::new(false);
    assert_eq!(c.write_target(OTP_MEM_LIMIT as usize + 1), Err(OtpError::InvalidAddress));
    assert_eq!(c.write_target(OTP_MEM_LIMIT as usize), Ok(OTP_MEM_LIMIT));
    assert_eq!(c.write_target(0x20), Ok(0x20));
}

#[test]
fn dword_program_programs_only_first_word() {
    let p = OtpController::dword_program(0x20, 0x1111_0000, 0x1111_2222);
    assert_eq!(p.address, 0x20);
    assert_eq!(p.otp_data, [0x1111_0000, 0]);
    assert_eq!(p.buffer, [0x1111_2222, 0]);
    assert_eq!(p.ignore_mask, [0, 0xffff_ffff]);
}

#[test]
fn begin_session_reports_hardware_readings() {
    let mut c = OtpController::new(false);
    let info = c.begin_session(b"otptool 1.2", AspeedChipVersion::Ast1060A2, protection(), 7).unwrap();
    assert!(c.is_session_active());
    assert_eq!(info.chip_version, AspeedChipVersion::Ast1060A2);
    assert_eq!(&info.version_name, b"AST1060A2\0");
    assert_eq!(info.protection_status, protection());
    assert_eq!(&info.tool_version[..11], b"otptool 1.2");
    assert!(info.tool_version[11..].iter().all(|&b| b == 0));
    assert_eq!(info.software_revision, 0x1234_5678);
    assert_eq!(info.key_count, 7);
}

#[test]
fn begin_session_twice_is_refused() {
    let mut c = OtpController::new(false);
    assert!(c.begin_session(b"v1", AspeedChipVersion::Ast1060A1, protection(), 1).is_ok());
    let r = c.begin_session(b"v1", AspeedChipVersion::Ast1060A1, protection(), 1);
    assert_eq!(r.err(), Some(OtpError::NoSession));
    assert!(c.is_session_active());
}

#[test]
fn begin_session_with_long_tool_version_is_boundary_error() {
    let mut c = OtpController::new(false);
    let long = [b'x'; 33];
    let r = c.begin_session(&long, AspeedChipVersion::Ast1060A2, protection(), 1);
    assert_eq!(r.err(), Some(OtpError::BoundaryError));
    assert!(!c.is_session_active());
    let exact = [b'y'; 32];
    let info = c.begin_session(&exact, AspeedChipVersion::Ast1060A2, protection(), 1).unwrap();
    assert_eq!(info.tool_version, exact);
}

#[test]
fn session_round_trip_restores_state() {
    let mut c = OtpController::new(true);
    assert_eq!(c.end_session(), Err(OtpError::NoSession));
    assert!(c.begin_session(b"", AspeedChipVersion::Unknown, protection(), 0).is_ok());
    assert_eq!(c.end_session(), Ok(()));
    assert!(!c.is_session_active());
    assert!(c.is_locked());
    assert_eq!(c.end_session(), Err(OtpError::NoSession));
}

#[test]
fn lock_queries_follow_lock_state() {
    let c = OtpController::new(true);
    assert_eq!(c.is_globally_locked(), Ok(true));
    let d = OtpController::new(false);
    assert_eq!(d.is_globally_locked(), Ok(false));
    assert!(!d.is_locked());
}

#[test]
fn alignment_and_granularity_are_four_bytes() {
    let c = OtpController::new(false);
    assert_eq!(c.write_alignment(), 4);
    assert_eq!(c.programming_granularity(), 4);
}

#[test]
fn region_reads_dispatch_by_region() {
    assert_eq!(
        OtpController::region_read(AspeedOtpRegion::Data, 5, 1),
        Ok(RegionRead::Data { offset: 5 })
    );
    assert_eq!(
        OtpController::region_read(AspeedOtpRegion::Configuration, 3, 1),
        Ok(RegionRead::Configuration { conf_offset: 3 })
    );
    assert_eq!(
        OtpController::region_read(AspeedOtpRegion::Strap, 9, 2),
        Ok(RegionRead::Strap { offset: 9 })
    );
    assert_eq!(
        OtpController::region_read(AspeedOtpRegion::ScuProtection, 2, 1),
        Ok(RegionRead::ScuProtection { offset: 2 })
    );
}

#[test]
fn strap_read_with_short_buffer_is_refused_before_hardware() {
    assert_eq!(
        OtpController::region_read(AspeedOtpRegion::Strap, 0, 1),
        Err(OtpError::InvalidBufSize)
    );
}

#[test]
fn region_writes_dispatch_by_region() {
    assert_eq!(OtpController::region_write(AspeedOtpRegion::Data, 4), RegionWrite::Data { offset: 4 });
    assert_eq!(
        OtpController::region_write(AspeedOtpRegion::Configuration, 1),
        RegionWrite::Configuration { offset: 1 }
    );
    assert_eq!(OtpController::region_write(AspeedOtpRegion::Strap, 12), RegionWrite::Strap { offset: 12 });
    assert_eq!(
        OtpController::region_write(AspeedOtpRegion::ScuProtection, 0),
        RegionWrite::ScuProtection { offset: 0 }
    );
}

#[test]
fn strap_region_packs_each_strap_into_its_bit() {
    let st = straps(&[0, 5, 31, 32, 40, 63]);
    let mut buf = [0xdead_beefu32; 3];
    assert_eq!(OtpController::read_strap_region(&mut buf, 0, &Ok(st)), Ok(()));
    assert_eq!(buf[0], (1 << 0) | (1 << 5) | (1 << 31));
    assert_eq!(buf[1], (1 << 0) | (1 << 8) | (1 << 31));
    assert_eq!(buf[2], 0xdead_beef);
}

#[test]
fn strap_region_starts_at_strap_bit_offset() {
    let st = straps(&[5, 6, 40, 63]);
    let mut buf = [0u32; 2];
    assert_eq!(OtpController::read_strap_region(&mut buf, 5, &Ok(st)), Ok(()));
    assert_eq!(buf[0], (1 << 0) | (1 << 1));
    assert_eq!(buf[1], (1 << 3) | (1 << 26));
    let mut far = [7u32; 2];
    assert_eq!(OtpController::read_strap_region(&mut far, 100, &Ok(st)), Ok(()));
    assert_eq!(far, [0, 0]);
}

#[test]
fn strap_region_needs_two_words() {
    let mut buf = [9u32; 1];
    assert_eq!(
        OtpController::read_strap_region(&mut buf, 0, &Ok(straps(&[1]))),
        Err(OtpError::InvalidBufSize)
    );
    assert_eq!(buf, [9]);
}

#[test]
fn strap_region_passes_on_status_failure() {
    let mut buf = [9u32; 2];
    assert_eq!(
        OtpController::read_strap_region(&mut buf, 0, &Err(OtpError::MemoryLocked)),
        Err(OtpError::MemoryLocked)
    );
    assert_eq!(buf, [9, 9]);
}

#[test]
fn session_can_begin_only_without_session() {
    let mut c = OtpController::new(false);
    assert_eq!(c.session_can_begin(), Ok(()));
    assert!(c.begin_session(b"t", AspeedChipVersion::Ast1060A2, protection(), 1).is_ok());
    assert_eq!(c.session_can_begin(), Err(OtpError::NoSession));
}

#[test]
fn successful_hardware_lock_locks_memory() {
    let mut c = OtpController::new(false);
    assert_eq!(c.lock(Err(OtpError::InvalidAddress)), Err(OtpError::InvalidAddress));
    assert!(!c.is_locked());
    assert_eq!(c.lock(Ok(())), Ok(()));
    assert!(c.is_locked());
    assert_eq!(c.write_target(0), Err(OtpError::MemoryLocked));
}

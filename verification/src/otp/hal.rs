//! OTP controller logic: the session state machine, the checks and
//! arguments of a DWORD write, and the strap-region read.
//!
//! The controller's hardware accesses (reading and programming OTP words,
//! reading the strap status, protection and chip identification) are done
//! by the platform driver; the functions here decide what to do with their
//! inputs and results.

use vstd::prelude::*;

use super::common::{
    AspeedChipVersion, AspeedOtpRegion, OtpError, ProtectionStatus, SessionInfo, StrapStatus,
    OTP_MEM_LIMIT,
};

verus! {

/// Software state of the OTP controller.
pub struct OtpController {
    /// The OTP memory is locked against programming.
    pub locked: bool,
    /// An OTP session is established.
    pub session_active: bool,
}

/// Arguments of the hardware "program and verify two DWORDs" operation.
#[derive(Debug, Clone, Copy)]
pub struct DwordProgram {
    /// DWORD address of the first word.
    pub address: u32,
    /// Current contents of the two words.
    pub otp_data: [u32; 2],
    /// New contents of the two words.
    pub buffer: [u32; 2],
    /// Bits set here are left as they are.
    pub ignore_mask: [u32; 2],
}

/// The hardware read that serves a region read.
#[derive(Debug, Clone, Copy, PartialEq, Eq, Structural)]
pub enum RegionRead {
    /// Read DWORDs of the data region from `offset`.
    Data { offset: usize },
    /// Read DWORDs of the configuration region from `offset`.
    Configuration { conf_offset: u32 },
    /// Read the strap status and pack the straps from strap bit `offset`
    /// on (see [`OtpController::read_strap_region`]).
    Strap { offset: usize },
    /// Read DWORDs of the SCU protection region from `offset`.
    ScuProtection { offset: usize },
}

/// The hardware programming that serves a region write.
#[derive(Debug, Clone, Copy, PartialEq, Eq, Structural)]
pub enum RegionWrite {
    /// Program DWORDs of the data region from `offset`.
    Data { offset: usize },
    /// Program DWORDs of the configuration region from `offset`.
    Configuration { offset: usize },
    /// Program straps from strap bit `offset`.
    Strap { offset: usize },
    /// Program DWORDs of the SCU protection region from `offset`.
    ScuProtection { offset: usize },
}

/// The name reported by a session: "AST1060A2" and a terminating zero.
pub open spec fn session_version_name() -> Seq<u8> {
    seq![0x41u8, 0x53u8, 0x54u8, 0x31u8, 0x30u8, 0x36u8, 0x30u8, 0x41u8, 0x32u8, 0u8]
}

/// Software revision reported by a session.
pub const SESSION_SOFTWARE_REVISION: u32 = 0x1234_5678;

/// The session information for the given hardware readings: the tool
/// version is zero-padded to 32 bytes.
pub open spec fn session_info_for(
    info: SessionInfo,
    tool_version: Seq<u8>,
    chip_version: AspeedChipVersion,
    protection: ProtectionStatus,
    key_count: u8,
) -> bool {
    &&& info.chip_version == chip_version
    &&& info.version_name@ == session_version_name()
    &&& info.protection_status == protection
    &&& info.tool_version@ == tool_version + Seq::new(
        (32 - tool_version.len()) as nat,
        |i: int| 0u8,
    )
    &&& info.software_revision == SESSION_SOFTWARE_REVISION
    &&& info.key_count == key_count as u32
}

/// Whether bit `j` of `word` is set.
pub open spec fn bit_of(word: u32, j: u32) -> bool {
    (word >> j) & 1u32 == 1u32
}

/// The value of strap `k` in a strap status of 64 straps; `false` past the
/// last strap.
pub open spec fn strap_at(status: Seq<StrapStatus>, k: int) -> bool {
    if 0 <= k < 64 {
        status[k].value
    } else {
        false
    }
}

/// Whether `word` holds, in bits 0 to 31, the values of straps `base` to
/// `base + 31` (zero past the last strap).
pub open spec fn packs_straps(word: u32, status: Seq<StrapStatus>, base: int) -> bool {
    forall|j: u32| j < 32 ==> #[trigger] bit_of(word, j) == strap_at(status, base + j)
}

proof fn lemma_zero_has_no_bits(j: u32)
    requires
        j < 32,
    ensures
        !bit_of(0u32, j),
{
    assert((0u32 >> j) & 1u32 == 0u32) by (bit_vector);
}

proof fn lemma_or_bit(w: u32, b: u32, i: u32, j: u32)
    requires
        b <= 1,
        i < 32,
        j < 32,
    ensures
        j != i ==> bit_of(w | (b << i), j) == bit_of(w, j),
        j == i && !bit_of(w, i) ==> bit_of(w | (b << i), j) == (b == 1),
{
    assert(j != i ==> ((w | (b << i)) >> j) & 1u32 == (w >> j) & 1u32) by (bit_vector)
        requires
            b <= 1,
            i < 32,
            j < 32,
    ;
    assert(j == i && (w >> i) & 1u32 != 1u32 ==> (((w | (b << i)) >> j) & 1u32 == 1u32) == (b
        == 1)) by (bit_vector)
        requires
            b <= 1,
            i < 32,
            j < 32,
    ;
}

/// Packs the values of 32 consecutive straps, from strap `base`, into one
/// word, strap `base + j` in bit `j` (zero past the last strap).
fn pack_straps(status: &[StrapStatus; 64], base: usize) -> (w: u32)
    requires
        base <= 96,
    ensures
        packs_straps(w, status@, base as int),
{
    let mut w: u32 = 0;
    let mut i: usize = 0;
    proof {
        assert forall|j: u32| j < 32 implies !#[trigger] bit_of(w, j) by {
            lemma_zero_has_no_bits(j);
        }
    }
    while i < 32
        invariant
            i <= 32,
            base <= 96,
            forall|j: u32| j < i ==> #[trigger] bit_of(w, j) == strap_at(status@, base + j),
            forall|j: u32| i <= j < 32 ==> !#[trigger] bit_of(w, j),
        decreases 32 - i,
    {
        let k = base + i;
        let value = if k < 64 {
            status[k].value
        } else {
            false
        };
        let b: u32 = if value {
            1
        } else {
            0
        };
        let ghost old_w = w;
        let ii = i as u32;
        w = w | (b << ii);
        proof {
            assert forall|j: u32| j < i + 1 implies #[trigger] bit_of(w, j) == strap_at(
                status@,
                base + j,
            ) by {
                lemma_or_bit(old_w, b, ii, j);
            }
            assert forall|j: u32| i + 1 <= j < 32 implies !#[trigger] bit_of(w, j) by {
                lemma_or_bit(old_w, b, ii, j);
            }
        }
        i = i + 1;
    }
    w
}

impl OtpController {
    /// A controller with no session established.
    pub fn new(locked: bool) -> (r: Self)
        ensures
            r.locked == locked,
            !r.session_active,
    {
        OtpController { locked, session_active: false }
    }

    /// The state after a session is established.
    pub open spec fn with_session(self) -> Self {
        OtpController { session_active: true, ..self }
    }

    /// The state after the session is terminated.
    pub open spec fn without_session(self) -> Self {
        OtpController { session_active: false, ..self }
    }

    /// Whether the OTP memory is locked.
    pub fn is_locked(&self) -> (r: bool)
        ensures
            r == self.locked,
    {
        self.locked
    }

    /// Whether the entire memory is globally locked.
    pub fn is_globally_locked(&self) -> (r: Result<bool, OtpError>)
        ensures
            r == Ok::<bool, OtpError>(self.locked),
    {
        Ok(self.locked)
    }

    /// Alignment, in bytes, of write operations.
    pub fn write_alignment(&self) -> (r: usize)
        ensures
            r == 4,
    {
        4
    }

    /// Size, in bytes, of the smallest independently programmable unit.
    pub fn programming_granularity(&self) -> (r: usize)
        ensures
            r == 4,
    {
        4
    }

    /// Check a DWORD write to `address` of the data region: refused with
    /// `MemoryLocked` on a locked memory, then with `InvalidAddress` past
    /// [`OTP_MEM_LIMIT`]; otherwise the address as the hardware takes it.
    pub fn write_target(&self, address: usize) -> (r: Result<u32, OtpError>)
        ensures
            r == Err::<u32, OtpError>(OtpError::MemoryLocked) <==> self.locked,
            r == Err::<u32, OtpError>(OtpError::InvalidAddress) <==> !self.locked && address
                > OTP_MEM_LIMIT,
            r is Ok ==> r->Ok_0 == address,
            r is Ok <==> !self.locked && address <= OTP_MEM_LIMIT,
    {
        if self.locked {
            return Err(OtpError::MemoryLocked);
        }
        if address > OTP_MEM_LIMIT as usize {
            return Err(OtpError::InvalidAddress);
        }
        Ok(address as u32)
    }

    /// The program-and-verify request that writes `data` to the DWORD at
    /// `address`, whose current contents are `current`: only the first of
    /// the two words is programmed.
    pub fn dword_program(address: u32, current: u32, data: u32) -> (r: DwordProgram)
        ensures
            r.address == address,
            r.otp_data@ == seq![current, 0u32],
            r.buffer@ == seq![data, 0u32],
            r.ignore_mask@ == seq![0u32, 0xffff_ffffu32],
    {
        let r = DwordProgram {
            address,
            otp_data: [current, 0],
            buffer: [data, 0],
            ignore_mask: [0, 0xffff_ffff],
        };
        proof {
            assert(r.otp_data@ =~= seq![current, 0u32]);
            assert(r.buffer@ =~= seq![data, 0u32]);
            assert(r.ignore_mask@ =~= seq![0u32, 0xffff_ffffu32]);
        }
        r
    }

    /// Establish an OTP session from the hardware readings: the tool
    /// version string, chip version, protection status and key count.
    ///
    /// Refused with `NoSession` while a session is active, and with
    /// `BoundaryError` when the tool version exceeds 32 bytes; the state is
    /// then unchanged.
    pub fn begin_session(
        &mut self,
        tool_version: &[u8],
        chip_version: AspeedChipVersion,
        protection: ProtectionStatus,
        key_count: u8,
    ) -> (r: Result<SessionInfo, OtpError>)
        ensures
            old(self).session_active ==> r == Err::<SessionInfo, OtpError>(OtpError::NoSession)
                && *final(self) == *old(self),
            !old(self).session_active && tool_version@.len() > 32 ==> r == Err::<
                SessionInfo,
                OtpError,
            >(OtpError::BoundaryError) && *final(self) == *old(self),
            !old(self).session_active && tool_version@.len() <= 32 ==> r is Ok && *final(self)
                == old(self).with_session() && session_info_for(
                r->Ok_0,
                tool_version@,
                chip_version,
                protection,
                key_count,
            ),
            r is Ok ==> final(self).session_active && final(self).locked == old(self).locked,
            r is Err ==> *final(self) == *old(self),
            r is Ok ==> {
                let info = r->Ok_0;
                &&& info.chip_version == chip_version
                &&& info.protection_status == protection
                &&& info.key_count == key_count as u32
                &&& info.software_revision == 0x1234_5678
                &&& forall|i: int|
                    0 <= i < tool_version@.len() ==> #[trigger] info.tool_version@[i]
                        == tool_version@[i]
                &&& forall|i: int|
                    tool_version@.len() <= i < 32 ==> #[trigger] info.tool_version@[i] == 0u8
            },
    {
        if self.session_active {
            return Err(OtpError::NoSession);
        }
        if tool_version.len() > 32 {
            return Err(OtpError::BoundaryError);
        }
        let mut version: [u8; 32] = [0; 32];
        let mut i: usize = 0;
        while i < tool_version.len()
            invariant
                i <= tool_version@.len() <= 32,
                forall|j: int| 0 <= j < i ==> version@[j] == tool_version@[j],
                forall|j: int| i <= j < 32 ==> version@[j] == 0u8,
            decreases tool_version@.len() - i,
        {
            version[i] = tool_version[i];
            i = i + 1;
        }
        let info = SessionInfo {
            chip_version,
            version_name: [0x41, 0x53, 0x54, 0x31, 0x30, 0x36, 0x30, 0x41, 0x32, 0],
            protection_status: protection,
            tool_version: version,
            software_revision: SESSION_SOFTWARE_REVISION,
            key_count: key_count as u32,
        };
        self.session_active = true;
        proof {
            assert(info.version_name@ =~= session_version_name());
            assert(info.tool_version@ =~= tool_version@ + Seq::new(
                (32 - tool_version@.len()) as nat,
                |i: int| 0u8,
            ));
        }
        Ok(info)
    }

    /// Terminate the OTP session; refused with `NoSession`, changing
    /// nothing, when there is none.
    pub fn end_session(&mut self) -> (r: Result<(), OtpError>)
        ensures
            old(self).session_active ==> r is Ok && *final(self) == old(self).without_session(),
            !old(self).session_active ==> r == Err::<(), OtpError>(OtpError::NoSession)
                && *final(self) == *old(self),
            r is Ok <==> old(self).session_active,
            !final(self).session_active,
            final(self).locked == old(self).locked,
    {
        if !self.session_active {
            return Err(OtpError::NoSession);
        }
        self.session_active = false;
        Ok(())
    }

    /// Whether a session is currently active.
    pub fn is_session_active(&self) -> (r: bool)
        ensures
            r == self.session_active,
    {
        self.session_active
    }

    /// The hardware read that serves a read of `region` at `offset` into a
    /// buffer of `buffer_len` words; for the strap region the offset is the
    /// strap bit to start from, and a buffer shorter than two words is
    /// refused with `InvalidBufSize` before any hardware access.
    pub fn region_read(region: AspeedOtpRegion, offset: usize, buffer_len: usize) -> (r: Result<
        RegionRead,
        OtpError,
    >)
        requires
            region == AspeedOtpRegion::Configuration ==> offset <= u32::MAX,
        ensures
            r == match region {
                AspeedOtpRegion::Data => Ok(RegionRead::Data { offset }),
                AspeedOtpRegion::Configuration => Ok(
                    RegionRead::Configuration { conf_offset: offset as u32 },
                ),
                AspeedOtpRegion::Strap => if buffer_len < 2 {
                    Err(OtpError::InvalidBufSize)
                } else {
                    Ok(RegionRead::Strap { offset })
                },
                AspeedOtpRegion::ScuProtection => Ok(RegionRead::ScuProtection { offset }),
            },
    {
        match region {
            AspeedOtpRegion::Data => Ok(RegionRead::Data { offset }),
            AspeedOtpRegion::Configuration => Ok(
                RegionRead::Configuration { conf_offset: offset as u32 },
            ),
            AspeedOtpRegion::Strap => {
                if buffer_len < 2 {
                    Err(OtpError::InvalidBufSize)
                } else {
                    Ok(RegionRead::Strap { offset })
                }
            },
            AspeedOtpRegion::ScuProtection => Ok(RegionRead::ScuProtection { offset }),
        }
    }

    /// The hardware programming that serves a write of `region` at
    /// `offset` (for the strap region, the strap bit to start from).
    pub fn region_write(region: AspeedOtpRegion, offset: usize) -> (r: RegionWrite)
        ensures
            r == match region {
                AspeedOtpRegion::Data => RegionWrite::Data { offset },
                AspeedOtpRegion::Configuration => RegionWrite::Configuration { offset },
                AspeedOtpRegion::Strap => RegionWrite::Strap { offset },
                AspeedOtpRegion::ScuProtection => RegionWrite::ScuProtection { offset },
            },
    {
        match region {
            AspeedOtpRegion::Data => RegionWrite::Data { offset },
            AspeedOtpRegion::Configuration => RegionWrite::Configuration { offset },
            AspeedOtpRegion::Strap => RegionWrite::Strap { offset },
            AspeedOtpRegion::ScuProtection => RegionWrite::ScuProtection { offset },
        }
    }

    /// Read the strap region from strap bit `offset` into `buffer`, given
    /// the strap status that the hardware reported: strap `offset + j` goes
    /// to bit `j` of `buffer[0]` for `j < 32`, and to bit `j - 32` of
    /// `buffer[1]` otherwise; bits past the last strap are zero.
    ///
    /// A buffer shorter than two words is refused with `InvalidBufSize`,
    /// and a failed status read is passed on; `buffer` is then unchanged.
    pub fn read_strap_region(
        buffer: &mut [u32],
        offset: usize,
        status: &Result<[StrapStatus; 64], OtpError>,
    ) -> (r: Result<(), OtpError>)
        ensures
            final(buffer)@.len() == old(buffer)@.len(),
            old(buffer)@.len() < 2 ==> r == Err::<(), OtpError>(OtpError::InvalidBufSize)
                && final(buffer)@ == old(buffer)@,
            old(buffer)@.len() >= 2 && status is Err ==> r == Err::<(), OtpError>(status->Err_0)
                && final(buffer)@ == old(buffer)@,
            old(buffer)@.len() >= 2 && status is Ok ==> {
                &&& r is Ok
                &&& packs_straps(final(buffer)@[0], status->Ok_0@, offset as int)
                &&& packs_straps(final(buffer)@[1], status->Ok_0@, offset + 32)
                &&& final(buffer)@.skip(2) == old(buffer)@.skip(2)
            },
            old(buffer)@.len() >= 2 && status is Ok ==> forall|j: u32|
                #![trigger final(buffer)@[0] >> j]
                #![trigger final(buffer)@[1] >> j]
                j < 32 ==> {
                    &&& ((final(buffer)@[0] >> j) & 1u32 == 1u32) == (offset + j < 64
                        && status->Ok_0@[offset + j].value)
                    &&& ((final(buffer)@[1] >> j) & 1u32 == 1u32) == (offset + 32 + j < 64
                        && status->Ok_0@[offset + 32 + j].value)
                },
    {
        if buffer.len() < 2 {
            return Err(OtpError::InvalidBufSize);
        }
        match status {
            Ok(st) => {
                let start = if offset < 64 {
                    offset
                } else {
                    64
                };
                let w0 = pack_straps(st, start);
                let w1 = pack_straps(st, start + 32);
                proof {
                    assert forall|j: u32| j < 32 implies #[trigger] bit_of(w0, j) == strap_at(
                        st@,
                        offset + j,
                    ) by {
                        assert(bit_of(w0, j) == strap_at(st@, start + j));
                    }
                    assert forall|j: u32| j < 32 implies #[trigger] bit_of(w1, j) == strap_at(
                        st@,
                        offset + 32 + j,
                    ) by {
                        assert(bit_of(w1, j) == strap_at(st@, start + 32 + j));
                    }
                }
                buffer[0] = w0;
                buffer[1] = w1;
                proof {
                    assert(buffer@.skip(2) =~= old(buffer)@.skip(2));
                    assert forall|j: u32| j < 32 implies {
                        &&& ((buffer@[0] >> j) & 1u32 == 1u32) == (offset + j < 64
                            && st@[offset + j].value)
                        &&& ((buffer@[1] >> j) & 1u32 == 1u32) == (offset + 32 + j < 64
                            && st@[offset + 32 + j].value)
                    } by {
                        assert(bit_of(w0, j) == strap_at(st@, offset + j));
                        assert(bit_of(w1, j) == strap_at(st@, offset + 32 + j));
                    }
                }
                Ok(())
            },
            Err(e) => Err(*e),
        }
    }

    /// Whether a session may be established: refused with `NoSession`
    /// while one is active. Decided before the hardware is read for the
    /// session information.
    pub fn session_can_begin(&self) -> (r: Result<(), OtpError>)
        ensures
            r is Ok <==> !self.session_active,
            r is Err ==> r == Err::<(), OtpError>(OtpError::NoSession),
    {
        if self.session_active {
            Err(OtpError::NoSession)
        } else {
            Ok(())
        }
    }

    /// Record the outcome of locking the OTP memory in hardware: once the
    /// hardware lock succeeds the memory is locked; a failure is passed on
    /// and changes nothing.
    pub fn lock(&mut self, hardware: Result<(), OtpError>) -> (r: Result<(), OtpError>)
        ensures
            r == hardware,
            hardware is Ok ==> *final(self) == (OtpController { locked: true, ..*old(self) }),
            hardware is Err ==> *final(self) == *old(self),
    {
        if hardware.is_ok() {
            self.locked = true;
        }
        hardware
    }
}

/// The value of a strap is its recorded value, whatever else (such as
/// protection) the status holds; there are no straps past the 64th.
pub proof fn lemma_strap_value_is_recorded_value(status: Seq<StrapStatus>, k: int)
    ensures
        0 <= k < 64 ==> strap_at(status, k) == status[k].value,
        !(0 <= k < 64) ==> !strap_at(status, k),
{
}

/// The session information reports exactly the hardware readings it was
/// made from: chip version, protection status, key count, and the tool
/// version zero-padded to 32 bytes.
pub proof fn lemma_session_info_reports_readings(
    info: SessionInfo,
    tool_version: Seq<u8>,
    chip_version: AspeedChipVersion,
    protection: ProtectionStatus,
    key_count: u8,
)
    requires
        tool_version.len() <= 32,
        session_info_for(info, tool_version, chip_version, protection, key_count),
    ensures
        info.chip_version == chip_version,
        info.protection_status == protection,
        info.key_count == key_count as u32,
        forall|i: int| 0 <= i < tool_version.len() ==> #[trigger] info.tool_version@[i] == tool_version[i],
        forall|i: int| tool_version.len() <= i < 32 ==> #[trigger] info.tool_version@[i] == 0u8,
{
    assert forall|i: int| tool_version.len() <= i < 32 implies #[trigger] info.tool_version@[i]
        == 0u8 by {
        assert(info.tool_version@[i] == (tool_version + Seq::new(
            (32 - tool_version.len()) as nat,
            |i: int| 0u8,
        ))[i]);
    }
}

/// Establishing a session and then terminating it returns the controller
/// to its state before the session.
pub proof fn lemma_session_round_trip(c: OtpController)
    requires
        !c.session_active,
    ensures
        c.with_session().without_session() == c,
        c.with_session().session_active,
{
}

} // verus!

//! NOR-flash access for ASPEED SPI NOR devices.
//!
//! [`AspeedNorFlash`] wraps any [`SpiNorDevice`] and offers the operations of
//! a NOR flash: bounded reads, writes split at program-page boundaries, and
//! sector-aligned erases. Devices larger than 16 MiB are driven with
//! four-byte addressing.

use vstd::prelude::*;

use super::norflash::{plain_call, NorCall, NorCommand, SpiNorDevice, SPI_NOR_PAGE_SIZE, SPI_NOR_SECTOR_SIZE};

verus! {

/// Capacity above which a device is driven with four-byte addresses (16 MiB).
pub const FOUR_BYTE_ADDRESS_THRESHOLD: usize = 16 * 1024 * 1024;

/// Errors from [`AspeedNorFlash`] operations.
#[derive(Debug, Clone, Copy, PartialEq, Eq, Structural)]
pub enum AspeedFlashError {
    /// Access would exceed device capacity.
    OutOfBounds,
    /// Address or length not aligned to required boundary.
    NotAligned,
    /// Underlying SPI transaction failed.
    DeviceError,
}

// ---------------------------------------------------------------------------
// Model of the commands that each operation issues
// ---------------------------------------------------------------------------

/// Number of bytes of a write of `remaining` bytes at `address` that fit in
/// the program page holding `address`.
pub open spec fn page_chunk_len(address: int, remaining: int) -> int {
    let room = SPI_NOR_PAGE_SIZE - address % (SPI_NOR_PAGE_SIZE as int);
    if room < remaining {
        room
    } else {
        remaining
    }
}

/// The pieces, each an address and the bytes programmed there, into which a
/// write of `data` at `address` is cut: consecutive, and each within one
/// program page.
pub open spec fn write_chunks(address: int, data: Seq<u8>) -> Seq<(int, Seq<u8>)>
    decreases data.len(),
{
    if data.len() == 0 {
        Seq::empty()
    } else {
        let n = page_chunk_len(address, data.len() as int);
        seq![(address, data.take(n))] + write_chunks(address + n, data.skip(n))
    }
}

/// The page-program command for `data` at `address`.
pub open spec fn program_command(address: int, data: Seq<u8>, four_byte: bool) -> NorCommand {
    if four_byte {
        NorCommand::PageProgram4b { address: address as u32, data }
    } else {
        NorCommand::PageProgram { address: address as u32, data }
    }
}

/// The commands that a write of `data` at `address` issues, in order.
pub open spec fn write_commands(address: int, data: Seq<u8>, four_byte: bool) -> Seq<NorCommand> {
    write_chunks(address, data).map_values(
        |c: (int, Seq<u8>)| program_command(c.0, c.1, four_byte),
    )
}

/// The commands that an erase of `from..to` issues, in order: one sector
/// erase per sector start from `from` up to `to`.
pub open spec fn erase_commands(from: int, to: int) -> Seq<NorCommand>
    decreases (if from < to {
        to - from
    } else {
        0
    }),
{
    if from < to {
        seq![NorCommand::SectorErase { address: from as u32 }] + erase_commands(
            from + SPI_NOR_SECTOR_SIZE,
            to,
        )
    } else {
        Seq::empty()
    }
}

/// The command that a read of `len` bytes at `address` issues.
pub open spec fn read_command(address: u32, len: nat, four_byte: bool) -> NorCommand {
    if four_byte {
        NorCommand::ReadFast4b { address, len }
    } else {
        NorCommand::ReadData { address, len }
    }
}

/// The capacity, in bytes, that a JEDEC capacity code stands for: 2 to the
/// power of the code.
pub open spec fn capacity_for_code(code: u8) -> usize {
    1usize << (code as usize)
}

/// The capacity that a JEDEC capacity code stands for is 2 to the power of
/// the code, whenever the code is below the address width.
pub proof fn lemma_capacity_for_code_is_power_of_two(code: u8)
    requires
        (code as u32) < usize::BITS,
    ensures
        capacity_for_code(code) as nat == vstd::arithmetic::power2::pow2(code as nat),
{
    vstd::bits::lemma_usize_pow2_no_overflow(code as nat);
    vstd::bits::lemma_usize_shl_is_mul(1, code as usize);
}

/// Whether a device of `capacity` bytes is driven with four-byte addresses.
pub open spec fn uses_four_byte(capacity: usize) -> bool {
    capacity > FOUR_BYTE_ADDRESS_THRESHOLD
}

// ---------------------------------------------------------------------------
// AspeedNorFlash
// ---------------------------------------------------------------------------

/// The calls recorded in `after` beyond the history `before` issue the
/// leading commands of `cmds`, in order, and stop at the first call that
/// failed, or when `cmds` is exhausted.
pub open spec fn issued_until_failure(
    before: Seq<NorCall>,
    after: Seq<NorCall>,
    cmds: Seq<NorCommand>,
) -> bool {
    &&& before.len() <= after.len() <= before.len() + cmds.len()
    &&& after.take(before.len() as int) == before
    &&& forall|i: int|
        before.len() <= i < after.len() ==> (#[trigger] after[i]).command == cmds[i
            - before.len()] && (i < after.len() - 1 ==> after[i].succeeded)
    &&& after.len() < before.len() + cmds.len() ==> after.len() > before.len() && !after[after.len()
        - 1].succeeded
}

/// Every call recorded in `after` beyond the history `before` succeeded.
pub open spec fn all_succeeded(before: Seq<NorCall>, after: Seq<NorCall>) -> bool {
    forall|i: int| before.len() <= i < after.len() ==> (#[trigger] after[i]).succeeded
}

/// The record of `cmds` all issued successfully.
pub open spec fn succeeded_calls(cmds: Seq<NorCommand>) -> Seq<NorCall> {
    cmds.map_values(|c: NorCommand| plain_call(c, true))
}

/// Adapts any [`SpiNorDevice`] to NOR-flash operations.
///
/// Constructed via JEDEC probe ([`AspeedNorFlash::new`]) or with an explicit
/// capacity ([`AspeedNorFlash::with_capacity`]). The contracts describe each
/// operation by the calls it makes on the device, as recorded in the
/// device's call history.
pub struct AspeedNorFlash<T: SpiNorDevice> {
    dev: T,
    capacity: usize,
    supports_4byte: bool,
}

impl<T: SpiNorDevice> AspeedNorFlash<T> {
    /// Well-formedness: four-byte addressing is used exactly on devices
    /// above 16 MiB.
    pub closed spec fn wf(&self) -> bool {
        self.supports_4byte == uses_four_byte(self.capacity)
    }

    /// The wrapped device.
    pub closed spec fn device(&self) -> T {
        self.dev
    }

    /// The capacity of the flash in bytes.
    pub closed spec fn flash_capacity(&self) -> usize {
        self.capacity
    }

    /// Whether the flash is driven with four-byte addresses.
    pub open spec fn four_byte(&self) -> bool {
        uses_four_byte(self.flash_capacity())
    }

    /// Probe the attached NOR flash via JEDEC ID and construct the wrapper.
    ///
    /// The third byte of the JEDEC ID encodes log2(capacity). Devices larger
    /// than 16 MiB use 4-byte addressing. The probe is the only call made on
    /// the device: the capacity comes from the identification that the
    /// probe delivered. A failed probe, or a capacity code too large for the
    /// address width, is a device error.
    pub fn new(dev: T) -> (r: Result<Self, AspeedFlashError>)
        ensures
            r is Err ==> r == Err::<Self, AspeedFlashError>(AspeedFlashError::DeviceError),
            dev.jedec_probe() is None ==> r is Err,
            dev.jedec_probe() is Some ==> (r is Ok <==> (dev.jedec_probe()->Some_0[2] as u32)
                < usize::BITS),
            r is Ok ==> {
                let code = dev.jedec_probe()->Some_0[2];
                &&& r->Ok_0.flash_capacity() as nat == vstd::arithmetic::power2::pow2(code as nat)
                &&& r->Ok_0.four_byte() == (r->Ok_0.flash_capacity() > 16 * 1024 * 1024)
            },
            match r {
                Ok(flash) => {
                    let probe = flash.device().calls().last();
                    &&& flash.wf()
                    &&& flash.device().calls().len() == dev.calls().len() + 1
                    &&& flash.device().calls().drop_last() == dev.calls()
                    &&& probe.command == NorCommand::ReadJedecId
                    &&& probe.succeeded
                    &&& probe.delivered.len() == 3
                    &&& (probe.delivered[2] as u32) < usize::BITS
                    &&& flash.flash_capacity() == capacity_for_code(probe.delivered[2])
                },
                Err(e) => e == AspeedFlashError::DeviceError,
            },
    {
        let mut dev = dev;
        match dev.nor_read_jedec_id() {
            Ok(jedec) => Self::from_jedec_id(dev, jedec),
            Err(_) => Err(AspeedFlashError::DeviceError),
        }
    }

    /// Construct the wrapper from a JEDEC ID already read from `dev`: the
    /// capacity is 2 to the power of the third byte. No call is made on the
    /// device.
    pub fn from_jedec_id(dev: T, jedec: [u8; 3]) -> (r: Result<Self, AspeedFlashError>)
        ensures
            r is Ok <==> (jedec[2] as u32) < usize::BITS,
            r is Err ==> r == Err::<Self, AspeedFlashError>(AspeedFlashError::DeviceError),
            r is Ok ==> {
                &&& r->Ok_0.wf()
                &&& r->Ok_0.device() == dev
                &&& r->Ok_0.flash_capacity() == capacity_for_code(jedec[2])
                &&& r->Ok_0.flash_capacity() as nat == vstd::arithmetic::power2::pow2(
                    jedec[2] as nat,
                )
                &&& r->Ok_0.four_byte() == (r->Ok_0.flash_capacity() > 16 * 1024 * 1024)
            },
    {
        let cap_code = jedec[2];
        proof {
            if (cap_code as u32) < usize::BITS {
                lemma_capacity_for_code_is_power_of_two(cap_code);
            }
        }
        if cap_code as u32 >= usize::BITS {
            return Err(AspeedFlashError::DeviceError);
        }
        let capacity = 1usize << (cap_code as usize);
        let supports_4byte = capacity > FOUR_BYTE_ADDRESS_THRESHOLD;
        Ok(Self { dev, capacity, supports_4byte })
    }

    /// Construct with an explicit capacity (skips JEDEC probe).
    pub fn with_capacity(dev: T, capacity: usize) -> (r: Self)
        ensures
            r.wf(),
            r.device() == dev,
            r.flash_capacity() == capacity,
            r.four_byte() == (capacity > 16 * 1024 * 1024),
    {
        let supports_4byte = capacity > FOUR_BYTE_ADDRESS_THRESHOLD;
        Self { dev, capacity, supports_4byte }
    }

    /// Returns a reference to the inner device.
    pub fn inner(&self) -> (r: &T)
        ensures
            *r == self.device(),
    {
        &self.dev
    }

    /// Consumes the wrapper and returns the inner device.
    pub fn into_inner(self) -> (r: T)
        ensures
            r == self.device(),
    {
        self.dev
    }

    /// The capacity of the flash in bytes.
    pub fn capacity(&self) -> (r: usize)
        ensures
            r == self.flash_capacity(),
    {
        self.capacity
    }

    /// Read `bytes.len()` bytes starting at `offset`.
    ///
    /// Fails with `OutOfBounds`, touching neither the device nor `bytes`,
    /// when the range passes the end of the flash. Otherwise makes one read
    /// call on the device (fast four-byte read on devices above 16 MiB),
    /// leaves in `bytes` exactly what that call delivered, and succeeds
    /// exactly when it does, reporting a failure as `DeviceError`.
    pub fn read(&mut self, offset: u32, bytes: &mut [u8]) -> (r: Result<(), AspeedFlashError>)
        requires
            old(self).wf(),
            offset + old(bytes)@.len() <= usize::MAX,
        ensures
            final(self).wf(),
            final(self).flash_capacity() == old(self).flash_capacity(),
            final(bytes)@.len() == old(bytes)@.len(),
            r == Err::<(), AspeedFlashError>(AspeedFlashError::OutOfBounds) <==> offset + old(
                bytes,
            )@.len() > old(self).flash_capacity(),
            offset + old(bytes)@.len() > old(self).flash_capacity() ==> {
                &&& final(self).device() == old(self).device()
                &&& final(bytes)@ == old(bytes)@
            },
            offset + old(bytes)@.len() <= old(self).flash_capacity() ==> {
                &&& final(self).device().calls() == old(self).device().calls().push(
                    NorCall {
                        command: read_command(offset, old(bytes)@.len(), old(self).four_byte()),
                        succeeded: r is Ok,
                        delivered: final(bytes)@,
                    },
                )
                &&& (r is Ok || r == Err::<(), AspeedFlashError>(AspeedFlashError::DeviceError))
            },
            offset + old(bytes)@.len() <= old(self).flash_capacity() ==> {
                let cmd = final(self).device().calls().last().command;
                &&& old(self).flash_capacity() > 16 * 1024 * 1024 ==> cmd == (NorCommand::ReadFast4b {
                    address: offset,
                    len: old(bytes)@.len(),
                })
                &&& old(self).flash_capacity() <= 16 * 1024 * 1024 ==> cmd == (NorCommand::ReadData {
                    address: offset,
                    len: old(bytes)@.len(),
                })
                &&& final(self).device().calls().last().delivered == final(bytes)@
            },
    {
        let end = offset as usize + bytes.len();
        if end > self.capacity {
            return Err(AspeedFlashError::OutOfBounds);
        }
        let res = if self.supports_4byte {
            self.dev.nor_read_fast_4b_data(offset, bytes)
        } else {
            self.dev.nor_read_data(offset, bytes)
        };
        match res {
            Ok(()) => Ok(()),
            Err(_) => Err(AspeedFlashError::DeviceError),
        }
    }

    /// Write `bytes` starting at `offset`, split at 256-byte program-page
    /// boundaries.
    ///
    /// Fails with `OutOfBounds`, touching nothing, when the range passes the
    /// end of the flash. Otherwise programs the pieces of [`write_chunks`] in
    /// order (four-byte commands on devices above 16 MiB), stopping right
    /// after the first call that fails, and succeeds exactly when every call
    /// does; a failure is reported as `DeviceError`. An empty write touches
    /// nothing.
    pub fn write(&mut self, offset: u32, bytes: &[u8]) -> (r: Result<(), AspeedFlashError>)
        requires
            old(self).wf(),
            offset + bytes@.len() <= usize::MAX,
        ensures
            final(self).wf(),
            final(self).flash_capacity() == old(self).flash_capacity(),
            r == Err::<(), AspeedFlashError>(AspeedFlashError::OutOfBounds) <==> offset
                + bytes@.len() > old(self).flash_capacity(),
            offset + bytes@.len() > old(self).flash_capacity() || bytes@.len() == 0
                ==> final(self).device() == old(self).device(),
            offset + bytes@.len() <= old(self).flash_capacity() ==> {
                &&& issued_until_failure(
                    old(self).device().calls(),
                    final(self).device().calls(),
                    write_commands(offset as int, bytes@, old(self).four_byte()),
                )
                &&& (r is Ok <==> all_succeeded(
                    old(self).device().calls(),
                    final(self).device().calls(),
                ))
                &&& (r is Ok || r == Err::<(), AspeedFlashError>(AspeedFlashError::DeviceError))
            },
            offset + bytes@.len() <= old(self).flash_capacity() ==> forall|i: int|
                old(self).device().calls().len() <= i < final(self).device().calls().len() ==> {
                    &&& old(self).flash_capacity() > 16 * 1024 * 1024
                        ==> (#[trigger] final(self).device().calls()[i]).command is PageProgram4b
                    &&& old(self).flash_capacity() <= 16 * 1024 * 1024
                        ==> final(self).device().calls()[i].command is PageProgram
                },
    {
        let end = offset as usize + bytes.len();
        if end > self.capacity {
            return Err(AspeedFlashError::OutOfBounds);
        }
        let ghost h0 = self.dev.calls();
        let ghost fb = self.supports_4byte;
        let ghost all = write_chunks(offset as int, bytes@);
        let ghost cmds = write_commands(offset as int, bytes@, fb);
        let ghost f = |c: (int, Seq<u8>)| program_command(c.0, c.1, fb);
        let ghost mut done: Seq<(int, Seq<u8>)> = Seq::empty();
        proof {
            assert(bytes@.skip(0) =~= bytes@);
            assert(done + write_chunks(offset + 0, bytes@.skip(0)) =~= all);
            assert(h0 + succeeded_calls(done.map_values(f)) =~= h0);
        }
        let mut pos: usize = 0;
        while pos < bytes.len()
            invariant
                self.wf(),
                self.capacity == old(self).capacity,
                self.supports_4byte == fb,
                fb == old(self).four_byte(),
                pos <= bytes@.len(),
                offset + bytes@.len() <= self.capacity,
                all == write_chunks(offset as int, bytes@),
                cmds == write_commands(offset as int, bytes@, fb),
                f == (|c: (int, Seq<u8>)| program_command(c.0, c.1, fb)),
                done + write_chunks(offset + pos, bytes@.skip(pos as int)) == all,
                self.dev.calls() == h0 + succeeded_calls(done.map_values(f)),
                h0 == old(self).dev.calls(),
                bytes@.len() == 0 ==> self.dev == old(self).dev,
            decreases bytes@.len() - pos,
        {
            let write_addr = offset as usize + pos;
            let page_remaining = SPI_NOR_PAGE_SIZE - (write_addr % SPI_NOR_PAGE_SIZE);
            let left = bytes.len() - pos;
            let chunk_len = if page_remaining < left {
                page_remaining
            } else {
                left
            };
            let chunk = vstd::slice::slice_subrange(bytes, pos, pos + chunk_len);
            let addr32 = #[verifier::truncate] (write_addr as u32);
            let ghost rest = bytes@.skip(pos as int);
            proof {
                assert(chunk_len == page_chunk_len(write_addr as int, rest.len() as int));
                assert(rest.take(chunk_len as int) =~= chunk@);
                assert(rest.skip(chunk_len as int) =~= bytes@.skip(pos + chunk_len));
                assert(write_chunks(offset + pos, rest) == seq![(offset + pos, chunk@)]
                    + write_chunks(offset + pos + chunk_len, bytes@.skip(pos + chunk_len)));
            }
            let res = if self.supports_4byte {
                self.dev.nor_page_program_4b(addr32, chunk)
            } else {
                self.dev.nor_page_program(addr32, chunk)
            };
            let ghost piece = (offset + pos, chunk@);
            proof {
                assert(f(piece) == program_command(write_addr as int, chunk@, fb));
                assert(done.push(piece) + write_chunks(
                    offset + pos + chunk_len,
                    bytes@.skip(pos + chunk_len),
                ) =~= done + write_chunks(offset + pos, rest));
                let k = done.len() as int;
                assert(all.take(k + 1) =~= done.push(piece));
                assert(cmds.take(k + 1) =~= done.push(piece).map_values(f));
                assert(cmds[k] == f(piece));
            }
            if res.is_err() {
                proof {
                    lemma_write_commands_addressing(offset as int, bytes@, fb);
                    let after = self.dev.calls();
                    let k = done.len() as int;
                    assert(after.take(h0.len() as int) =~= h0);
                    assert forall|i: int| h0.len() <= i < after.len() implies (
                    #[trigger] after[i]).command == cmds[i - h0.len()] && (i < after.len() - 1
                        ==> after[i].succeeded) by {
                        if i < after.len() - 1 {
                            assert(after[i] == succeeded_calls(done.map_values(f))[i - h0.len()]);
                            assert(cmds.take(k + 1)[i - h0.len()] == cmds[i - h0.len()]);
                        }
                    }
                    assert(!all_succeeded(h0, after)) by {
                        assert(!after[after.len() - 1].succeeded);
                    }
                }
                return Err(AspeedFlashError::DeviceError);
            }
            proof {
                assert(succeeded_calls(done.push(piece).map_values(f)) =~= succeeded_calls(
                    done.map_values(f),
                ).push(plain_call(f(piece), true)));
                done = done.push(piece);
            }
            pos = pos + chunk_len;
        }
        proof {
            lemma_write_commands_addressing(offset as int, bytes@, fb);
            assert(bytes@.skip(pos as int) =~= Seq::<u8>::empty());
            assert(done =~= all);
            let after = self.dev.calls();
            assert(after.take(h0.len() as int) =~= h0);
            assert forall|i: int| h0.len() <= i < after.len() implies (
            #[trigger] after[i]).command == cmds[i - h0.len()] && after[i].succeeded by {
                assert(after[i] == succeeded_calls(cmds)[i - h0.len()]);
            }
        }
        Ok(())
    }
}

/// Whether `from` and `to` both lie on sector boundaries.
pub open spec fn erase_aligned(from: u32, to: u32) -> bool {
    from as int % (SPI_NOR_SECTOR_SIZE as int) == 0 && to as int % (SPI_NOR_SECTOR_SIZE as int)
        == 0
}

impl<T: SpiNorDevice> AspeedNorFlash<T> {
    /// Erase the sectors of `from..to` (`to` exclusive).
    ///
    /// Fails with `NotAligned` when either bound is off a 4096-byte sector
    /// boundary, then with `OutOfBounds` when `to` passes the end of the
    /// flash, in both cases touching nothing. Otherwise erases the sectors
    /// in order, stopping right after the first call that fails, and
    /// succeeds exactly when every call does; a failure is reported as
    /// `DeviceError`. A range with `from >= to` touches nothing.
    pub fn erase(&mut self, from: u32, to: u32) -> (r: Result<(), AspeedFlashError>)
        requires
            old(self).wf(),
        ensures
            final(self).wf(),
            final(self).flash_capacity() == old(self).flash_capacity(),
            r == Err::<(), AspeedFlashError>(AspeedFlashError::NotAligned) <==> !erase_aligned(
                from,
                to,
            ),
            r == Err::<(), AspeedFlashError>(AspeedFlashError::OutOfBounds) <==> erase_aligned(
                from,
                to,
            ) && to > old(self).flash_capacity(),
            !erase_aligned(from, to) || to > old(self).flash_capacity() || from >= to
                ==> final(self).device() == old(self).device(),
            erase_aligned(from, to) && to <= old(self).flash_capacity() ==> {
                &&& issued_until_failure(
                    old(self).device().calls(),
                    final(self).device().calls(),
                    erase_commands(from as int, to as int),
                )
                &&& (r is Ok <==> all_succeeded(
                    old(self).device().calls(),
                    final(self).device().calls(),
                ))
                &&& (r is Ok || r == Err::<(), AspeedFlashError>(AspeedFlashError::DeviceError))
            },
    {
        if (from as usize) % SPI_NOR_SECTOR_SIZE != 0 || (to as usize) % SPI_NOR_SECTOR_SIZE != 0 {
            return Err(AspeedFlashError::NotAligned);
        }
        if to as usize > self.capacity {
            return Err(AspeedFlashError::OutOfBounds);
        }
        let ghost h0 = self.dev.calls();
        let ghost all = erase_commands(from as int, to as int);
        let ghost mut done: Seq<NorCommand> = Seq::empty();
        proof {
            assert(h0 + succeeded_calls(done) =~= h0);
        }
        let mut addr = from;
        while addr < to
            invariant
                self.wf(),
                self.capacity == old(self).capacity,
                h0 == old(self).dev.calls(),
                all == erase_commands(from as int, to as int),
                addr as int % 4096 == 0,
                from as int % 4096 == 0,
                to as int % 4096 == 0,
                to as int <= self.capacity,
                addr == from || addr <= to,
                done + erase_commands(addr as int, to as int) == all,
                self.dev.calls() == h0 + succeeded_calls(done),
                from >= to ==> self.dev == old(self).dev,
            decreases to - addr,
        {
            let res = self.dev.nor_sector_erase(addr);
            let ghost c = NorCommand::SectorErase { address: addr };
            proof {
                assert(addr + 4096 <= to);
                assert(erase_commands(addr as int, to as int) == seq![c] + erase_commands(
                    addr + 4096,
                    to as int,
                ));
                assert(done.push(c) + erase_commands(addr + 4096, to as int) =~= done
                    + erase_commands(addr as int, to as int));
                let k = done.len() as int;
                assert(all.take(k + 1) =~= done.push(c));
                assert(all[k] == c);
            }
            if res.is_err() {
                proof {
                    let after = self.dev.calls();
                    let k = done.len() as int;
                    assert(after.take(h0.len() as int) =~= h0);
                    assert forall|i: int| h0.len() <= i < after.len() implies (
                    #[trigger] after[i]).command == all[i - h0.len()] && (i < after.len() - 1
                        ==> after[i].succeeded) by {
                        if i < after.len() - 1 {
                            assert(after[i] == succeeded_calls(done)[i - h0.len()]);
                            assert(all.take(k + 1)[i - h0.len()] == all[i - h0.len()]);
                        }
                    }
                    assert(!all_succeeded(h0, after)) by {
                        assert(!after[after.len() - 1].succeeded);
                    }
                }
                return Err(AspeedFlashError::DeviceError);
            }
            proof {
                assert(succeeded_calls(done.push(c)) =~= succeeded_calls(done).push(
                    plain_call(c, true),
                ));
                done = done.push(c);
            }
            addr = addr + SPI_NOR_SECTOR_SIZE as u32;
        }
        proof {
            assert(done =~= all);
            let after = self.dev.calls();
            assert(after.take(h0.len() as int) =~= h0);
            assert forall|i: int| h0.len() <= i < after.len() implies (
            #[trigger] after[i]).command == all[i - h0.len()] && after[i].succeeded by {
                assert(after[i] == succeeded_calls(all)[i - h0.len()]);
            }
        }
        Ok(())
    }
}

impl<T: SpiNorDevice> AspeedNorFlash<T> {
    /// Along a run of reads, writes and erases (each of which keeps the
    /// capacity of the flash it is applied to) every state has the capacity
    /// of the first, and with it the same choice of three- or four-byte
    /// addressing.
    pub proof fn lemma_capacity_fixed_along_run(run: Seq<Self>)
        requires
            forall|i: int|
                0 < i < run.len() ==> (#[trigger] run[i]).flash_capacity() == run[i
                    - 1].flash_capacity(),
        ensures
            forall|i: int|
                0 <= i < run.len() ==> (#[trigger] run[i]).flash_capacity()
                    == run[0].flash_capacity() && run[i].four_byte() == run[0].four_byte(),
        decreases run.len(),
    {
        if run.len() > 1 {
            let front = run.drop_last();
            assert forall|i: int| 0 < i < front.len() implies (
            #[trigger] front[i]).flash_capacity() == front[i - 1].flash_capacity() by {
                assert(front[i] == run[i] && front[i - 1] == run[i - 1]);
            }
            Self::lemma_capacity_fixed_along_run(front);
            assert forall|i: int| 0 <= i < run.len() implies (
            #[trigger] run[i]).flash_capacity() == run[0].flash_capacity() by {
                if i < run.len() - 1 {
                    assert(front[i] == run[i]);
                } else {
                    assert(front[i - 1] == run[i - 1]);
                    assert(run[i].flash_capacity() == run[i - 1].flash_capacity());
                }
            }
        }
    }
}

/// A write is cut into pieces that together are exactly the written bytes,
/// each non-empty and inside one 256-byte program page, each starting where
/// the previous one ended, the first at the write's address and every later
/// one at a page boundary.
pub proof fn lemma_write_chunks_split_at_pages(address: int, data: Seq<u8>)
    requires
        address >= 0,
    ensures
        ({
            let chunks = write_chunks(address, data);
            &&& chunks.map_values(|c: (int, Seq<u8>)| c.1).flatten() == data
            &&& forall|i: int|
                0 <= i < chunks.len() ==> 0 < (#[trigger] chunks[i]).1.len() && chunks[i].0 % 256
                    + chunks[i].1.len() <= 256
            &&& chunks.len() > 0 ==> chunks[0].0 == address
            &&& forall|i: int|
                1 <= i < chunks.len() ==> (#[trigger] chunks[i]).0 == chunks[i - 1].0 + chunks[i
                    - 1].1.len() && chunks[i].0 % 256 == 0
        }),
    decreases data.len(),
{
    let chunks = write_chunks(address, data);
    let g = |c: (int, Seq<u8>)| c.1;
    if data.len() == 0 {
        assert(chunks.map_values(g) =~= Seq::<Seq<u8>>::empty());
    } else {
        let n = page_chunk_len(address, data.len() as int);
        let rest = write_chunks(address + n, data.skip(n));
        lemma_write_chunks_split_at_pages(address + n, data.skip(n));
        assert(chunks == seq![(address, data.take(n))] + rest);
        let m = chunks.map_values(g);
        assert(m.first() == data.take(n));
        assert(m.drop_first() =~= rest.map_values(g));
        assert(data.take(n) + data.skip(n) =~= data);
        assert forall|i: int| 0 <= i < chunks.len() implies 0 < (#[trigger] chunks[i]).1.len()
            && chunks[i].0 % 256 + chunks[i].1.len() <= 256 by {
            if i > 0 {
                assert(chunks[i] == rest[i - 1]);
            }
        }
        assert forall|i: int| 1 <= i < chunks.len() implies (#[trigger] chunks[i]).0 == chunks[i
            - 1].0 + chunks[i - 1].1.len() && chunks[i].0 % 256 == 0 by {
            assert(chunks[i] == rest[i - 1]);
            if i > 1 {
                assert(chunks[i - 1] == rest[i - 2]);
            } else {
                assert(rest.len() > 0);
                assert((address + n) % 256 == 0);
            }
        }
    }
}

/// A write on a device above 16 MiB issues only four-byte page programs,
/// and on any other device only three-byte ones.
pub proof fn lemma_write_commands_addressing(address: int, data: Seq<u8>, four_byte: bool)
    ensures
        forall|i: int|
            0 <= i < write_commands(address, data, four_byte).len() ==> {
                &&& four_byte ==> (#[trigger] write_commands(address, data, four_byte)[i]) is PageProgram4b
                &&& !four_byte ==> write_commands(address, data, four_byte)[i] is PageProgram
            },
{
}

/// Each command of a write programs the bytes of the matching piece at that
/// piece's address: four-byte page programs on devices above 16 MiB,
/// three-byte ones otherwise.
pub proof fn lemma_write_commands_program_the_pieces(address: int, data: Seq<u8>, four_byte: bool)
    ensures
        write_commands(address, data, four_byte).len() == write_chunks(address, data).len(),
        forall|i: int|
            0 <= i < write_chunks(address, data).len() ==> #[trigger] write_commands(
                address,
                data,
                four_byte,
            )[i] == if four_byte {
                NorCommand::PageProgram4b {
                    address: write_chunks(address, data)[i].0 as u32,
                    data: write_chunks(address, data)[i].1,
                }
            } else {
                NorCommand::PageProgram {
                    address: write_chunks(address, data)[i].0 as u32,
                    data: write_chunks(address, data)[i].1,
                }
            },
{
}

/// A call history that issued the commands `cmds` until the first failure,
/// in which no call failed, holds every one of `cmds`, in order, after the
/// earlier history.
pub proof fn lemma_all_succeeded_issues_every_command(
    before: Seq<NorCall>,
    after: Seq<NorCall>,
    cmds: Seq<NorCommand>,
)
    requires
        issued_until_failure(before, after, cmds),
        all_succeeded(before, after),
    ensures
        after.len() == before.len() + cmds.len(),
        after.take(before.len() as int) == before,
        forall|i: int| 0 <= i < cmds.len() ==> (#[trigger] after[before.len() + i]).command == cmds[i],
{
    if after.len() < before.len() + cmds.len() {
        assert(after[after.len() - 1].succeeded);
    }
    assert forall|i: int| 0 <= i < cmds.len() implies (#[trigger] after[before.len()
        + i]).command == cmds[i] by {
        let j = before.len() + i;
        assert(after[j].command == cmds[j - before.len()]);
    }
}

/// The bytes that a command programs (none for other commands).
pub open spec fn programmed_bytes(c: NorCommand) -> Seq<u8> {
    match c {
        NorCommand::PageProgram { data, .. } => data,
        NorCommand::PageProgram4b { data, .. } => data,
        _ => Seq::empty(),
    }
}

/// The commands of a write program, in order, exactly the bytes written,
/// each command at most one 256-byte page of them.
pub proof fn lemma_write_commands_program_the_bytes(address: int, data: Seq<u8>, four_byte: bool)
    requires
        address >= 0,
    ensures
        write_commands(address, data, four_byte).map_values(|c: NorCommand| programmed_bytes(c)).flatten()
            == data,
        forall|i: int|
            0 <= i < write_commands(address, data, four_byte).len() ==> 0 < programmed_bytes(
                #[trigger] write_commands(address, data, four_byte)[i],
            ).len() <= 256,
{
    lemma_write_chunks_split_at_pages(address, data);
    let chunks = write_chunks(address, data);
    let cmds = write_commands(address, data, four_byte);
    assert(cmds.map_values(|c: NorCommand| programmed_bytes(c)) =~= chunks.map_values(
        |c: (int, Seq<u8>)| c.1,
    ));
    assert forall|i: int| 0 <= i < cmds.len() implies 0 < programmed_bytes(
        #[trigger] cmds[i],
    ).len() <= 256 by {
        assert(chunks[i].0 % 256 + chunks[i].1.len() <= 256);
    }
}

/// An erase of a sector-aligned range `from..to` erases each of its
/// sectors once, in ascending order, and nothing else.
pub proof fn lemma_erase_commands_sectors(from: int, to: int)
    requires
        from % 4096 == 0,
        to % 4096 == 0,
        from <= to,
    ensures
        erase_commands(from, to).len() == (to - from) / 4096,
        forall|i: int|
            0 <= i < (to - from) / 4096 ==> #[trigger] erase_commands(from, to)[i]
                == (NorCommand::SectorErase { address: (from + 4096 * i) as u32 }),
    decreases to - from,
{
    if from < to {
        lemma_erase_commands_sectors(from + 4096, to);
        let rest = erase_commands(from + 4096, to);
        assert(erase_commands(from, to) == seq![NorCommand::SectorErase { address: from as u32 }]
            + rest);
        assert forall|i: int| 0 <= i < (to - from) / 4096 implies #[trigger] erase_commands(
            from,
            to,
        )[i] == NorCommand::SectorErase { address: (from + 4096 * i) as u32 } by {
            if i > 0 {
                assert(erase_commands(from, to)[i] == rest[i - 1]);
                assert(from + 4096 + 4096 * (i - 1) == from + 4096 * i);
            }
        }
    }
}

} // verus!

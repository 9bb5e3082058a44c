//! The SPI NOR device interface and its geometry.

use vstd::prelude::*;

verus! {

/// Bytes in one NOR program page.
pub const SPI_NOR_PAGE_SIZE: usize = 256;

/// Bytes in one NOR erase sector.
pub const SPI_NOR_SECTOR_SIZE: usize = 4096;

/// A command issued to a SPI NOR device.
pub enum NorCommand {
    /// Read of the three-byte JEDEC identification.
    ReadJedecId,
    /// Read of `len` bytes from `address` with three-byte addressing.
    ReadData { address: u32, len: nat },
    /// Fast read of `len` bytes from `address` with four-byte addressing.
    ReadFast4b { address: u32, len: nat },
    /// Page program of `data` at `address` with three-byte addressing.
    PageProgram { address: u32, data: Seq<u8> },
    /// Page program of `data` at `address` with four-byte addressing.
    PageProgram4b { address: u32, data: Seq<u8> },
    /// Erase of the sector that starts at `address`.
    SectorErase { address: u32 },
}

/// One call made on a SPI NOR device: the command it issued, whether the
/// device reported success, and the bytes it delivered to the caller (the
/// identification, or the buffer contents after a read; none otherwise).
pub struct NorCall {
    pub command: NorCommand,
    pub succeeded: bool,
    pub delivered: Seq<u8>,
}

/// The record of a call that delivers no bytes.
pub open spec fn plain_call(command: NorCommand, succeeded: bool) -> NorCall {
    NorCall { command, succeeded, delivered: Seq::empty() }
}

/// A SPI NOR flash device: the commands through which a NOR flash is read,
/// programmed and erased.
///
/// Every implementation keeps a call history, `calls()`: each method below
/// appends one entry, holding exactly the command that the call issued with
/// the caller's arguments, whether it returned `Ok`, and the bytes it handed
/// back. Nothing is promised of whether a command succeeds, nor of which
/// bytes the device delivers.
pub trait SpiNorDevice {
    type Error;

    /// The calls made on this device so far, oldest first.
    ///
    /// Generic code cannot rely on this default, and an implementation
    /// verified against the contracts below must define its own history:
    /// with the empty default none of them could be met. The default exists
    /// because the compiled trait keeps this method, so that
    /// implementations written as plain Rust still compile.
    open spec fn calls(&self) -> Seq<NorCall> {
        Seq::empty()
    }

    /// What a JEDEC probe of the device in its present state answers: the
    /// identification, or `None` when the probe fails. As with `calls()`,
    /// the default only lets plain-Rust implementations compile; generic
    /// code cannot rely on it.
    open spec fn jedec_probe(&self) -> Option<[u8; 3]> {
        None
    }

    /// Reads the JEDEC identification (manufacturer, type, capacity code):
    /// the answer of [`SpiNorDevice::jedec_probe`].
    fn nor_read_jedec_id(&mut self) -> (r: Result<[u8; 3], Self::Error>)
        ensures
            r is Ok <==> old(self).jedec_probe() is Some,
            r is Ok ==> r->Ok_0 == old(self).jedec_probe()->Some_0,
            final(self).calls() == old(self).calls().push(
                NorCall {
                    command: NorCommand::ReadJedecId,
                    succeeded: r is Ok,
                    delivered: if r is Ok {
                        r->Ok_0@
                    } else {
                        Seq::empty()
                    },
                },
            ),
    ;

    /// Reads `data.len()` bytes from `address` with three-byte addressing.
    fn nor_read_data(&mut self, address: u32, data: &mut [u8]) -> (r: Result<(), Self::Error>)
        ensures
            final(data)@.len() == old(data)@.len(),
            final(self).calls() == old(self).calls().push(
                NorCall {
                    command: NorCommand::ReadData { address, len: old(data)@.len() },
                    succeeded: r is Ok,
                    delivered: final(data)@,
                },
            ),
    ;

    /// Fast-reads `data.len()` bytes from `address` with four-byte addressing.
    fn nor_read_fast_4b_data(&mut self, address: u32, data: &mut [u8]) -> (r: Result<
        (),
        Self::Error,
    >)
        ensures
            final(data)@.len() == old(data)@.len(),
            final(self).calls() == old(self).calls().push(
                NorCall {
                    command: NorCommand::ReadFast4b { address, len: old(data)@.len() },
                    succeeded: r is Ok,
                    delivered: final(data)@,
                },
            ),
    ;

    /// Programs `data` at `address` with three-byte addressing.
    fn nor_page_program(&mut self, address: u32, data: &[u8]) -> (r: Result<(), Self::Error>)
        ensures
            final(self).calls() == old(self).calls().push(
                plain_call(NorCommand::PageProgram { address, data: data@ }, r is Ok),
            ),
    ;

    /// Programs `data` at `address` with four-byte addressing.
    fn nor_page_program_4b(&mut self, address: u32, data: &[u8]) -> (r: Result<(), Self::Error>)
        ensures
            final(self).calls() == old(self).calls().push(
                plain_call(NorCommand::PageProgram4b { address, data: data@ }, r is Ok),
            ),
    ;

    /// Erases the sector that starts at `address`.
    fn nor_sector_erase(&mut self, address: u32) -> (r: Result<(), Self::Error>)
        ensures
            final(self).calls() == old(self).calls().push(
                plain_call(NorCommand::SectorErase { address }, r is Ok),
            ),
    ;
}

} // verus!

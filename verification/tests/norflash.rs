use aspeed_ddk::spi::aspeed_norflash::{AspeedFlashError, AspeedNorFlash};
use aspeed_ddk::spi::norflash::SpiNorDevice;

#[derive(Debug, Clone, PartialEq, Eq)]
enum Cmd {
    Jedec,
    Read(u32, usize),
    Read4b(u32, usize),
    Program(u32, Vec<u8>),
    Program4b(u32, Vec<u8>),
    Erase(u32),
}

struct MockNor {
    jedec: Option<[u8; 3]>,
    log: Vec<Cmd>,
    fail_after: Option<usize>,
}

impl MockNor {
    fn new(jedec: Option<[u8; 3]>) -> Self {
        MockNor { jedec, log: Vec::new(), fail_after: None }
    }

    fn outcome(&self) -> Result<(), ()> {
        match self.fail_after {
            Some(n) if self.log.len() > n => Err(()),
            _ => Ok(()),
        }
    }
}

impl SpiNorDevice for MockNor {
    type Error = ();

    fn nor_read_jedec_id(&mut self) -> Result<[u8; 3], ()> {
        self.log.push(Cmd::Jedec);
        self.jedec.ok_or(())
    }

    fn nor_read_data(&mut self, address: u32, data: &mut [u8]) -> Result<(), ()> {
        self.log.push(Cmd::Read(address, data.len()));
        for b in data.iter_mut() {
            *b = 0xa5;
        }
        self.outcome()
    }

    fn nor_read_fast_4b_data(&mut self, address: u32, data: &mut [u8]) -> Result<(), ()> {
        self.log.push(Cmd::Read4b(address, data.len()));
        self.outcome()
    }

    fn nor_page_program(&mut self, address: u32, data: &[u8]) -> Result<(), ()> {
        self.log.push(Cmd::Program(address, data.to_vec()));
        self.outcome()
    }

    fn nor_page_program_4b(&mut self, address: u32, data: &[u8]) -> Result<(), ()> {
        self.log.push(Cmd::Program4b(address, data.to_vec()));
        self.outcome()
    }

    fn nor_sector_erase(&mut self, address: u32) -> Result<(), ()> {
        self.log.push(Cmd::Erase(address));
        self.outcome()
    }
}

#[test]
fn new_probes_capacity_from_jedec_code() {
    let flash = AspeedNorFlash::new(MockNor::new(Some([0xef, 0x40, 0x18]))).unwrap();
    assert_eq!(flash.capacity(), 16 * 1024 * 1024);
    assert_eq!(flash.inner().log, vec![Cmd::Jedec]);
}

#[test]
fn new_reports_failed_probe_as_device_error() {
    let r = AspeedNorFlash::new(MockNor::new(None));
    assert!(matches!(r, Err(AspeedFlashError::DeviceError)));
}

#[test]
fn new_rejects_capacity_code_beyond_address_width() {
    let r = AspeedNorFlash::new(MockNor::new(Some([0xef, 0x40, 0xff])));
    assert!(matches!(r, Err(AspeedFlashError::DeviceError)));
}

#[test]
fn from_jedec_id_computes_power_of_two() {
    let flash = AspeedNorFlash::from_jedec_id(MockNor::new(None), [0xc2, 0x20, 0x19]).unwrap();
    assert_eq!(flash.capacity(), 1 << 25);
    assert!(flash.into_inner().log.is_empty());
}

#[test]
fn small_device_reads_with_three_byte_addresses() {
    let mut flash = AspeedNorFlash::with_capacity(MockNor::new(None), 16 * 1024 * 1024);
    let mut buf = [0u8; 4];
    assert!(flash.read(0x100, &mut buf).is_ok());
    assert_eq!(flash.inner().log, vec![Cmd::Read(0x100, 4)]);
    assert_eq!(buf, [0xa5; 4]);
}

#[test]
fn large_device_reads_with_four_byte_addresses() {
    let mut flash = AspeedNorFlash::with_capacity(MockNor::new(None), 32 * 1024 * 1024);
    let mut buf = [0u8; 8];
    assert!(flash.read(0x0100_0000, &mut buf).is_ok());
    assert_eq!(flash.inner().log, vec![Cmd::Read4b(0x0100_0000, 8)]);
}

#[test]
fn read_past_end_is_out_of_bounds() {
    let mut flash = AspeedNorFlash::with_capacity(MockNor::new(None), 4096);
    let mut buf = [7u8; 16];
    assert!(matches!(flash.read(4090, &mut buf), Err(AspeedFlashError::OutOfBounds)));
    assert_eq!(buf, [7u8; 16]);
    assert!(flash.inner().log.is_empty());
    assert!(flash.read(4080, &mut buf).is_ok());
}

#[test]
fn read_device_failure_is_device_error() {
    let mut dev = MockNor::new(None);
    dev.fail_after = Some(0);
    let mut flash = AspeedNorFlash::with_capacity(dev, 4096);
    let mut buf = [0u8; 2];
    assert!(matches!(flash.read(0, &mut buf), Err(AspeedFlashError::DeviceError)));
}

#[test]
fn write_splits_at_page_boundaries() {
    let mut flash = AspeedNorFlash::with_capacity(MockNor::new(None), 1 << 20);
    let data: Vec<u8> = (0..300u32).map(|i| i as u8).collect();
    assert!(flash.write(200, &data).is_ok());
    assert_eq!(
        flash.inner().log,
        vec![
            Cmd::Program(200, data[..56].to_vec()),
            Cmd::Program(256, data[56..].to_vec()),
        ]
    );
}

#[test]
fn write_of_several_pages_programs_each_page() {
    let mut flash = AspeedNorFlash::with_capacity(MockNor::new(None), 1 << 20);
    let data = vec![0x5au8; 600];
    assert!(flash.write(0x1000, &data).is_ok());
    let log = &flash.inner().log;
    assert_eq!(log.len(), 3);
    assert_eq!(log[0], Cmd::Program(0x1000, vec![0x5a; 256]));
    assert_eq!(log[1], Cmd::Program(0x1100, vec![0x5a; 256]));
    assert_eq!(log[2], Cmd::Program(0x1200, vec![0x5a; 88]));
}

#[test]
fn large_device_programs_with_four_byte_addresses() {
    let mut flash = AspeedNorFlash::with_capacity(MockNor::new(None), 64 * 1024 * 1024);
    assert!(flash.write(0x0200_00ff, &[1, 2]).is_ok());
    assert_eq!(
        flash.inner().log,
        vec![Cmd::Program4b(0x0200_00ff, vec![1]), Cmd::Program4b(0x0200_0100, vec![2])]
    );
}

#[test]
fn empty_write_issues_nothing() {
    let mut flash = AspeedNorFlash::with_capacity(MockNor::new(None), 4096);
    assert!(flash.write(4096, &[]).is_ok());
    assert!(flash.inner().log.is_empty());
}

#[test]
fn write_past_end_is_out_of_bounds() {
    let mut flash = AspeedNorFlash::with_capacity(MockNor::new(None), 4096);
    assert!(matches!(flash.write(4095, &[1, 2]), Err(AspeedFlashError::OutOfBounds)));
    assert!(flash.inner().log.is_empty());
}

#[test]
fn write_stops_at_first_device_failure() {
    let mut dev = MockNor::new(None);
    dev.fail_after = Some(0);
    let mut flash = AspeedNorFlash::with_capacity(dev, 1 << 20);
    let data = vec![0u8; 600];
    assert!(matches!(flash.write(0, &data), Err(AspeedFlashError::DeviceError)));
    assert_eq!(flash.inner().log.len(), 1);
}

#[test]
fn erase_erases_each_sector_in_order() {
    let mut flash = AspeedNorFlash::with_capacity(MockNor::new(None), 1 << 20);
    assert!(flash.erase(0x1000, 0x4000).is_ok());
    assert_eq!(
        flash.inner().log,
        vec![Cmd::Erase(0x1000), Cmd::Erase(0x2000), Cmd::Erase(0x3000)]
    );
}

#[test]
fn erase_unaligned_is_not_aligned() {
    let mut flash = AspeedNorFlash::with_capacity(MockNor::new(None), 1 << 20);
    assert!(matches!(flash.erase(0x1001, 0x2000), Err(AspeedFlashError::NotAligned)));
    assert!(matches!(flash.erase(0x1000, 0x2001), Err(AspeedFlashError::NotAligned)));
    assert!(flash.inner().log.is_empty());
}

#[test]
fn erase_past_end_is_out_of_bounds() {
    let mut flash = AspeedNorFlash::with_capacity(MockNor::new(None), 0x2000);
    assert!(matches!(flash.erase(0, 0x3000), Err(AspeedFlashError::OutOfBounds)));
    assert!(flash.inner().log.is_empty());
}

#[test]
fn erase_of_empty_or_reversed_range_erases_nothing() {
    let mut flash = AspeedNorFlash::with_capacity(MockNor::new(None), 0x4000);
    assert!(flash.erase(0x2000, 0x2000).is_ok());
    assert!(flash.erase(0x3000, 0x1000).is_ok());
    assert!(flash.inner().log.is_empty());
}

#[test]
fn erase_stops_at_first_device_failure() {
    let mut dev = MockNor::new(None);
    dev.fail_after = Some(1);
    let mut flash = AspeedNorFlash::with_capacity(dev, 1 << 20);
    assert!(matches!(flash.erase(0, 0x5000), Err(AspeedFlashError::DeviceError)));
    assert_eq!(flash.inner().log, vec![Cmd::Erase(0), Cmd::Erase(0x1000)]);
}

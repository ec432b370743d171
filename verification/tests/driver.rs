use lsm6dso16is::bits::{get_field, i16_from_le, set_field, u32_from_le};
use lsm6dso16is::{
    Ctrl1XlOdr, Ctrl2GOdr, DelayMs, Error, GFullScale, I2CAddress, I2cLink, Lsm6dso16is, Lsm6dso16isI2C,
    Lsm6dso16isSPI, Op, Pauses, Pin, SignalMode, SpiLink, UcfLineExtT, XlFullScale,
};
use std::cell::RefCell;
use std::rc::Rc;

#[derive(Debug, Clone, Copy, PartialEq)]
struct MockError(usize);

/// A register file behind a simulated SPI device or I2C controller.
struct Chip {
    regs: [u8; 128],
    ispu: [u8; 128],
    ptr: u8,
    /// Registers that ignore writes.
    read_only: Vec<u8>,
    /// The transfer (counted from 0) that fails, if any.
    fail_at: Option<usize>,
    transfers: usize,
    /// Reads of CTRL3_C left before a software reset completes.
    reset_reads_left: usize,
    /// Every frame: bytes written, number of bytes read.
    frames: Vec<(Vec<u8>, usize)>,
    /// I2C addresses used.
    addresses: Vec<u8>,
}

const CTRL3_C: u8 = 0x12;
const FUNC_CFG_ACCESS: u8 = 0x01;

impl Chip {
    fn new() -> Chip {
        let mut regs = [0u8; 128];
        regs[0x0F] = 0x22;
        Chip {
            regs,
            ispu: [0u8; 128],
            ptr: 0,
            read_only: Vec::new(),
            fail_at: None,
            transfers: 0,
            reset_reads_left: 2,
            frames: Vec::new(),
            addresses: Vec::new(),
        }
    }

    fn begin(&mut self) -> Result<(), MockError> {
        let n = self.transfers;
        self.transfers += 1;
        if self.fail_at == Some(n) {
            Err(MockError(n))
        } else {
            Ok(())
        }
    }

    fn ispu_page(&self) -> bool {
        self.regs[FUNC_CFG_ACCESS as usize] & 0x80 != 0
    }

    fn store(&mut self, reg: u8, val: u8) {
        if self.read_only.contains(&reg) {
            return;
        }
        if self.ispu_page() && reg != FUNC_CFG_ACCESS {
            self.ispu[reg as usize] = val;
        } else {
            self.regs[reg as usize] = val;
        }
    }

    fn load(&mut self, reg: u8) -> u8 {
        if reg == CTRL3_C && self.regs[CTRL3_C as usize] & 1 != 0 {
            if self.reset_reads_left == 0 {
                self.regs[CTRL3_C as usize] = 0x04;
            } else {
                self.reset_reads_left -= 1;
            }
        }
        if self.ispu_page() && reg != FUNC_CFG_ACCESS {
            self.ispu[reg as usize]
        } else {
            self.regs[reg as usize]
        }
    }

    fn do_write(&mut self, wbuf: &[u8]) {
        if wbuf.len() == 1 {
            self.ptr = wbuf[0];
        } else {
            for (i, b) in wbuf[1..].iter().enumerate() {
                self.store(wbuf[0] + i as u8, *b);
            }
        }
    }

    fn do_read(&mut self, start: u8, rbuf: &mut [u8]) {
        for (i, b) in rbuf.iter_mut().enumerate() {
            *b = self.load(start + i as u8);
        }
    }
}

struct Spi(Chip);

impl SpiLink for Spi {
    type Error = MockError;

    fn write(&mut self, wbuf: &[u8]) -> Result<(), MockError> {
        self.0.frames.push((wbuf.to_vec(), 0));
        self.0.begin()?;
        self.0.do_write(wbuf);
        Ok(())
    }

    fn read(&mut self, rbuf: &mut [u8]) -> Result<(), MockError> {
        self.0.frames.push((Vec::new(), rbuf.len()));
        self.0.begin()?;
        let p = self.0.ptr;
        self.0.do_read(p, rbuf);
        Ok(())
    }

    fn write_then_read(&mut self, wbuf: &[u8], rbuf: &mut [u8]) -> Result<(), MockError> {
        self.0.frames.push((wbuf.to_vec(), rbuf.len()));
        self.0.begin()?;
        assert_eq!(wbuf.len(), 1);
        assert!(wbuf[0] & 0x80 != 0, "an SPI register read carries the read bit");
        self.0.do_read(wbuf[0] & 0x7f, rbuf);
        Ok(())
    }
}

struct I2c(Chip);

impl I2cLink for I2c {
    type Error = MockError;

    fn read(&mut self, address: u8, read: &mut [u8]) -> Result<(), MockError> {
        self.0.addresses.push(address);
        self.0.frames.push((Vec::new(), read.len()));
        self.0.begin()?;
        let p = self.0.ptr;
        self.0.do_read(p, read);
        Ok(())
    }

    fn write(&mut self, address: u8, write: &[u8]) -> Result<(), MockError> {
        self.0.addresses.push(address);
        self.0.frames.push((write.to_vec(), 0));
        self.0.begin()?;
        self.0.do_write(write);
        Ok(())
    }

    fn write_read(&mut self, address: u8, write: &[u8], read: &mut [u8]) -> Result<(), MockError> {
        self.0.addresses.push(address);
        self.0.frames.push((write.to_vec(), read.len()));
        self.0.begin()?;
        self.0.do_read(write[0], read);
        Ok(())
    }
}

struct Pausing(Rc<RefCell<Vec<u32>>>);

impl DelayMs for Pausing {
    fn delay_ms(&mut self, ms: u32) {
        self.0.borrow_mut().push(ms);
    }
}

struct SharedI2c(Rc<RefCell<Chip>>);

impl I2cLink for SharedI2c {
    type Error = MockError;

    fn read(&mut self, address: u8, read: &mut [u8]) -> Result<(), MockError> {
        let mut c = self.0.borrow_mut();
        c.addresses.push(address);
        c.frames.push((Vec::new(), read.len()));
        c.begin()?;
        let p = c.ptr;
        c.do_read(p, read);
        Ok(())
    }

    fn write(&mut self, address: u8, write: &[u8]) -> Result<(), MockError> {
        let mut c = self.0.borrow_mut();
        c.addresses.push(address);
        c.frames.push((write.to_vec(), 0));
        c.begin()?;
        c.do_write(write);
        Ok(())
    }

    fn write_read(&mut self, address: u8, write: &[u8], read: &mut [u8]) -> Result<(), MockError> {
        let mut c = self.0.borrow_mut();
        c.addresses.push(address);
        c.frames.push((write.to_vec(), read.len()));
        c.begin()?;
        c.do_read(write[0], read);
        Ok(())
    }
}

fn spi_sensor() -> Lsm6dso16is<Lsm6dso16isSPI<Spi>> {
    match Lsm6dso16is::new_spi(Spi(Chip::new())) {
        Ok(s) => s,
        Err(_) => panic!("the simulated sensor answers"),
    }
}

/// Runs `f` on a sensor over a chip prepared by `prepare`, and hands back the chip's frames.
fn with_chip<T>(
    prepare: impl FnOnce(&mut Chip),
    f: impl FnOnce(&mut Lsm6dso16is<Lsm6dso16isSPI<SharedSpi>>) -> T,
) -> (T, std::rc::Rc<std::cell::RefCell<Chip>>) {
    let chip = std::rc::Rc::new(std::cell::RefCell::new(Chip::new()));
    let mut s = match Lsm6dso16is::new_spi(SharedSpi(chip.clone())) {
        Ok(s) => s,
        Err(_) => panic!("the simulated sensor answers"),
    };
    prepare(&mut chip.borrow_mut());
    chip.borrow_mut().frames.clear();
    chip.borrow_mut().transfers = 0;
    let r = f(&mut s);
    (r, chip)
}

struct SharedSpi(std::rc::Rc<std::cell::RefCell<Chip>>);

impl SpiLink for SharedSpi {
    type Error = MockError;

    fn write(&mut self, wbuf: &[u8]) -> Result<(), MockError> {
        let mut c = self.0.borrow_mut();
        c.frames.push((wbuf.to_vec(), 0));
        c.begin()?;
        c.do_write(wbuf);
        Ok(())
    }

    fn read(&mut self, rbuf: &mut [u8]) -> Result<(), MockError> {
        let mut c = self.0.borrow_mut();
        c.frames.push((Vec::new(), rbuf.len()));
        c.begin()?;
        let p = c.ptr;
        c.do_read(p, rbuf);
        Ok(())
    }

    fn write_then_read(&mut self, wbuf: &[u8], rbuf: &mut [u8]) -> Result<(), MockError> {
        let mut c = self.0.borrow_mut();
        c.frames.push((wbuf.to_vec(), rbuf.len()));
        c.begin()?;
        assert!(wbuf[0] & 0x80 != 0);
        c.do_read(wbuf[0] & 0x7f, rbuf);
        Ok(())
    }
}

#[test]
fn new_spi_checks_identifier_resets_and_sets_bdu() {
    let chip = std::rc::Rc::new(std::cell::RefCell::new(Chip::new()));
    let r = Lsm6dso16is::new_spi(SharedSpi(chip.clone()));
    assert!(r.is_ok());
    let c = chip.borrow();
    // who am i, reset, three polls (two busy), read CTRL3_C, write, read back
    assert_eq!(c.frames[0], (vec![0x8F], 1));
    assert_eq!(c.frames[1], (vec![0x12, 0x01], 0));
    assert_eq!(c.frames[2], (vec![0x92], 1));
    assert_eq!(c.frames[3], (vec![0x92], 1));
    assert_eq!(c.frames[4], (vec![0x92], 1));
    assert_eq!(c.frames[5], (vec![0x92], 1));
    assert_eq!(c.frames[6], (vec![0x12, 0x44], 0));
    assert_eq!(c.frames[7], (vec![0x92], 1));
    assert_eq!(c.frames.len(), 8);
    assert_eq!(c.regs[0x12], 0x44);
}

#[test]
fn new_spi_rejects_wrong_identifier() {
    let mut chip = Chip::new();
    chip.regs[0x0F] = 0x21;
    match Lsm6dso16is::new_spi(Spi(chip)) {
        Err((Error::WhoAmIError(v), _)) => assert_eq!(v, 0x21),
        _ => panic!("a wrong identifier is refused"),
    }
}

#[test]
fn new_spi_refusal_sends_only_the_identifier_read() {
    let chip = std::rc::Rc::new(std::cell::RefCell::new(Chip::new()));
    chip.borrow_mut().regs[0x0F] = 0x6C;
    match Lsm6dso16is::new_spi(SharedSpi(chip.clone())) {
        Err((Error::WhoAmIError(v), mut s)) => {
            assert_eq!(v, 0x6C);
            assert_eq!(chip.borrow().frames, vec![(vec![0x8F], 1)]);
            // the driver handed back still owns a working bus
            match s.who_am_i() {
                Err(Error::WhoAmIError(w)) => assert_eq!(w, 0x6C),
                _ => panic!("the identifier is read again"),
            }
            assert_eq!(chip.borrow().frames.len(), 2);
        }
        _ => panic!("a wrong identifier is refused"),
    }
}

#[test]
fn new_spi_stops_when_the_identifier_read_fails() {
    let chip = std::rc::Rc::new(std::cell::RefCell::new(Chip::new()));
    chip.borrow_mut().fail_at = Some(0);
    match Lsm6dso16is::new_spi(SharedSpi(chip.clone())) {
        Err((Error::Bus(e), _)) => assert_eq!(e, MockError(0)),
        _ => panic!("the failed identifier read is reported"),
    }
    assert_eq!(chip.borrow().frames, vec![(vec![0x8F], 1)]);
}

#[test]
fn new_spi_reports_bus_failure() {
    let mut chip = Chip::new();
    chip.fail_at = Some(1);
    match Lsm6dso16is::new_spi(Spi(chip)) {
        Err((Error::Bus(e), _)) => assert_eq!(e, MockError(1)),
        _ => panic!("the failed reset write is reported"),
    }
}

#[test]
fn new_i2c_uses_the_chosen_address() {
    let r = Lsm6dso16is::new_i2c(I2c(Chip::new()), I2CAddress::Address1);
    assert!(r.is_ok());
    let r = Lsm6dso16is::new_i2c(I2c(Chip::new()), I2CAddress::Address0);
    assert!(r.is_ok());
    let mut a = Lsm6dso16isI2C::new(I2c(Chip::new()), I2CAddress::Address1.addr());
    let mut buf = [0u8; 1];
    lsm6dso16is::BusOperation::write_byte_read_bytes(&mut a, &[0x0F], &mut buf).unwrap();
    assert_eq!(buf[0], 0x22);
    assert_eq!(I2CAddress::Address0.addr(), 0x6A);
    assert_eq!(I2CAddress::Address1.addr(), 0x6B);
}

#[test]
fn i2c_transfers_go_to_the_address() {
    let chip = I2c(Chip::new());
    let mut a = Lsm6dso16isI2C::new(chip, 0x6B);
    let mut buf = [0u8; 2];
    lsm6dso16is::BusOperation::write_bytes(&mut a, &[0x20, 0x11, 0x22]).unwrap();
    lsm6dso16is::BusOperation::write_byte_read_bytes(&mut a, &[0x20], &mut buf).unwrap();
    assert_eq!(buf, [0x11, 0x22]);
}

#[test]
fn spi_read_command_sets_bit_seven() {
    assert_eq!(Lsm6dso16isSPI::<Spi>::read_command(0x0F), 0x8F);
    assert_eq!(Lsm6dso16isSPI::<Spi>::read_command(0x28), 0xA8);
    assert_eq!(Lsm6dso16isSPI::<Spi>::read_command(0x80), 0x80);
}

#[test]
fn who_am_i_returns_identifier() {
    let mut s = spi_sensor();
    assert!(matches!(s.who_am_i(), Ok(0x22)));
}

#[test]
fn who_am_i_reports_wrong_identifier() {
    let (r, _) = with_chip(|c| c.regs[0x0F] = 0x6C, |s| s.who_am_i());
    assert!(matches!(r, Err(Error::WhoAmIError(0x6C))));
}

#[test]
fn fs_xl_round_trip() {
    for fs in [XlFullScale::G2, XlFullScale::G4, XlFullScale::G8, XlFullScale::G16] {
        let (r, chip) = with_chip(
            |c| c.regs[0x10] = 0xF3,
            |s| {
                s.set_fs_xl(fs).unwrap();
                s.fs_xl_setting()
            },
        );
        assert_eq!(r.unwrap(), fs);
        // the other bits of CTRL1_XL are kept
        assert_eq!(chip.borrow().regs[0x10] & 0xF3, 0xF3);
        assert_eq!((chip.borrow().regs[0x10] >> 2) & 3, fs.bits());
    }
}

#[test]
fn fs_g_round_trip() {
    for fs in [GFullScale::Dps125, GFullScale::Dps250, GFullScale::Dps500, GFullScale::Dps1000, GFullScale::Dps2000] {
        let (r, chip) = with_chip(
            |c| c.regs[0x11] = 0x51,
            |s| {
                s.set_fs_g(fs).unwrap();
                s.fs_g_setting()
            },
        );
        assert_eq!(r.unwrap(), fs);
        assert_eq!(chip.borrow().regs[0x11], 0x51 | (fs.bits() << 1));
    }
}

#[test]
fn odr_xl_round_trip_and_mode() {
    let (r, chip) = with_chip(
        |_| {},
        |s| {
            s.set_odr_xl_setting(Ctrl1XlOdr::Hz1_6, true).unwrap();
            s.odr_xl_setting()
        },
    );
    assert_eq!(r.unwrap(), Ctrl1XlOdr::Hz1_6);
    assert_eq!(chip.borrow().regs[0x10], 0b1011_0000);
    assert_eq!(chip.borrow().regs[0x15], 0x10);
    let (r, chip) = with_chip(
        |c| c.regs[0x15] = 0x10,
        |s| {
            s.set_odr_xl_setting(Ctrl1XlOdr::Hz104, false).unwrap();
            s.odr_xl_setting()
        },
    );
    assert_eq!(r.unwrap(), Ctrl1XlOdr::Hz104);
    assert_eq!(chip.borrow().regs[0x15], 0x00);
}

#[test]
fn odr_g_setting_sets_gyro_mode_in_ctrl7() {
    let (r, chip) = with_chip(
        |c| {
            c.regs[0x12] = 0x04;
            c.regs[0x16] = 0x02;
            c.regs[0x15] = 0x00;
        },
        |s| {
            s.set_odr_g_setting(Ctrl2GOdr::Hz208, true).unwrap();
            s.odr_g_setting()
        },
    );
    assert_eq!(r.unwrap(), Ctrl2GOdr::Hz208);
    let c = chip.borrow();
    assert_eq!(c.regs[0x12], 0x44);
    assert_eq!(c.regs[0x11] >> 4, 0b0101);
    assert_eq!(c.regs[0x15], 0x00);
    assert_eq!(c.regs[0x16], 0x82);
}

#[test]
fn odr_codes_decode_unknown_as_power_down() {
    assert_eq!(Ctrl1XlOdr::from(0b1100), Ctrl1XlOdr::PowerDown);
    assert_eq!(Ctrl1XlOdr::from(0b1011), Ctrl1XlOdr::Hz1_6);
    assert_eq!(Ctrl2GOdr::from(0b1011), Ctrl2GOdr::PowerDown);
    assert_eq!(Ctrl2GOdr::from(0b1010), Ctrl2GOdr::Hz6667);
    assert_eq!(XlFullScale::from(0b01), XlFullScale::G16);
    assert_eq!(XlFullScale::from(7), XlFullScale::G8);
    assert_eq!(GFullScale::from(0b011), GFullScale::Dps125);
    assert_eq!(GFullScale::from(0b110), GFullScale::Dps2000);
    assert_eq!(Ctrl1XlOdr::Hz6667.bits(), 0b1010);
    assert_eq!(Ctrl2GOdr::Hz12_5.bits(), 0b0001);
}

#[test]
fn data_available_flags() {
    let (r, _) = with_chip(
        |c| c.regs[0x1E] = 0b0000_0101,
        |s| (s.is_xl_data_avail().unwrap(), s.is_g_data_avail().unwrap(), s.is_temp_data_avail().unwrap()),
    );
    assert_eq!(r, (true, false, true));
}

#[test]
fn raw_axes_are_little_endian_twos_complement() {
    let (r, chip) = with_chip(
        |c| {
            let xl = [0x34, 0x12, 0xFF, 0xFF, 0x00, 0x80];
            let g = [0x01, 0x00, 0xFE, 0x7F, 0x10, 0xF0];
            c.regs[0x28..0x2E].copy_from_slice(&xl);
            c.regs[0x22..0x28].copy_from_slice(&g);
            c.regs[0x20] = 0x00;
            c.regs[0x21] = 0xFF;
        },
        |s| {
            (
                s.get_xl_axes_raw().unwrap(),
                s.get_xl_x_axis_raw().unwrap(),
                s.get_xl_y_axis_raw().unwrap(),
                s.get_xl_z_axis_raw().unwrap(),
                s.get_g_axes_raw().unwrap(),
                s.get_g_x_axis_raw().unwrap(),
                s.get_g_y_axis_raw().unwrap(),
                s.get_g_z_axis_raw().unwrap(),
                s.out_temp_get().unwrap(),
            )
        },
    );
    assert_eq!(r.0, (0x1234, -1, -32768));
    assert_eq!((r.1, r.2, r.3), (0x1234, -1, -32768));
    assert_eq!(r.4, (1, 0x7FFE, -4080));
    assert_eq!((r.5, r.6, r.7), (1, 0x7FFE, -4080));
    assert_eq!(r.8, -256);
    // the triple is read in one transfer of six bytes
    assert_eq!(chip.borrow().frames[0], (vec![0xA8], 6));
}

#[test]
fn enable_and_disable_drdy_routing() {
    let (r, chip) = with_chip(
        |c| {
            c.regs[0x1E] = 0x01;
            c.regs[0x2D] = 0x00;
            c.regs[0x27] = 0x05;
        },
        |s| (s.enable_xl_drdy_to_pin(Pin::Int1).unwrap(), s.enable_g_drdy_to_pin(Pin::Int2).unwrap()),
    );
    assert_eq!(r, (true, false));
    // each reads STATUS_REG first
    assert_eq!(chip.borrow().frames[0], (vec![0x9E], 1));
    assert_eq!(chip.borrow().frames[4], (vec![0x9E], 1));
    assert_eq!(chip.borrow().regs[0x0D], 0x01);
    assert_eq!(chip.borrow().regs[0x0E], 0x02);
    let (_, chip) = with_chip(
        |c| {
            c.regs[0x0D] = 0x07;
            c.regs[0x0E] = 0x87;
        },
        |s| {
            s.disable_xl_drdy_to_pin().unwrap();
            s.disable_g_drdy_to_pin().unwrap();
        },
    );
    assert_eq!(chip.borrow().regs[0x0D], 0x04);
    assert_eq!(chip.borrow().regs[0x0E], 0x84);
}

#[test]
fn signal_mode_sets_drdy_pulsed() {
    let (_, chip) = with_chip(|c| c.regs[0x0B] = 0x01, |s| s.set_signal_mode(SignalMode::Pulsed).unwrap());
    assert_eq!(chip.borrow().regs[0x0B], 0x81);
    let (_, chip) = with_chip(|c| c.regs[0x0B] = 0x81, |s| s.set_signal_mode(SignalMode::Latched).unwrap());
    assert_eq!(chip.borrow().regs[0x0B], 0x01);
}

#[test]
fn write_failure_when_read_back_differs() {
    let (r, _) = with_chip(|c| c.read_only.push(0x10), |s| s.set_fs_xl(XlFullScale::G16));
    assert!(matches!(r, Err(Error::WriteFailure)));
}

#[test]
fn bus_error_stops_the_operation() {
    let (r, chip) = with_chip(|c| c.fail_at = Some(1), |s| s.disable_xl_drdy_to_pin());
    assert!(matches!(r, Err(Error::Bus(MockError(1)))));
    // read of INT1_CTRL, then the failed write: nothing more
    assert_eq!(chip.borrow().frames.len(), 2);
}

#[test]
fn read_ispu_output_checks_range() {
    let (r, chip) = with_chip(|_| {}, |s| {
        let mut buf = [0u8; 4];
        s.read_ispu_output(0x0F, &mut buf)
    });
    assert!(matches!(r, Err(Error::InvalidIspuRegValue)));
    assert!(chip.borrow().frames.is_empty());
    let (r, _) = with_chip(|_| {}, |s| {
        let mut buf = [0u8; 0x10];
        s.read_ispu_output(0x40, &mut buf)
    });
    assert!(matches!(r, Err(Error::InvalidIspuRegValue)));
    let (r, _) = with_chip(|_| {}, |s| {
        let mut buf = [0u8; 1];
        s.read_ispu_output(0xFF, &mut buf)
    });
    assert!(matches!(r, Err(Error::InvalidIspuRegValue)));
}

#[test]
fn read_ispu_output_reads_the_ispu_page() {
    let (r, chip) = with_chip(
        |c| {
            c.ispu[0x10] = 0xAA;
            c.ispu[0x11] = 0xBB;
            c.ispu[0x4E] = 0xCC;
            c.regs[0x10] = 0x11;
        },
        |s| {
            let mut buf = [0u8; 2];
            s.read_ispu_output(0x10, &mut buf).unwrap();
            let mut last = [0u8; 0x3F];
            s.read_ispu_output(0x10, &mut last).unwrap();
            (buf, last[0x3E])
        },
    );
    assert_eq!(r, ([0xAA, 0xBB], 0xCC));
    assert_eq!(chip.borrow().regs[0x01] & 0x80, 0);
}

#[test]
fn load_ispu_bytecode_writes_and_pauses() {
    let lines = [
        UcfLineExtT { op: Op::MemsUcfOpWrite, address: 0x50, data: 0x01 },
        UcfLineExtT { op: Op::MemsUcfOpDelay, address: 0x00, data: 5 },
        UcfLineExtT { op: Op::MemsUcfOpWrite, address: 0x51, data: 0x02 },
    ];
    let record = Rc::new(RefCell::new(Vec::new()));
    let mut pauses = Pauses::new(Pausing(record.clone()));
    let (r, chip) = with_chip(|_| {}, |s| s.load_ispu_bytecode(&lines, &mut pauses));
    assert!(r.is_ok());
    assert_eq!(*record.borrow(), vec![5]);
    let c = chip.borrow();
    assert_eq!(c.regs[0x50], 0x01);
    assert_eq!(c.regs[0x51], 0x02);
    assert_eq!(c.regs[0x01] & 0x02, 0);
    // two read-modify-writes of FUNC_CFG_ACCESS, then the two line writes
    assert_eq!(c.frames.len(), 8);
    assert_eq!(c.frames[6], (vec![0x50, 0x01], 0));
    assert_eq!(c.frames[7], (vec![0x51, 0x02], 0));
}

#[test]
fn ispu_int_status_bits() {
    let (r, _) = with_chip(
        |c| c.regs[0x1A..0x1E].copy_from_slice(&[0x01, 0x80, 0x00, 0x20]),
        |s| s.get_ispu_int_status().unwrap(),
    );
    assert_eq!(r.0, 0x2000_8001);
    assert_eq!(r.ia_ispu_0(), 1);
    assert_eq!(r.ia_ispu_1(), 0);
    assert_eq!(r.ia_ispu_15(), 1);
    assert_eq!(r.ia_ispu_29(), 1);
    assert_eq!(r.ia_ispu_28(), 0);
}

#[test]
fn register_reads_and_writes() {
    let (r, chip) = with_chip(
        |c| {
            c.reset_reads_left = 5;
            c.regs[0x12] = 0x05;
            c.regs[0x27] = 0x9A;
            c.regs[0x2D] = 0x3C;
        },
        |s| {
            let reset = s.ctrl3_c_get_sw_reset().unwrap();
            let hg = s.outz_h_g_get().unwrap();
            let ha = s.outz_h_a_get().unwrap();
            s.write_to_register(0x40, 0x77).unwrap();
            s.write_to_register_no_check(0x41, 0x66).unwrap();
            let mut two = [0u8; 2];
            s.read_from_register(0x40, &mut two).unwrap();
            (reset, hg, ha, two)
        },
    );
    assert_eq!(r, (1, 0x9A, 0x3C, [0x77, 0x66]));
    assert_eq!(chip.borrow().frames[5], (vec![0x41, 0x66], 0));
}

#[test]
fn bit_helpers() {
    assert_eq!(get_field(0b1011_0100, 7, 4), 0b1011);
    assert_eq!(get_field(0b1011_0100, 3, 2), 0b01);
    assert_eq!(set_field(0xFF, 3, 2, 0), 0xF3);
    assert_eq!(set_field(0x00, 7, 4, 0xFF), 0xF0);
    assert_eq!(set_field(0x12, 0, 0, 1), 0x13);
    assert_eq!(i16_from_le(0x00, 0x80), -32768);
    assert_eq!(i16_from_le(0xFF, 0x7F), 32767);
    assert_eq!(u32_from_le(0x78, 0x56, 0x34, 0x12), 0x1234_5678);
}

#[test]
fn load_ispu_bytecode_stops_at_failed_write() {
    let lines = [
        UcfLineExtT { op: Op::MemsUcfOpDelay, address: 0x00, data: 3 },
        UcfLineExtT { op: Op::MemsUcfOpWrite, address: 0x50, data: 0x01 },
        UcfLineExtT { op: Op::MemsUcfOpDelay, address: 0x00, data: 7 },
    ];
    let record = Rc::new(RefCell::new(Vec::new()));
    let mut pauses = Pauses::new(Pausing(record.clone()));
    let (r, chip) = with_chip(|c| c.fail_at = Some(6), |s| s.load_ispu_bytecode(&lines, &mut pauses));
    assert!(matches!(r, Err(Error::Bus(MockError(6)))));
    assert_eq!(*record.borrow(), vec![3]);
    assert_eq!(chip.borrow().frames.len(), 7);
}

#[test]
fn init_on_a_bus() {
    let chip = Rc::new(RefCell::new(Chip::new()));
    let mut s = Lsm6dso16is::on_bus(Lsm6dso16isSPI::new(SharedSpi(chip.clone())));
    assert!(s.init().is_ok());
    assert_eq!(chip.borrow().regs[0x12], 0x44);
    chip.borrow_mut().regs[0x0F] = 0x6C;
    chip.borrow_mut().frames.clear();
    assert!(matches!(s.init(), Err(Error::WhoAmIError(0x6C))));
    assert_eq!(chip.borrow().frames, vec![(vec![0x8F], 1)]);
}

#[test]
fn i2c_driver_uses_only_its_address() {
    let chip = Rc::new(RefCell::new(Chip::new()));
    let mut s = match Lsm6dso16is::new_i2c(SharedI2c(chip.clone()), I2CAddress::Address1) {
        Ok(s) => s,
        Err(_) => panic!("the simulated sensor answers"),
    };
    s.set_fs_xl(XlFullScale::G4).unwrap();
    let mut buf = [0u8; 2];
    s.read_ispu_output(0x10, &mut buf).unwrap();
    let c = chip.borrow();
    assert!(!c.addresses.is_empty());
    assert!(c.addresses.iter().all(|a| *a == 0x6B));
}

#[test]
fn odr_for_power_mode() {
    assert_eq!(Ctrl1XlOdr::Hz6667.for_mode(true), Ctrl1XlOdr::Hz208);
    assert_eq!(Ctrl1XlOdr::Hz416.for_mode(true), Ctrl1XlOdr::Hz208);
    assert_eq!(Ctrl1XlOdr::Hz208.for_mode(true), Ctrl1XlOdr::Hz208);
    assert_eq!(Ctrl1XlOdr::Hz1_6.for_mode(true), Ctrl1XlOdr::Hz1_6);
    assert_eq!(Ctrl1XlOdr::Hz1_6.for_mode(false), Ctrl1XlOdr::Hz12_5);
    assert_eq!(Ctrl1XlOdr::PowerDown.for_mode(false), Ctrl1XlOdr::PowerDown);
    assert_eq!(Ctrl1XlOdr::Hz6667.for_mode(false), Ctrl1XlOdr::Hz6667);
    assert_eq!(Ctrl2GOdr::Hz833.for_mode(true), Ctrl2GOdr::Hz208);
    assert_eq!(Ctrl2GOdr::Hz833.for_mode(false), Ctrl2GOdr::Hz833);
    assert_eq!(Ctrl2GOdr::Hz12_5.for_mode(true), Ctrl2GOdr::Hz12_5);
}

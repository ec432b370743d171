//! A platform-agnostic driver for the ST LSM6DSO16IS accelerometer-gyroscope sensor.
//!
//! The driver talks to the sensor through a [`BusOperation`]: the SPI adapter
//! [`Lsm6dso16isSPI`] over any [`SpiLink`], or the I2C adapter [`Lsm6dso16isI2C`]
//! over any [`I2cLink`]. Every operation is specified by the exact transfers it makes
//! on the bus and by what it returns for each answer of the device; see the
//! [`transcript`] module.
use vstd::prelude::*;

pub mod bits;
pub mod transcript;
pub mod lsm6dso16is_reg;
pub mod laws;

pub use lsm6dso16is_reg::Lsm6dso16is;
pub use lsm6dso16is_reg::BusOperation;
pub use lsm6dso16is_reg::SpiLink;
pub use lsm6dso16is_reg::I2cLink;
pub use lsm6dso16is_reg::DelayMs;
pub use lsm6dso16is_reg::Pauses;
pub use lsm6dso16is_reg::Lsm6dso16isSPI;
pub use lsm6dso16is_reg::Lsm6dso16isI2C;
pub use lsm6dso16is_reg::Ctrl1XlOdr;
pub use lsm6dso16is_reg::Ctrl2GOdr;

use crate::bits::bit32;
use crate::bits::get_bit32;
use crate::transcript::Action;
use crate::transcript::BusEvent;
use crate::transcript::Outcome;
use crate::transcript::did;
use crate::transcript::outcome;
use crate::transcript::unit;
use crate::transcript::lemma_did_push;
use crate::transcript::lemma_did_stop_in;
use crate::transcript::lemma_did_quiet;
use crate::transcript::lemma_did_step;
use crate::transcript::lemma_did_start;
use crate::transcript::lemma_did_next;
use crate::lsm6dso16is_reg::byte_of;
use crate::lsm6dso16is_reg::field_of;
use crate::lsm6dso16is_reg::word_of;
use crate::lsm6dso16is_reg::words_of;
use crate::lsm6dso16is_reg::u32_of;
use crate::lsm6dso16is_reg::FUNC_CFG_ACCESS;
use crate::lsm6dso16is_reg::DRDY_PULSED_REG;
use crate::lsm6dso16is_reg::INT1_CTRL;
use crate::lsm6dso16is_reg::INT2_CTRL;
use crate::lsm6dso16is_reg::WHO_AM_I;
use crate::lsm6dso16is_reg::CTRL1_XL;
use crate::lsm6dso16is_reg::CTRL2_G;
use crate::lsm6dso16is_reg::CTRL3_C;
use crate::lsm6dso16is_reg::CTRL6_C;
use crate::lsm6dso16is_reg::CTRL7_G;
use crate::lsm6dso16is_reg::ISPU_INT_STATUS0_MAINPAGE;
use crate::lsm6dso16is_reg::STATUS_REG;
use crate::lsm6dso16is_reg::OUTX_L_G;
use crate::lsm6dso16is_reg::OUTY_L_G;
use crate::lsm6dso16is_reg::OUTZ_L_G;
use crate::lsm6dso16is_reg::OUTX_L_A;
use crate::lsm6dso16is_reg::OUTY_L_A;
use crate::lsm6dso16is_reg::OUTZ_L_A;

verus! {

/// The identifier the sensor answers in WHO_AM_I.
pub const LSM6DSO16IS_ID: u8 = 0x22;

/// Available I2C addresses for the LSM6DSO16IS sensor. Check the datasheet for I2C address configuration.
#[derive(Clone, Copy, Debug, PartialEq, Eq, Structural)]
pub enum I2CAddress {
    Address0,
    Address1,
}

impl I2CAddress {
    /// The 7-bit address.
    pub open spec fn value(self) -> u8 {
        match self {
            I2CAddress::Address0 => 0x6A,
            I2CAddress::Address1 => 0x6B,
        }
    }

    /// The 7-bit address.
    pub fn addr(&self) -> (r: u8)
        ensures
            r == self.value(),
    {
        match self {
            I2CAddress::Address0 => 0x6A,
            I2CAddress::Address1 => 0x6B,
        }
    }
}

/// Driver errors.
#[derive(Copy, Clone, Debug)]
pub enum Error<B> {
    /// An error occurred at the bus level. The generic type B is the error of the bus in use.
    Bus(B),
    /// The sensor identifier read was not 0x22; the identifier read is carried.
    WhoAmIError(u8),
    /// A register read back after a write did not hold the value written.
    WriteFailure,
    /// An invalid ISPU register range was passed to `read_ispu_output`.
    InvalidIspuRegValue,
}

/// Accelerometer full scale selection in g.
#[derive(Clone, Copy, Debug, PartialEq, Eq, Structural)]
pub enum XlFullScale {
    G2,
    G4,
    G8,
    G16,
}

impl XlFullScale {
    /// The FS_XL code of the full scale.
    pub open spec fn code(self) -> u8 {
        match self {
            XlFullScale::G2 => 0b00,
            XlFullScale::G4 => 0b10,
            XlFullScale::G8 => 0b11,
            XlFullScale::G16 => 0b01,
        }
    }

    /// The full scale an FS_XL code stands for.
    pub open spec fn from_code(value: u8) -> XlFullScale {
        match value {
            0b00 => XlFullScale::G2,
            0b10 => XlFullScale::G4,
            0b11 => XlFullScale::G8,
            0b01 => XlFullScale::G16,
            _ => XlFullScale::G8,
        }
    }

    /// The FS_XL code of the full scale.
    pub fn bits(&self) -> (r: u8)
        ensures
            r == self.code(),
    {
        match self {
            XlFullScale::G2 => 0b00,
            XlFullScale::G4 => 0b10,
            XlFullScale::G8 => 0b11,
            XlFullScale::G16 => 0b01,
        }
    }
}

impl From<u8> for XlFullScale {
    fn from(value: u8) -> (r: Self) {
        match value {
            0b00 => Self::G2,
            0b10 => Self::G4,
            0b11 => Self::G8,
            0b01 => Self::G16,
            _ => Self::G8,
        }
    }
}

impl vstd::std_specs::convert::FromSpecImpl<u8> for XlFullScale {
    open spec fn obeys_from_spec() -> bool {
        true
    }

    open spec fn from_spec(v: u8) -> Self {
        XlFullScale::from_code(v)
    }
}

/// Gyroscope full scale selection in degree per second.
#[derive(Clone, Copy, Debug, PartialEq, Eq, Structural)]
pub enum GFullScale {
    Dps125,
    Dps250,
    Dps500,
    Dps1000,
    Dps2000,
}

impl GFullScale {
    /// The FS_G code (with FS_125 as its lowest bit) of the full scale.
    pub open spec fn code(self) -> u8 {
        match self {
            GFullScale::Dps125 => 0b001,
            GFullScale::Dps250 => 0b000,
            GFullScale::Dps500 => 0b010,
            GFullScale::Dps1000 => 0b100,
            GFullScale::Dps2000 => 0b110,
        }
    }

    /// The full scale an FS_G code stands for.
    pub open spec fn from_code(value: u8) -> GFullScale {
        match value {
            0b001 => GFullScale::Dps125,
            0b000 => GFullScale::Dps250,
            0b010 => GFullScale::Dps500,
            0b100 => GFullScale::Dps1000,
            0b110 => GFullScale::Dps2000,
            _ => GFullScale::Dps125,
        }
    }

    /// The FS_G code of the full scale.
    pub fn bits(&self) -> (r: u8)
        ensures
            r == self.code(),
    {
        match self {
            GFullScale::Dps125 => 0b001,
            GFullScale::Dps250 => 0b000,
            GFullScale::Dps500 => 0b010,
            GFullScale::Dps1000 => 0b100,
            GFullScale::Dps2000 => 0b110,
        }
    }
}

impl From<u8> for GFullScale {
    fn from(value: u8) -> (r: Self) {
        match value {
            0b001 => Self::Dps125,
            0b000 => Self::Dps250,
            0b010 => Self::Dps500,
            0b100 => Self::Dps1000,
            0b110 => Self::Dps2000,
            _ => Self::Dps125,
        }
    }
}

impl vstd::std_specs::convert::FromSpecImpl<u8> for GFullScale {
    open spec fn obeys_from_spec() -> bool {
        true
    }

    open spec fn from_spec(v: u8) -> Self {
        GFullScale::from_code(v)
    }
}

/// Signal type of the INT1 and INT2 pins for the data-ready signals.
#[derive(Clone, Copy, Debug, PartialEq, Eq, Structural)]
pub enum SignalMode {
    /// The pin stays asserted until the new sample is read.
    Latched,
    /// The pin is asserted for about 75 μs when a new sample is available.
    Pulsed,
}

impl SignalMode {
    /// The DRDY_PULSED bit of the mode.
    pub open spec fn code(self) -> u8 {
        match self {
            SignalMode::Latched => 0,
            SignalMode::Pulsed => 1,
        }
    }

    /// The DRDY_PULSED bit of the mode.
    pub fn bits(&self) -> (r: u8)
        ensures
            r == self.code(),
    {
        match self {
            SignalMode::Latched => 0,
            SignalMode::Pulsed => 1,
        }
    }
}

/// The INT1 and INT2 pins.
#[derive(Clone, Copy, Debug, PartialEq, Eq, Structural)]
pub enum Pin {
    Int1,
    Int2,
}

/// One line of an ISPU program in UCF form.
pub struct UcfLineExtT {
    pub op: Op,
    pub address: u8,
    pub data: u8,
}

/// What a UCF line does.
#[derive(Clone, Copy, Debug, PartialEq, Eq, Structural)]
pub enum Op {
    /// Write `data` to register `address`.
    MemsUcfOpWrite,
    /// Pause for `data` milliseconds.
    MemsUcfOpDelay,
}

/// The ISPU interrupt status word (bits 0 to 29, one per ISPU interrupt).
pub struct IspuIntStatus(pub u32);

impl IspuIntStatus {
    /// Interrupt 0 of the ISPU (bit 0).
    pub fn ia_ispu_0(&self) -> (r: u32)
        ensures
            r == bit32(self.0, 0),
    {
        get_bit32(self.0, 0)
    }

    /// Interrupt 1 of the ISPU (bit 1).
    pub fn ia_ispu_1(&self) -> (r: u32)
        ensures
            r == bit32(self.0, 1),
    {
        get_bit32(self.0, 1)
    }

    /// Interrupt 2 of the ISPU (bit 2).
    pub fn ia_ispu_2(&self) -> (r: u32)
        ensures
            r == bit32(self.0, 2),
    {
        get_bit32(self.0, 2)
    }

    /// Interrupt 3 of the ISPU (bit 3).
    pub fn ia_ispu_3(&self) -> (r: u32)
        ensures
            r == bit32(self.0, 3),
    {
        get_bit32(self.0, 3)
    }

    /// Interrupt 4 of the ISPU (bit 4).
    pub fn ia_ispu_4(&self) -> (r: u32)
        ensures
            r == bit32(self.0, 4),
    {
        get_bit32(self.0, 4)
    }

    /// Interrupt 5 of the ISPU (bit 5).
    pub fn ia_ispu_5(&self) -> (r: u32)
        ensures
            r == bit32(self.0, 5),
    {
        get_bit32(self.0, 5)
    }

    /// Interrupt 6 of the ISPU (bit 6).
    pub fn ia_ispu_6(&self) -> (r: u32)
        ensures
            r == bit32(self.0, 6),
    {
        get_bit32(self.0, 6)
    }

    /// Interrupt 7 of the ISPU (bit 7).
    pub fn ia_ispu_7(&self) -> (r: u32)
        ensures
            r == bit32(self.0, 7),
    {
        get_bit32(self.0, 7)
    }

    /// Interrupt 8 of the ISPU (bit 8).
    pub fn ia_ispu_8(&self) -> (r: u32)
        ensures
            r == bit32(self.0, 8),
    {
        get_bit32(self.0, 8)
    }

    /// Interrupt 9 of the ISPU (bit 9).
    pub fn ia_ispu_9(&self) -> (r: u32)
        ensures
            r == bit32(self.0, 9),
    {
        get_bit32(self.0, 9)
    }

    /// Interrupt 10 of the ISPU (bit 10).
    pub fn ia_ispu_10(&self) -> (r: u32)
        ensures
            r == bit32(self.0, 10),
    {
        get_bit32(self.0, 10)
    }

    /// Interrupt 11 of the ISPU (bit 11).
    pub fn ia_ispu_11(&self) -> (r: u32)
        ensures
            r == bit32(self.0, 11),
    {
        get_bit32(self.0, 11)
    }

    /// Interrupt 12 of the ISPU (bit 12).
    pub fn ia_ispu_12(&self) -> (r: u32)
        ensures
            r == bit32(self.0, 12),
    {
        get_bit32(self.0, 12)
    }

    /// Interrupt 13 of the ISPU (bit 13).
    pub fn ia_ispu_13(&self) -> (r: u32)
        ensures
            r == bit32(self.0, 13),
    {
        get_bit32(self.0, 13)
    }

    /// Interrupt 14 of the ISPU (bit 14).
    pub fn ia_ispu_14(&self) -> (r: u32)
        ensures
            r == bit32(self.0, 14),
    {
        get_bit32(self.0, 14)
    }

    /// Interrupt 15 of the ISPU (bit 15).
    pub fn ia_ispu_15(&self) -> (r: u32)
        ensures
            r == bit32(self.0, 15),
    {
        get_bit32(self.0, 15)
    }

    /// Interrupt 16 of the ISPU (bit 16).
    pub fn ia_ispu_16(&self) -> (r: u32)
        ensures
            r == bit32(self.0, 16),
    {
        get_bit32(self.0, 16)
    }

    /// Interrupt 17 of the ISPU (bit 17).
    pub fn ia_ispu_17(&self) -> (r: u32)
        ensures
            r == bit32(self.0, 17),
    {
        get_bit32(self.0, 17)
    }

    /// Interrupt 18 of the ISPU (bit 18).
    pub fn ia_ispu_18(&self) -> (r: u32)
        ensures
            r == bit32(self.0, 18),
    {
        get_bit32(self.0, 18)
    }

    /// Interrupt 19 of the ISPU (bit 19).
    pub fn ia_ispu_19(&self) -> (r: u32)
        ensures
            r == bit32(self.0, 19),
    {
        get_bit32(self.0, 19)
    }

    /// Interrupt 20 of the ISPU (bit 20).
    pub fn ia_ispu_20(&self) -> (r: u32)
        ensures
            r == bit32(self.0, 20),
    {
        get_bit32(self.0, 20)
    }

    /// Interrupt 21 of the ISPU (bit 21).
    pub fn ia_ispu_21(&self) -> (r: u32)
        ensures
            r == bit32(self.0, 21),
    {
        get_bit32(self.0, 21)
    }

    /// Interrupt 22 of the ISPU (bit 22).
    pub fn ia_ispu_22(&self) -> (r: u32)
        ensures
            r == bit32(self.0, 22),
    {
        get_bit32(self.0, 22)
    }

    /// Interrupt 23 of the ISPU (bit 23).
    pub fn ia_ispu_23(&self) -> (r: u32)
        ensures
            r == bit32(self.0, 23),
    {
        get_bit32(self.0, 23)
    }

    /// Interrupt 24 of the ISPU (bit 24).
    pub fn ia_ispu_24(&self) -> (r: u32)
        ensures
            r == bit32(self.0, 24),
    {
        get_bit32(self.0, 24)
    }

    /// Interrupt 25 of the ISPU (bit 25).
    pub fn ia_ispu_25(&self) -> (r: u32)
        ensures
            r == bit32(self.0, 25),
    {
        get_bit32(self.0, 25)
    }

    /// Interrupt 26 of the ISPU (bit 26).
    pub fn ia_ispu_26(&self) -> (r: u32)
        ensures
            r == bit32(self.0, 26),
    {
        get_bit32(self.0, 26)
    }

    /// Interrupt 27 of the ISPU (bit 27).
    pub fn ia_ispu_27(&self) -> (r: u32)
        ensures
            r == bit32(self.0, 27),
    {
        get_bit32(self.0, 27)
    }

    /// Interrupt 28 of the ISPU (bit 28).
    pub fn ia_ispu_28(&self) -> (r: u32)
        ensures
            r == bit32(self.0, 28),
    {
        get_bit32(self.0, 28)
    }

    /// Interrupt 29 of the ISPU (bit 29).
    pub fn ia_ispu_29(&self) -> (r: u32)
        ensures
            r == bit32(self.0, 29),
    {
        get_bit32(self.0, 29)
    }
}

/// The control register of the data-ready routing of `pin`.
pub open spec fn int_ctrl(pin: Pin) -> u8 {
    match pin {
        Pin::Int1 => INT1_CTRL,
        Pin::Int2 => INT2_CTRL,
    }
}

/// `Ok(true)` when the bits `msb..=lsb` of the first byte reported are not all clear.
pub open spec fn flag_of<E>(o: Outcome<E>, msb: u8, lsb: u8) -> Result<bool, Error<E>> {
    match field_of(o, msb, lsb) {
        Ok(v) => Ok(v != 0),
        Err(e) => Err(e),
    }
}

/// The action that reads `len` bytes at `reg`.
pub open spec fn read_action(reg: u8, len: nat) -> Action {
    Action::Read { reg, len }
}

/// The action that sets bits `msb..=lsb` of `reg` to `value`.
pub open spec fn set_action(reg: u8, msb: u8, lsb: u8, value: u8) -> Action {
    Action::SetField { read_reg: reg, write_reg: reg, msb, lsb, value }
}

/// 1 when the high-performance mode is to be turned off, else 0.
pub open spec fn mode_bit(enable_low_power_mode: bool) -> u8 {
    if enable_low_power_mode { 1 } else { 0 }
}

/// What `set_odr_xl_setting` does: set ODR_XL, then XL_HM_MODE.
pub open spec fn set_odr_xl_program(odr: Ctrl1XlOdr, enable_low_power_mode: bool) -> Seq<Action> {
    seq![set_action(CTRL1_XL, 7, 4, odr.code()), set_action(CTRL6_C, 4, 4, mode_bit(enable_low_power_mode))]
}

/// What `set_odr_g_setting` does: set BDU, then ODR_G, then G_HM_MODE of CTRL7_G.
pub open spec fn set_odr_g_program(odr: Ctrl2GOdr, enable_low_power_mode: bool) -> Seq<Action> {
    seq![
        set_action(CTRL3_C, 6, 6, 1),
        set_action(CTRL2_G, 7, 4, odr.code()),
        set_action(CTRL7_G, 7, 7, mode_bit(enable_low_power_mode)),
    ]
}

/// What the data-ready routing does: read STATUS_REG, then set bit `bit` of the control
/// register of `pin`.
pub open spec fn enable_drdy_program(pin: Pin, bit: u8) -> Seq<Action> {
    seq![read_action(STATUS_REG, 1), set_action(int_ctrl(pin), bit, bit, 1)]
}

/// What removing a data-ready routing does: clear bit `bit` of INT1_CTRL, then of INT2_CTRL.
pub open spec fn disable_drdy_program(bit: u8) -> Seq<Action> {
    seq![set_action(INT1_CTRL, bit, bit, 0), set_action(INT2_CTRL, bit, bit, 0)]
}

/// What the constructors do: check the identifier, start a software reset, wait for it
/// to end, and turn on block data update.
pub open spec fn init_program() -> Seq<Action> {
    seq![
        Action::ExpectId { reg: WHO_AM_I, id: LSM6DSO16IS_ID },
        Action::WriteRaw { bytes: seq![CTRL3_C, 1u8] },
        Action::AwaitFieldClear { reg: CTRL3_C, msb: 0, lsb: 0 },
        set_action(CTRL3_C, 6, 6, 1),
    ]
}

/// The actions of the UCF lines: a write of `[address, data]` or a pause of `data` ms.
pub open spec fn ucf_action(line: UcfLineExtT) -> Action {
    match line.op {
        Op::MemsUcfOpWrite => Action::WriteRaw { bytes: seq![line.address, line.data] },
        Op::MemsUcfOpDelay => Action::Delay { ms: line.data as u32 },
    }
}

/// The actions of a UCF program, line by line.
pub open spec fn ucf_actions(lines: Seq<UcfLineExtT>) -> Seq<Action> {
    lines.map_values(|l: UcfLineExtT| ucf_action(l))
}

/// The pulse of the ISPU software reset that starts `load_ispu_bytecode`.
pub open spec fn ucf_reset_program() -> Seq<Action> {
    seq![set_action(FUNC_CFG_ACCESS, 1, 1, 1), set_action(FUNC_CFG_ACCESS, 1, 1, 0)]
}

/// What `load_ispu_bytecode` does: pulse the ISPU software reset, then run the lines.
pub open spec fn load_ispu_program(lines: Seq<UcfLineExtT>) -> Seq<Action> {
    ucf_reset_program() + ucf_actions(lines)
}

/// The pauses of a UCF program, in order.
pub open spec fn ucf_pauses(lines: Seq<UcfLineExtT>) -> Seq<u32>
    decreases lines.len(),
{
    if lines.len() == 0 {
        Seq::empty()
    } else {
        let rest = ucf_pauses(lines.drop_last());
        match lines.last().op {
            Op::MemsUcfOpDelay => rest.push(lines.last().data as u32),
            Op::MemsUcfOpWrite => rest,
        }
    }
}

/// `load_ispu_bytecode` ran the reset pulse and the first `k` lines successfully
/// (between `t0` and `tm`), and then the write of line `k` failed (between `tm` and `t1`).
pub open spec fn ucf_stopped_at<E>(
    t0: Seq<BusEvent<E>>,
    tm: Seq<BusEvent<E>>,
    t1: Seq<BusEvent<E>>,
    lines: Seq<UcfLineExtT>,
    k: int,
) -> bool {
    &&& 0 <= k < lines.len()
    &&& lines[k].op is MemsUcfOpWrite
    &&& did(t0, tm, load_ispu_program(lines.take(k)))
    &&& outcome(t0, tm, load_ispu_program(lines.take(k))) is Ok
    &&& did(tm, t1, seq![ucf_action(lines[k])])
    &&& outcome(tm, t1, seq![ucf_action(lines[k])]) is Err
}

/// What `read_ispu_output` does on a valid range: select the ISPU register page, send
/// the start address, read, and select the main page again.
pub open spec fn read_ispu_program(start_reg: u8, len: nat) -> Seq<Action> {
    seq![
        set_action(FUNC_CFG_ACCESS, 7, 7, 1),
        Action::WriteRaw { bytes: seq![start_reg] },
        Action::ReadRaw { len },
        set_action(FUNC_CFG_ACCESS, 7, 7, 0),
    ]
}

/// The ISPU output range `start_reg .. start_reg + len` lies within 0x10 ..= 0x4F.
pub open spec fn valid_ispu_range(start_reg: u8, len: nat) -> bool {
    0x10 <= start_reg && start_reg + len <= 0x4F
}

impl<P: I2cLink> Lsm6dso16is<Lsm6dso16isI2C<P>> {
    /// Driver on the I2C bus at `address`: runs `init` on a fresh bus. Returns the driver
    /// when it succeeds; else the error, with the driver, whose transcript shows what the
    /// device answered. Every transfer of the driver goes to `address`.
    pub fn new_i2c(i2c: P, address: I2CAddress) -> (r: Result<Self, (Error<P::Error>, Self)>)
        ensures
            r matches Ok(s) ==> {
                &&& did(Seq::empty(), s.transcript(), init_program())
                &&& outcome(Seq::empty(), s.transcript(), init_program()) is Ok
                &&& s.bus_address() == Some(address.value())
            },
            r matches Err((e, s)) ==> {
                &&& did(Seq::empty(), s.transcript(), init_program())
                &&& outcome(Seq::empty(), s.transcript(), init_program()) == Outcome::<P::Error>::Err(e)
                &&& s.bus_address() == Some(address.value())
            },
    {
        let mut instance = Self::on_bus(Lsm6dso16isI2C::new(i2c, address.addr()));
        match instance.init() {
            Ok(()) => Ok(instance),
            Err(e) => Err((e, instance)),
        }
    }
}

impl<P: SpiLink> Lsm6dso16is<Lsm6dso16isSPI<P>> {
    /// Driver on the SPI bus: runs `init` on a fresh bus. Returns the driver when it
    /// succeeds; else the error, with the driver, whose transcript shows what the device
    /// answered.
    pub fn new_spi(spi: P) -> (r: Result<Self, (Error<P::Error>, Self)>)
        ensures
            r matches Ok(s) ==> {
                &&& did(Seq::empty(), s.transcript(), init_program())
                &&& outcome(Seq::empty(), s.transcript(), init_program()) is Ok
            },
            r matches Err((e, s)) ==> {
                &&& did(Seq::empty(), s.transcript(), init_program())
                &&& outcome(Seq::empty(), s.transcript(), init_program()) == Outcome::<P::Error>::Err(e)
            },
    {
        let mut instance = Self::on_bus(Lsm6dso16isSPI::new(spi));
        match instance.init() {
            Ok(()) => Ok(instance),
            Err(e) => Err((e, instance)),
        }
    }
}

impl<B: BusOperation> Lsm6dso16is<B> {
    /// Start-up: checks that the sensor answers with its identifier, starts a software
    /// reset, waits until it ends, and turns on block data update.
    pub fn init(&mut self) -> (r: Result<(), Error<B::Error>>)
        ensures
            final(self).performed(*old(self), init_program()),
            r == unit(final(self).outcome_since(*old(self), init_program())),
    {
        let ghost t0 = self.transcript();
        let ghost p = init_program();
        proof {
            lemma_did_start(t0, p);
        }
        let r0 = self.expect_id(WHO_AM_I, LSM6DSO16IS_ID);
        proof {
            lemma_did_next(t0, t0, self.transcript(), p, 0);
        }
        let ghost t1 = self.transcript();
        r0?;
        let r1 = self.ctrl3_c_set_sw_reset();
        proof {
            lemma_did_next(t0, t1, self.transcript(), p, 1);
        }
        let ghost t2 = self.transcript();
        r1?;
        let r2 = self.await_field_clear(CTRL3_C, 0, 0);
        proof {
            lemma_did_next(t0, t2, self.transcript(), p, 2);
        }
        let ghost t3 = self.transcript();
        r2?;
        let r3 = self.ctrl3_c_set_bdu(1);
        proof {
            lemma_did_next(t0, t3, self.transcript(), p, 3);
        }
        r3
    }

    /// Returns the sensor identifier (0x22); any other identifier read is a `WhoAmIError` carrying it.
    pub fn who_am_i(&mut self) -> (r: Result<u8, Error<B::Error>>)
        ensures
            final(self).performed(*old(self), seq![Action::ExpectId { reg: WHO_AM_I, id: LSM6DSO16IS_ID }]),
            r == byte_of(final(self).outcome_since(*old(self), seq![Action::ExpectId { reg: WHO_AM_I, id: LSM6DSO16IS_ID }]), 0),
            r matches Ok(v) ==> v == LSM6DSO16IS_ID,
            r matches Err(Error::WhoAmIError(v)) ==> v != LSM6DSO16IS_ID,
    {
        self.expect_id(WHO_AM_I, LSM6DSO16IS_ID)
    }

    /// Returns the accelerometer output data rate setting.
    pub fn odr_xl_setting(&mut self) -> (r: Result<Ctrl1XlOdr, Error<B::Error>>)
        ensures
            final(self).performed(*old(self), seq![read_action(CTRL1_XL, 1)]),
            r == match field_of(final(self).outcome_since(*old(self), seq![read_action(CTRL1_XL, 1)]), 7, 4) {
                Ok(c) => Ok(Ctrl1XlOdr::from_code(c)),
                Err(e) => Err(e),
            },
    {
        let odr = self.ctrl1_xl_get_odr_xl()?;
        Ok(Ctrl1XlOdr::from(odr))
    }
    /// Sets the accelerometer output data rate, and its high-performance mode off (`enable_low_power_mode`) or on.
    pub fn set_odr_xl_setting(&mut self, odr: Ctrl1XlOdr, enable_low_power_mode: bool) -> (r: Result<(), Error<B::Error>>)
        ensures
            final(self).performed(*old(self), set_odr_xl_program(odr, enable_low_power_mode)),
            r == unit(final(self).outcome_since(*old(self), set_odr_xl_program(odr, enable_low_power_mode))),
    {
        let mode: u8 = if enable_low_power_mode { 1 } else { 0 };
        let ghost t0 = self.transcript();
        let ghost p = set_odr_xl_program(odr, enable_low_power_mode);
        proof {
            lemma_did_start(t0, p);
        }
        let r0 = self.ctrl1_xl_set_odr_xl(odr.bits());
        proof {
            lemma_did_next(t0, t0, self.transcript(), p, 0);
        }
        let ghost t1 = self.transcript();
        r0?;
        let r1 = self.ctrl6_c_set_xl_hm_mode(mode);
        proof {
            lemma_did_next(t0, t1, self.transcript(), p, 1);
        }
        r1
    }

    /// Returns the accelerometer full scale setting.
    pub fn fs_xl_setting(&mut self) -> (r: Result<XlFullScale, Error<B::Error>>)
        ensures
            final(self).performed(*old(self), seq![read_action(CTRL1_XL, 1)]),
            r == match field_of(final(self).outcome_since(*old(self), seq![read_action(CTRL1_XL, 1)]), 3, 2) {
                Ok(c) => Ok(XlFullScale::from_code(c)),
                Err(e) => Err(e),
            },
    {
        let fs = self.ctrl1_xl_get_fs_xl()?;
        Ok(XlFullScale::from(fs))
    }

    /// Sets the accelerometer full scale.
    pub fn set_fs_xl(&mut self, fs: XlFullScale) -> (r: Result<(), Error<B::Error>>)
        ensures
            final(self).performed(*old(self), seq![set_action(CTRL1_XL, 3, 2, fs.code())]),
            r == unit(final(self).outcome_since(*old(self), seq![set_action(CTRL1_XL, 3, 2, fs.code())])),
    {
        self.ctrl1_xl_set_fs_xl(fs.bits())?;
        Ok(())
    }

    /// Returns the gyroscope output data rate setting.
    pub fn odr_g_setting(&mut self) -> (r: Result<Ctrl2GOdr, Error<B::Error>>)
        ensures
            final(self).performed(*old(self), seq![read_action(CTRL2_G, 1)]),
            r == match field_of(final(self).outcome_since(*old(self), seq![read_action(CTRL2_G, 1)]), 7, 4) {
                Ok(c) => Ok(Ctrl2GOdr::from_code(c)),
                Err(e) => Err(e),
            },
    {
        let odr = self.ctrl2_g_get_odr_g()?;
        Ok(Ctrl2GOdr::from(odr))
    }
    /// Turns on block data update, sets the gyroscope output data rate, and sets the gyroscope's high-performance mode off (`enable_low_power_mode`) or on.
    pub fn set_odr_g_setting(&mut self, odr: Ctrl2GOdr, enable_low_power_mode: bool) -> (r: Result<(), Error<B::Error>>)
        ensures
            final(self).performed(*old(self), set_odr_g_program(odr, enable_low_power_mode)),
            r == unit(final(self).outcome_since(*old(self), set_odr_g_program(odr, enable_low_power_mode))),
    {
        let mode: u8 = if enable_low_power_mode { 1 } else { 0 };
        let ghost t0 = self.transcript();
        let ghost p = set_odr_g_program(odr, enable_low_power_mode);
        proof {
            lemma_did_start(t0, p);
        }
        let r0 = self.ctrl3_c_set_bdu(1);
        proof {
            lemma_did_next(t0, t0, self.transcript(), p, 0);
        }
        let ghost t1 = self.transcript();
        r0?;
        let r1 = self.ctrl2_g_set_odr_g(odr.bits());
        proof {
            lemma_did_next(t0, t1, self.transcript(), p, 1);
        }
        let ghost t2 = self.transcript();
        r1?;
        let r2 = self.ctrl7_g_set_g_hm_mode(mode);
        proof {
            lemma_did_next(t0, t2, self.transcript(), p, 2);
        }
        r2
    }

    /// Returns the gyroscope full scale setting.
    pub fn fs_g_setting(&mut self) -> (r: Result<GFullScale, Error<B::Error>>)
        ensures
            final(self).performed(*old(self), seq![read_action(CTRL2_G, 1)]),
            r == match field_of(final(self).outcome_since(*old(self), seq![read_action(CTRL2_G, 1)]), 3, 1) {
                Ok(c) => Ok(GFullScale::from_code(c)),
                Err(e) => Err(e),
            },
    {
        let fs = self.ctrl2_g_get_fs_g()?;
        Ok(GFullScale::from(fs))
    }

    /// Sets the gyroscope full scale.
    pub fn set_fs_g(&mut self, fs: GFullScale) -> (r: Result<(), Error<B::Error>>)
        ensures
            final(self).performed(*old(self), seq![set_action(CTRL2_G, 3, 1, fs.code())]),
            r == unit(final(self).outcome_since(*old(self), seq![set_action(CTRL2_G, 3, 1, fs.code())])),
    {
        self.ctrl2_g_set_fs_g(fs.bits())?;
        Ok(())
    }

    /// Returns true if an unread temperature sample is available (TDA).
    pub fn is_temp_data_avail(&mut self) -> (r: Result<bool, Error<B::Error>>)
        ensures
            final(self).performed(*old(self), seq![read_action(STATUS_REG, 1)]),
            r == flag_of(final(self).outcome_since(*old(self), seq![read_action(STATUS_REG, 1)]), 2, 2),
    {
        let val = self.status_reg_get_tda()?;
        Ok(val != 0)
    }

    /// Returns true if an unread accelerometer sample is available (XLDA).
    pub fn is_xl_data_avail(&mut self) -> (r: Result<bool, Error<B::Error>>)
        ensures
            final(self).performed(*old(self), seq![read_action(STATUS_REG, 1)]),
            r == flag_of(final(self).outcome_since(*old(self), seq![read_action(STATUS_REG, 1)]), 0, 0),
    {
        let val = self.status_reg_get_xlda()?;
        Ok(val != 0)
    }

    /// Returns true if an unread gyroscope sample is available (GDA).
    pub fn is_g_data_avail(&mut self) -> (r: Result<bool, Error<B::Error>>)
        ensures
            final(self).performed(*old(self), seq![read_action(STATUS_REG, 1)]),
            r == flag_of(final(self).outcome_since(*old(self), seq![read_action(STATUS_REG, 1)]), 1, 1),
    {
        let val = self.status_reg_get_gda()?;
        Ok(val != 0)
    }

    /// Returns the raw acceleration of the x axis (two's complement).
    pub fn get_xl_x_axis_raw(&mut self) -> (r: Result<i16, Error<B::Error>>)
        ensures
            final(self).performed(*old(self), seq![read_action(OUTX_L_A, 2)]),
            r == word_of(final(self).outcome_since(*old(self), seq![read_action(OUTX_L_A, 2)]), 0),
    {
        Ok(self.outx_a_get()?)
    }

    /// Returns the raw acceleration of the y axis (two's complement).
    pub fn get_xl_y_axis_raw(&mut self) -> (r: Result<i16, Error<B::Error>>)
        ensures
            final(self).performed(*old(self), seq![read_action(OUTY_L_A, 2)]),
            r == word_of(final(self).outcome_since(*old(self), seq![read_action(OUTY_L_A, 2)]), 0),
    {
        Ok(self.outy_a_get()?)
    }

    /// Returns the raw acceleration of the z axis (two's complement).
    pub fn get_xl_z_axis_raw(&mut self) -> (r: Result<i16, Error<B::Error>>)
        ensures
            final(self).performed(*old(self), seq![read_action(OUTZ_L_A, 2)]),
            r == word_of(final(self).outcome_since(*old(self), seq![read_action(OUTZ_L_A, 2)]), 0),
    {
        Ok(self.outz_a_get()?)
    }

    /// Returns the raw accelerations of the x, y and z axes, read in one transfer.
    pub fn get_xl_axes_raw(&mut self) -> (r: Result<(i16, i16, i16), Error<B::Error>>)
        ensures
            final(self).performed(*old(self), seq![read_action(OUTX_L_A, 6)]),
            r == words_of(final(self).outcome_since(*old(self), seq![read_action(OUTX_L_A, 6)])),
    {
        Ok(self.outxyz_a_get()?)
    }

    /// Returns the raw angular rate of the x axis (two's complement).
    pub fn get_g_x_axis_raw(&mut self) -> (r: Result<i16, Error<B::Error>>)
        ensures
            final(self).performed(*old(self), seq![read_action(OUTX_L_G, 2)]),
            r == word_of(final(self).outcome_since(*old(self), seq![read_action(OUTX_L_G, 2)]), 0),
    {
        Ok(self.outx_g_get()?)
    }

    /// Returns the raw angular rate of the y axis (two's complement).
    pub fn get_g_y_axis_raw(&mut self) -> (r: Result<i16, Error<B::Error>>)
        ensures
            final(self).performed(*old(self), seq![read_action(OUTY_L_G, 2)]),
            r == word_of(final(self).outcome_since(*old(self), seq![read_action(OUTY_L_G, 2)]), 0),
    {
        Ok(self.outy_g_get()?)
    }

    /// Returns the raw angular rate of the z axis (two's complement).
    pub fn get_g_z_axis_raw(&mut self) -> (r: Result<i16, Error<B::Error>>)
        ensures
            final(self).performed(*old(self), seq![read_action(OUTZ_L_G, 2)]),
            r == word_of(final(self).outcome_since(*old(self), seq![read_action(OUTZ_L_G, 2)]), 0),
    {
        Ok(self.outz_g_get()?)
    }

    /// Returns the raw angular rates of the x, y and z axes, read in one transfer.
    pub fn get_g_axes_raw(&mut self) -> (r: Result<(i16, i16, i16), Error<B::Error>>)
        ensures
            final(self).performed(*old(self), seq![read_action(OUTX_L_G, 6)]),
            r == words_of(final(self).outcome_since(*old(self), seq![read_action(OUTX_L_G, 6)])),
    {
        Ok(self.outxyz_g_get()?)
    }

    /// Sets the signal mode of the data-ready signals on INT1 and INT2.
    pub fn set_signal_mode(&mut self, signal_mode: SignalMode) -> (r: Result<(), Error<B::Error>>)
        ensures
            final(self).performed(*old(self), seq![set_action(DRDY_PULSED_REG, 7, 7, signal_mode.code())]),
            r == unit(final(self).outcome_since(*old(self), seq![set_action(DRDY_PULSED_REG, 7, 7, signal_mode.code())])),
    {
        self.drdy_pulsed_reg_set_drdy_pulsed_reg(signal_mode.bits())?;
        Ok(())
    }
    /// Routes the accelerometer data-ready signal to `pin`. Returns whether an unread accelerometer sample was already available (the XLDA bit of STATUS_REG), read before the routing is set.
    pub fn enable_xl_drdy_to_pin(&mut self, pin: Pin) -> (r: Result<bool, Error<B::Error>>)
        ensures
            final(self).performed(*old(self), enable_drdy_program(pin, 0)),
            r == flag_of(final(self).outcome_since(*old(self), enable_drdy_program(pin, 0)), 0, 0),
    {
        let ghost t0 = self.transcript();
        let ghost p = enable_drdy_program(pin, 0);
        proof {
            lemma_did_start(t0, p);
        }
        let r0 = self.status_reg_get_xlda();
        proof {
            lemma_did_next(t0, t0, self.transcript(), p, 0);
        }
        let ghost t1 = self.transcript();
        let avail = r0?;
        let r1 = match pin {
            Pin::Int1 => self.int1_ctrl_set_int1_drdy_xl(1),
            Pin::Int2 => self.int2_ctrl_set_int2_drdy_xl(1),
        };
        proof {
            lemma_did_next(t0, t1, self.transcript(), p, 1);
        }
        proof {
            let o1 = outcome(t0, t1, p.take(1));
            let o2 = outcome(t1, self.transcript(), seq![p[1]]);
            if o2 is Ok {
                lemma_did_quiet(t1, self.transcript(), p[1]);
                assert(o1->Ok_0 + o2->Ok_0 =~= o1->Ok_0);
            }
        }
        r1?;
        Ok(avail != 0)
    }
    /// Routes the gyroscope data-ready signal to `pin`. Returns whether an unread gyroscope sample was already available (the GDA bit of STATUS_REG), read before the routing is set.
    pub fn enable_g_drdy_to_pin(&mut self, pin: Pin) -> (r: Result<bool, Error<B::Error>>)
        ensures
            final(self).performed(*old(self), enable_drdy_program(pin, 1)),
            r == flag_of(final(self).outcome_since(*old(self), enable_drdy_program(pin, 1)), 1, 1),
    {
        let ghost t0 = self.transcript();
        let ghost p = enable_drdy_program(pin, 1);
        proof {
            lemma_did_start(t0, p);
        }
        let r0 = self.status_reg_get_gda();
        proof {
            lemma_did_next(t0, t0, self.transcript(), p, 0);
        }
        let ghost t1 = self.transcript();
        let avail = r0?;
        let r1 = match pin {
            Pin::Int1 => self.int1_ctrl_set_int1_drdy_g(1),
            Pin::Int2 => self.int2_ctrl_set_int2_drdy_g(1),
        };
        proof {
            lemma_did_next(t0, t1, self.transcript(), p, 1);
        }
        proof {
            let o1 = outcome(t0, t1, p.take(1));
            let o2 = outcome(t1, self.transcript(), seq![p[1]]);
            if o2 is Ok {
                lemma_did_quiet(t1, self.transcript(), p[1]);
                assert(o1->Ok_0 + o2->Ok_0 =~= o1->Ok_0);
            }
        }
        r1?;
        Ok(avail != 0)
    }
    /// Removes the accelerometer data-ready signal from INT1 and from INT2.
    pub fn disable_xl_drdy_to_pin(&mut self) -> (r: Result<(), Error<B::Error>>)
        ensures
            final(self).performed(*old(self), disable_drdy_program(0)),
            r == unit(final(self).outcome_since(*old(self), disable_drdy_program(0))),
    {
        let ghost t0 = self.transcript();
        let ghost p = disable_drdy_program(0);
        proof {
            lemma_did_start(t0, p);
        }
        let r0 = self.int1_ctrl_set_int1_drdy_xl(0);
        proof {
            lemma_did_next(t0, t0, self.transcript(), p, 0);
        }
        let ghost t1 = self.transcript();
        r0?;
        let r1 = self.int2_ctrl_set_int2_drdy_xl(0);
        proof {
            lemma_did_next(t0, t1, self.transcript(), p, 1);
        }
        r1
    }
    /// Removes the gyroscope data-ready signal from INT1 and from INT2.
    pub fn disable_g_drdy_to_pin(&mut self) -> (r: Result<(), Error<B::Error>>)
        ensures
            final(self).performed(*old(self), disable_drdy_program(1)),
            r == unit(final(self).outcome_since(*old(self), disable_drdy_program(1))),
    {
        let ghost t0 = self.transcript();
        let ghost p = disable_drdy_program(1);
        proof {
            lemma_did_start(t0, p);
        }
        let r0 = self.int1_ctrl_set_int1_drdy_g(0);
        proof {
            lemma_did_next(t0, t0, self.transcript(), p, 0);
        }
        let ghost t1 = self.transcript();
        r0?;
        let r1 = self.int2_ctrl_set_int2_drdy_g(0);
        proof {
            lemma_did_next(t0, t1, self.transcript(), p, 1);
        }
        r1
    }

    /// Returns the ISPU interrupt status word.
    pub fn get_ispu_int_status(&mut self) -> (r: Result<IspuIntStatus, Error<B::Error>>)
        ensures
            final(self).performed(*old(self), seq![read_action(ISPU_INT_STATUS0_MAINPAGE, 4)]),
            r matches Ok(s) ==> u32_of(final(self).outcome_since(*old(self), seq![read_action(ISPU_INT_STATUS0_MAINPAGE, 4)])) == Result::<u32, Error<B::Error>>::Ok(s.0),
            r matches Err(e) ==> u32_of(final(self).outcome_since(*old(self), seq![read_action(ISPU_INT_STATUS0_MAINPAGE, 4)])) == Result::<u32, Error<B::Error>>::Err(e),
    {
        let ispu_int_status = IspuIntStatus(self.ispu_int_status_mainpage_get()?);
        Ok(ispu_int_status)
    }
    /// Loads an ISPU program: pulses the ISPU software reset, then, line by line, writes
    /// `[address, data]` for a write line or pauses `data` ms for a delay line. Stops at
    /// the first failed transfer.
    pub fn load_ispu_bytecode<D: DelayMs>(&mut self, raw: &[UcfLineExtT], delay: &mut Pauses<D>) -> (r: Result<(), Error<B::Error>>)
        ensures
            final(self).performed(*old(self), load_ispu_program(raw@)),
            r == unit(final(self).outcome_since(*old(self), load_ispu_program(raw@))),
            r is Ok ==> final(delay).record() == old(delay).record() + ucf_pauses(raw@),
            r is Err ==> {
                ||| {
                    &&& did(old(self).transcript(), final(self).transcript(), ucf_reset_program())
                    &&& outcome(old(self).transcript(), final(self).transcript(), ucf_reset_program()) is Err
                    &&& final(delay).record() == old(delay).record()
                }
                ||| exists|k: int, tm: Seq<BusEvent<B::Error>>| {
                    &&& ucf_stopped_at(old(self).transcript(), tm, final(self).transcript(), raw@, k)
                    &&& final(delay).record() == old(delay).record() + ucf_pauses(raw@.take(k))
                }
            },
    {
        let ghost t0 = self.transcript();
        let ghost p = load_ispu_program(raw@);
        let ghost head = ucf_reset_program();
        let ghost pause0 = delay.record();
        proof {
            lemma_did_start(t0, head);
        }
        let r0 = self.func_cfg_access_set_sw_reset_ispu(1);
        proof {
            lemma_did_next(t0, t0, self.transcript(), head, 0);
            assert(head =~= p.subrange(0, 2));
            if r0 is Err {
                lemma_did_stop_in(t0, self.transcript(), head, p);
            }
        }
        let ghost t1 = self.transcript();
        r0?;
        let r1 = self.func_cfg_access_set_sw_reset_ispu(0);
        proof {
            lemma_did_next(t0, t1, self.transcript(), head, 1);
            if r1 is Err {
                lemma_did_stop_in(t0, self.transcript(), head, p);
            }
            assert(head + ucf_actions(raw@.take(0)) =~= head);
            assert(raw@.take(0) =~= Seq::<UcfLineExtT>::empty());
            assert(ucf_pauses(raw@.take(0)) =~= Seq::<u32>::empty());
            assert(pause0 + Seq::<u32>::empty() =~= pause0);
        }
        r1?;
        let mut i: usize = 0;
        while i < raw.len()
            invariant
                i <= raw.len(),
                t0 == old(self).transcript(),
                pause0 == old(delay).record(),
                self.bus_address() == old(self).bus_address(),
                p == load_ispu_program(raw@),
                head == ucf_reset_program(),
                did(t0, self.transcript(), load_ispu_program(raw@.take(i as int))),
                outcome(t0, self.transcript(), load_ispu_program(raw@.take(i as int))) is Ok,
                delay.record() == pause0 + ucf_pauses(raw@.take(i as int)),
            decreases raw.len() - i,
        {
            let ghost ti = self.transcript();
            let ghost done = load_ispu_program(raw@.take(i as int));
            let ghost a = ucf_action(raw@[i as int]);
            proof {
                assert(ucf_actions(raw@.take(i as int + 1)) =~= ucf_actions(raw@.take(i as int)).push(a));
                assert(load_ispu_program(raw@.take(i as int + 1)) =~= done.push(a));
                assert(raw@.take(i as int + 1).drop_last() =~= raw@.take(i as int));
                assert(done.push(a) =~= p.take(i as int + 3));
            }
            let line = &raw[i];
            match line.op {
                Op::MemsUcfOpWrite => {
                    let w: [u8; 2] = [line.address, line.data];
                    proof {
                        assert(w@ =~= seq![line.address, line.data]);
                    }
                    let wr = self.write_raw_bytes(&w);
                    proof {
                        lemma_did_push(t0, ti, self.transcript(), done, a);
                    }
                    match wr {
                        Err(e) => {
                            proof {
                                lemma_did_stop_in(t0, self.transcript(), done.push(a), p);
                                assert(ucf_stopped_at(t0, ti, self.transcript(), raw@, i as int));
                            }
                            return Err(e);
                        },
                        Ok(()) => {},
                    }
                },
                Op::MemsUcfOpDelay => {
                    delay.delay_ms(line.data as u32);
                    proof {
                        lemma_did_step(ti, Seq::empty(), a);
                        assert(ti + Seq::<BusEvent<B::Error>>::empty() =~= ti);
                        lemma_did_push(t0, ti, self.transcript(), done, a);
                    }
                },
            }
            i = i + 1;
        }
        proof {
            assert(raw@.take(raw@.len() as int) =~= raw@);
        }
        Ok(())
    }

    /// Reads ISPU output registers from `start_reg` on into `buf`. The range must lie
    /// within 0x10 ..= 0x4F, else `InvalidIspuRegValue` comes back and nothing is sent.
    pub fn read_ispu_output(&mut self, start_reg: u8, buf: &mut [u8]) -> (r: Result<(), Error<B::Error>>)
        ensures
            !valid_ispu_range(start_reg, old(buf)@.len()) ==> {
                &&& r == Result::<(), Error<B::Error>>::Err(Error::InvalidIspuRegValue)
                &&& final(self).transcript() == old(self).transcript()
                &&& final(buf)@ == old(buf)@
            },
            valid_ispu_range(start_reg, old(buf)@.len()) ==> {
                &&& final(self).performed(*old(self), read_ispu_program(start_reg, old(buf)@.len()))
                &&& r == unit(final(self).outcome_since(*old(self), read_ispu_program(start_reg, old(buf)@.len())))
                &&& r is Ok ==> final(buf)@ == final(self).outcome_since(*old(self), read_ispu_program(start_reg, old(buf)@.len()))->Ok_0
            },
    {
        if start_reg < 0x10 || start_reg > 0x4F || buf.len() > (0x4Fu8 - start_reg) as usize {
            return Err(Error::InvalidIspuRegValue);
        }
        let ghost n = buf@.len();
        let ghost t0 = self.transcript();
        let ghost p = read_ispu_program(start_reg, n);
        proof {
            lemma_did_start(t0, p);
        }
        let r0 = self.func_cfg_access_set_ispu_reg_access(1);
        proof {
            lemma_did_next(t0, t0, self.transcript(), p, 0);
        }
        let ghost t1 = self.transcript();
        r0?;
        let cmd: [u8; 1] = [start_reg];
        proof {
            assert(cmd@ =~= seq![start_reg]);
        }
        let r1 = self.write_raw_bytes(&cmd);
        proof {
            lemma_did_next(t0, t1, self.transcript(), p, 1);
        }
        let ghost t2 = self.transcript();
        r1?;
        let r2 = self.read_raw_bytes(buf);
        proof {
            lemma_did_next(t0, t2, self.transcript(), p, 2);
        }
        let ghost t3 = self.transcript();
        r2?;
        let r3 = self.func_cfg_access_set_ispu_reg_access(0);
        proof {
            lemma_did_next(t0, t3, self.transcript(), p, 3);
            let d = outcome(t2, t3, seq![p[2]])->Ok_0;
            assert(p.take(1) =~= seq![p[0]]);
            lemma_did_quiet(t0, t1, p[0]);
            lemma_did_quiet(t1, t2, p[1]);
            if r3 is Ok {
                lemma_did_quiet(t3, self.transcript(), p[3]);
                assert(((Seq::<u8>::empty() + Seq::<u8>::empty()) + d) + Seq::<u8>::empty() =~= d);
            }
        }
        r3
    }
}

}

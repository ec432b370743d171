//! Bus access and register map of the LSM6DSO16IS.
use vstd::prelude::*;
use crate::Error;
use crate::transcript::Action;
use crate::transcript::BusEvent;
use crate::transcript::Outcome;
use crate::transcript::did;
use crate::transcript::outcome;
use crate::transcript::unit;
use crate::transcript::lemma_did_step;
use crate::transcript::with_data;
use crate::transcript::lemma_did_one;
use crate::transcript::lemma_set_field_read_failed;
use crate::transcript::lemma_set_field_done;
use crate::transcript::lemma_poll_busy;
use crate::transcript::busy_read;
use crate::transcript::POLL_LIMIT;
use crate::bits::field;
use crate::bits::valid_field;
use crate::bits::get_field;
use crate::bits::set_field;
use crate::bits::le_i16;
use crate::bits::le_u32;
use crate::bits::i16_from_le;
use crate::bits::u32_from_le;

verus! {

/// The transfers the driver needs from a bus: a plain read, a plain write, and a
/// write of one command byte followed by a read. Each call is one transfer, and the
/// bus keeps the record of its transfers in `history`.
pub trait BusOperation {
    type Error;

    /// Every transfer made on this bus, oldest first, with what came back.
    spec fn history(&self) -> Seq<BusEvent<Self::Error>>;

    /// For a bus whose transfers carry a device address: `Some(a)` when every transfer made
    /// so far went to address `a`. `None` for a bus without addresses.
    spec fn bus_address(&self) -> Option<u8>;

    /// Reads into `rbuf`.
    fn read_bytes(&mut self, rbuf: &mut [u8]) -> (r: Result<(), Self::Error>)
        ensures
            final(self).history() == old(self).history().push(
                BusEvent::Read { len: old(rbuf)@.len(), result: with_data(r, final(rbuf)@) },
            ),
            final(self).bus_address() == old(self).bus_address(),
    ;

    /// Writes `wbuf`.
    fn write_bytes(&mut self, wbuf: &[u8]) -> (r: Result<(), Self::Error>)
        ensures
            final(self).history() == old(self).history().push(BusEvent::Write { bytes: wbuf@, status: r }),
            final(self).bus_address() == old(self).bus_address(),
    ;

    /// Writes the command byte `wbuf[0]`, then reads into `rbuf`.
    fn write_byte_read_bytes(&mut self, wbuf: &[u8; 1], rbuf: &mut [u8]) -> (r: Result<(), Self::Error>)
        ensures
            final(self).history() == old(self).history().push(
                BusEvent::WriteRead { command: wbuf[0], len: old(rbuf)@.len(), result: with_data(r, final(rbuf)@) },
            ),
            final(self).bus_address() == old(self).bus_address(),
    ;
}

/// Register addresses.
pub const FUNC_CFG_ACCESS: u8 = 0x01;
pub const DRDY_PULSED_REG: u8 = 0x0B;
pub const INT1_CTRL: u8 = 0x0D;
pub const INT2_CTRL: u8 = 0x0E;
pub const WHO_AM_I: u8 = 0x0F;
pub const CTRL1_XL: u8 = 0x10;
pub const CTRL2_G: u8 = 0x11;
pub const CTRL3_C: u8 = 0x12;
pub const CTRL6_C: u8 = 0x15;
pub const CTRL7_G: u8 = 0x16;
pub const ISPU_INT_STATUS0_MAINPAGE: u8 = 0x1A;
pub const STATUS_REG: u8 = 0x1E;
pub const OUT_TEMP_L: u8 = 0x20;
pub const OUTX_L_G: u8 = 0x22;
pub const OUTY_L_G: u8 = 0x24;
pub const OUTZ_L_G: u8 = 0x26;
pub const OUTZ_H_G: u8 = 0x27;
pub const OUTX_L_A: u8 = 0x28;
pub const OUTY_L_A: u8 = 0x2A;
pub const OUTZ_L_A: u8 = 0x2C;
pub const OUTZ_H_A: u8 = 0x2D;

/// Byte `i` of what a program reported.
pub open spec fn byte_of<E>(o: Outcome<E>, i: int) -> Result<u8, Error<E>> {
    match o {
        Ok(d) => Ok(d[i]),
        Err(e) => Err(e),
    }
}

/// Bits `msb..=lsb` of the first byte a program reported.
pub open spec fn field_of<E>(o: Outcome<E>, msb: u8, lsb: u8) -> Result<u8, Error<E>> {
    match o {
        Ok(d) => Ok(field(d[0], msb, lsb)),
        Err(e) => Err(e),
    }
}

/// The little-endian two's complement word at bytes `i`, `i + 1` of what a program reported.
pub open spec fn word_of<E>(o: Outcome<E>, i: int) -> Result<i16, Error<E>> {
    match o {
        Ok(d) => Ok(le_i16(d[i], d[i + 1]) as i16),
        Err(e) => Err(e),
    }
}

/// The three little-endian words (x, y, z) that a six-byte read reported.
pub open spec fn words_of<E>(o: Outcome<E>) -> Result<(i16, i16, i16), Error<E>> {
    match o {
        Ok(d) => Ok((le_i16(d[0], d[1]) as i16, le_i16(d[2], d[3]) as i16, le_i16(d[4], d[5]) as i16)),
        Err(e) => Err(e),
    }
}

/// The little-endian 32-bit word that a four-byte read reported.
pub open spec fn u32_of<E>(o: Outcome<E>) -> Result<u32, Error<E>> {
    match o {
        Ok(d) => Ok(le_u32(d[0], d[1], d[2], d[3]) as u32),
        Err(e) => Err(e),
    }
}

/// The LSM6DSO16IS driver, on a bus.
pub struct Lsm6dso16is<B> {
    bus: B,
}

impl<B: BusOperation> Lsm6dso16is<B> {
    /// Every transfer made on the driver's bus, oldest first.
    pub closed spec fn transcript(&self) -> Seq<BusEvent<B::Error>> {
        self.bus.history()
    }

    /// The device address all transfers of the driver's bus have gone to, if it has one.
    pub closed spec fn bus_address(&self) -> Option<u8> {
        self.bus.bus_address()
    }

    /// The driver's bus.
    pub closed spec fn bus(&self) -> B {
        self.bus
    }

    /// The driver's device address is its bus's.
    pub proof fn lemma_bus_address(&self)
        ensures
            self.bus_address() == self.bus().bus_address(),
            self.transcript() == self.bus().history(),
    {
    }

    /// Between `before` and `self`, exactly the program `prog` was performed on the bus,
    /// and the bus kept its device address.
    pub open spec fn performed(self, before: Self, prog: Seq<Action>) -> bool {
        &&& did(before.transcript(), self.transcript(), prog)
        &&& self.bus_address() == before.bus_address()
    }

    /// The outcome of the program performed between `before` and `self`.
    pub open spec fn outcome_since(self, before: Self, prog: Seq<Action>) -> Outcome<B::Error> {
        outcome(before.transcript(), self.transcript(), prog)
    }

    /// A driver on `bus`.
    pub fn on_bus(bus: B) -> (r: Self)
        ensures
            r.bus() == bus,
            r.transcript() == bus.history(),
            r.bus_address() == bus.bus_address(),
    {
        Lsm6dso16is { bus }
    }

    /// Reads `buf.len()` bytes from consecutive registers starting at `reg`.
    pub fn read_from_register(&mut self, reg: u8, buf: &mut [u8]) -> (r: Result<(), Error<B::Error>>)
        ensures
            final(self).performed(*old(self), seq![Action::Read { reg, len: old(buf)@.len() }]),
            r == unit(final(self).outcome_since(*old(self), seq![Action::Read { reg, len: old(buf)@.len() }])),
            r is Ok ==> final(buf)@ == final(self).outcome_since(*old(self), seq![Action::Read { reg, len: old(buf)@.len() }])->Ok_0,
    {
        let ghost t0 = self.transcript();
        let cmd: [u8; 1] = [reg];
        let r = self.bus.write_byte_read_bytes(&cmd, buf);
        proof {
            let a = Action::Read { reg, len: old(buf)@.len() };
            let ev = self.transcript().last();
            assert(self.transcript() =~= t0 + seq![ev]);
            lemma_did_step(t0, seq![ev], a);
        }
        match r {
            Ok(()) => Ok(()),
            Err(e) => Err(Error::Bus(e)),
        }
    }

    /// Writes `val` to `reg` and reads it back; a different value read back is a `WriteFailure`.
    pub fn write_to_register(&mut self, reg: u8, val: u8) -> (r: Result<(), Error<B::Error>>)
        ensures
            final(self).performed(*old(self), seq![Action::WriteChecked { reg, val }]),
            r == unit(final(self).outcome_since(*old(self), seq![Action::WriteChecked { reg, val }])),
    {
        let ghost t0 = self.transcript();
        let w: [u8; 2] = [reg, val];
        let wr = self.bus.write_bytes(&w);
        let ghost e1 = self.transcript().last();
        proof {
            assert(w@ =~= seq![reg, val]);
            assert(t0 + seq![e1] =~= self.transcript());
        }
        match wr {
            Err(e) => {
                proof {
                    lemma_did_step(t0, seq![e1], Action::WriteChecked { reg, val });
                }
                return Err(Error::Bus(e));
            },
            Ok(()) => {},
        }
        let ghost t1 = self.transcript();
        let mut arr: [u8; 1] = [0];
        let rr = self.read_from_register(reg, &mut arr);
        proof {
            lemma_did_one(t1, self.transcript(), Action::Read { reg, len: 1 });
            let seg = seq![e1] + self.transcript().skip(t1.len() as int);
            assert(self.transcript() =~= t0 + seg);
            assert(seg.skip(1) =~= self.transcript().skip(t1.len() as int));
            lemma_did_step(t0, seg, Action::WriteChecked { reg, val });
        }
        match rr {
            Err(e) => Err(e),
            Ok(()) => if arr[0] == val { Ok(()) } else { Err(Error::WriteFailure) },
        }
    }

    /// Replaces bits `msb..=lsb` of the byte read at `read_reg` by `value`, and writes the
    /// result, checked, to `write_reg`.
    fn update_field(&mut self, read_reg: u8, write_reg: u8, msb: u8, lsb: u8, value: u8) -> (r: Result<(), Error<B::Error>>)
        requires
            valid_field(msb, lsb),
        ensures
            final(self).performed(*old(self), seq![Action::SetField { read_reg, write_reg, msb, lsb, value }]),
            r == unit(final(self).outcome_since(*old(self), seq![Action::SetField { read_reg, write_reg, msb, lsb, value }])),
    {
        let ghost t0 = self.transcript();
        let mut arr: [u8; 1] = [0];
        let rr = self.read_from_register(read_reg, &mut arr);
        match rr {
            Err(e) => {
                proof {
                    lemma_set_field_read_failed(t0, self.transcript(), read_reg, write_reg, msb, lsb, value);
                }
                return Err(e);
            },
            Ok(()) => {},
        }
        let ghost t1 = self.transcript();
        proof {
            assert(arr@ =~= seq![arr[0]]);
        }
        let val = set_field(arr[0], msb, lsb, value);
        let wr = self.write_to_register(write_reg, val);
        proof {
            lemma_set_field_done(t0, t1, self.transcript(), read_reg, write_reg, msb, lsb, value, arr[0]);
        }
        wr
    }

    /// Reads the byte at `reg`.
    fn read_byte(&mut self, reg: u8) -> (r: Result<u8, Error<B::Error>>)
        ensures
            final(self).performed(*old(self), seq![Action::Read { reg: reg, len: 1 }]),
            r == byte_of(final(self).outcome_since(*old(self), seq![Action::Read { reg: reg, len: 1 }]), 0),
            r is Ok ==> final(self).outcome_since(*old(self), seq![Action::Read { reg: reg, len: 1 }])
                == Outcome::<B::Error>::Ok(seq![r->Ok_0]),
    {
        let mut arr: [u8; 1] = [0];
        self.read_from_register(reg, &mut arr)?;
        proof {
            assert(arr@ =~= seq![arr[0]]);
        }
        Ok(arr[0])
    }

    /// Reads bits `msb..=lsb` of the byte at `reg`.
    fn read_field(&mut self, reg: u8, msb: u8, lsb: u8) -> (r: Result<u8, Error<B::Error>>)
        requires
            valid_field(msb, lsb),
        ensures
            final(self).performed(*old(self), seq![Action::Read { reg: reg, len: 1 }]),
            r == field_of(final(self).outcome_since(*old(self), seq![Action::Read { reg: reg, len: 1 }]), msb, lsb),
    {
        let mut arr: [u8; 1] = [0];
        self.read_from_register(reg, &mut arr)?;
        Ok(get_field(arr[0], msb, lsb))
    }

    /// Reads the little-endian word at `reg`, `reg + 1`.
    fn read_word(&mut self, reg: u8) -> (r: Result<i16, Error<B::Error>>)
        ensures
            final(self).performed(*old(self), seq![Action::Read { reg: reg, len: 2 }]),
            r == word_of(final(self).outcome_since(*old(self), seq![Action::Read { reg: reg, len: 2 }]), 0),
    {
        let mut arr: [u8; 2] = [0; 2];
        self.read_from_register(reg, &mut arr)?;
        Ok(i16_from_le(arr[0], arr[1]))
    }

    /// Reads the three little-endian words starting at `reg`.
    fn read_words(&mut self, reg: u8) -> (r: Result<(i16, i16, i16), Error<B::Error>>)
        ensures
            final(self).performed(*old(self), seq![Action::Read { reg: reg, len: 6 }]),
            r == words_of(final(self).outcome_since(*old(self), seq![Action::Read { reg: reg, len: 6 }])),
    {
        let mut arr: [u8; 6] = [0; 6];
        self.read_from_register(reg, &mut arr)?;
        let x = i16_from_le(arr[0], arr[1]);
        let y = i16_from_le(arr[2], arr[3]);
        let z = i16_from_le(arr[4], arr[5]);
        Ok((x, y, z))
    }

    /// Sets ISPU_REG_ACCESS (bit 7 of FUNC_CFG_ACCESS): the ISPU register page is selected while it is 1.
    pub fn func_cfg_access_set_ispu_reg_access(&mut self, ispu_reg_access: u8) -> (r: Result<(), Error<B::Error>>)
        ensures
            final(self).performed(*old(self), seq![Action::SetField { read_reg: FUNC_CFG_ACCESS, write_reg: FUNC_CFG_ACCESS, msb: 7, lsb: 7, value: ispu_reg_access }]),
            r == unit(final(self).outcome_since(*old(self), seq![Action::SetField { read_reg: FUNC_CFG_ACCESS, write_reg: FUNC_CFG_ACCESS, msb: 7, lsb: 7, value: ispu_reg_access }])),
    {
        self.update_field(FUNC_CFG_ACCESS, FUNC_CFG_ACCESS, 7, 7, ispu_reg_access)
    }

    /// Sets SW_RESET_ISPU (bit 1 of FUNC_CFG_ACCESS).
    pub fn func_cfg_access_set_sw_reset_ispu(&mut self, sw_reset_ispu: u8) -> (r: Result<(), Error<B::Error>>)
        ensures
            final(self).performed(*old(self), seq![Action::SetField { read_reg: FUNC_CFG_ACCESS, write_reg: FUNC_CFG_ACCESS, msb: 1, lsb: 1, value: sw_reset_ispu }]),
            r == unit(final(self).outcome_since(*old(self), seq![Action::SetField { read_reg: FUNC_CFG_ACCESS, write_reg: FUNC_CFG_ACCESS, msb: 1, lsb: 1, value: sw_reset_ispu }])),
    {
        self.update_field(FUNC_CFG_ACCESS, FUNC_CFG_ACCESS, 1, 1, sw_reset_ispu)
    }

    /// Reads the WHO_AM_I register.
    pub fn who_am_i_get(&mut self) -> (r: Result<u8, Error<B::Error>>)
        ensures
            final(self).performed(*old(self), seq![Action::Read { reg: WHO_AM_I, len: 1 }]),
            r == byte_of(final(self).outcome_since(*old(self), seq![Action::Read { reg: WHO_AM_I, len: 1 }]), 0),
            r is Ok ==> final(self).outcome_since(*old(self), seq![Action::Read { reg: WHO_AM_I, len: 1 }])
                == Outcome::<B::Error>::Ok(seq![r->Ok_0]),
    {
        self.read_byte(WHO_AM_I)
    }

    /// Sets DRDY_PULSED (bit 7 of DRDY_PULSED_REG).
    pub fn drdy_pulsed_reg_set_drdy_pulsed_reg(&mut self, drdy_pulsed_reg: u8) -> (r: Result<(), Error<B::Error>>)
        ensures
            final(self).performed(*old(self), seq![Action::SetField { read_reg: DRDY_PULSED_REG, write_reg: DRDY_PULSED_REG, msb: 7, lsb: 7, value: drdy_pulsed_reg }]),
            r == unit(final(self).outcome_since(*old(self), seq![Action::SetField { read_reg: DRDY_PULSED_REG, write_reg: DRDY_PULSED_REG, msb: 7, lsb: 7, value: drdy_pulsed_reg }])),
    {
        self.update_field(DRDY_PULSED_REG, DRDY_PULSED_REG, 7, 7, drdy_pulsed_reg)
    }

    /// Sets INT1_DRDY_G (bit 1 of INT1_CTRL).
    pub fn int1_ctrl_set_int1_drdy_g(&mut self, int1_drdy_g: u8) -> (r: Result<(), Error<B::Error>>)
        ensures
            final(self).performed(*old(self), seq![Action::SetField { read_reg: INT1_CTRL, write_reg: INT1_CTRL, msb: 1, lsb: 1, value: int1_drdy_g }]),
            r == unit(final(self).outcome_since(*old(self), seq![Action::SetField { read_reg: INT1_CTRL, write_reg: INT1_CTRL, msb: 1, lsb: 1, value: int1_drdy_g }])),
    {
        self.update_field(INT1_CTRL, INT1_CTRL, 1, 1, int1_drdy_g)
    }

    /// Sets INT1_DRDY_XL (bit 0 of INT1_CTRL).
    pub fn int1_ctrl_set_int1_drdy_xl(&mut self, int1_drdy_xl: u8) -> (r: Result<(), Error<B::Error>>)
        ensures
            final(self).performed(*old(self), seq![Action::SetField { read_reg: INT1_CTRL, write_reg: INT1_CTRL, msb: 0, lsb: 0, value: int1_drdy_xl }]),
            r == unit(final(self).outcome_since(*old(self), seq![Action::SetField { read_reg: INT1_CTRL, write_reg: INT1_CTRL, msb: 0, lsb: 0, value: int1_drdy_xl }])),
    {
        self.update_field(INT1_CTRL, INT1_CTRL, 0, 0, int1_drdy_xl)
    }

    /// Sets INT2_DRDY_G (bit 1 of INT2_CTRL).
    pub fn int2_ctrl_set_int2_drdy_g(&mut self, int2_drdy_g: u8) -> (r: Result<(), Error<B::Error>>)
        ensures
            final(self).performed(*old(self), seq![Action::SetField { read_reg: INT2_CTRL, write_reg: INT2_CTRL, msb: 1, lsb: 1, value: int2_drdy_g }]),
            r == unit(final(self).outcome_since(*old(self), seq![Action::SetField { read_reg: INT2_CTRL, write_reg: INT2_CTRL, msb: 1, lsb: 1, value: int2_drdy_g }])),
    {
        self.update_field(INT2_CTRL, INT2_CTRL, 1, 1, int2_drdy_g)
    }

    /// Sets INT2_DRDY_XL (bit 0 of INT2_CTRL).
    pub fn int2_ctrl_set_int2_drdy_xl(&mut self, int2_drdy_xl: u8) -> (r: Result<(), Error<B::Error>>)
        ensures
            final(self).performed(*old(self), seq![Action::SetField { read_reg: INT2_CTRL, write_reg: INT2_CTRL, msb: 0, lsb: 0, value: int2_drdy_xl }]),
            r == unit(final(self).outcome_since(*old(self), seq![Action::SetField { read_reg: INT2_CTRL, write_reg: INT2_CTRL, msb: 0, lsb: 0, value: int2_drdy_xl }])),
    {
        self.update_field(INT2_CTRL, INT2_CTRL, 0, 0, int2_drdy_xl)
    }

    /// Reads ODR_XL (bits 7..4 of CTRL1_XL).
    pub fn ctrl1_xl_get_odr_xl(&mut self) -> (r: Result<u8, Error<B::Error>>)
        ensures
            final(self).performed(*old(self), seq![Action::Read { reg: CTRL1_XL, len: 1 }]),
            r == field_of(final(self).outcome_since(*old(self), seq![Action::Read { reg: CTRL1_XL, len: 1 }]), 7, 4),
    {
        self.read_field(CTRL1_XL, 7, 4)
    }

    /// Sets ODR_XL (bits 7..4 of CTRL1_XL).
    pub fn ctrl1_xl_set_odr_xl(&mut self, odr_xl: u8) -> (r: Result<(), Error<B::Error>>)
        ensures
            final(self).performed(*old(self), seq![Action::SetField { read_reg: CTRL1_XL, write_reg: CTRL1_XL, msb: 7, lsb: 4, value: odr_xl }]),
            r == unit(final(self).outcome_since(*old(self), seq![Action::SetField { read_reg: CTRL1_XL, write_reg: CTRL1_XL, msb: 7, lsb: 4, value: odr_xl }])),
    {
        self.update_field(CTRL1_XL, CTRL1_XL, 7, 4, odr_xl)
    }

    /// Reads FS_XL (bits 3..2 of CTRL1_XL).
    pub fn ctrl1_xl_get_fs_xl(&mut self) -> (r: Result<u8, Error<B::Error>>)
        ensures
            final(self).performed(*old(self), seq![Action::Read { reg: CTRL1_XL, len: 1 }]),
            r == field_of(final(self).outcome_since(*old(self), seq![Action::Read { reg: CTRL1_XL, len: 1 }]), 3, 2),
    {
        self.read_field(CTRL1_XL, 3, 2)
    }

    /// Sets FS_XL (bits 3..2 of CTRL1_XL).
    pub fn ctrl1_xl_set_fs_xl(&mut self, fs_xl: u8) -> (r: Result<(), Error<B::Error>>)
        ensures
            final(self).performed(*old(self), seq![Action::SetField { read_reg: CTRL1_XL, write_reg: CTRL1_XL, msb: 3, lsb: 2, value: fs_xl }]),
            r == unit(final(self).outcome_since(*old(self), seq![Action::SetField { read_reg: CTRL1_XL, write_reg: CTRL1_XL, msb: 3, lsb: 2, value: fs_xl }])),
    {
        self.update_field(CTRL1_XL, CTRL1_XL, 3, 2, fs_xl)
    }

    /// Reads ODR_G (bits 7..4 of CTRL2_G).
    pub fn ctrl2_g_get_odr_g(&mut self) -> (r: Result<u8, Error<B::Error>>)
        ensures
            final(self).performed(*old(self), seq![Action::Read { reg: CTRL2_G, len: 1 }]),
            r == field_of(final(self).outcome_since(*old(self), seq![Action::Read { reg: CTRL2_G, len: 1 }]), 7, 4),
    {
        self.read_field(CTRL2_G, 7, 4)
    }

    /// Sets ODR_G (bits 7..4 of CTRL2_G).
    pub fn ctrl2_g_set_odr_g(&mut self, odr_g: u8) -> (r: Result<(), Error<B::Error>>)
        ensures
            final(self).performed(*old(self), seq![Action::SetField { read_reg: CTRL2_G, write_reg: CTRL2_G, msb: 7, lsb: 4, value: odr_g }]),
            r == unit(final(self).outcome_since(*old(self), seq![Action::SetField { read_reg: CTRL2_G, write_reg: CTRL2_G, msb: 7, lsb: 4, value: odr_g }])),
    {
        self.update_field(CTRL2_G, CTRL2_G, 7, 4, odr_g)
    }

    /// Reads FS_G with FS_125 (bits 3..1 of CTRL2_G).
    pub fn ctrl2_g_get_fs_g(&mut self) -> (r: Result<u8, Error<B::Error>>)
        ensures
            final(self).performed(*old(self), seq![Action::Read { reg: CTRL2_G, len: 1 }]),
            r == field_of(final(self).outcome_since(*old(self), seq![Action::Read { reg: CTRL2_G, len: 1 }]), 3, 1),
    {
        self.read_field(CTRL2_G, 3, 1)
    }

    /// Sets FS_G with FS_125 (bits 3..1 of CTRL2_G).
    pub fn ctrl2_g_set_fs_g(&mut self, fs_g: u8) -> (r: Result<(), Error<B::Error>>)
        ensures
            final(self).performed(*old(self), seq![Action::SetField { read_reg: CTRL2_G, write_reg: CTRL2_G, msb: 3, lsb: 1, value: fs_g }]),
            r == unit(final(self).outcome_since(*old(self), seq![Action::SetField { read_reg: CTRL2_G, write_reg: CTRL2_G, msb: 3, lsb: 1, value: fs_g }])),
    {
        self.update_field(CTRL2_G, CTRL2_G, 3, 1, fs_g)
    }

    /// Sets BDU (bit 6 of CTRL3_C).
    pub fn ctrl3_c_set_bdu(&mut self, bdu: u8) -> (r: Result<(), Error<B::Error>>)
        ensures
            final(self).performed(*old(self), seq![Action::SetField { read_reg: CTRL3_C, write_reg: CTRL3_C, msb: 6, lsb: 6, value: bdu }]),
            r == unit(final(self).outcome_since(*old(self), seq![Action::SetField { read_reg: CTRL3_C, write_reg: CTRL3_C, msb: 6, lsb: 6, value: bdu }])),
    {
        self.update_field(CTRL3_C, CTRL3_C, 6, 6, bdu)
    }

    /// Reads SW_RESET (bit 0 of CTRL3_C).
    pub fn ctrl3_c_get_sw_reset(&mut self) -> (r: Result<u8, Error<B::Error>>)
        ensures
            final(self).performed(*old(self), seq![Action::Read { reg: CTRL3_C, len: 1 }]),
            r == field_of(final(self).outcome_since(*old(self), seq![Action::Read { reg: CTRL3_C, len: 1 }]), 0, 0),
    {
        self.read_field(CTRL3_C, 0, 0)
    }

    /// Sets XL_HM_MODE (bit 4 of CTRL6_C).
    pub fn ctrl6_c_set_xl_hm_mode(&mut self, xl_hm_mode: u8) -> (r: Result<(), Error<B::Error>>)
        ensures
            final(self).performed(*old(self), seq![Action::SetField { read_reg: CTRL6_C, write_reg: CTRL6_C, msb: 4, lsb: 4, value: xl_hm_mode }]),
            r == unit(final(self).outcome_since(*old(self), seq![Action::SetField { read_reg: CTRL6_C, write_reg: CTRL6_C, msb: 4, lsb: 4, value: xl_hm_mode }])),
    {
        self.update_field(CTRL6_C, CTRL6_C, 4, 4, xl_hm_mode)
    }

    /// Sets G_HM_MODE (bit 7 of CTRL7_G).
    pub fn ctrl7_g_set_g_hm_mode(&mut self, g_hm_mode: u8) -> (r: Result<(), Error<B::Error>>)
        ensures
            final(self).performed(*old(self), seq![Action::SetField { read_reg: CTRL7_G, write_reg: CTRL7_G, msb: 7, lsb: 7, value: g_hm_mode }]),
            r == unit(final(self).outcome_since(*old(self), seq![Action::SetField { read_reg: CTRL7_G, write_reg: CTRL7_G, msb: 7, lsb: 7, value: g_hm_mode }])),
    {
        self.update_field(CTRL7_G, CTRL7_G, 7, 7, g_hm_mode)
    }

    /// Reads TDA (bit 2 of STATUS_REG).
    pub fn status_reg_get_tda(&mut self) -> (r: Result<u8, Error<B::Error>>)
        ensures
            final(self).performed(*old(self), seq![Action::Read { reg: STATUS_REG, len: 1 }]),
            r == field_of(final(self).outcome_since(*old(self), seq![Action::Read { reg: STATUS_REG, len: 1 }]), 2, 2),
    {
        self.read_field(STATUS_REG, 2, 2)
    }

    /// Reads GDA (bit 1 of STATUS_REG).
    pub fn status_reg_get_gda(&mut self) -> (r: Result<u8, Error<B::Error>>)
        ensures
            final(self).performed(*old(self), seq![Action::Read { reg: STATUS_REG, len: 1 }]),
            r == field_of(final(self).outcome_since(*old(self), seq![Action::Read { reg: STATUS_REG, len: 1 }]), 1, 1),
    {
        self.read_field(STATUS_REG, 1, 1)
    }

    /// Reads XLDA (bit 0 of STATUS_REG).
    pub fn status_reg_get_xlda(&mut self) -> (r: Result<u8, Error<B::Error>>)
        ensures
            final(self).performed(*old(self), seq![Action::Read { reg: STATUS_REG, len: 1 }]),
            r == field_of(final(self).outcome_since(*old(self), seq![Action::Read { reg: STATUS_REG, len: 1 }]), 0, 0),
    {
        self.read_field(STATUS_REG, 0, 0)
    }

    /// Reads the raw temperature word.
    pub fn out_temp_get(&mut self) -> (r: Result<i16, Error<B::Error>>)
        ensures
            final(self).performed(*old(self), seq![Action::Read { reg: OUT_TEMP_L, len: 2 }]),
            r == word_of(final(self).outcome_since(*old(self), seq![Action::Read { reg: OUT_TEMP_L, len: 2 }]), 0),
    {
        self.read_word(OUT_TEMP_L)
    }

    /// Reads the raw angular rate of the x axis.
    pub fn outx_g_get(&mut self) -> (r: Result<i16, Error<B::Error>>)
        ensures
            final(self).performed(*old(self), seq![Action::Read { reg: OUTX_L_G, len: 2 }]),
            r == word_of(final(self).outcome_since(*old(self), seq![Action::Read { reg: OUTX_L_G, len: 2 }]), 0),
    {
        self.read_word(OUTX_L_G)
    }

    /// Reads the raw angular rate of the y axis.
    pub fn outy_g_get(&mut self) -> (r: Result<i16, Error<B::Error>>)
        ensures
            final(self).performed(*old(self), seq![Action::Read { reg: OUTY_L_G, len: 2 }]),
            r == word_of(final(self).outcome_since(*old(self), seq![Action::Read { reg: OUTY_L_G, len: 2 }]), 0),
    {
        self.read_word(OUTY_L_G)
    }

    /// Reads the raw angular rates of the x, y and z axes.
    pub fn outxyz_g_get(&mut self) -> (r: Result<(i16, i16, i16), Error<B::Error>>)
        ensures
            final(self).performed(*old(self), seq![Action::Read { reg: OUTX_L_G, len: 6 }]),
            r == words_of(final(self).outcome_since(*old(self), seq![Action::Read { reg: OUTX_L_G, len: 6 }])),
    {
        self.read_words(OUTX_L_G)
    }

    /// Reads the raw angular rate of the z axis.
    pub fn outz_g_get(&mut self) -> (r: Result<i16, Error<B::Error>>)
        ensures
            final(self).performed(*old(self), seq![Action::Read { reg: OUTZ_L_G, len: 2 }]),
            r == word_of(final(self).outcome_since(*old(self), seq![Action::Read { reg: OUTZ_L_G, len: 2 }]), 0),
    {
        self.read_word(OUTZ_L_G)
    }

    /// Reads OUTZ_H_G, the high byte of the z angular rate.
    pub fn outz_h_g_get(&mut self) -> (r: Result<u8, Error<B::Error>>)
        ensures
            final(self).performed(*old(self), seq![Action::Read { reg: OUTZ_H_G, len: 1 }]),
            r == byte_of(final(self).outcome_since(*old(self), seq![Action::Read { reg: OUTZ_H_G, len: 1 }]), 0),
            r is Ok ==> final(self).outcome_since(*old(self), seq![Action::Read { reg: OUTZ_H_G, len: 1 }])
                == Outcome::<B::Error>::Ok(seq![r->Ok_0]),
    {
        self.read_byte(OUTZ_H_G)
    }

    /// Reads the raw acceleration of the x axis.
    pub fn outx_a_get(&mut self) -> (r: Result<i16, Error<B::Error>>)
        ensures
            final(self).performed(*old(self), seq![Action::Read { reg: OUTX_L_A, len: 2 }]),
            r == word_of(final(self).outcome_since(*old(self), seq![Action::Read { reg: OUTX_L_A, len: 2 }]), 0),
    {
        self.read_word(OUTX_L_A)
    }

    /// Reads the raw acceleration of the y axis.
    pub fn outy_a_get(&mut self) -> (r: Result<i16, Error<B::Error>>)
        ensures
            final(self).performed(*old(self), seq![Action::Read { reg: OUTY_L_A, len: 2 }]),
            r == word_of(final(self).outcome_since(*old(self), seq![Action::Read { reg: OUTY_L_A, len: 2 }]), 0),
    {
        self.read_word(OUTY_L_A)
    }

    /// Reads the raw acceleration of the z axis.
    pub fn outz_a_get(&mut self) -> (r: Result<i16, Error<B::Error>>)
        ensures
            final(self).performed(*old(self), seq![Action::Read { reg: OUTZ_L_A, len: 2 }]),
            r == word_of(final(self).outcome_since(*old(self), seq![Action::Read { reg: OUTZ_L_A, len: 2 }]), 0),
    {
        self.read_word(OUTZ_L_A)
    }

    /// Reads OUTZ_H_A, the high byte of the z acceleration.
    pub fn outz_h_a_get(&mut self) -> (r: Result<u8, Error<B::Error>>)
        ensures
            final(self).performed(*old(self), seq![Action::Read { reg: OUTZ_H_A, len: 1 }]),
            r == byte_of(final(self).outcome_since(*old(self), seq![Action::Read { reg: OUTZ_H_A, len: 1 }]), 0),
            r is Ok ==> final(self).outcome_since(*old(self), seq![Action::Read { reg: OUTZ_H_A, len: 1 }])
                == Outcome::<B::Error>::Ok(seq![r->Ok_0]),
    {
        self.read_byte(OUTZ_H_A)
    }

    /// Reads the raw accelerations of the x, y and z axes.
    pub fn outxyz_a_get(&mut self) -> (r: Result<(i16, i16, i16), Error<B::Error>>)
        ensures
            final(self).performed(*old(self), seq![Action::Read { reg: OUTX_L_A, len: 6 }]),
            r == words_of(final(self).outcome_since(*old(self), seq![Action::Read { reg: OUTX_L_A, len: 6 }])),
    {
        self.read_words(OUTX_L_A)
    }

    /// Writes `val` to `reg` without reading it back.
    pub fn write_to_register_no_check(&mut self, reg: u8, val: u8) -> (r: Result<(), Error<B::Error>>)
        ensures
            final(self).performed(*old(self), seq![Action::WriteRaw { bytes: seq![reg, val] }]),
            r == unit(final(self).outcome_since(*old(self), seq![Action::WriteRaw { bytes: seq![reg, val] }])),
    {
        let w: [u8; 2] = [reg, val];
        proof {
            assert(w@ =~= seq![reg, val]);
        }
        self.write_raw_bytes(&w)
    }

    /// Writes `buf` to the bus as it is.
    pub fn write_raw_bytes(&mut self, buf: &[u8]) -> (r: Result<(), Error<B::Error>>)
        ensures
            final(self).performed(*old(self), seq![Action::WriteRaw { bytes: buf@ }]),
            r == unit(final(self).outcome_since(*old(self), seq![Action::WriteRaw { bytes: buf@ }])),
    {
        let ghost t0 = self.transcript();
        let r = self.bus.write_bytes(buf);
        proof {
            let ev = self.transcript().last();
            assert(self.transcript() =~= t0 + seq![ev]);
            lemma_did_step(t0, seq![ev], Action::WriteRaw { bytes: buf@ });
        }
        match r {
            Ok(()) => Ok(()),
            Err(e) => Err(Error::Bus(e)),
        }
    }

    /// Reads `buf.len()` bytes from the bus without addressing a register.
    pub fn read_raw_bytes(&mut self, buf: &mut [u8]) -> (r: Result<(), Error<B::Error>>)
        ensures
            final(self).performed(*old(self), seq![Action::ReadRaw { len: old(buf)@.len() }]),
            r == unit(final(self).outcome_since(*old(self), seq![Action::ReadRaw { len: old(buf)@.len() }])),
            r is Ok ==> final(buf)@ == final(self).outcome_since(*old(self), seq![Action::ReadRaw { len: old(buf)@.len() }])->Ok_0,
    {
        let ghost t0 = self.transcript();
        let r = self.bus.read_bytes(buf);
        proof {
            let ev = self.transcript().last();
            assert(self.transcript() =~= t0 + seq![ev]);
            lemma_did_step(t0, seq![ev], Action::ReadRaw { len: old(buf)@.len() });
        }
        match r {
            Ok(()) => Ok(()),
            Err(e) => Err(Error::Bus(e)),
        }
    }

    /// Starts a software reset: writes 1 to CTRL3_C without reading it back.
    pub fn ctrl3_c_set_sw_reset(&mut self) -> (r: Result<(), Error<B::Error>>)
        ensures
            final(self).performed(*old(self), seq![Action::WriteRaw { bytes: seq![CTRL3_C, 1u8] }]),
            r == unit(final(self).outcome_since(*old(self), seq![Action::WriteRaw { bytes: seq![CTRL3_C, 1u8] }])),
    {
        self.write_to_register_no_check(CTRL3_C, 0x1)
    }

    /// Reads the four ISPU interrupt status registers as one little-endian word.
    pub fn ispu_int_status_mainpage_get(&mut self) -> (r: Result<u32, Error<B::Error>>)
        ensures
            final(self).performed(*old(self), seq![Action::Read { reg: ISPU_INT_STATUS0_MAINPAGE, len: 4 }]),
            r == u32_of(final(self).outcome_since(*old(self), seq![Action::Read { reg: ISPU_INT_STATUS0_MAINPAGE, len: 4 }])),
    {
        let mut arr: [u8; 4] = [0; 4];
        self.read_from_register(ISPU_INT_STATUS0_MAINPAGE, &mut arr)?;
        Ok(u32_from_le(arr[0], arr[1], arr[2], arr[3]))
    }

    /// Reads the byte at `reg`; it must be `id`, else the read byte comes back in `WhoAmIError`.
    pub(crate) fn expect_id(&mut self, reg: u8, id: u8) -> (r: Result<u8, Error<B::Error>>)
        ensures
            final(self).performed(*old(self), seq![Action::ExpectId { reg, id }]),
            r == byte_of(final(self).outcome_since(*old(self), seq![Action::ExpectId { reg, id }]), 0),
            r matches Ok(v) ==> v == id,
            r matches Err(Error::WhoAmIError(v)) ==> v != id,
    {
        let ghost t0 = self.transcript();
        let b = self.read_byte(reg);
        proof {
            lemma_did_one(t0, self.transcript(), Action::Read { reg, len: 1 });
            lemma_did_step(t0, self.transcript().skip(t0.len() as int), Action::ExpectId { reg, id });
        }
        match b {
            Err(e) => Err(e),
            Ok(v) => if v != id { Err(Error::WhoAmIError(v)) } else { Ok(v) },
        }
    }

    /// Reads `reg` until bits `msb..=lsb` are clear, at most `POLL_LIMIT` times.
    pub(crate) fn await_field_clear(&mut self, reg: u8, msb: u8, lsb: u8) -> (r: Result<(), Error<B::Error>>)
        requires
            valid_field(msb, lsb),
        ensures
            final(self).performed(*old(self), seq![Action::AwaitFieldClear { reg, msb, lsb }]),
            r == unit(final(self).outcome_since(*old(self), seq![Action::AwaitFieldClear { reg, msb, lsb }])),
    {
        let ghost t0 = self.transcript();
        let mut tries: u64 = 0;
        while tries < POLL_LIMIT
            invariant
                valid_field(msb, lsb),
                t0 == old(self).transcript(),
                self.bus_address() == old(self).bus_address(),
                t0.len() + tries == self.transcript().len(),
                self.transcript() =~= t0 + self.transcript().skip(t0.len() as int),
                forall|i: int| 0 <= i < tries ==> busy_read(#[trigger] self.transcript().skip(t0.len() as int)[i], reg, msb, lsb),
            decreases POLL_LIMIT - tries,
        {
            let ghost t1 = self.transcript();
            let b = self.read_byte(reg);
            let ghost seg = t1.skip(t0.len() as int);
            let ghost rest = self.transcript().skip(t1.len() as int);
            proof {
                lemma_did_one(t1, self.transcript(), Action::Read { reg, len: 1 });
                assert(self.transcript() =~= t0 + (seg + rest));
                assert(self.transcript().skip(t0.len() as int) =~= seg + rest);
                lemma_poll_busy(seg, rest, reg, msb, lsb, POLL_LIMIT as nat);
            }
            match b {
                Err(e) => {
                    proof {
                        lemma_did_step(t0, seg + rest, Action::AwaitFieldClear { reg, msb, lsb });
                    }
                    return Err(e);
                },
                Ok(v) => {
                    let f = get_field(v, msb, lsb);
                    if f == 0 {
                        proof {
                            lemma_did_step(t0, seg + rest, Action::AwaitFieldClear { reg, msb, lsb });
                        }
                        return Ok(());
                    }
                    proof {
                        assert(busy_read(rest[0], reg, msb, lsb));
                        assert forall|i: int| 0 <= i < tries + 1 implies busy_read(#[trigger] self.transcript().skip(t0.len() as int)[i], reg, msb, lsb) by {
                            if i < tries {
                                assert(self.transcript().skip(t0.len() as int)[i] == seg[i]);
                            } else {
                                assert(self.transcript().skip(t0.len() as int)[i] == rest[0]);
                            }
                        }
                    }
                },
            }
            tries = tries + 1;
        }
        proof {
            let seg = self.transcript().skip(t0.len() as int);
            lemma_poll_busy(seg, Seq::empty(), reg, msb, lsb, POLL_LIMIT as nat);
            assert(seg + Seq::<BusEvent<B::Error>>::empty() =~= seg);
            lemma_did_step(t0, seg, Action::AwaitFieldClear { reg, msb, lsb });
        }
        Err(Error::WriteFailure)
    }
}

}

verus! {

/// Accelerometer output data rate settings (ODR_XL codes).
#[derive(Clone, Copy, Debug, PartialEq, Eq, Structural)]
pub enum Ctrl1XlOdr {
    PowerDown,
    Hz1_6,
    Hz12_5,
    Hz26,
    Hz52,
    Hz104,
    Hz208,
    Hz416,
    Hz833,
    Hz1667,
    Hz3333,
    Hz6667,
}

impl Ctrl1XlOdr {
    /// The ODR_XL code of the setting.
    pub open spec fn code(self) -> u8 {
        match self {
            Ctrl1XlOdr::PowerDown => 0b0000,
            Ctrl1XlOdr::Hz1_6 => 0b1011,
            Ctrl1XlOdr::Hz12_5 => 0b0001,
            Ctrl1XlOdr::Hz26 => 0b0010,
            Ctrl1XlOdr::Hz52 => 0b0011,
            Ctrl1XlOdr::Hz104 => 0b0100,
            Ctrl1XlOdr::Hz208 => 0b0101,
            Ctrl1XlOdr::Hz416 => 0b0110,
            Ctrl1XlOdr::Hz833 => 0b0111,
            Ctrl1XlOdr::Hz1667 => 0b1000,
            Ctrl1XlOdr::Hz3333 => 0b1001,
            Ctrl1XlOdr::Hz6667 => 0b1010,
        }
    }

    /// The rate of the setting in mHz; 0 for power-down.
    pub open spec fn millihertz(self) -> nat {
        match self {
            Ctrl1XlOdr::PowerDown => 0,
            Ctrl1XlOdr::Hz1_6 => 1600,
            Ctrl1XlOdr::Hz12_5 => 12500,
            Ctrl1XlOdr::Hz26 => 26000,
            Ctrl1XlOdr::Hz52 => 52000,
            Ctrl1XlOdr::Hz104 => 104000,
            Ctrl1XlOdr::Hz208 => 208000,
            Ctrl1XlOdr::Hz416 => 416000,
            Ctrl1XlOdr::Hz833 => 833000,
            Ctrl1XlOdr::Hz1667 => 1667000,
            Ctrl1XlOdr::Hz3333 => 3333000,
            Ctrl1XlOdr::Hz6667 => 6667000,
        }
    }

    /// The setting an ODR_XL code stands for; unknown codes read as power-down.
    pub open spec fn from_code(value: u8) -> Ctrl1XlOdr {
        match value {
            0b0000 => Ctrl1XlOdr::PowerDown,
            0b1011 => Ctrl1XlOdr::Hz1_6,
            0b0001 => Ctrl1XlOdr::Hz12_5,
            0b0010 => Ctrl1XlOdr::Hz26,
            0b0011 => Ctrl1XlOdr::Hz52,
            0b0100 => Ctrl1XlOdr::Hz104,
            0b0101 => Ctrl1XlOdr::Hz208,
            0b0110 => Ctrl1XlOdr::Hz416,
            0b0111 => Ctrl1XlOdr::Hz833,
            0b1000 => Ctrl1XlOdr::Hz1667,
            0b1001 => Ctrl1XlOdr::Hz3333,
            0b1010 => Ctrl1XlOdr::Hz6667,
            _ => Ctrl1XlOdr::PowerDown,
        }
    }

    /// The ODR_XL code of the setting.
    pub fn bits(&self) -> (r: u8)
        ensures
            r == self.code(),
    {
        match self {
            Ctrl1XlOdr::PowerDown => 0b0000,
            Ctrl1XlOdr::Hz1_6 => 0b1011,
            Ctrl1XlOdr::Hz12_5 => 0b0001,
            Ctrl1XlOdr::Hz26 => 0b0010,
            Ctrl1XlOdr::Hz52 => 0b0011,
            Ctrl1XlOdr::Hz104 => 0b0100,
            Ctrl1XlOdr::Hz208 => 0b0101,
            Ctrl1XlOdr::Hz416 => 0b0110,
            Ctrl1XlOdr::Hz833 => 0b0111,
            Ctrl1XlOdr::Hz1667 => 0b1000,
            Ctrl1XlOdr::Hz3333 => 0b1001,
            Ctrl1XlOdr::Hz6667 => 0b1010,
        }
    }

    /// The rate a requested setting becomes in a power mode: in low-power mode rates above
    /// 208 Hz come down to 208 Hz; in high-performance mode a non-zero rate below 12.5 Hz
    /// goes up to 12.5 Hz.
    pub fn for_mode(self, enable_low_power_mode: bool) -> (r: Ctrl1XlOdr)
        ensures
            enable_low_power_mode && self.millihertz() > 208000 ==> r == Ctrl1XlOdr::Hz208,
            !enable_low_power_mode && 0 < self.millihertz() < 12500 ==> r == Ctrl1XlOdr::Hz12_5,
            !(enable_low_power_mode && self.millihertz() > 208000)
                && !(!enable_low_power_mode && 0 < self.millihertz() < 12500) ==> r == self,
    {
        if enable_low_power_mode {
            match self {
                Ctrl1XlOdr::Hz416 | Ctrl1XlOdr::Hz833 | Ctrl1XlOdr::Hz1667 | Ctrl1XlOdr::Hz3333
                | Ctrl1XlOdr::Hz6667 => Ctrl1XlOdr::Hz208,
                _ => self,
            }
        } else {
            match self {
                Ctrl1XlOdr::Hz1_6 => Ctrl1XlOdr::Hz12_5,
                _ => self,
            }
        }
    }
}

impl From<u8> for Ctrl1XlOdr {
    fn from(value: u8) -> (r: Self) {
        match value {
            0b0000 => Self::PowerDown,
            0b1011 => Self::Hz1_6,
            0b0001 => Self::Hz12_5,
            0b0010 => Self::Hz26,
            0b0011 => Self::Hz52,
            0b0100 => Self::Hz104,
            0b0101 => Self::Hz208,
            0b0110 => Self::Hz416,
            0b0111 => Self::Hz833,
            0b1000 => Self::Hz1667,
            0b1001 => Self::Hz3333,
            0b1010 => Self::Hz6667,
            _ => Self::PowerDown,
        }
    }
}

impl vstd::std_specs::convert::FromSpecImpl<u8> for Ctrl1XlOdr {
    open spec fn obeys_from_spec() -> bool {
        true
    }

    open spec fn from_spec(v: u8) -> Self {
        Ctrl1XlOdr::from_code(v)
    }
}

}

verus! {

/// Gyroscope output data rate settings (ODR_G codes).
#[derive(Clone, Copy, Debug, PartialEq, Eq, Structural)]
pub enum Ctrl2GOdr {
    PowerDown,
    Hz12_5,
    Hz26,
    Hz52,
    Hz104,
    Hz208,
    Hz416,
    Hz833,
    Hz1667,
    Hz3333,
    Hz6667,
}

impl Ctrl2GOdr {
    /// The ODR_G code of the setting.
    pub open spec fn code(self) -> u8 {
        match self {
            Ctrl2GOdr::PowerDown => 0b0000,
            Ctrl2GOdr::Hz12_5 => 0b0001,
            Ctrl2GOdr::Hz26 => 0b0010,
            Ctrl2GOdr::Hz52 => 0b0011,
            Ctrl2GOdr::Hz104 => 0b0100,
            Ctrl2GOdr::Hz208 => 0b0101,
            Ctrl2GOdr::Hz416 => 0b0110,
            Ctrl2GOdr::Hz833 => 0b0111,
            Ctrl2GOdr::Hz1667 => 0b1000,
            Ctrl2GOdr::Hz3333 => 0b1001,
            Ctrl2GOdr::Hz6667 => 0b1010,
        }
    }

    /// The rate of the setting in mHz; 0 for power-down.
    pub open spec fn millihertz(self) -> nat {
        match self {
            Ctrl2GOdr::PowerDown => 0,
            Ctrl2GOdr::Hz12_5 => 12500,
            Ctrl2GOdr::Hz26 => 26000,
            Ctrl2GOdr::Hz52 => 52000,
            Ctrl2GOdr::Hz104 => 104000,
            Ctrl2GOdr::Hz208 => 208000,
            Ctrl2GOdr::Hz416 => 416000,
            Ctrl2GOdr::Hz833 => 833000,
            Ctrl2GOdr::Hz1667 => 1667000,
            Ctrl2GOdr::Hz3333 => 3333000,
            Ctrl2GOdr::Hz6667 => 6667000,
        }
    }

    /// The setting an ODR_G code stands for; unknown codes read as power-down.
    pub open spec fn from_code(value: u8) -> Ctrl2GOdr {
        match value {
            0b0000 => Ctrl2GOdr::PowerDown,
            0b0001 => Ctrl2GOdr::Hz12_5,
            0b0010 => Ctrl2GOdr::Hz26,
            0b0011 => Ctrl2GOdr::Hz52,
            0b0100 => Ctrl2GOdr::Hz104,
            0b0101 => Ctrl2GOdr::Hz208,
            0b0110 => Ctrl2GOdr::Hz416,
            0b0111 => Ctrl2GOdr::Hz833,
            0b1000 => Ctrl2GOdr::Hz1667,
            0b1001 => Ctrl2GOdr::Hz3333,
            0b1010 => Ctrl2GOdr::Hz6667,
            _ => Ctrl2GOdr::PowerDown,
        }
    }

    /// The ODR_G code of the setting.
    pub fn bits(&self) -> (r: u8)
        ensures
            r == self.code(),
    {
        match self {
            Ctrl2GOdr::PowerDown => 0b0000,
            Ctrl2GOdr::Hz12_5 => 0b0001,
            Ctrl2GOdr::Hz26 => 0b0010,
            Ctrl2GOdr::Hz52 => 0b0011,
            Ctrl2GOdr::Hz104 => 0b0100,
            Ctrl2GOdr::Hz208 => 0b0101,
            Ctrl2GOdr::Hz416 => 0b0110,
            Ctrl2GOdr::Hz833 => 0b0111,
            Ctrl2GOdr::Hz1667 => 0b1000,
            Ctrl2GOdr::Hz3333 => 0b1001,
            Ctrl2GOdr::Hz6667 => 0b1010,
        }
    }

    /// The rate a requested setting becomes in a power mode: in low-power mode rates above
    /// 208 Hz come down to 208 Hz; otherwise it stays.
    pub fn for_mode(self, enable_low_power_mode: bool) -> (r: Ctrl2GOdr)
        ensures
            enable_low_power_mode && self.millihertz() > 208000 ==> r == Ctrl2GOdr::Hz208,
            !(enable_low_power_mode && self.millihertz() > 208000) ==> r == self,
    {
        if enable_low_power_mode {
            match self {
                Ctrl2GOdr::Hz416 | Ctrl2GOdr::Hz833 | Ctrl2GOdr::Hz1667 | Ctrl2GOdr::Hz3333
                | Ctrl2GOdr::Hz6667 => Ctrl2GOdr::Hz208,
                _ => self,
            }
        } else {
            self
        }
    }
}

impl From<u8> for Ctrl2GOdr {
    fn from(value: u8) -> (r: Self) {
        match value {
            0b0000 => Self::PowerDown,
            0b0001 => Self::Hz12_5,
            0b0010 => Self::Hz26,
            0b0011 => Self::Hz52,
            0b0100 => Self::Hz104,
            0b0101 => Self::Hz208,
            0b0110 => Self::Hz416,
            0b0111 => Self::Hz833,
            0b1000 => Self::Hz1667,
            0b1001 => Self::Hz3333,
            0b1010 => Self::Hz6667,
            _ => Self::PowerDown,
        }
    }
}

impl vstd::std_specs::convert::FromSpecImpl<u8> for Ctrl2GOdr {
    open spec fn obeys_from_spec() -> bool {
        true
    }

    open spec fn from_spec(v: u8) -> Self {
        Ctrl2GOdr::from_code(v)
    }
}

}

verus! {

/// An SPI device: each method is one transaction, with chip select held throughout.
pub trait SpiLink {
    type Error;

    /// Writes `wbuf`.
    fn write(&mut self, wbuf: &[u8]) -> Result<(), Self::Error>;

    /// Reads into `rbuf`.
    fn read(&mut self, rbuf: &mut [u8]) -> Result<(), Self::Error>;

    /// Writes `wbuf`, then reads into `rbuf`.
    fn write_then_read(&mut self, wbuf: &[u8], rbuf: &mut [u8]) -> Result<(), Self::Error>;
}

/// An I2C controller, addressed with 7-bit addresses.
pub trait I2cLink {
    type Error;

    /// Reads into `read` from the device at `address`.
    fn read(&mut self, address: u8, read: &mut [u8]) -> Result<(), Self::Error>;

    /// Writes `write` to the device at `address`.
    fn write(&mut self, address: u8, write: &[u8]) -> Result<(), Self::Error>;

    /// Writes `write` to the device at `address`, then reads into `read`, without a stop in between.
    fn write_read(&mut self, address: u8, write: &[u8], read: &mut [u8]) -> Result<(), Self::Error>;
}

/// A source of pauses.
pub trait DelayMs {
    /// Pauses for at least `ms` milliseconds.
    fn delay_ms(&mut self, ms: u32);
}

/// The first byte of an SPI read: the register address with the read bit (bit 7) set.
pub open spec fn spi_read_command(reg: u8) -> u8 {
    reg | 0x80
}

/// One transaction on an SPI device or I2C controller: the bytes written, then the
/// number of bytes read and what came back.
pub ghost struct LinkTransfer<E> {
    pub write: Seq<u8>,
    pub read_len: nat,
    pub result: Result<Seq<u8>, E>,
}

/// The SPI transaction that carries a bus transfer: a register read sends the register
/// address with the read bit set; plain reads and writes go out as they are.
pub open spec fn spi_wire<E>(ev: BusEvent<E>) -> LinkTransfer<E> {
    match ev {
        BusEvent::Read { len, result } => LinkTransfer { write: Seq::empty(), read_len: len, result },
        BusEvent::Write { bytes, status } => LinkTransfer { write: bytes, read_len: 0, result: with_data(status, Seq::empty()) },
        BusEvent::WriteRead { command, len, result } => LinkTransfer {
            write: seq![spi_read_command(command)],
            read_len: len,
            result,
        },
    }
}

/// The I2C transaction (to the sensor's address) that carries a bus transfer: the same bytes.
pub open spec fn i2c_wire<E>(ev: BusEvent<E>) -> LinkTransfer<E> {
    match ev {
        BusEvent::Read { len, result } => LinkTransfer { write: Seq::empty(), read_len: len, result },
        BusEvent::Write { bytes, status } => LinkTransfer { write: bytes, read_len: 0, result: with_data(status, Seq::empty()) },
        BusEvent::WriteRead { command, len, result } => LinkTransfer { write: seq![command], read_len: len, result },
    }
}

// The two adapters below and `Pauses` are where the library meets code it cannot see:
// `SpiLink`, `I2cLink` and `DelayMs` carry no contract, so Verus checks what each body
// records, but not that the link call it makes is the transaction it records. Each body
// makes exactly one link call, with the buffers its record names; that is the trusted layer.

/// The sensor on an I2C bus, at a given address.
pub struct Lsm6dso16isI2C<P: I2cLink> {
    i2c: P,
    address: u8,
    history: Ghost<Seq<BusEvent<P::Error>>>,
}

impl<P: I2cLink> Lsm6dso16isI2C<P> {
    pub fn new(i2c: P, address: u8) -> (r: Self)
        ensures
            r.address() == address,
            r.history() == Seq::<BusEvent<P::Error>>::empty(),
            r.bus_address() == Some(address),
    {
        Self { i2c, address, history: Ghost(Seq::empty()) }
    }

    /// The 7-bit address of the sensor.
    pub closed spec fn address(&self) -> u8 {
        self.address
    }

    /// Every transaction handed to the controller, with the address it went to: one per
    /// transfer of the history.
    pub open spec fn transfers(&self) -> Seq<(u8, LinkTransfer<P::Error>)> {
        self.history().map_values(|ev: BusEvent<P::Error>| (self.address(), i2c_wire(ev)))
    }

    /// An I2C bus that answers to address `a` has sent every transaction so far to `a`.
    pub proof fn lemma_transfers_to_address(&self, a: u8)
        requires
            self.bus_address() == Some(a),
        ensures
            forall|i: int| 0 <= i < self.transfers().len() ==> (#[trigger] self.transfers()[i]).0 == a,
    {
    }
}

impl<P: I2cLink> BusOperation for Lsm6dso16isI2C<P> {
    type Error = P::Error;

    closed spec fn history(&self) -> Seq<BusEvent<P::Error>> {
        self.history@
    }

    /// The address is fixed when the adapter is made, and every call uses it.
    closed spec fn bus_address(&self) -> Option<u8> {
        Some(self.address)
    }

    fn read_bytes(&mut self, rbuf: &mut [u8]) -> (r: Result<(), Self::Error>)
        ensures
            final(self).address() == old(self).address(),
    {
        let ghost n = rbuf@.len();
        let r = self.i2c.read(self.address, rbuf);
        proof {
            self.history@ = self.history@.push(BusEvent::Read { len: n, result: with_data(r, rbuf@) });
        }
        r
    }

    fn write_bytes(&mut self, wbuf: &[u8]) -> (r: Result<(), Self::Error>)
        ensures
            final(self).address() == old(self).address(),
    {
        let r = self.i2c.write(self.address, wbuf);
        proof {
            self.history@ = self.history@.push(BusEvent::Write { bytes: wbuf@, status: r });
        }
        r
    }

    fn write_byte_read_bytes(&mut self, wbuf: &[u8; 1], rbuf: &mut [u8]) -> (r: Result<(), Self::Error>)
        ensures
            final(self).address() == old(self).address(),
    {
        let ghost n = rbuf@.len();
        let r = self.i2c.write_read(self.address, wbuf, rbuf);
        proof {
            self.history@ = self.history@.push(
                BusEvent::WriteRead { command: wbuf[0], len: n, result: with_data(r, rbuf@) },
            );
        }
        r
    }
}

/// The sensor on an SPI bus.
pub struct Lsm6dso16isSPI<P: SpiLink> {
    spi: P,
    history: Ghost<Seq<BusEvent<P::Error>>>,
}

impl<P: SpiLink> Lsm6dso16isSPI<P> {
    pub fn new(spi: P) -> (r: Self)
        ensures
            r.history() == Seq::<BusEvent<P::Error>>::empty(),
            r.bus_address() == None::<u8>,
    {
        Self { spi, history: Ghost(Seq::empty()) }
    }

    /// Every transaction handed to the SPI device: one per transfer of the history.
    pub open spec fn transfers(&self) -> Seq<LinkTransfer<P::Error>> {
        self.history().map_values(|ev: BusEvent<P::Error>| spi_wire(ev))
    }

    /// The read command for register `reg`.
    pub fn read_command(reg: u8) -> (r: u8)
        ensures
            r == spi_read_command(reg),
            r & 0x7f == reg & 0x7f,
            r & 0x80 == 0x80,
    {
        let r = reg | 0x80;
        assert(r & 0x7f == reg & 0x7f && r & 0x80 == 0x80) by (bit_vector)
            requires r == reg | 0x80;
        r
    }
}

impl<P: SpiLink> BusOperation for Lsm6dso16isSPI<P> {
    type Error = P::Error;

    closed spec fn history(&self) -> Seq<BusEvent<P::Error>> {
        self.history@
    }

    /// SPI devices are selected by chip select, not by address.
    closed spec fn bus_address(&self) -> Option<u8> {
        None
    }

    fn read_bytes(&mut self, rbuf: &mut [u8]) -> (r: Result<(), Self::Error>) {
        let ghost n = rbuf@.len();
        let r = self.spi.read(rbuf);
        proof {
            self.history@ = self.history@.push(BusEvent::Read { len: n, result: with_data(r, rbuf@) });
        }
        r
    }

    fn write_bytes(&mut self, wbuf: &[u8]) -> (r: Result<(), Self::Error>) {
        let r = self.spi.write(wbuf);
        proof {
            self.history@ = self.history@.push(BusEvent::Write { bytes: wbuf@, status: r });
        }
        r
    }

    /// Sends the register address with the read bit set, then reads, in one transaction.
    fn write_byte_read_bytes(&mut self, wbuf: &[u8; 1], rbuf: &mut [u8]) -> (r: Result<(), Self::Error>)
        ensures
            final(self).transfers().last().write == seq![spi_read_command(wbuf[0])],
    {
        let ghost n = rbuf@.len();
        let cmd: [u8; 1] = [Self::read_command(wbuf[0])];
        let r = self.spi.write_then_read(&cmd, rbuf);
        proof {
            assert(cmd@ =~= seq![spi_read_command(wbuf[0])]);
            self.history@ = self.history@.push(
                BusEvent::WriteRead { command: wbuf[0], len: n, result: with_data(r, rbuf@) },
            );
        }
        r
    }
}

/// A source of pauses that keeps the record of the pauses it made (see the note on the
/// trusted layer above).
pub struct Pauses<D: DelayMs> {
    delay: D,
    record: Ghost<Seq<u32>>,
}

impl<D: DelayMs> Pauses<D> {
    pub fn new(delay: D) -> (r: Self)
        ensures
            r.record() == Seq::<u32>::empty(),
    {
        Pauses { delay, record: Ghost(Seq::empty()) }
    }

    /// The lengths in ms of the pauses made, oldest first.
    pub closed spec fn record(&self) -> Seq<u32> {
        self.record@
    }

    /// Pauses for `ms` milliseconds.
    pub fn delay_ms(&mut self, ms: u32)
        ensures
            final(self).record() == old(self).record().push(ms),
    {
        self.delay.delay_ms(ms);
        proof {
            self.record@ = self.record@.push(ms);
        }
    }
}

}

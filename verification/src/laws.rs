//! Properties of the driver that span several operations.
use vstd::prelude::*;
use crate::XlFullScale;
use crate::GFullScale;
use crate::Error;
use crate::set_action;
use crate::read_action;
use crate::init_program;
use crate::LSM6DSO16IS_ID;
use crate::lsm6dso16is_reg::Ctrl1XlOdr;
use crate::lsm6dso16is_reg::Lsm6dso16is;
use crate::lsm6dso16is_reg::Lsm6dso16isI2C;
use crate::lsm6dso16is_reg::I2cLink;
use crate::lsm6dso16is_reg::SpiLink;
use crate::lsm6dso16is_reg::Lsm6dso16isSPI;
use crate::lsm6dso16is_reg::spi_wire;
use crate::lsm6dso16is_reg::spi_read_command;
use crate::lsm6dso16is_reg::i2c_wire;
use crate::lsm6dso16is_reg::Ctrl2GOdr;
use crate::lsm6dso16is_reg::field_of;
use crate::lsm6dso16is_reg::CTRL1_XL;
use crate::lsm6dso16is_reg::CTRL2_G;
use crate::lsm6dso16is_reg::CTRL3_C;
use crate::lsm6dso16is_reg::WHO_AM_I;
use crate::bits::field;
use crate::bits::field_mask;
use crate::bits::valid_field;
use crate::bits::lemma_field_of_with_field;
use crate::transcript::Action;
use crate::transcript::BusEvent;
use crate::transcript::Outcome;
use crate::transcript::did;
use crate::transcript::outcome;
use crate::transcript::read_event;
use crate::transcript::step;
use crate::transcript::run;
use crate::transcript::poll;
use crate::transcript::POLL_LIMIT;
use crate::transcript::lemma_did_one;
use crate::load_ispu_program;
use crate::ucf_actions;
use crate::UcfLineExtT;
use crate::lsm6dso16is_reg::FUNC_CFG_ACCESS;
use crate::bits::with_field;
use crate::lsm6dso16is_reg::DRDY_PULSED_REG;
use crate::lsm6dso16is_reg::INT1_CTRL;
use crate::lsm6dso16is_reg::INT2_CTRL;
use crate::lsm6dso16is_reg::CTRL6_C;
use crate::lsm6dso16is_reg::CTRL7_G;
use crate::lsm6dso16is_reg::ISPU_INT_STATUS0_MAINPAGE;
use crate::lsm6dso16is_reg::STATUS_REG;
use crate::lsm6dso16is_reg::OUT_TEMP_L;
use crate::lsm6dso16is_reg::OUTX_L_G;
use crate::lsm6dso16is_reg::OUTY_L_G;
use crate::lsm6dso16is_reg::OUTZ_L_G;
use crate::lsm6dso16is_reg::OUTZ_H_G;
use crate::lsm6dso16is_reg::OUTX_L_A;
use crate::lsm6dso16is_reg::OUTY_L_A;
use crate::lsm6dso16is_reg::OUTZ_L_A;
use crate::lsm6dso16is_reg::OUTZ_H_A;
use crate::set_odr_xl_program;
use crate::set_odr_g_program;
use crate::int_ctrl;
use crate::Pin;
use crate::SignalMode;

verus! {

/// The byte returned by the last transfer of `t`, when it was a successful one-byte register read.
pub open spec fn confirmed_byte<E>(t: Seq<BusEvent<E>>) -> u8 {
    t.last()->WriteRead_result->Ok_0[0]
}

/// The last transfer of `t` is a successful one-byte read of `reg`.
pub open spec fn ends_with_read_back<E>(t: Seq<BusEvent<E>>, reg: u8) -> bool {
    &&& t.len() > 0
    &&& t.last() matches BusEvent::WriteRead { command, len, result }
    &&& command == reg
    &&& len == 1
    &&& result matches Ok(d)
    &&& d.len() == 1
}

/// A read-modify-write succeeds exactly when its read-back confirms the byte it wrote: after
/// a successful one, the last transfer is the read-back of the written register, and the byte
/// the device returned holds `value` (cut to the field width) in bits `msb..=lsb`.
pub proof fn law_set_field_confirmed<E>(
    t0: Seq<BusEvent<E>>,
    t1: Seq<BusEvent<E>>,
    read_reg: u8,
    write_reg: u8,
    msb: u8,
    lsb: u8,
    value: u8,
)
    requires
        valid_field(msb, lsb),
        did(t0, t1, seq![Action::SetField { read_reg, write_reg, msb, lsb, value }]),
        outcome(t0, t1, seq![Action::SetField { read_reg, write_reg, msb, lsb, value }]) is Ok,
    ensures
        t1.len() == t0.len() + 3,
        ends_with_read_back(t1, write_reg),
        field(confirmed_byte(t1), msb, lsb) == value & field_mask(msb, lsb),
{
    let a = Action::SetField { read_reg, write_reg, msb, lsb, value };
    lemma_did_one(t0, t1, a);
    let seg = t1.skip(t0.len() as int);
    let d0 = read_event(seg, read_reg, 1)->Some_0.1->Ok_0;
    let b = d0[0];
    let rest = seg.skip(1);
    assert(rest.skip(1)[0] == seg[2]);
    assert(t1.last() == seg[2]);
    lemma_field_of_with_field(b, msb, lsb, value);
}

/// What a successful read-modify-write stores, the next read of that register gives back,
/// as long as the register still holds the byte the device confirmed.
pub proof fn law_set_then_get_field<E>(
    t0: Seq<BusEvent<E>>,
    t1: Seq<BusEvent<E>>,
    t2: Seq<BusEvent<E>>,
    reg: u8,
    msb: u8,
    lsb: u8,
    value: u8,
)
    requires
        valid_field(msb, lsb),
        did(t0, t1, seq![set_action(reg, msb, lsb, value)]),
        outcome(t0, t1, seq![set_action(reg, msb, lsb, value)]) is Ok,
        did(t1, t2, seq![read_action(reg, 1)]),
        outcome(t1, t2, seq![read_action(reg, 1)]) == Outcome::<E>::Ok(seq![confirmed_byte(t1)]),
    ensures
        field_of(outcome(t1, t2, seq![read_action(reg, 1)]), msb, lsb) == Result::<u8, Error<E>>::Ok(
            value & field_mask(msb, lsb),
        ),
{
    law_set_field_confirmed(t0, t1, reg, reg, msb, lsb, value);
}

/// Every full scale code fits in FS_XL and decodes to the same full scale.
pub proof fn law_xl_full_scale_code(fs: XlFullScale)
    ensures
        fs.code() & field_mask(3, 2) == fs.code(),
        XlFullScale::from_code(fs.code()) == fs,
{
    assert(0xffu8 >> 6u8 == 3u8) by (bit_vector);
    assert(0u8 & 3u8 == 0u8 && 1u8 & 3u8 == 1u8 && 2u8 & 3u8 == 2u8 && 3u8 & 3u8 == 3u8) by (bit_vector);
}

/// Every gyroscope full scale code fits in FS_G with FS_125 and decodes to the same full scale.
pub proof fn law_g_full_scale_code(fs: GFullScale)
    ensures
        fs.code() & field_mask(3, 1) == fs.code(),
        GFullScale::from_code(fs.code()) == fs,
{
    assert(0xffu8 >> 5u8 == 7u8) by (bit_vector);
    assert(0u8 & 7u8 == 0u8 && 1u8 & 7u8 == 1u8 && 2u8 & 7u8 == 2u8 && 4u8 & 7u8 == 4u8 && 6u8 & 7u8 == 6u8)
        by (bit_vector);
}

/// Every accelerometer data rate code fits in ODR_XL and decodes to the same setting.
pub proof fn law_odr_xl_code(odr: Ctrl1XlOdr)
    ensures
        odr.code() & field_mask(7, 4) == odr.code(),
        Ctrl1XlOdr::from_code(odr.code()) == odr,
{
    assert(0xffu8 >> 4u8 == 15u8) by (bit_vector);
    assert(forall|c: u8| c < 16 ==> #[trigger] (c & 15u8) == c) by (bit_vector);
}

/// Every gyroscope data rate code fits in ODR_G and decodes to the same setting.
pub proof fn law_odr_g_code(odr: Ctrl2GOdr)
    ensures
        odr.code() & field_mask(7, 4) == odr.code(),
        Ctrl2GOdr::from_code(odr.code()) == odr,
{
    assert(0xffu8 >> 4u8 == 15u8) by (bit_vector);
    assert(forall|c: u8| c < 16 ==> #[trigger] (c & 15u8) == c) by (bit_vector);
}

/// After a successful `set_fs_xl(fs)`, `fs_xl_setting` returns `fs` when it reads the byte
/// the device confirmed.
pub proof fn law_fs_xl_round_trip<E>(t0: Seq<BusEvent<E>>, t1: Seq<BusEvent<E>>, t2: Seq<BusEvent<E>>, fs: XlFullScale)
    requires
        did(t0, t1, seq![set_action(CTRL1_XL, 3, 2, fs.code())]),
        outcome(t0, t1, seq![set_action(CTRL1_XL, 3, 2, fs.code())]) is Ok,
        did(t1, t2, seq![read_action(CTRL1_XL, 1)]),
        outcome(t1, t2, seq![read_action(CTRL1_XL, 1)]) == Outcome::<E>::Ok(seq![confirmed_byte(t1)]),
    ensures
        (match field_of(outcome(t1, t2, seq![read_action(CTRL1_XL, 1)]), 3, 2) {
            Ok(c) => Ok(XlFullScale::from_code(c)),
            Err(e) => Err(e),
        }) == Result::<XlFullScale, Error<E>>::Ok(fs),
{
    law_set_then_get_field(t0, t1, t2, CTRL1_XL, 3, 2, fs.code());
    law_xl_full_scale_code(fs);
}

/// After a successful `set_fs_g(fs)`, `fs_g_setting` returns `fs` when it reads the byte
/// the device confirmed.
pub proof fn law_fs_g_round_trip<E>(t0: Seq<BusEvent<E>>, t1: Seq<BusEvent<E>>, t2: Seq<BusEvent<E>>, fs: GFullScale)
    requires
        did(t0, t1, seq![set_action(CTRL2_G, 3, 1, fs.code())]),
        outcome(t0, t1, seq![set_action(CTRL2_G, 3, 1, fs.code())]) is Ok,
        did(t1, t2, seq![read_action(CTRL2_G, 1)]),
        outcome(t1, t2, seq![read_action(CTRL2_G, 1)]) == Outcome::<E>::Ok(seq![confirmed_byte(t1)]),
    ensures
        (match field_of(outcome(t1, t2, seq![read_action(CTRL2_G, 1)]), 3, 1) {
            Ok(c) => Ok(GFullScale::from_code(c)),
            Err(e) => Err(e),
        }) == Result::<GFullScale, Error<E>>::Ok(fs),
{
    law_set_then_get_field(t0, t1, t2, CTRL2_G, 3, 1, fs.code());
    law_g_full_scale_code(fs);
}

/// After a successful accelerometer rate setting `odr`, `odr_xl_setting` returns `odr`
/// when it reads the byte the device confirmed.
pub proof fn law_odr_xl_round_trip<E>(t0: Seq<BusEvent<E>>, t1: Seq<BusEvent<E>>, t2: Seq<BusEvent<E>>, odr: Ctrl1XlOdr)
    requires
        did(t0, t1, seq![set_action(CTRL1_XL, 7, 4, odr.code())]),
        outcome(t0, t1, seq![set_action(CTRL1_XL, 7, 4, odr.code())]) is Ok,
        did(t1, t2, seq![read_action(CTRL1_XL, 1)]),
        outcome(t1, t2, seq![read_action(CTRL1_XL, 1)]) == Outcome::<E>::Ok(seq![confirmed_byte(t1)]),
    ensures
        (match field_of(outcome(t1, t2, seq![read_action(CTRL1_XL, 1)]), 7, 4) {
            Ok(c) => Ok(Ctrl1XlOdr::from_code(c)),
            Err(e) => Err(e),
        }) == Result::<Ctrl1XlOdr, Error<E>>::Ok(odr),
{
    law_set_then_get_field(t0, t1, t2, CTRL1_XL, 7, 4, odr.code());
    law_odr_xl_code(odr);
}

/// After a successful gyroscope rate setting `odr`, `odr_g_setting` returns `odr` when it
/// reads the byte the device confirmed.
pub proof fn law_odr_g_round_trip<E>(t0: Seq<BusEvent<E>>, t1: Seq<BusEvent<E>>, t2: Seq<BusEvent<E>>, odr: Ctrl2GOdr)
    requires
        did(t0, t1, seq![set_action(CTRL2_G, 7, 4, odr.code())]),
        outcome(t0, t1, seq![set_action(CTRL2_G, 7, 4, odr.code())]) is Ok,
        did(t1, t2, seq![read_action(CTRL2_G, 1)]),
        outcome(t1, t2, seq![read_action(CTRL2_G, 1)]) == Outcome::<E>::Ok(seq![confirmed_byte(t1)]),
    ensures
        (match field_of(outcome(t1, t2, seq![read_action(CTRL2_G, 1)]), 7, 4) {
            Ok(c) => Ok(Ctrl2GOdr::from_code(c)),
            Err(e) => Err(e),
        }) == Result::<Ctrl2GOdr, Error<E>>::Ok(odr),
{
    law_set_then_get_field(t0, t1, t2, CTRL2_G, 7, 4, odr.code());
    law_odr_g_code(odr);
}


/// A checked write succeeds exactly when the byte read back is the byte written, and fails
/// with `WriteFailure` exactly when the read-back returned another byte.
pub proof fn law_checked_write<E>(t0: Seq<BusEvent<E>>, t1: Seq<BusEvent<E>>, reg: u8, val: u8)
    requires
        did(t0, t1, seq![Action::WriteChecked { reg, val }]),
    ensures
        (outcome(t0, t1, seq![Action::WriteChecked { reg, val }]) is Ok) <==> {
            &&& t1.len() == t0.len() + 2
            &&& ends_with_read_back(t1, reg)
            &&& confirmed_byte(t1) == val
        },
        (outcome(t0, t1, seq![Action::WriteChecked { reg, val }]) == Outcome::<E>::Err(Error::WriteFailure)) <==> {
            &&& t1.len() == t0.len() + 2
            &&& ends_with_read_back(t1, reg)
            &&& confirmed_byte(t1) != val
        },
{
    let a = Action::WriteChecked { reg, val };
    lemma_did_one(t0, t1, a);
    let seg = t1.skip(t0.len() as int);
    if seg.len() == 2 {
        assert(t1.last() == seg[1]);
        assert(seg.skip(1)[0] == seg[1]);
    }
}

/// A driver that was created has read the identifier 0x22 first and then requested the
/// software reset.
pub proof fn law_created_driver_identified<E>(t: Seq<BusEvent<E>>)
    requires
        did(Seq::empty(), t, init_program()),
        outcome(Seq::empty(), t, init_program()) is Ok,
    ensures
        t.len() >= 2,
        t[0] == (BusEvent::<E>::WriteRead { command: WHO_AM_I, len: 1, result: Ok(seq![LSM6DSO16IS_ID]) }),
        (t[1] matches BusEvent::Write { bytes, status: Ok(_) } && bytes == seq![CTRL3_C, 1u8]),
{
    let p = init_program();
    reveal_with_fuel(run, 2);
    assert(t.skip(0) =~= t);
    assert(p.skip(1)[0] == p[1]);
    assert(t.skip(1)[0] == t[1]);
    let d = read_event(t, WHO_AM_I, 1)->Some_0.1->Ok_0;
    assert(d =~= seq![LSM6DSO16IS_ID]);
}

/// A sensor that answers another identifier is refused after that one read, and the error
/// carries the identifier it answered.
pub proof fn law_wrong_identifier_refused<E>(t: Seq<BusEvent<E>>, v: u8)
    requires
        did(Seq::empty(), t, init_program()),
        outcome(Seq::empty(), t, init_program()) == Outcome::<E>::Err(Error::WhoAmIError(v)),
    ensures
        v != LSM6DSO16IS_ID,
        t == (seq![BusEvent::<E>::WriteRead { command: WHO_AM_I, len: 1, result: Ok(seq![v]) }]),
{
    let p = init_program();
    assert(t.skip(0) =~= t);
    let first = step(p[0], t);
    if first matches Some((_, Ok(_))) {
        lemma_init_rest_not_who_am_i(p.skip(1), t.skip(first->Some_0.0 as int));
    }
    let d = read_event(t, WHO_AM_I, 1)->Some_0.1->Ok_0;
    assert(d =~= seq![v]);
    assert(t =~= seq![t[0]]);
}

/// The start-up ends at the identifier read when the sensor answers anything but 0x22 or
/// the read fails: the start-up made that one transfer, and its error is `WhoAmIError`
/// with the byte answered, or the bus error.
pub proof fn law_identifier_answer_decides<E>(t: Seq<BusEvent<E>>, answer: Result<Seq<u8>, E>)
    requires
        did(Seq::empty(), t, init_program()),
        t.len() > 0,
        t[0] == (BusEvent::<E>::WriteRead { command: WHO_AM_I, len: 1, result: answer }),
        answer != Result::<Seq<u8>, E>::Ok(seq![LSM6DSO16IS_ID]),
    ensures
        t.len() == 1,
        answer matches Ok(d) ==> d.len() == 1 && d[0] != LSM6DSO16IS_ID
            && outcome(Seq::empty(), t, init_program()) == Outcome::<E>::Err(Error::WhoAmIError(d[0])),
        answer matches Err(e) ==> outcome(Seq::empty(), t, init_program()) == Outcome::<E>::Err(Error::Bus(e)),
{
    let p = init_program();
    assert(t.skip(0) =~= t);
    reveal_with_fuel(run, 1);
    match answer {
        Ok(d) => {
            if d.len() == 1 && d[0] == LSM6DSO16IS_ID {
                assert(d =~= seq![LSM6DSO16IS_ID]);
            }
        },
        Err(_) => {},
    }
}

/// After the identifier check, the constructors never fail with `WhoAmIError`.
proof fn lemma_init_rest_not_who_am_i<E>(rest: Seq<Action>, ev: Seq<BusEvent<E>>)
    requires
        rest == init_program().skip(1),
    ensures
        !(run(rest, ev) matches Some((_, Err(Error::WhoAmIError(_))))),
{
    reveal_with_fuel(run, 4);
    let p = init_program();
    assert(rest[0] == p[1]);
    assert(rest.skip(1)[0] == p[2]);
    assert(rest.skip(1).skip(1)[0] == p[3]);
    assert(rest.skip(1).skip(1).skip(1) =~= Seq::<Action>::empty());
    let k1 = step(rest[0], ev)->Some_0.0;
    if step(p[2], ev.skip(k1 as int)) is Some {
        lemma_poll_never_wrong_id(ev.skip(k1 as int), POLL_LIMIT as nat);
    }
}

proof fn lemma_poll_never_wrong_id<E>(ev: Seq<BusEvent<E>>, budget: nat)
    ensures
        !(poll(ev, CTRL3_C, 0, 0, budget) matches Some((_, Err(Error::WhoAmIError(_))))),
    decreases budget,
{
    if budget > 0 {
        lemma_poll_never_wrong_id(ev.skip(1), (budget - 1) as nat);
    }
}


/// A driver on an I2C bus whose device address is `a` (as `new_i2c` makes it, and as every
/// operation keeps it) has sent every transaction to `a`.
pub proof fn law_i2c_single_address<P: I2cLink>(d: Lsm6dso16is<Lsm6dso16isI2C<P>>, a: u8)
    requires
        d.bus_address() == Some(a),
    ensures
        forall|i: int| 0 <= i < d.bus().transfers().len() ==> (#[trigger] d.bus().transfers()[i]).0 == a,
{
    d.lemma_bus_address();
    d.bus().lemma_transfers_to_address(a);
}

/// On SPI, the driver's transfers go out one SPI transaction each, as `spi_wire` says: a
/// register read sends the register address with the read bit (bit 7) set.
pub proof fn law_spi_wire<P: SpiLink>(d: Lsm6dso16is<Lsm6dso16isSPI<P>>)
    ensures
        d.bus().transfers().len() == d.transcript().len(),
        forall|i: int| 0 <= i < d.transcript().len() ==> #[trigger] d.bus().transfers()[i] == spi_wire(d.transcript()[i]),
        forall|i: int| 0 <= i < d.transcript().len() ==> (d.transcript()[i] matches BusEvent::WriteRead { command, .. }
            ==> #[trigger] d.bus().transfers()[i].write == seq![spi_read_command(command)]),
{
    d.lemma_bus_address();
}

/// On I2C, the driver's transfers go out one I2C transaction each, with the same bytes, to
/// the sensor's address.
pub proof fn law_i2c_wire<P: I2cLink>(d: Lsm6dso16is<Lsm6dso16isI2C<P>>)
    ensures
        d.bus().transfers().len() == d.transcript().len(),
        forall|i: int| 0 <= i < d.transcript().len() ==>
            #[trigger] d.bus().transfers()[i] == (d.bus().address(), i2c_wire(d.transcript()[i])),
{
    d.lemma_bus_address();
}
}

verus! {

/// The accelerometer full scales have the FS_XL codes of the datasheet: +-2 g is 0b00,
/// +-4 g is 0b10, +-8 g is 0b11 and +-16 g is 0b01, and each of these codes reads back as
/// that full scale.
pub proof fn law_xl_full_scale_datasheet_codes()
    ensures
        XlFullScale::G2.code() == 0b00u8,
        XlFullScale::G4.code() == 0b10u8,
        XlFullScale::G8.code() == 0b11u8,
        XlFullScale::G16.code() == 0b01u8,
        XlFullScale::from_code(0b00) == XlFullScale::G2,
        XlFullScale::from_code(0b10) == XlFullScale::G4,
        XlFullScale::from_code(0b11) == XlFullScale::G8,
        XlFullScale::from_code(0b01) == XlFullScale::G16,
{
}

/// The gyroscope full scales have the FS_G codes of the datasheet (FS_125 as the lowest
/// bit): +-125 dps is 0b001, +-250 dps 0b000, +-500 dps 0b010, +-1000 dps 0b100 and
/// +-2000 dps 0b110, and each of these codes reads back as that full scale.
pub proof fn law_g_full_scale_datasheet_codes()
    ensures
        GFullScale::Dps125.code() == 0b001u8,
        GFullScale::Dps250.code() == 0b000u8,
        GFullScale::Dps500.code() == 0b010u8,
        GFullScale::Dps1000.code() == 0b100u8,
        GFullScale::Dps2000.code() == 0b110u8,
        GFullScale::from_code(0b001) == GFullScale::Dps125,
        GFullScale::from_code(0b000) == GFullScale::Dps250,
        GFullScale::from_code(0b010) == GFullScale::Dps500,
        GFullScale::from_code(0b100) == GFullScale::Dps1000,
        GFullScale::from_code(0b110) == GFullScale::Dps2000,
{
}

/// The accelerometer data rates have the ODR_XL codes of the datasheet: power-down is
/// 0b0000, 1.6 Hz (low-power only) 0b1011, and 12.5 Hz up to 6667 Hz take the codes
/// 0b0001 to 0b1010 in increasing order of rate.
pub proof fn law_odr_xl_datasheet_codes()
    ensures
        Ctrl1XlOdr::PowerDown.code() == 0b0000u8,
        Ctrl1XlOdr::Hz1_6.code() == 0b1011u8,
        Ctrl1XlOdr::Hz12_5.code() == 0b0001u8,
        Ctrl1XlOdr::Hz26.code() == 0b0010u8,
        Ctrl1XlOdr::Hz52.code() == 0b0011u8,
        Ctrl1XlOdr::Hz104.code() == 0b0100u8,
        Ctrl1XlOdr::Hz208.code() == 0b0101u8,
        Ctrl1XlOdr::Hz416.code() == 0b0110u8,
        Ctrl1XlOdr::Hz833.code() == 0b0111u8,
        Ctrl1XlOdr::Hz1667.code() == 0b1000u8,
        Ctrl1XlOdr::Hz3333.code() == 0b1001u8,
        Ctrl1XlOdr::Hz6667.code() == 0b1010u8,
        Ctrl1XlOdr::from_code(0b0000).millihertz() == 0,
        Ctrl1XlOdr::from_code(0b1011).millihertz() == 1600,
        Ctrl1XlOdr::from_code(0b0001).millihertz() == 12500,
        Ctrl1XlOdr::from_code(0b1010).millihertz() == 6667000,
        forall|c1: u8, c2: u8| 0b0001 <= c1 < c2 <= 0b1010 ==>
            #[trigger] Ctrl1XlOdr::from_code(c1).millihertz() < #[trigger] Ctrl1XlOdr::from_code(c2).millihertz(),
{
    assert forall|c1: u8, c2: u8| 0b0001 <= c1 < c2 <= 0b1010 implies
        #[trigger] Ctrl1XlOdr::from_code(c1).millihertz() < #[trigger] Ctrl1XlOdr::from_code(c2).millihertz() by {
        assert(c1 == 1 || c1 == 2 || c1 == 3 || c1 == 4 || c1 == 5 || c1 == 6 || c1 == 7 || c1 == 8 || c1 == 9);
        assert(c2 == 2 || c2 == 3 || c2 == 4 || c2 == 5 || c2 == 6 || c2 == 7 || c2 == 8 || c2 == 9 || c2 == 10);
    }
}

/// The gyroscope data rates have the ODR_G codes of the datasheet: power-down is 0b0000,
/// and 12.5 Hz up to 6667 Hz take the codes 0b0001 to 0b1010 in increasing order of rate.
pub proof fn law_odr_g_datasheet_codes()
    ensures
        Ctrl2GOdr::PowerDown.code() == 0b0000u8,
        Ctrl2GOdr::Hz12_5.code() == 0b0001u8,
        Ctrl2GOdr::Hz26.code() == 0b0010u8,
        Ctrl2GOdr::Hz52.code() == 0b0011u8,
        Ctrl2GOdr::Hz104.code() == 0b0100u8,
        Ctrl2GOdr::Hz208.code() == 0b0101u8,
        Ctrl2GOdr::Hz416.code() == 0b0110u8,
        Ctrl2GOdr::Hz833.code() == 0b0111u8,
        Ctrl2GOdr::Hz1667.code() == 0b1000u8,
        Ctrl2GOdr::Hz3333.code() == 0b1001u8,
        Ctrl2GOdr::Hz6667.code() == 0b1010u8,
        Ctrl2GOdr::from_code(0b0000).millihertz() == 0,
        Ctrl2GOdr::from_code(0b0001).millihertz() == 12500,
        Ctrl2GOdr::from_code(0b1010).millihertz() == 6667000,
        forall|c1: u8, c2: u8| 0b0000 <= c1 < c2 <= 0b1010 ==>
            #[trigger] Ctrl2GOdr::from_code(c1).millihertz() < #[trigger] Ctrl2GOdr::from_code(c2).millihertz(),
{
    assert forall|c1: u8, c2: u8| 0b0000 <= c1 < c2 <= 0b1010 implies
        #[trigger] Ctrl2GOdr::from_code(c1).millihertz() < #[trigger] Ctrl2GOdr::from_code(c2).millihertz() by {
        assert(c1 == 0 || c1 == 1 || c1 == 2 || c1 == 3 || c1 == 4 || c1 == 5 || c1 == 6 || c1 == 7 || c1 == 8 || c1 == 9);
        assert(c2 == 1 || c2 == 2 || c2 == 3 || c2 == 4 || c2 == 5 || c2 == 6 || c2 == 7 || c2 == 8 || c2 == 9 || c2 == 10);
    }
}

}

verus! {

/// The transfer `e` is a successful one-byte read of `reg` that gave `b`.
pub open spec fn reads_byte<E>(e: BusEvent<E>, reg: u8, b: u8) -> bool {
    e == BusEvent::<E>::WriteRead { command: reg, len: 1, result: Ok(seq![b]) }
}

/// The transfer `e` is a successful write of `bytes`.
pub open spec fn writes_bytes<E>(e: BusEvent<E>, bytes: Seq<u8>) -> bool {
    &&& e matches BusEvent::Write { bytes: w, status: Ok(_) }
    &&& w == bytes
}

/// Setting bit 1 of a byte to 1 or 0.
proof fn lemma_bit1(b: u8)
    ensures
        with_field(b, 1, 1, 1) == b | 0x02u8,
        with_field(b, 1, 1, 0) == b & 0xFDu8,
{
    assert(0xffu8 >> 7u8 == 1u8) by (bit_vector);
    assert((b & !(1u8 << 1u8)) | ((1u8 & 1u8) << 1u8) == b | 0x02u8) by (bit_vector);
    assert((b & !(1u8 << 1u8)) | ((0u8 & 1u8) << 1u8) == b & 0xFDu8) by (bit_vector);
}

/// A successful ISPU load first pulses SW_RESET_ISPU (bit 1 of FUNC_CFG_ACCESS): it reads
/// the register, writes it back with bit 1 set and reads that byte back, then reads it
/// again, writes it back with bit 1 clear and reads that byte back; the other bits are
/// written as read. Only after these six transfers do the program's lines run, and they
/// all succeed.
pub proof fn law_ispu_load_pulses_reset<E>(t0: Seq<BusEvent<E>>, t1: Seq<BusEvent<E>>, lines: Seq<UcfLineExtT>)
    requires
        did(t0, t1, load_ispu_program(lines)),
        outcome(t0, t1, load_ispu_program(lines)) is Ok,
    ensures
        t1.len() >= t0.len() + 6,
        exists|b0: u8, b1: u8| {
            &&& reads_byte(t1[t0.len() as int], FUNC_CFG_ACCESS, b0)
            &&& writes_bytes(t1[t0.len() + 1int], seq![FUNC_CFG_ACCESS, b0 | 0x02u8])
            &&& reads_byte(t1[t0.len() + 2int], FUNC_CFG_ACCESS, b0 | 0x02u8)
            &&& reads_byte(t1[t0.len() + 3int], FUNC_CFG_ACCESS, b1)
            &&& writes_bytes(t1[t0.len() + 4int], seq![FUNC_CFG_ACCESS, b1 & 0xFDu8])
            &&& reads_byte(t1[t0.len() + 5int], FUNC_CFG_ACCESS, b1 & 0xFDu8)
        },
        did(t1.take(t0.len() + 6int), t1, ucf_actions(lines)),
        outcome(t1.take(t0.len() + 6int), t1, ucf_actions(lines)) is Ok,
{
    let p = load_ispu_program(lines);
    let ev = t1.skip(t0.len() as int);
    let n = t0.len() as int;
    assert(p[0] == set_action(FUNC_CFG_ACCESS, 1, 1, 1));
    assert(p.skip(1)[0] == set_action(FUNC_CFG_ACCESS, 1, 1, 0));
    assert(p.skip(1).skip(1) =~= ucf_actions(lines));
    reveal_with_fuel(run, 3);
    // first read-modify-write
    let r0 = read_event(ev, FUNC_CFG_ACCESS, 1);
    assert(r0 matches Some((_, Ok(_))));
    let d0 = r0->Some_0.1->Ok_0;
    let b0 = d0[0];
    assert(d0 =~= seq![b0]);
    lemma_bit1(b0);
    let ev1 = ev.skip(1);
    assert(ev1[0] == ev[1]);
    let ev2 = ev1.skip(1);
    assert(ev2[0] == ev[2]);
    let d1 = read_event(ev2, FUNC_CFG_ACCESS, 1)->Some_0.1->Ok_0;
    assert(d1 =~= seq![b0 | 0x02u8]);
    let rest = ev.skip(3);
    assert(rest[0] == ev[3]);
    let c0 = read_event(rest, FUNC_CFG_ACCESS, 1)->Some_0.1->Ok_0;
    let b1 = c0[0];
    assert(c0 =~= seq![b1]);
    lemma_bit1(b1);
    assert(rest.skip(1)[0] == ev[4]);
    assert(rest.skip(1).skip(1)[0] == ev[5]);
    let c1 = read_event(rest.skip(1).skip(1), FUNC_CFG_ACCESS, 1)->Some_0.1->Ok_0;
    assert(c1 =~= seq![b1 & 0xFDu8]);
    assert(rest.skip(3) =~= ev.skip(6));
    assert(ev.skip(6) =~= t1.skip(n + 6));
    assert(ev[0] == t1[n] && ev[1] == t1[n + 1] && ev[2] == t1[n + 2]);
    assert(ev[3] == t1[n + 3] && ev[4] == t1[n + 4] && ev[5] == t1[n + 5]);
    assert(t1.take(n + 6).is_prefix_of(t1));
    assert(t1.take(n + 6).len() == n + 6);
    assert(reads_byte(t1[n], FUNC_CFG_ACCESS, b0));
}

}

verus! {

/// The registers sit at the addresses of the datasheet, and the sensor identifies itself
/// with 0x22.
pub proof fn law_register_map()
    ensures
        FUNC_CFG_ACCESS == 0x01u8,
        DRDY_PULSED_REG == 0x0Bu8,
        INT1_CTRL == 0x0Du8,
        INT2_CTRL == 0x0Eu8,
        WHO_AM_I == 0x0Fu8,
        CTRL1_XL == 0x10u8,
        CTRL2_G == 0x11u8,
        CTRL3_C == 0x12u8,
        CTRL6_C == 0x15u8,
        CTRL7_G == 0x16u8,
        ISPU_INT_STATUS0_MAINPAGE == 0x1Au8,
        STATUS_REG == 0x1Eu8,
        OUT_TEMP_L == 0x20u8,
        OUTX_L_G == 0x22u8,
        OUTY_L_G == 0x24u8,
        OUTZ_L_G == 0x26u8,
        OUTZ_H_G == 0x27u8,
        OUTX_L_A == 0x28u8,
        OUTY_L_A == 0x2Au8,
        OUTZ_L_A == 0x2Cu8,
        OUTZ_H_A == 0x2Du8,
        LSM6DSO16IS_ID == 0x22u8,
{
}

/// Where the settings live: ODR_XL is bits 7..4 of CTRL1_XL (0x10) and XL_HM_MODE bit 4
/// of CTRL6_C (0x15); ODR_G is bits 7..4 of CTRL2_G (0x11), BDU bit 6 of CTRL3_C (0x12)
/// and G_HM_MODE bit 7 of CTRL7_G (0x16); the high-performance mode bit is 1 exactly in
/// low-power mode; data-ready goes to INT1_CTRL (0x0D) for pin 1 and INT2_CTRL (0x0E) for
/// pin 2; latched data-ready is DRDY_PULSED 0 and pulsed is 1.
pub proof fn law_setting_layout(xl: Ctrl1XlOdr, g: Ctrl2GOdr, low_power: bool)
    ensures
        set_odr_xl_program(xl, low_power) == seq![
            Action::SetField { read_reg: 0x10, write_reg: 0x10, msb: 7, lsb: 4, value: xl.code() },
            Action::SetField { read_reg: 0x15, write_reg: 0x15, msb: 4, lsb: 4, value: if low_power { 1u8 } else { 0u8 } },
        ],
        set_odr_g_program(g, low_power) == seq![
            Action::SetField { read_reg: 0x12, write_reg: 0x12, msb: 6, lsb: 6, value: 1 },
            Action::SetField { read_reg: 0x11, write_reg: 0x11, msb: 7, lsb: 4, value: g.code() },
            Action::SetField { read_reg: 0x16, write_reg: 0x16, msb: 7, lsb: 7, value: if low_power { 1u8 } else { 0u8 } },
        ],
        int_ctrl(Pin::Int1) == 0x0Du8,
        int_ctrl(Pin::Int2) == 0x0Eu8,
        SignalMode::Latched.code() == 0u8,
        SignalMode::Pulsed.code() == 1u8,
{
}

}

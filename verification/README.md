# lsm6dso16is

A driver for the ST LSM6DSO16IS accelerometer-gyroscope sensor, verified with Verus.

## Layout

- `src/bits.rs`: bit fields of 8-bit registers and little-endian sample words.
- `src/transcript.rs`: the bus transcript (`BusEvent`), the driver actions (`Action`),
  and `run`, which says for any answers of the device which transfers an operation
  makes and what it returns; lemmas to compose operations.
- `src/lsm6dso16is_reg.rs`: the bus traits (`BusOperation`, which keeps the history of
  the transfers made on the bus, `SpiLink`, `I2cLink`, `DelayMs`), the SPI and I2C adapters
  and the pause recorder `Pauses`, the register map and the register accessors. The
  bodies of the adapters and of `Pauses` are the trusted layer: the link traits carry no
  contract, so what each body records is checked, not that its link call matches it.
- `src/lib.rs`: the public types and operations of the driver. `new_spi` and `new_i2c`
  run the start-up sequence; on failure they hand back the error together with the
  driver, whose transcript shows what the device answered.
- `src/laws.rs`: properties spanning several operations (a setting written is read back,
  a checked write fails exactly on a mismatch, a created driver has identified the sensor,
  a start-up ends at a wrong or failed identifier read with that answer as its error,
  an I2C driver only talks to its address, each transfer goes out on the wire as recorded,
  with bit 7 set on an SPI register read).
- `app/lib.rs`: the embedded-hal adapters (`HalSpi`, `HalI2c`, `HalDelay`) and the
  floating-point readings (data rates in Hz, sensitivities, temperature, scaled axes).
- `tests/driver.rs`: the driver run against a simulated register file.

//! The engine against a simulated device: a chip that carries out the
//! command stream, with an EEPROM on its I2C lines.

use ftdi_embedded_hal::error::{ErrorKind, X232Error};
use ftdi_embedded_hal::bus::BusMode;
use ftdi_embedded_hal::ft232h::FT232H;
use ftdi_embedded_hal::gpio::{GpioPin, PinBank, PinDescriptor};
use ftdi_embedded_hal::i2c::{I2cAction, I2cBus, I2cSpeed};
use ftdi_embedded_hal::mpsse::Exchange;
use ftdi_embedded_hal::spi::{SpiBus, SpiSpeed, MODE_0, MODE_1, MODE_2, MODE_3};
use ftdi_embedded_hal::x232h::FTx232H;
use itertools::Itertools;
use rand::Rng;

/// A small serial EEPROM: the first byte written after its address sets the
/// cursor, further bytes are stored, reads deliver from the cursor on.
struct Eeprom {
    address: u8,
    memory: [u8; 256],
    cursor: u8,
    selected: bool,
    reading: bool,
    fresh: bool,
    want_cursor: bool,
    acked: bool,
}

impl Eeprom {
    fn new(address: u8) -> Eeprom {
        Eeprom {
            address,
            memory: [0xff; 256],
            cursor: 0,
            selected: false,
            reading: false,
            fresh: false,
            want_cursor: false,
            acked: false,
        }
    }

    fn start(&mut self) {
        self.fresh = true;
        self.selected = false;
        self.reading = false;
    }

    fn stop(&mut self) {
        self.fresh = false;
        self.selected = false;
        self.reading = false;
    }

    fn byte_from_master(&mut self, byte: u8) {
        self.acked = false;
        if self.fresh {
            self.fresh = false;
            if byte >> 1 == self.address {
                self.selected = true;
                self.reading = byte & 1 == 1;
                self.want_cursor = !self.reading;
                self.acked = true;
            }
        } else if self.selected && !self.reading {
            if self.want_cursor {
                self.cursor = byte;
                self.want_cursor = false;
            } else {
                self.memory[self.cursor as usize] = byte;
                self.cursor = self.cursor.wrapping_add(1);
            }
            self.acked = true;
        }
    }

    fn byte_to_master(&mut self) -> u8 {
        if self.selected && self.reading {
            let byte = self.memory[self.cursor as usize];
            self.cursor = self.cursor.wrapping_add(1);
            byte
        } else {
            0xff
        }
    }

    fn answer_from_master(&mut self, acknowledged: bool) {
        if !acknowledged {
            self.reading = false;
        }
    }
}

/// The chip: it takes command bytes, acts on them and queues what it has to
/// say.
struct Chip {
    loopback: bool,
    low: u8,
    low_direction: u8,
    high: u8,
    high_direction: u8,
    divisor: u16,
    divide_by_five: bool,
    answers: Vec<u8>,
    eeprom: Option<Eeprom>,
    starts: usize,
    stops: usize,
    writes: usize,
}

impl Chip {
    fn new() -> Chip {
        Chip {
            loopback: true,
            low: 0xff,
            low_direction: 0,
            high: 0xff,
            high_direction: 0,
            divisor: 0xffff,
            divide_by_five: true,
            answers: Vec::new(),
            eeprom: None,
            starts: 0,
            stops: 0,
            writes: 0,
        }
    }

    fn with_eeprom(address: u8) -> Chip {
        let mut chip = Chip::new();
        chip.eeprom = Some(Eeprom::new(address));
        chip
    }

    fn set_low(&mut self, value: u8, direction: u8) {
        let clock_was = self.low & 1;
        let data_was = (self.low >> 1) & 1;
        let clock = value & 1;
        let data = (value >> 1) & 1;
        let driven = direction & 0b11 == 0b11 && self.low_direction & 0b11 == 0b11;
        if driven && clock_was == 1 && clock == 1 {
            if data_was == 1 && data == 0 {
                self.starts += 1;
                if let Some(eeprom) = self.eeprom.as_mut() {
                    eeprom.start();
                }
            }
            if data_was == 0 && data == 1 {
                self.stops += 1;
                if let Some(eeprom) = self.eeprom.as_mut() {
                    eeprom.stop();
                }
            }
        }
        self.low = value;
        self.low_direction = direction;
    }

    fn send(&mut self, bytes: &[u8]) {
        if bytes.is_empty() {
            return;
        }
        self.writes += 1;
        let mut at = 0;
        while at < bytes.len() {
            let code = bytes[at];
            match code {
                0x80 => {
                    self.set_low(bytes[at + 1], bytes[at + 2]);
                    at += 3;
                }
                0x82 => {
                    self.high = bytes[at + 1];
                    self.high_direction = bytes[at + 2];
                    at += 3;
                }
                0x81 => {
                    self.answers.push(self.low);
                    at += 1;
                }
                0x83 => {
                    self.answers.push(self.high);
                    at += 1;
                }
                0x84 => {
                    self.loopback = true;
                    at += 1;
                }
                0x85 => {
                    self.loopback = false;
                    at += 1;
                }
                0x86 => {
                    self.divisor = bytes[at + 1] as u16 | (bytes[at + 2] as u16) << 8;
                    at += 3;
                }
                0x8a => {
                    self.divide_by_five = false;
                    at += 1;
                }
                0x8b => {
                    self.divide_by_five = true;
                    at += 1;
                }
                0x87 | 0x8d | 0x97 => {
                    at += 1;
                }
                0x10 | 0x11 => {
                    let count = bytes[at + 1] as usize + ((bytes[at + 2] as usize) << 8) + 1;
                    for &byte in &bytes[at + 3..at + 3 + count] {
                        if let Some(eeprom) = self.eeprom.as_mut() {
                            eeprom.byte_from_master(byte);
                        }
                    }
                    at += 3 + count;
                }
                0x20 | 0x24 => {
                    let count = bytes[at + 1] as usize + ((bytes[at + 2] as usize) << 8) + 1;
                    for _ in 0..count {
                        let byte = match self.eeprom.as_mut() {
                            Some(eeprom) => eeprom.byte_to_master(),
                            None => 0xff,
                        };
                        self.answers.push(byte);
                    }
                    at += 3;
                }
                0x31 | 0x34 => {
                    let count = bytes[at + 1] as usize + ((bytes[at + 2] as usize) << 8) + 1;
                    for &byte in &bytes[at + 3..at + 3 + count] {
                        self.answers.push(if self.loopback { byte } else { 0xff });
                    }
                    at += 3 + count;
                }
                0x12 | 0x13 => {
                    assert_eq!(bytes[at + 1], 0, "one bit at a time");
                    let level = bytes[at + 2] >> 7;
                    assert_eq!(self.low_direction & 0b10, 0b10, "the data line is driven");
                    assert_eq!((self.low >> 1) & 1, level, "the line is at the level sent");
                    if let Some(eeprom) = self.eeprom.as_mut() {
                        eeprom.answer_from_master(level == 0);
                    }
                    at += 3;
                }
                0x22 | 0x26 => {
                    assert_eq!(bytes[at + 1], 0, "one bit at a time");
                    assert_eq!(self.low_direction & 0b10, 0, "the data line is let go of");
                    let level = match self.eeprom.as_ref() {
                        Some(eeprom) if eeprom.acked => 0,
                        _ => 1,
                    };
                    self.answers.push(level);
                    at += 2;
                }
                other => panic!("the chip does not know command {:#04x}", other),
            }
        }
    }

    fn recv(&mut self, count: usize) -> Vec<u8> {
        assert!(self.answers.len() >= count, "the chip has not that much to say");
        let rest = self.answers.split_off(count);
        std::mem::replace(&mut self.answers, rest)
    }

    fn exchange(&mut self, exchange: &Exchange) -> Vec<u8> {
        self.send(&exchange.command);
        self.recv(exchange.reply_len)
    }
}

fn open_x232h(chip: &mut Chip, frequency: u32) -> FTx232H {
    let (session, start) = FTx232H::init(frequency);
    chip.exchange(&start);
    session
}

fn open_ft232h(chip: &mut Chip) -> FT232H {
    let (session, start) = FT232H::init();
    chip.exchange(&start);
    session
}

fn spi_of(chip: &mut Chip, session: &mut FTx232H) -> SpiBus {
    let (bus, setup) = session.spi(SpiSpeed::CLK_AUTO).unwrap();
    chip.exchange(&setup);
    bus
}

fn i2c_of(chip: &mut Chip, session: &mut FTx232H) -> I2cBus {
    let (bus, setup) = session.i2c(I2cSpeed::CLK_AUTO).unwrap();
    chip.exchange(&setup);
    bus
}

fn transfer(chip: &mut Chip, bus: &SpiBus, buffer: &mut [u8]) {
    let exchange = bus.transfer(buffer);
    let reply = chip.exchange(&exchange);
    buffer.copy_from_slice(&reply);
}

fn carry_out(chip: &mut Chip, bus: &mut I2cBus, first: I2cAction) -> Result<(), X232Error> {
    let mut action = first;
    loop {
        match action {
            I2cAction::Exchange(exchange) => {
                let reply = chip.exchange(&exchange);
                action = bus.step(&reply);
            }
            I2cAction::Done(result) => return result,
        }
    }
}

fn i2c_write(chip: &mut Chip, bus: &mut I2cBus, address: u8, bytes: &[u8]) -> Result<(), X232Error> {
    let first = bus.write(address, bytes);
    carry_out(chip, bus, first)
}

fn i2c_read(chip: &mut Chip, bus: &mut I2cBus, address: u8, buffer: &mut [u8]) -> Result<(), X232Error> {
    let first = bus.read(address, buffer.len());
    carry_out(chip, bus, first)?;
    buffer.copy_from_slice(bus.received());
    Ok(())
}

fn i2c_write_read(
    chip: &mut Chip,
    bus: &mut I2cBus,
    address: u8,
    bytes: &[u8],
    buffer: &mut [u8],
) -> Result<(), X232Error> {
    let first = bus.write_read(address, bytes, buffer.len());
    carry_out(chip, bus, first)?;
    buffer.copy_from_slice(bus.received());
    Ok(())
}

fn set_pin(chip: &mut Chip, pin: &GpioPin, level: bool) {
    let levels = chip.exchange(&pin.read_bank());
    let change = if level { pin.set_high(levels[0]) } else { pin.set_low(levels[0]) };
    chip.exchange(&change);
}

#[test]
fn test_init_t1() {
    let mut chip = Chip::new();
    let mut hal = open_x232h(&mut chip, 3_000_000);
    assert!(!chip.loopback);
    assert_eq!((chip.low, chip.low_direction), (0x00, 0xff));
    assert_eq!((chip.high, chip.high_direction), (0x00, 0xff));

    assert_eq!(hal.is_loopback(), false);
    let switch = hal.loopback(true);
    chip.exchange(&switch);
    assert_eq!(hal.is_loopback(), true);
    assert!(chip.loopback);
}

#[test]
fn test_init_t2() {
    let mut chip = Chip::new();
    let mut hal = open_x232h(&mut chip, 3_000_000);

    let pl0 = hal.pl0().unwrap();
    assert_eq!(pl0.get_bit(), 4);
    assert_eq!(pl0.get_bank(), PinBank::Low);
    assert_eq!(pl0.name(), "PL0");

    let pl1 = hal.pl1().unwrap();
    assert_eq!(pl1.get_bit(), 5);
    assert_eq!(pl1.get_bank(), PinBank::Low);
    assert_eq!(pl1.name(), "PL1");

    let pl2 = hal.pl2().unwrap();
    assert_eq!(pl2.get_bit(), 6);
    assert_eq!(pl2.get_bank(), PinBank::Low);
    assert_eq!(pl2.name(), "PL2");

    let pl3 = hal.pl3().unwrap();
    assert_eq!(pl3.get_bit(), 7);
    assert_eq!(pl3.get_bank(), PinBank::Low);
    assert_eq!(pl3.name(), "PL3");
}

#[test]
fn test_init_t3() {
    let mut chip = Chip::new();
    let mut hal = open_x232h(&mut chip, 3_000_000);

    let ph0 = hal.ph0().unwrap();
    assert_eq!(ph0.get_bit(), 0);
    assert_eq!(ph0.get_bank(), PinBank::High);
    assert_eq!(ph0.name(), "PH0");

    let ph1 = hal.ph1().unwrap();
    assert_eq!(ph1.get_bit(), 1);
    assert_eq!(ph1.get_bank(), PinBank::High);
    assert_eq!(ph1.name(), "PH1");

    let ph2 = hal.ph2().unwrap();
    assert_eq!(ph2.get_bit(), 2);
    assert_eq!(ph2.get_bank(), PinBank::High);
    assert_eq!(ph2.name(), "PH2");

    let ph3 = hal.ph3().unwrap();
    assert_eq!(ph3.get_bit(), 3);
    assert_eq!(ph3.get_bank(), PinBank::High);
    assert_eq!(ph3.name(), "PH3");

    let ph4 = hal.ph4().unwrap();
    assert_eq!(ph4.get_bit(), 4);
    assert_eq!(ph4.get_bank(), PinBank::High);
    assert_eq!(ph4.name(), "PH4");

    let ph5 = hal.ph5().unwrap();
    assert_eq!(ph5.get_bit(), 5);
    assert_eq!(ph5.get_bank(), PinBank::High);
    assert_eq!(ph5.name(), "PH5");

    let ph6 = hal.ph6().unwrap();
    assert_eq!(ph6.get_bit(), 6);
    assert_eq!(ph6.get_bank(), PinBank::High);
    assert_eq!(ph6.name(), "PH6");

    let ph7 = hal.ph7().unwrap();
    assert_eq!(ph7.get_bit(), 7);
    assert_eq!(ph7.get_bank(), PinBank::High);
    assert_eq!(ph7.name(), "PH7");
}

#[test]
fn test_init_t4() {
    let mut chip = Chip::new();
    let mut hal = open_x232h(&mut chip, 3_000_000);

    assert_eq!(hal.is_loopback(), false);

    let ph0_0 = hal.ph0();
    let ph0_1 = hal.ph0();
    let ph0_2 = hal.ph0();

    assert!(ph0_0.is_ok(), "First pin instance should be OK");
    assert!(ph0_1.is_err(), "There should be no second pin instance");
    assert!(ph0_2.is_err(), "There should be no third pin instance");
    assert_eq!(ph0_1.unwrap_err(), X232Error::HAL(ErrorKind::GpioPinBusy));
    assert_eq!(ph0_2.unwrap_err(), X232Error::HAL(ErrorKind::GpioPinBusy));
}

#[test]
fn test_init_t5() {
    let mut chip = Chip::new();
    let mut hal = open_x232h(&mut chip, 3_000_000);
    let mut spidev = spi_of(&mut chip, &mut hal);

    assert_eq!(hal.is_loopback(), false);

    let res = spidev.set_mode(MODE_0);
    assert!(res.is_ok(), "Can't set SPI MODE0");

    let res = spidev.set_mode(MODE_1);
    assert!(res.is_err(), "SPI MODE1 should not be supported");
    assert_eq!(res, Err(X232Error::HAL(ErrorKind::SpiModeNotSupported)));

    let res = spidev.set_mode(MODE_2);
    assert!(res.is_ok(), "Can't set SPI MODE2");

    let res = spidev.set_mode(MODE_3);
    assert!(res.is_err(), "SPI MODE3 should not be supported");
    assert_eq!(res, Err(X232Error::HAL(ErrorKind::SpiModeNotSupported)));
    assert_eq!(spidev.get_mode(), MODE_2);
}

#[test]
fn test_init_t6() {
    let mut chip = Chip::new();
    let mut hal = open_x232h(&mut chip, 3_000_000);

    assert_eq!(hal.is_loopback(), false);

    let spi1 = hal.spi(SpiSpeed::CLK_AUTO);
    assert!(spi1.is_ok(), "1st spi instance should be ok");

    let i2c = hal.i2c(I2cSpeed::CLK_AUTO);
    assert!(i2c.is_err(), "i2c instance after spi should not be ok");
    assert_eq!(i2c.unwrap_err(), X232Error::HAL(ErrorKind::BusBusy));

    let spi2 = hal.spi(SpiSpeed::CLK_AUTO);
    assert!(spi2.is_ok(), "2nd spi instance should be ok");
}

#[test]
fn test_init_t7() {
    let mut chip = Chip::new();
    let mut hal = open_x232h(&mut chip, 3_000_000);

    assert_eq!(hal.is_loopback(), false);

    let i2c1 = hal.i2c(I2cSpeed::CLK_AUTO);
    assert!(i2c1.is_ok(), "1st i2c instance should be ok");

    let spi = hal.spi(SpiSpeed::CLK_AUTO);
    assert!(spi.is_err(), "spi instance after i2c should not be ok");
    assert_eq!(spi.unwrap_err(), X232Error::HAL(ErrorKind::BusBusy));

    let i2c2 = hal.i2c(I2cSpeed::CLK_AUTO);
    assert!(i2c2.is_ok(), "2nd i2c instance should be ok");
}

#[test]
fn test_init_t8() {
    let mut chip = Chip::new();
    let mut hal = open_x232h(&mut chip, 3_000_000);

    assert_eq!(hal.is_loopback(), false);

    let spi1 = hal.spi(SpiSpeed::CLK_AUTO);
    assert!(spi1.is_ok(), "1st spi instance should be ok");

    let spi2 = hal.spi(SpiSpeed::CLK_AUTO);
    assert!(spi2.is_ok(), "2nd spi instance should be ok");

    let spi3 = hal.spi(SpiSpeed::CLK_AUTO);
    assert!(spi3.is_ok(), "3rd spi should be ok");

    let spi4 = hal.spi(SpiSpeed::CLK_AUTO);
    assert!(spi4.is_ok(), "3rd spi should be ok");
}

#[test]
fn test_init_t9() {
    let mut chip = Chip::new();
    let mut hal = open_x232h(&mut chip, 3_000_000);

    assert_eq!(hal.is_loopback(), false);

    let i2c1 = hal.i2c(I2cSpeed::CLK_AUTO);
    assert!(i2c1.is_ok(), "1st i2c instance should be ok");

    let i2c2 = hal.i2c(I2cSpeed::CLK_AUTO);
    assert!(i2c2.is_ok(), "2nd i2c instance should be ok");

    let i2c3 = hal.i2c(I2cSpeed::CLK_AUTO);
    assert!(i2c3.is_ok(), "3rd i2c instance should be ok");

    let i2c4 = hal.i2c(I2cSpeed::CLK_AUTO);
    assert!(i2c4.is_ok(), "4th i2c instance should be ok");
}

#[test]
fn test_loopback_t1() {
    let mut chip = Chip::new();
    let mut hal = open_x232h(&mut chip, 3_000_000);

    let switch = hal.loopback(true);
    chip.exchange(&switch);
    assert_eq!(hal.is_loopback(), true);

    let spidev = spi_of(&mut chip, &mut hal);

    // loopback: 1-byte messages
    for v in 0x0..0xff {
        let mut tx = [v; 1];
        let cx = tx;
        transfer(&mut chip, &spidev, &mut tx);

        assert_eq!(cx, tx);
    }
}

#[test]
fn test_loopback_t2() {
    let mut chip = Chip::new();
    let mut hal = open_x232h(&mut chip, 3_000_000);

    let switch = hal.loopback(true);
    chip.exchange(&switch);
    assert_eq!(hal.is_loopback(), true);

    let spidev = spi_of(&mut chip, &mut hal);

    // loopback: 3-byte messages
    for ((x, y), z) in (1..5u8).cartesian_product(11..15u8).cartesian_product(21..25u8) {
        let mut tx = [x, y, z];
        let cx = tx;
        transfer(&mut chip, &spidev, &mut tx);
        assert_eq!(cx, tx);
    }
}

#[test]
fn test_loopback_t3() {
    let mut chip = Chip::new();
    let mut hal = open_x232h(&mut chip, 3_000_000);

    let switch = hal.loopback(true);
    chip.exchange(&switch);
    assert_eq!(hal.is_loopback(), true);

    let spidev = spi_of(&mut chip, &mut hal);

    // loopback: 5-byte random messages
    for _ in 1..10 {
        let mut rng = rand::thread_rng();
        let mut tx: Vec<u8> = (0..5)
            .map(|_| {
                // 0 (inclusive) to 254 (inclusive)
                rng.gen_range(0..255)
            })
            .collect();
        let cx = tx.clone();
        transfer(&mut chip, &spidev, &mut tx);
        assert_eq!(cx, tx);
    }
}

#[test]
fn test_loopback_multi_bus_t1() {
    let mut chip = Chip::new();
    let mut hal = open_x232h(&mut chip, 3_000_000);

    let switch = hal.loopback(true);
    chip.exchange(&switch);
    assert_eq!(hal.is_loopback(), true);

    let spidev1 = spi_of(&mut chip, &mut hal);
    let spidev2 = spi_of(&mut chip, &mut hal);

    // loopback: 1-byte messages on both protocol buses
    for v in 0x0..0xff {
        let mut tx1 = [v; 1];
        let cx1 = tx1;

        let mut tx2 = [v; 1];
        let cx2 = tx2;

        transfer(&mut chip, &spidev1, &mut tx1);
        transfer(&mut chip, &spidev2, &mut tx2);

        assert_eq!(cx1, tx1);
        assert_eq!(cx2, tx2);
    }
}

#[test]
fn loopback_in_the_other_clock_convention() {
    let mut chip = Chip::new();
    let mut hal = open_x232h(&mut chip, 3_000_000);
    let switch = hal.loopback(true);
    chip.exchange(&switch);
    let mut spidev = spi_of(&mut chip, &mut hal);
    spidev.set_mode(MODE_2).unwrap();
    for v in 0..=255u8 {
        let mut tx = [v, !v];
        transfer(&mut chip, &spidev, &mut tx);
        assert_eq!(tx, [v, !v]);
    }
}

#[test]
fn without_loopback_nothing_comes_back() {
    let mut chip = Chip::new();
    let mut hal = open_x232h(&mut chip, 3_000_000);
    let spidev = spi_of(&mut chip, &mut hal);
    let mut tx = [1, 2, 3];
    transfer(&mut chip, &spidev, &mut tx);
    assert_eq!(tx, [0xff, 0xff, 0xff]);
}

#[test]
fn ft232h_starts_the_chip() {
    let mut chip = Chip::new();
    let hal = open_ft232h(&mut chip);
    assert!(!hal.is_loopback());
    assert_eq!(hal.bus_mode(), BusMode::Free);
    assert!(!chip.loopback);
    assert!(!chip.divide_by_five);
    assert_eq!((chip.low, chip.low_direction), (0x00, 0xff));
    assert_eq!((chip.high, chip.high_direction), (0x00, 0xff));
}

#[test]
fn ft232h_programs_the_clock() {
    let mut chip = Chip::new();
    let mut hal = open_ft232h(&mut chip);
    let (_, setup) = hal.spi(SpiSpeed::CLK_5MHz).unwrap();
    chip.exchange(&setup);
    assert_eq!(chip.divisor, 5);
    assert_eq!(60_000_000 / ((1 + chip.divisor as u32) * 2), 5_000_000);
    assert_eq!((chip.low, chip.low_direction), (0x00, 0xfb));
    assert_eq!(hal.bus_mode(), BusMode::Spi(SpiSpeed::CLK_5MHz));

    let mut chip = Chip::new();
    let mut hal = open_ft232h(&mut chip);
    let (_, setup) = hal.i2c(I2cSpeed::CLK_AUTO).unwrap();
    chip.exchange(&setup);
    assert_eq!(chip.divisor, 299);
    assert_eq!(60_000_000 / ((1 + chip.divisor as u32) * 2), 100_000);
    assert_eq!(hal.bus_mode(), BusMode::I2c(I2cSpeed::CLK_AUTO));
}

#[test]
fn ft232h_buses_exclude_each_other() {
    let (mut hal, _) = FT232H::init();
    assert!(hal.spi(SpiSpeed::CLK_AUTO).is_ok());
    for speed in [I2cSpeed::CLK_AUTO, I2cSpeed::CLK_100kHz, I2cSpeed::CLK_400kHz] {
        assert_eq!(hal.i2c(speed).unwrap_err(), X232Error::HAL(ErrorKind::BusBusy));
    }
    assert!(hal.spi(SpiSpeed::CLK_AUTO).is_ok());
    assert_eq!(hal.bus_mode(), BusMode::Spi(SpiSpeed::CLK_AUTO));

    let (mut hal, _) = FT232H::init();
    assert!(hal.i2c(I2cSpeed::CLK_400kHz).is_ok());
    for speed in [SpiSpeed::CLK_AUTO, SpiSpeed::CLK_1MHz, SpiSpeed::CLK_20MHz] {
        assert_eq!(hal.spi(speed).unwrap_err(), X232Error::HAL(ErrorKind::BusBusy));
    }
    assert!(hal.i2c(I2cSpeed::CLK_400kHz).is_ok());
    assert!(hal.i2c(I2cSpeed::CLK_AUTO).is_ok());
    assert_eq!(hal.bus_mode(), BusMode::I2c(I2cSpeed::CLK_400kHz));
}

#[test]
fn ft232h_first_speed_binds() {
    let (mut hal, _) = FT232H::init();
    assert!(hal.spi(SpiSpeed::CLK_1MHz).is_ok());
    assert!(hal.spi(SpiSpeed::CLK_1MHz).is_ok());
    assert_eq!(
        hal.spi(SpiSpeed::CLK_3MHz).unwrap_err(),
        X232Error::HAL(ErrorKind::InvalidClock)
    );
    assert!(hal.spi(SpiSpeed::CLK_AUTO).is_ok());
    assert_eq!(hal.bus_mode(), BusMode::Spi(SpiSpeed::CLK_1MHz));

    let (mut hal, _) = FT232H::init();
    assert!(hal.i2c(I2cSpeed::CLK_100kHz).is_ok());
    assert!(hal.i2c(I2cSpeed::CLK_100kHz).is_ok());
    assert_eq!(
        hal.i2c(I2cSpeed::CLK_400kHz).unwrap_err(),
        X232Error::HAL(ErrorKind::InvalidClock)
    );
    assert!(hal.i2c(I2cSpeed::CLK_AUTO).is_ok());
    assert_eq!(hal.bus_mode(), BusMode::I2c(I2cSpeed::CLK_100kHz));
}

#[test]
fn x232h_first_speed_binds() {
    let mut chip = Chip::new();
    let mut hal = open_x232h(&mut chip, 3_000_000);
    let (_, setup) = hal.spi(SpiSpeed::CLK_1MHz).unwrap();
    assert_eq!(setup.command, vec![0x80, 0x00, 0xfb, 0x86, 0x1d, 0x00]);
    chip.exchange(&setup);
    assert_eq!(chip.divisor, 29);
    assert_eq!(hal.bus_mode(), BusMode::Spi(SpiSpeed::CLK_1MHz));

    let (_, again) = hal.spi(SpiSpeed::CLK_1MHz).unwrap();
    assert!(again.command.is_empty());
    let writes = chip.writes;
    assert_eq!(
        hal.spi(SpiSpeed::CLK_3MHz).unwrap_err(),
        X232Error::HAL(ErrorKind::InvalidClock)
    );
    assert_eq!(hal.bus_mode(), BusMode::Spi(SpiSpeed::CLK_1MHz));
    let (_, auto) = hal.spi(SpiSpeed::CLK_AUTO).unwrap();
    assert!(auto.command.is_empty());
    chip.exchange(&auto);
    assert_eq!(chip.writes, writes);
    assert_eq!(chip.divisor, 29);
    assert_eq!(hal.bus_mode(), BusMode::Spi(SpiSpeed::CLK_1MHz));
    assert_eq!(
        hal.i2c(I2cSpeed::CLK_AUTO).unwrap_err(),
        X232Error::HAL(ErrorKind::BusBusy)
    );

    let (mut hal, _) = FTx232H::init(3_000_000);
    assert!(hal.i2c(I2cSpeed::CLK_400kHz).is_ok());
    assert!(hal.i2c(I2cSpeed::CLK_400kHz).is_ok());
    assert_eq!(
        hal.i2c(I2cSpeed::CLK_100kHz).unwrap_err(),
        X232Error::HAL(ErrorKind::InvalidClock)
    );
    assert!(hal.i2c(I2cSpeed::CLK_AUTO).is_ok());
    assert_eq!(hal.bus_mode(), BusMode::I2c(I2cSpeed::CLK_400kHz));
    assert_eq!(
        hal.spi(SpiSpeed::CLK_AUTO).unwrap_err(),
        X232Error::HAL(ErrorKind::BusBusy)
    );
}

#[test]
fn lines_committed_at_auto_refuse_no_speed() {
    let all_spi = [
        SpiSpeed::CLK_AUTO,
        SpiSpeed::CLK_500kHz,
        SpiSpeed::CLK_1MHz,
        SpiSpeed::CLK_2MHz,
        SpiSpeed::CLK_2_5MHz,
        SpiSpeed::CLK_3MHz,
        SpiSpeed::CLK_5MHz,
        SpiSpeed::CLK_10MHz,
        SpiSpeed::CLK_20MHz,
    ];
    let (mut plain, _) = FT232H::init();
    let (mut built, _) = FTx232H::init(3_000_000);
    assert!(plain.spi(SpiSpeed::CLK_AUTO).is_ok());
    assert!(built.spi(SpiSpeed::CLK_AUTO).is_ok());
    for speed in all_spi {
        let (_, nothing) = plain.spi(speed).unwrap();
        assert!(nothing.command.is_empty());
        let (_, nothing) = built.spi(speed).unwrap();
        assert!(nothing.command.is_empty());
        assert_eq!(plain.bus_mode(), BusMode::Spi(SpiSpeed::CLK_AUTO));
        assert_eq!(built.bus_mode(), BusMode::Spi(SpiSpeed::CLK_AUTO));
    }

    let (mut plain, _) = FT232H::init();
    let (mut built, _) = FTx232H::init(3_000_000);
    assert!(plain.i2c(I2cSpeed::CLK_AUTO).is_ok());
    assert!(built.i2c(I2cSpeed::CLK_AUTO).is_ok());
    for speed in [I2cSpeed::CLK_AUTO, I2cSpeed::CLK_100kHz, I2cSpeed::CLK_400kHz] {
        let (_, nothing) = plain.i2c(speed).unwrap();
        assert!(nothing.command.is_empty());
        let (_, nothing) = built.i2c(speed).unwrap();
        assert!(nothing.command.is_empty());
        assert_eq!(plain.bus_mode(), BusMode::I2c(I2cSpeed::CLK_AUTO));
        assert_eq!(built.bus_mode(), BusMode::I2c(I2cSpeed::CLK_AUTO));
    }
}

#[test]
fn every_named_speed_refuses_every_other() {
    let named = [
        SpiSpeed::CLK_500kHz,
        SpiSpeed::CLK_1MHz,
        SpiSpeed::CLK_2MHz,
        SpiSpeed::CLK_2_5MHz,
        SpiSpeed::CLK_3MHz,
        SpiSpeed::CLK_5MHz,
        SpiSpeed::CLK_10MHz,
        SpiSpeed::CLK_20MHz,
    ];
    for first in named {
        for later in named {
            let (mut hal, _) = FTx232H::init(3_000_000);
            assert!(hal.spi(first).is_ok());
            let answer = hal.spi(later);
            if later == first {
                assert!(answer.is_ok());
            } else {
                assert_eq!(answer.unwrap_err(), X232Error::HAL(ErrorKind::InvalidClock));
            }
            assert_eq!(hal.bus_mode(), BusMode::Spi(first));
        }
    }
}

#[test]
fn ft232h_pins_are_handed_out_once() {
    let (mut hal, _) = FT232H::init();
    assert!(hal.ph0().is_ok());
    assert_eq!(hal.ph0().unwrap_err(), X232Error::HAL(ErrorKind::GpioPinBusy));
    assert_eq!(hal.ph0().unwrap_err(), X232Error::HAL(ErrorKind::GpioPinBusy));
    assert_eq!(
        hal.acquire_pin(PinDescriptor { bit: 0, bank: PinBank::High }).unwrap_err(),
        X232Error::HAL(ErrorKind::GpioPinBusy)
    );
    // the other eleven are still to be had, each once
    let names: Vec<String> = vec![
        hal.pl0().unwrap().name(),
        hal.pl1().unwrap().name(),
        hal.pl2().unwrap().name(),
        hal.pl3().unwrap().name(),
        hal.ph1().unwrap().name(),
        hal.ph2().unwrap().name(),
        hal.ph3().unwrap().name(),
        hal.ph4().unwrap().name(),
        hal.ph5().unwrap().name(),
        hal.ph6().unwrap().name(),
        hal.ph7().unwrap().name(),
    ];
    assert_eq!(
        names,
        ["PL0", "PL1", "PL2", "PL3", "PH1", "PH2", "PH3", "PH4", "PH5", "PH6", "PH7"]
    );
    for bank in [PinBank::Low, PinBank::High] {
        for bit in 0..8 {
            let again = hal.acquire_pin(PinDescriptor { bit, bank });
            if bank == PinBank::Low && bit < 4 {
                assert_eq!(again.unwrap_err(), X232Error::HAL(ErrorKind::GpioInvalidPin));
            } else {
                assert_eq!(again.unwrap_err(), X232Error::HAL(ErrorKind::GpioPinBusy));
            }
        }
    }
}

#[test]
fn pins_that_do_not_exist() {
    let (mut hal, _) = FT232H::init();
    for bit in [8u8, 9, 100, 255] {
        for bank in [PinBank::Low, PinBank::High] {
            assert_eq!(
                hal.acquire_pin(PinDescriptor { bit, bank }).unwrap_err(),
                X232Error::HAL(ErrorKind::GpioInvalidPin)
            );
        }
    }
    for bit in 0..4u8 {
        assert_eq!(
            hal.acquire_pin(PinDescriptor { bit, bank: PinBank::Low }).unwrap_err(),
            X232Error::HAL(ErrorKind::GpioInvalidPin)
        );
    }
    // a refusal takes no pin away
    assert!(hal.pl0().is_ok());
    assert!(hal.ph7().is_ok());

    let (mut hal, _) = FTx232H::init(1_000_000);
    assert_eq!(
        hal.acquire_pin(PinDescriptor { bit: 8, bank: PinBank::High }).unwrap_err(),
        X232Error::HAL(ErrorKind::GpioInvalidPin)
    );
    let pin = hal.acquire_pin(PinDescriptor { bit: 6, bank: PinBank::Low }).unwrap();
    assert_eq!(pin.name(), "PL2");
    assert_eq!(hal.pl2().unwrap_err(), X232Error::HAL(ErrorKind::GpioPinBusy));
}

#[test]
fn pins_drive_the_chip() {
    let mut chip = Chip::new();
    let mut hal = open_x232h(&mut chip, 3_000_000);
    let ph2 = hal.ph2().unwrap();
    let ph5 = hal.ph5().unwrap();
    let pl1 = hal.pl1().unwrap();

    set_pin(&mut chip, &ph2, true);
    assert_eq!(chip.high, 0b0000_0100);
    set_pin(&mut chip, &ph5, true);
    assert_eq!(chip.high, 0b0010_0100);
    set_pin(&mut chip, &ph2, false);
    assert_eq!(chip.high, 0b0010_0000);
    assert_eq!(chip.high_direction, 0xff);

    set_pin(&mut chip, &pl1, true);
    assert_eq!(chip.low, 0b0010_0000);
    assert_eq!(chip.low_direction, 0xfb);
    set_pin(&mut chip, &pl1, false);
    assert_eq!(chip.low, 0b0000_0000);
    assert_eq!(chip.high, 0b0010_0000);
}

#[test]
fn eeprom_byte_round_trip() {
    let mut chip = Chip::with_eeprom(0x50);
    let mut hal = open_x232h(&mut chip, 400_000);
    let mut i2c = i2c_of(&mut chip, &mut hal);

    for value in [0x00u8, 0x01, 0x5a, 0xa5, 0xff] {
        i2c_write(&mut chip, &mut i2c, 0x50, &[0x00, value]).unwrap();
        let mut byte = [0u8; 1];
        i2c_write_read(&mut chip, &mut i2c, 0x50, &[0x00], &mut byte).unwrap();
        assert_eq!(byte, [value]);
    }
}

#[test]
fn eeprom_page_round_trip() {
    let mut chip = Chip::with_eeprom(0x50);
    let mut hal = open_x232h(&mut chip, 400_000);
    let mut i2c = i2c_of(&mut chip, &mut hal);

    for base in [0x00u8, 0x10, 0x40, 0xf0] {
        let page = [base ^ 0x11, base ^ 0x22, base ^ 0x33, base ^ 0x44];
        i2c_write(&mut chip, &mut i2c, 0x50, &[base, page[0], page[1], page[2], page[3]]).unwrap();
        let mut back = [0u8; 4];
        i2c_write_read(&mut chip, &mut i2c, 0x50, &[base], &mut back).unwrap();
        assert_eq!(back, page);
        // reading twice changes nothing
        let mut once_more = [0u8; 4];
        i2c_write_read(&mut chip, &mut i2c, 0x50, &[base], &mut once_more).unwrap();
        assert_eq!(once_more, page);
    }
}

#[test]
fn eeprom_reads_on_from_the_cursor() {
    let mut chip = Chip::with_eeprom(0x50);
    let mut hal = open_x232h(&mut chip, 400_000);
    let mut i2c = i2c_of(&mut chip, &mut hal);

    i2c_write(&mut chip, &mut i2c, 0x50, &[0x20, 1, 2, 3, 4, 5, 6]).unwrap();
    i2c_write(&mut chip, &mut i2c, 0x50, &[0x20]).unwrap();
    let mut first = [0u8; 2];
    i2c_read(&mut chip, &mut i2c, 0x50, &mut first).unwrap();
    assert_eq!(first, [1, 2]);
    let mut next = [0u8; 4];
    i2c_read(&mut chip, &mut i2c, 0x50, &mut next).unwrap();
    assert_eq!(next, [3, 4, 5, 6]);
}

#[test]
fn absent_device_does_not_acknowledge() {
    let mut chip = Chip::with_eeprom(0x50);
    let mut hal = open_x232h(&mut chip, 400_000);
    let mut i2c = i2c_of(&mut chip, &mut hal);
    let (starts, stops) = (chip.starts, chip.stops);

    assert_eq!(
        i2c_write(&mut chip, &mut i2c, 0x51, &[0x00, 0x01]),
        Err(X232Error::HAL(ErrorKind::I2cNoAck))
    );
    // the bus was let go of all the same
    assert_eq!(chip.starts, starts + 1);
    assert_eq!(chip.stops, stops + 1);

    let mut buffer = [0u8; 2];
    assert_eq!(
        i2c_read(&mut chip, &mut i2c, 0x51, &mut buffer),
        Err(X232Error::HAL(ErrorKind::I2cNoAck))
    );
    assert_eq!(chip.starts, starts + 2);
    assert_eq!(chip.stops, stops + 2);

    assert_eq!(
        i2c_write_read(&mut chip, &mut i2c, 0x51, &[0x00], &mut buffer),
        Err(X232Error::HAL(ErrorKind::I2cNoAck))
    );
    assert_eq!(chip.starts, starts + 3);
    assert_eq!(chip.stops, stops + 3);

    // and the device next door still answers
    i2c_write(&mut chip, &mut i2c, 0x50, &[0x00, 0x77]).unwrap();
    let mut byte = [0u8; 1];
    i2c_write_read(&mut chip, &mut i2c, 0x50, &[0x00], &mut byte).unwrap();
    assert_eq!(byte, [0x77]);
}

#[test]
fn no_device_at_all() {
    let mut chip = Chip::new();
    let mut hal = open_x232h(&mut chip, 100_000);
    let mut i2c = i2c_of(&mut chip, &mut hal);
    assert_eq!(
        i2c_write(&mut chip, &mut i2c, 0x50, &[1]),
        Err(X232Error::HAL(ErrorKind::I2cNoAck))
    );
    assert_eq!(chip.stops, 1);
}

#[test]
fn empty_transfers_leave_the_bus_alone() {
    let mut chip = Chip::with_eeprom(0x50);
    let mut hal = open_x232h(&mut chip, 400_000);
    let mut i2c = i2c_of(&mut chip, &mut hal);
    let writes = chip.writes;

    assert_eq!(i2c_write(&mut chip, &mut i2c, 0x50, &[]), Ok(()));
    assert_eq!(i2c_read(&mut chip, &mut i2c, 0x50, &mut []), Ok(()));
    assert_eq!(
        i2c_write_read(&mut chip, &mut i2c, 0x50, &[], &mut [0u8; 2]),
        Err(X232Error::HAL(ErrorKind::InvalidParams))
    );
    assert_eq!(
        i2c_write_read(&mut chip, &mut i2c, 0x50, &[1], &mut []),
        Err(X232Error::HAL(ErrorKind::InvalidParams))
    );
    assert_eq!(chip.writes, writes);
    assert_eq!(chip.starts, 0);
    assert_eq!(chip.stops, 0);
}

#[test]
fn one_start_and_one_stop_for_each_transfer() {
    let mut chip = Chip::with_eeprom(0x50);
    let mut hal = open_x232h(&mut chip, 400_000);
    let mut i2c = i2c_of(&mut chip, &mut hal);

    i2c_write(&mut chip, &mut i2c, 0x50, &[0x00, 1, 2, 3]).unwrap();
    assert_eq!((chip.starts, chip.stops), (1, 1));
    i2c_read(&mut chip, &mut i2c, 0x50, &mut [0u8; 3]).unwrap();
    assert_eq!((chip.starts, chip.stops), (2, 2));
    // a write followed by a read starts twice and stops once
    i2c_write_read(&mut chip, &mut i2c, 0x50, &[0x00], &mut [0u8; 3]).unwrap();
    assert_eq!((chip.starts, chip.stops), (4, 3));
}

#[test]
fn upper_pins_keep_their_levels_during_i2c() {
    let mut chip = Chip::with_eeprom(0x50);
    let mut hal = open_x232h(&mut chip, 400_000);
    let pl3 = hal.pl3().unwrap();
    let pl0 = hal.pl0().unwrap();
    set_pin(&mut chip, &pl3, true);
    set_pin(&mut chip, &pl0, true);
    let mut i2c = i2c_of(&mut chip, &mut hal);
    set_pin(&mut chip, &pl3, true);
    assert_eq!(chip.low & 0xf0, 0x80);
    i2c_write(&mut chip, &mut i2c, 0x50, &[0x00, 0x42]).unwrap();
    assert_eq!(chip.low & 0xf0, 0x80);
    let mut byte = [0u8; 1];
    i2c_write_read(&mut chip, &mut i2c, 0x50, &[0x00], &mut byte).unwrap();
    assert_eq!(byte, [0x42]);
    assert_eq!(chip.low & 0xf0, 0x80);
}

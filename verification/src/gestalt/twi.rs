//! Two-wire (I2C) master with EasyDMA: instance addresses and the register
//! values that configure and start a transfer.
use vstd::prelude::*;
use crate::gestalt::gpio::GpioPin;
use crate::registers::{register_word, selects_rate, TASK_TRIGGER};

verus! {

/// The two TWI master instances.
#[derive(Copy, Clone, PartialEq, Eq, Structural, Debug)]
pub enum TwiInst {
    Twi0,
    Twi1,
}

impl TwiInst {
    pub open spec fn spec_base_address(self) -> u32 {
        match self {
            TwiInst::Twi0 => 0x40003000,
            TwiInst::Twi1 => 0x40004000,
        }
    }

    /// Base address of the instance's register block.
    pub fn base_address(self) -> (v: u32)
        ensures
            v == self.spec_base_address(),
            v == 0x4000_0000 + self.peripheral_id() * 0x1000,
    {
        match self {
            TwiInst::Twi0 => 0x40003000,
            TwiInst::Twi1 => 0x40004000,
        }
    }
}

/// Bus frequencies, as the FREQUENCY register encodes them.
#[derive(Copy, Clone, PartialEq, Eq, Structural, Debug)]
pub enum Freq {
    ///100 kbps
    Freq100k,
    ///250 kbps
    Freq250k,
    ///400 kbps
    Freq400k,
}

impl Freq {
    pub open spec fn spec_register_value(self) -> u32 {
        match self {
            Freq::Freq100k => 0x1980000,
            Freq::Freq250k => 0x4000000,
            Freq::Freq400k => 0x6400000,
        }
    }

    /// The FREQUENCY register word of the frequency.
    pub fn register_value(self) -> (v: u32)
        ensures
            v == self.spec_register_value(),
            selects_rate(v, self.nominal_hz()),
    {
        match self {
            Freq::Freq100k => 0x1980000,
            Freq::Freq250k => 0x4000000,
            Freq::Freq400k => 0x6400000,
        }
    }
}

impl Freq {
    /// The nominal bus frequency that the variant names, in Hz.
    pub open spec fn nominal_hz(self) -> nat {
        match self {
            Freq::Freq100k => 100_000,
            Freq::Freq250k => 250_000,
            Freq::Freq400k => 400_000,
        }
    }
}

/// Every FREQUENCY word selects its nominal bus frequency to within 2.5%
/// (`word * 16 MHz / 2^32`), and a higher frequency has a larger word.
pub proof fn lemma_freq_words_select_their_rates(a: Freq, b: Freq)
    ensures
        selects_rate(a.spec_register_value(), a.nominal_hz()),
        a.nominal_hz() < b.nominal_hz() ==> a.spec_register_value() < b.spec_register_value(),
{
}

impl TwiInst {
    /// The instance's peripheral ID on the APB bus.
    pub open spec fn peripheral_id(self) -> nat {
        match self {
            TwiInst::Twi0 => 3,
            TwiInst::Twi1 => 4,
        }
    }
}

/// Each instance's registers start at `0x4000_0000 + ID * 0x1000`.
pub proof fn lemma_twi_base_from_id(inst: TwiInst)
    ensures
        inst.spec_base_address() == 0x4000_0000 + inst.peripheral_id() * 0x1000,
{
}

/// A handle on one TWI master instance, by base address.
pub struct Twi {
    pub base: u32,
}

/// The handle on instance `inst`.
pub fn new(inst: TwiInst) -> (twi: Twi)
    ensures
        twi.base == inst.spec_base_address(),
{
    Twi { base: inst.base_address() }
}

impl Twi {
    /// The word written to TASKS_STARTTX to start a transmission.
    pub fn write(&self) -> (task: u32)
        ensures
            task == TASK_TRIGGER,
    {
        TASK_TRIGGER
    }

    /// The word written to TASKS_STARTRX to start a reception.
    pub fn read(&self) -> (task: u32)
        ensures
            task == TASK_TRIGGER,
    {
        TASK_TRIGGER
    }

    /// The ENABLE word: 6 enables the TWI master, 0 disables the peripheral.
    pub fn enable(&self, state: bool) -> (enable: u32)
        ensures
            enable == (if state { 6u32 } else { 0u32 }),
    {
        let s: u32 = if state { 1 } else { 0 };
        s * 6
    }

    /// The PSEL.SDA word that routes SDA to `pin` (of port P0, connected).
    pub fn set_sda(&self, pin: GpioPin) -> (psel: u32)
        ensures
            psel == pin.spec_number(),
    {
        pin.number()
    }

    /// The PSEL.SCL word that routes SCL to `pin` (of port P0, connected).
    pub fn set_scl(&self, pin: GpioPin) -> (psel: u32)
        ensures
            psel == pin.spec_number(),
    {
        pin.number()
    }

    /// The FREQUENCY word of `freq`.
    pub fn set_freq(&self, freq: Freq) -> (frequency: u32)
        ensures
            frequency == freq.spec_register_value(),
    {
        freq.register_value()
    }

    /// The TXD.MAXCNT word for the transmit buffer `arr`: its length, cut to
    /// 32 bits. The buffer's address goes to TXD.PTR.
    pub fn set_tx_buf(&self, arr: &[u8]) -> (maxcnt: u32)
        ensures
            maxcnt as int == arr@.len() % 0x1_0000_0000,
    {
        register_word(arr.len())
    }

    /// The RXD.MAXCNT word for the receive buffer `arr`: its length, cut to
    /// 32 bits. The buffer's address goes to RXD.PTR.
    pub fn set_rx_buf(&self, arr: &[u8]) -> (maxcnt: u32)
        ensures
            maxcnt as int == arr@.len() % 0x1_0000_0000,
    {
        register_word(arr.len())
    }

    /// The ADDRESS word for the slave address `addr`: its low 32 bits.
    pub fn set_addr(&self, addr: usize) -> (address: u32)
        ensures
            address as int == addr as int % 0x1_0000_0000,
    {
        register_word(addr)
    }
}

} // verus!

//! UART with EasyDMA: instance addresses, baud rates and the register values
//! that configure it, start transfers and test and clear its events.
use vstd::prelude::*;
use crate::gestalt::gpio::GpioPin;
use crate::registers::{
    event_is_set, register_word, selects_rate, EVENT_CLEAR, EVENT_SET, TASK_TRIGGER,
};

verus! {

/// The two UARTE instances.
#[derive(Copy, Clone, PartialEq, Eq, Structural, Debug)]
pub enum UartInst {
    Uart0,
    Uart1,
}

impl UartInst {
    pub open spec fn spec_base_address(self) -> u32 {
        match self {
            UartInst::Uart0 => 0x40002000,
            UartInst::Uart1 => 0x40028000,
        }
    }

    /// Base address of the instance's register block.
    pub fn base_address(self) -> (v: u32)
        ensures
            v == self.spec_base_address(),
            v == 0x4000_0000 + self.peripheral_id() * 0x1000,
    {
        match self {
            UartInst::Uart0 => 0x40002000,
            UartInst::Uart1 => 0x40028000,
        }
    }
}

/// The UARTE events.
#[derive(Copy, Clone, PartialEq, Eq, Structural, Debug)]
pub enum UartFullEvents {
    Cts,
    Ncts,
    /// Data received in RXD (but potentially not yet transferred to Data RAM)
    Rxdy,
    Endrx,
    Txdy,
    Endtx,
    Error,
    Rxto,
    RxStarted,
    TxStarted,
    TxStopped,
}

/// Baud rates, as the BAUDRATE register encodes them.
#[derive(Copy, Clone, PartialEq, Eq, Structural, Debug)]
pub enum Baudrate {
    ///1200 baud (actual rate: 1205)
    Baud1200,
    ///2400 baud (actual rate: 2396)
    Baud2400,
    ///4800 baud (actual rate: 4808)
    Baud4800,
    ///9600 baud (actual rate: 9598)
    Baud9600,
    ///14400 baud (actual rate: 14401)
    Baud14400,
    ///19200 baud (actual rate: 19208)
    Baud19200,
    ///28800 baud (actual rate: 28777)
    Baud28800,
    ///31250 baud
    Baud31250,
    ///38400 baud (actual rate: 38369)
    Baud38400,
    ///56000 baud (actual rate: 55944)
    Baud56000,
    ///57600 baud (actual rate: 57554)
    Baud57600,
    ///76800 baud (actual rate: 76923)
    Baud76800,
    ///115200 baud (actual rate: 115108)
    Baud115200,
    ///230400 baud (actual rate: 231884)
    Baud230400,
    ///250000 baud
    Baud250000,
    ///460800 baud (actual rate: 457143)
    Baud460800,
    ///921600 baud (actual rate: 941176)
    Baud921600,
    ///1 Mega baud
    Baud1M,
}

impl Baudrate {
    pub open spec fn spec_register_value(self) -> u32 {
        match self {
            Baudrate::Baud1200 => 0x4f000,
            Baudrate::Baud2400 => 0x9d000,
            Baudrate::Baud4800 => 0x13b000,
            Baudrate::Baud9600 => 0x275000,
            Baudrate::Baud14400 => 0x3af000,
            Baudrate::Baud19200 => 0x4ea000,
            Baudrate::Baud28800 => 0x75c000,
            Baudrate::Baud31250 => 0x800000,
            Baudrate::Baud38400 => 0x9d0000,
            Baudrate::Baud56000 => 0xe50000,
            Baudrate::Baud57600 => 0xeb0000,
            Baudrate::Baud76800 => 0x13a9000,
            Baudrate::Baud115200 => 0x1d60000,
            Baudrate::Baud230400 => 0x3b00000,
            Baudrate::Baud250000 => 0x4000000,
            Baudrate::Baud460800 => 0x7400000,
            Baudrate::Baud921600 => 0xf000000,
            Baudrate::Baud1M => 0x10000000,
        }
    }

    /// The BAUDRATE register word of the rate.
    pub fn register_value(self) -> (v: u32)
        ensures
            v == self.spec_register_value(),
            selects_rate(v, self.nominal_baud()),
    {
        match self {
            Baudrate::Baud1200 => 0x4f000,
            Baudrate::Baud2400 => 0x9d000,
            Baudrate::Baud4800 => 0x13b000,
            Baudrate::Baud9600 => 0x275000,
            Baudrate::Baud14400 => 0x3af000,
            Baudrate::Baud19200 => 0x4ea000,
            Baudrate::Baud28800 => 0x75c000,
            Baudrate::Baud31250 => 0x800000,
            Baudrate::Baud38400 => 0x9d0000,
            Baudrate::Baud56000 => 0xe50000,
            Baudrate::Baud57600 => 0xeb0000,
            Baudrate::Baud76800 => 0x13a9000,
            Baudrate::Baud115200 => 0x1d60000,
            Baudrate::Baud230400 => 0x3b00000,
            Baudrate::Baud250000 => 0x4000000,
            Baudrate::Baud460800 => 0x7400000,
            Baudrate::Baud921600 => 0xf000000,
            Baudrate::Baud1M => 0x10000000,
        }
    }
}

impl Baudrate {
    /// The nominal rate that the variant names, in baud.
    pub open spec fn nominal_baud(self) -> nat {
        match self {
            Baudrate::Baud1200 => 1200,
            Baudrate::Baud2400 => 2400,
            Baudrate::Baud4800 => 4800,
            Baudrate::Baud9600 => 9600,
            Baudrate::Baud14400 => 14400,
            Baudrate::Baud19200 => 19200,
            Baudrate::Baud28800 => 28800,
            Baudrate::Baud31250 => 31250,
            Baudrate::Baud38400 => 38400,
            Baudrate::Baud56000 => 56000,
            Baudrate::Baud57600 => 57600,
            Baudrate::Baud76800 => 76800,
            Baudrate::Baud115200 => 115200,
            Baudrate::Baud230400 => 230400,
            Baudrate::Baud250000 => 250000,
            Baudrate::Baud460800 => 460800,
            Baudrate::Baud921600 => 921600,
            Baudrate::Baud1M => 1000000,
        }
    }
}

/// Every BAUDRATE word selects its nominal rate to within 2.5% (the chip
/// clocks the UART at `word * 16 MHz / 2^32`), and a higher nominal rate
/// always has a larger word.
pub proof fn lemma_baud_words_select_their_rates(a: Baudrate, b: Baudrate)
    ensures
        selects_rate(a.spec_register_value(), a.nominal_baud()),
        a.nominal_baud() < b.nominal_baud() ==> a.spec_register_value() < b.spec_register_value(),
        a != b ==> a.spec_register_value() != b.spec_register_value(),
{
}

impl UartInst {
    /// The instance's peripheral ID on the APB bus.
    pub open spec fn peripheral_id(self) -> nat {
        match self {
            UartInst::Uart0 => 2,
            UartInst::Uart1 => 40,
        }
    }
}

/// Each instance's registers start at `0x4000_0000 + ID * 0x1000`.
pub proof fn lemma_uart_base_from_id(inst: UartInst)
    ensures
        inst.spec_base_address() == 0x4000_0000 + inst.peripheral_id() * 0x1000,
{
}

/// A handle on one UARTE instance, by base address.
pub struct Uart {
    pub base: u32,
}

/// The handle on instance `inst`.
pub fn new(inst: UartInst) -> (uart: Uart)
    ensures
        uart.base == inst.spec_base_address(),
{
    Uart { base: inst.base_address() }
}

impl Uart {
    /// The word written to TASKS_STARTTX to start a transmission.
    pub fn write(&self) -> (task: u32)
        ensures
            task == TASK_TRIGGER,
    {
        TASK_TRIGGER
    }

    /// The word written to TASKS_STARTRX to start a reception.
    pub fn read(&self) -> (task: u32)
        ensures
            task == TASK_TRIGGER,
    {
        TASK_TRIGGER
    }

    /// The ENABLE word: 8 enables the UARTE, 0 disables it.
    pub fn enable(&self, state: bool) -> (enable: u32)
        ensures
            enable == (if state { 8u32 } else { 0u32 }),
    {
        let s: u32 = if state { 1 } else { 0 };
        s * 8
    }

    /// The PSEL.RXD word that routes RXD to `pin` (of port P0, connected).
    pub fn set_rx(&self, pin: GpioPin) -> (psel: u32)
        ensures
            psel == pin.spec_number(),
    {
        pin.number()
    }

    /// The PSEL.TXD word that routes TXD to `pin` (of port P0, connected).
    pub fn set_tx(&self, pin: GpioPin) -> (psel: u32)
        ensures
            psel == pin.spec_number(),
    {
        pin.number()
    }

    /// The BAUDRATE word of `baud`.
    pub fn set_baud(&self, baud: Baudrate) -> (baudrate: u32)
        ensures
            baudrate == baud.spec_register_value(),
    {
        baud.register_value()
    }

    /// The TXD.MAXCNT word for the transmit buffer `arr`: its number of
    /// elements, cut to 32 bits. The buffer's address goes to TXD.PTR.
    pub fn set_tx_buf(&self, arr: &[usize]) -> (maxcnt: u32)
        ensures
            maxcnt as int == arr@.len() % 0x1_0000_0000,
    {
        register_word(arr.len())
    }

    /// The RXD.MAXCNT word for the receive buffer `arr`: its number of
    /// elements, cut to 32 bits. The buffer's address goes to RXD.PTR.
    pub fn set_rx_buf(&self, arr: &[usize]) -> (maxcnt: u32)
        ensures
            maxcnt as int == arr@.len() % 0x1_0000_0000,
    {
        register_word(arr.len())
    }

    /// Whether the reading of EVENTS_ENDRX reports the event set.
    pub fn is_writed(&self, events_endrx: u32) -> (done: bool)
        ensures
            done == (events_endrx == EVENT_SET),
    {
        event_is_set(events_endrx)
    }

    /// Whether the reading of EVENTS_ENDTX reports the event set.
    pub fn is_readed(&self, events_endtx: u32) -> (done: bool)
        ensures
            done == (events_endtx == EVENT_SET),
    {
        event_is_set(events_endtx)
    }

    /// The word written to EVENTS_ENDTX to clear it.
    pub fn flush_write_event(&self) -> (cleared: u32)
        ensures
            cleared == EVENT_CLEAR,
    {
        EVENT_CLEAR
    }

    /// The word written to EVENTS_ENDRX to clear it.
    pub fn flush_read_event(&self) -> (cleared: u32)
        ensures
            cleared == EVENT_CLEAR,
    {
        EVENT_CLEAR
    }

    /// Whether event `status` is pending, given the reading of its event
    /// register: it is while the register reads 1.
    pub fn is_event_active(&self, status: UartFullEvents, reading: u32) -> (active: bool)
        ensures
            active == (reading == EVENT_SET),
    {
        event_is_set(reading)
    }

    /// The word written to the register of event `status` to clear it.
    pub fn flush_event(&self, status: UartFullEvents) -> (cleared: u32)
        ensures
            cleared == EVENT_CLEAR,
    {
        EVENT_CLEAR
    }
}

} // verus!

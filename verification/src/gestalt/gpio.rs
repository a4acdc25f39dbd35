//! GPIO port P0/P1 and the GPIOTE event block: pin numbering, and the
//! register values that drive, read and configure single pins.
use vstd::prelude::*;
use crate::registers::{
    bit_is_set, bit_mask, with_bit, with_bit_flipped, with_field, lemma_with_bit, event_is_set,
    EVENT_CLEAR, EVENT_SET,
};
pub use crate::non_gestalt::gpio::GpioInst;
use crate::non_gestalt::gpio::{GpioBufState, GpioNoneGestalt};

verus! {

/// Number of GPIOTE IN event registers (`EVENTS_IN[0..8]`).
pub const EVENT_SIZE: usize = 8;

/// Base address of the GPIOTE block, whose event registers every port shares.
pub const INTERRUPT_ADDRESS: u32 = 0x4000_6000;

/// The GPIOTE events: the eight IN channels and the PORT event.
#[derive(Copy, Clone, PartialEq, Eq, Structural, Debug)]
pub enum GpioFullEvents {
    In0,
    In1,
    In2,
    In3,
    In4,
    In5,
    In6,
    In7,
    Port,
}

impl GpioFullEvents {
    /// The event's number: `InK` is `K`, `Port` is 8.
    pub open spec fn spec_number(self) -> nat {
        match self {
            GpioFullEvents::In0 => 0,
            GpioFullEvents::In1 => 1,
            GpioFullEvents::In2 => 2,
            GpioFullEvents::In3 => 3,
            GpioFullEvents::In4 => 4,
            GpioFullEvents::In5 => 5,
            GpioFullEvents::In6 => 6,
            GpioFullEvents::In7 => 7,
            GpioFullEvents::Port => 8,
        }
    }

    /// The event's number: `InK` is `K`, `Port` is 8.
    pub fn number(self) -> (n: usize)
        ensures
            n == self.spec_number(),
            self != GpioFullEvents::Port ==> n < EVENT_SIZE && in_event(n as nat) == self,
            self == GpioFullEvents::Port ==> n == EVENT_SIZE,
    {
        match self {
            GpioFullEvents::In0 => 0,
            GpioFullEvents::In1 => 1,
            GpioFullEvents::In2 => 2,
            GpioFullEvents::In3 => 3,
            GpioFullEvents::In4 => 4,
            GpioFullEvents::In5 => 5,
            GpioFullEvents::In6 => 6,
            GpioFullEvents::In7 => 7,
            GpioFullEvents::Port => 8,
        }
    }

    /// The index of the `EVENTS_IN` register that records the event:
    /// `Some(K)` for `InK`, `None` for `Port`, which has a register of its own.
    pub fn in_channel(self) -> (channel: Option<usize>)
        ensures
            channel == (if self == GpioFullEvents::Port {
                None::<usize>
            } else {
                Some(self.spec_number() as usize)
            }),
            channel matches Some(k) ==> k < EVENT_SIZE && in_event(k as nat) == self,
            channel is None <==> self == GpioFullEvents::Port,
    {
        match self {
            GpioFullEvents::Port => None,
            _ => Some(self.number()),
        }
    }
}

/// Pin direction, as the DIR register encodes it.
#[derive(Copy, Clone, PartialEq, Eq, Structural, Debug)]
pub enum GpioDir {
    IN,
    OUT,
}

impl GpioDir {
    pub open spec fn spec_value(self) -> u32 {
        match self {
            GpioDir::IN => 0,
            GpioDir::OUT => 1,
        }
    }

    /// The DIR bit value: 0 for input, 1 for output.
    pub fn value(self) -> (v: u32)
        ensures
            v == self.spec_value(),
    {
        match self {
            GpioDir::IN => 0,
            GpioDir::OUT => 1,
        }
    }
}

/// Logic level of a pin.
#[derive(Copy, Clone, PartialEq, Eq, Structural, Debug)]
pub enum GpioState {
    UP,
    DOWN,
}

impl GpioState {
    pub open spec fn spec_level(self) -> u32 {
        match self {
            GpioState::UP => 1,
            GpioState::DOWN => 0,
        }
    }

    /// The bit value of the level: 1 for high, 0 for low.
    pub fn level(self) -> (v: u32)
        ensures
            v == self.spec_level(),
    {
        match self {
            GpioState::UP => 1,
            GpioState::DOWN => 0,
        }
    }
}

/// Pull resistor setting, as the PULL field of PIN_CNF encodes it.
#[derive(Copy, Clone, PartialEq, Eq, Structural, Debug)]
pub enum GpioPull {
    UP,
    DOWN,
    NONE,
}

impl GpioPull {
    pub open spec fn spec_value(self) -> u32 {
        match self {
            GpioPull::UP => 3,
            GpioPull::DOWN => 1,
            GpioPull::NONE => 0,
        }
    }

    /// The PULL field value: 3 pull-up, 1 pull-down, 0 none.
    pub fn value(self) -> (v: u8)
        ensures
            v == self.spec_value(),
    {
        match self {
            GpioPull::UP => 3,
            GpioPull::DOWN => 1,
            GpioPull::NONE => 0,
        }
    }
}

/// A pin of a port, numbered 0 to 31.
#[derive(Copy, Clone, PartialEq, Eq, Structural, Debug)]
pub enum GpioPin {
    Gpio0,
    Gpio1,
    Gpio2,
    Gpio3,
    Gpio4,
    Gpio5,
    Gpio6,
    Gpio7,
    Gpio8,
    Gpio9,
    Gpio10,
    Gpio11,
    Gpio12,
    Gpio13,
    Gpio14,
    Gpio15,
    Gpio16,
    Gpio17,
    Gpio18,
    Gpio19,
    Gpio20,
    Gpio21,
    Gpio22,
    Gpio23,
    Gpio24,
    Gpio25,
    Gpio26,
    Gpio27,
    Gpio28,
    Gpio29,
    Gpio30,
    Gpio31,
}

impl GpioPin {
    /// The pin's number within its port.
    pub open spec fn spec_number(self) -> u32 {
        match self {
            GpioPin::Gpio0 => 0,
            GpioPin::Gpio1 => 1,
            GpioPin::Gpio2 => 2,
            GpioPin::Gpio3 => 3,
            GpioPin::Gpio4 => 4,
            GpioPin::Gpio5 => 5,
            GpioPin::Gpio6 => 6,
            GpioPin::Gpio7 => 7,
            GpioPin::Gpio8 => 8,
            GpioPin::Gpio9 => 9,
            GpioPin::Gpio10 => 10,
            GpioPin::Gpio11 => 11,
            GpioPin::Gpio12 => 12,
            GpioPin::Gpio13 => 13,
            GpioPin::Gpio14 => 14,
            GpioPin::Gpio15 => 15,
            GpioPin::Gpio16 => 16,
            GpioPin::Gpio17 => 17,
            GpioPin::Gpio18 => 18,
            GpioPin::Gpio19 => 19,
            GpioPin::Gpio20 => 20,
            GpioPin::Gpio21 => 21,
            GpioPin::Gpio22 => 22,
            GpioPin::Gpio23 => 23,
            GpioPin::Gpio24 => 24,
            GpioPin::Gpio25 => 25,
            GpioPin::Gpio26 => 26,
            GpioPin::Gpio27 => 27,
            GpioPin::Gpio28 => 28,
            GpioPin::Gpio29 => 29,
            GpioPin::Gpio30 => 30,
            GpioPin::Gpio31 => 31,
        }
    }

    /// The pin's number within its port, below 32.
    pub fn number(self) -> (n: u32)
        ensures
            n == self.spec_number(),
            n < 32,
            pin_numbered(n) == self,
    {
        match self {
            GpioPin::Gpio0 => 0,
            GpioPin::Gpio1 => 1,
            GpioPin::Gpio2 => 2,
            GpioPin::Gpio3 => 3,
            GpioPin::Gpio4 => 4,
            GpioPin::Gpio5 => 5,
            GpioPin::Gpio6 => 6,
            GpioPin::Gpio7 => 7,
            GpioPin::Gpio8 => 8,
            GpioPin::Gpio9 => 9,
            GpioPin::Gpio10 => 10,
            GpioPin::Gpio11 => 11,
            GpioPin::Gpio12 => 12,
            GpioPin::Gpio13 => 13,
            GpioPin::Gpio14 => 14,
            GpioPin::Gpio15 => 15,
            GpioPin::Gpio16 => 16,
            GpioPin::Gpio17 => 17,
            GpioPin::Gpio18 => 18,
            GpioPin::Gpio19 => 19,
            GpioPin::Gpio20 => 20,
            GpioPin::Gpio21 => 21,
            GpioPin::Gpio22 => 22,
            GpioPin::Gpio23 => 23,
            GpioPin::Gpio24 => 24,
            GpioPin::Gpio25 => 25,
            GpioPin::Gpio26 => 26,
            GpioPin::Gpio27 => 27,
            GpioPin::Gpio28 => 28,
            GpioPin::Gpio29 => 29,
            GpioPin::Gpio30 => 30,
            GpioPin::Gpio31 => 31,
        }
    }
}

/// Reset value of a PIN_CNF register: input buffer disconnected, every other
/// field 0.
pub const PIN_CNF_RESET: u32 = 2;

/// The PIN_CNF word that a write of the pull field alone stores: the reset
/// value with PULL (bits 2..3) set to `pull`.
pub open spec fn pin_cnf_with_pull(pull: GpioPull) -> u32 {
    with_field(PIN_CNF_RESET, 2, 3, pull.spec_value())
}

/// The PIN_CNF word that a write of the input field alone stores: the reset
/// value with INPUT (bit 1) set for a disconnected buffer, clear for a
/// connected one.
pub open spec fn pin_cnf_with_input_buffer(state: GpioBufState) -> u32 {
    with_field(PIN_CNF_RESET, 1, 1, if state == GpioBufState::Disconnect { 1 } else { 0 })
}

/// A handle on one GPIO port and the GPIOTE block, by base address.
pub struct Port {
    pub base_pin: u32,
    pub base_interrupt: u32,
}

/// The handle on port `p`.
pub fn new(p: GpioInst) -> (port: Port)
    ensures
        port.base_pin == p.spec_base_address(),
        port.base_interrupt == INTERRUPT_ADDRESS,
{
    Port { base_pin: p.base_address(), base_interrupt: INTERRUPT_ADDRESS }
}

impl Port {
    /// The OUT word that drives `pin` to `state`, given the OUT word `out`
    /// read before: bit `pin` is the level, every other bit as read.
    pub fn set_state(&self, out: u32, pin: GpioPin, state: GpioState) -> (written: u32)
        ensures
            written == with_bit(out, pin.spec_number(), state == GpioState::UP),
    {
        let st = state.level();
        let p = 1u32 << pin.number();
        let n = pin.number();
        let sel = p * st;
        assert(sel == if st == 1 { p } else { 0 }) by (nonlinear_arith)
            requires
                sel == p * st,
                st <= 1,
        ;
        let v = sel | (out & !p);
        if st == 1 {
            assert(((1u32 << n) | (out & !(1u32 << n))) == (out | (1u32 << n))) by (bit_vector);
        } else {
            assert((0u32 | (out & !(1u32 << n))) == (out & !(1u32 << n))) by (bit_vector);
        }
        v
    }

    /// The OUTSET word that drives `pin` high: only bit `pin` set.
    pub fn set_high(&self, pin: GpioPin) -> (outset: u32)
        ensures
            outset == bit_mask(pin.spec_number()),
    {
        1u32 << pin.number()
    }

    /// The OUTCLR word that drives `pin` low: only bit `pin` set.
    pub fn set_low(&self, pin: GpioPin) -> (outclr: u32)
        ensures
            outclr == bit_mask(pin.spec_number()),
    {
        1u32 << pin.number()
    }

    /// The DIR word that gives `pin` direction `dir`, given the DIR word read
    /// after the pin's input buffer was connected (`set_inp_buf` with
    /// `Connect`): bit `pin` is the direction, every other bit as read.
    pub fn set_direction(&self, dir_reg: u32, pin: GpioPin, dir: GpioDir) -> (written: u32)
        ensures
            written == with_bit(dir_reg, pin.spec_number(), dir == GpioDir::OUT),
    {
        let st = dir.value();
        let p = 1u32 << pin.number();
        let n = pin.number();
        let sel = p * st;
        assert(sel == if st == 1 { p } else { 0 }) by (nonlinear_arith)
            requires
                sel == p * st,
                st <= 1,
        ;
        let v = sel | (dir_reg & !p);
        if st == 1 {
            assert(((1u32 << n) | (dir_reg & !(1u32 << n))) == (dir_reg | (1u32 << n)))
                by (bit_vector);
        } else {
            assert((0u32 | (dir_reg & !(1u32 << n))) == (dir_reg & !(1u32 << n))) by (bit_vector);
        }
        v
    }

    /// The word written to the PIN_CNF register of the pin: the register's
    /// reset value with the PULL field set to `pull`.
    pub fn set_pull(&self, pin: GpioPin, pull: GpioPull) -> (pin_cnf: u32)
        ensures
            pin_cnf == pin_cnf_with_pull(pull),
    {
        let field = pull.value() as u32;
        (PIN_CNF_RESET & !(3u32 << 2u32)) | ((field & 3u32) << 2u32)
    }

    /// The PIN_CNF word that selects the pull-up on `pin`.
    pub fn set_pull_up(&self, pin: GpioPin) -> (pin_cnf: u32)
        ensures
            pin_cnf == pin_cnf_with_pull(GpioPull::UP),
    {
        self.set_pull(pin, GpioPull::UP)
    }

    /// The PIN_CNF word that selects the pull-down on `pin`.
    pub fn set_pull_down(&self, pin: GpioPin) -> (pin_cnf: u32)
        ensures
            pin_cnf == pin_cnf_with_pull(GpioPull::DOWN),
    {
        self.set_pull(pin, GpioPull::DOWN)
    }

    /// The PIN_CNF word that removes any pull resistor from `pin`.
    pub fn set_pull_none(&self, pin: GpioPin) -> (pin_cnf: u32)
        ensures
            pin_cnf == pin_cnf_with_pull(GpioPull::NONE),
    {
        self.set_pull(pin, GpioPull::NONE)
    }

    /// The OUT word that inverts `pin`, given the IN word `input`: bit `pin`
    /// is the inverse of the pin's input level, every other bit as read.
    pub fn toggle(&self, input: u32, pin: GpioPin) -> (written: u32)
        ensures
            written == with_bit_flipped(input, pin.spec_number()),
    {
        let p = 1u32 << pin.number();
        let n = pin.number();
        let state = input;
        let mask = state & p;
        let port = (p ^ mask) | (state & (!p));
        assert(((1u32 << n) ^ (input & (1u32 << n))) | (input & !(1u32 << n)) == (if input & (
        1u32 << n) != 0 {
            input & !(1u32 << n)
        } else {
            input | (1u32 << n)
        })) by (bit_vector)
            requires
                n < 32,
        ;
        port
    }

    /// The level of `pin` in the IN word `input`.
    pub fn get(&self, input: u32, pin: GpioPin) -> (state: GpioState)
        ensures
            (state == GpioState::UP) == bit_is_set(input, pin.spec_number()),
    {
        let n = pin.number();
        let p = 1u32 << n;
        let masked = input & p;
        let level = masked >> n;
        assert(((input & (1u32 << n)) >> n) == (if input & (1u32 << n) != 0 {
            1u32
        } else {
            0u32
        })) by (bit_vector)
            requires
                n < 32,
        ;
        if level == 1 {
            GpioState::UP
        } else {
            GpioState::DOWN
        }
    }

    /// Whether event `status` is pending, given the reading of its
    /// `EVENTS_IN` register (see `GpioFullEvents::in_channel`): the PORT event
    /// is never reported pending, an IN event is while its register reads 1.
    pub fn is_event_active(&self, status: GpioFullEvents, channel_reading: u32) -> (active: bool)
        ensures
            active == (status != GpioFullEvents::Port && channel_reading == EVENT_SET),
    {
        match status {
            GpioFullEvents::Port => false,
            _ => event_is_set(channel_reading),
        }
    }

    /// The word written to the register of event `status` (`EVENTS_IN[K]`
    /// for `InK`, `EVENTS_PORT` for `Port`) to clear it.
    pub fn flush_event(&self, status: GpioFullEvents) -> (cleared: u32)
        ensures
            cleared == EVENT_CLEAR,
    {
        EVENT_CLEAR
    }

    /// The port number reported through the generic interface: always 0.
    pub fn get_port(&self) -> (port: usize)
        ensures
            port == 0,
    {
        0
    }

    /// The first GPIOTE IN channel whose event register reads as set, given
    /// the readings of the `EVENTS_IN` registers in order; `None` if none is.
    pub fn witch_interrupt_number_active(&self, events_in: &[u32]) -> (first: Option<usize>)
        ensures
            match first {
                Some(i) => {
                    &&& i < events_in@.len()
                    &&& events_in@[i as int] == EVENT_SET
                    &&& forall|j: int| 0 <= j < i ==> events_in@[j] != EVENT_SET
                },
                None => forall|j: int| 0 <= j < events_in@.len() ==> events_in@[j] != EVENT_SET,
            },
    {
        let mut i: usize = 0;
        while i < events_in.len()
            invariant
                i <= events_in@.len(),
                forall|j: int| 0 <= j < i ==> events_in@[j] != EVENT_SET,
            decreases events_in@.len() - i,
        {
            if events_in[i] == EVENT_SET {
                return Some(i);
            }
            i = i + 1;
        }
        None
    }
}

impl GpioNoneGestalt for Port {
    /// The word written to the PIN_CNF register of `pin`: the reset value
    /// with the INPUT bit set to disconnect the buffer or cleared to connect
    /// it.
    fn set_inp_buf(&self, pin: GpioPin, state: GpioBufState) -> (pin_cnf: u32) {
        let disconnect = match state {
            GpioBufState::Connect => false,
            GpioBufState::Disconnect => true,
        };
        let b: u32 = if disconnect { 1 } else { 0 };
        (PIN_CNF_RESET & !(1u32 << 1u32)) | ((b & 1u32) << 1u32)
    }
}

/// The pin numbered `n`, for `n` below 32.
pub open spec fn pin_numbered(n: u32) -> GpioPin
    recommends
        n < 32,
{
    match n {
            0 => GpioPin::Gpio0,
            1 => GpioPin::Gpio1,
            2 => GpioPin::Gpio2,
            3 => GpioPin::Gpio3,
            4 => GpioPin::Gpio4,
            5 => GpioPin::Gpio5,
            6 => GpioPin::Gpio6,
            7 => GpioPin::Gpio7,
            8 => GpioPin::Gpio8,
            9 => GpioPin::Gpio9,
            10 => GpioPin::Gpio10,
            11 => GpioPin::Gpio11,
            12 => GpioPin::Gpio12,
            13 => GpioPin::Gpio13,
            14 => GpioPin::Gpio14,
            15 => GpioPin::Gpio15,
            16 => GpioPin::Gpio16,
            17 => GpioPin::Gpio17,
            18 => GpioPin::Gpio18,
            19 => GpioPin::Gpio19,
            20 => GpioPin::Gpio20,
            21 => GpioPin::Gpio21,
            22 => GpioPin::Gpio22,
            23 => GpioPin::Gpio23,
            24 => GpioPin::Gpio24,
            25 => GpioPin::Gpio25,
            26 => GpioPin::Gpio26,
            27 => GpioPin::Gpio27,
            28 => GpioPin::Gpio28,
            29 => GpioPin::Gpio29,
            30 => GpioPin::Gpio30,
            31 => GpioPin::Gpio31,
            _ => GpioPin::Gpio31,
        }
}

/// Every pin is the pin of its number, so distinct pins have distinct numbers
/// and a write for one pin leaves the bits of all others.
pub proof fn lemma_pin_numbers_distinct(a: GpioPin, b: GpioPin)
    ensures
        pin_numbered(a.spec_number()) == a,
        a != b ==> a.spec_number() != b.spec_number(),
{
}

/// What `get` reads from a word that `set_state` wrote is the state that was
/// set, and every other pin reads as it did in the word before.
pub proof fn lemma_get_after_set_state(out: u32, pin: GpioPin, state: GpioState, other: GpioPin)
    ensures
        bit_is_set(with_bit(out, pin.spec_number(), state == GpioState::UP), pin.spec_number())
            == (state == GpioState::UP),
        other != pin ==> bit_is_set(
            with_bit(out, pin.spec_number(), state == GpioState::UP),
            other.spec_number(),
        ) == bit_is_set(out, other.spec_number()),
{
    lemma_pin_numbers_distinct(other, pin);
    lemma_with_bit(out, pin.spec_number(), state == GpioState::UP);
}

/// What `set_direction` wrote gives the pin the direction asked for and keeps
/// the direction of every other pin.
pub proof fn lemma_direction_after_set_direction(
    dir_reg: u32,
    pin: GpioPin,
    dir: GpioDir,
    other: GpioPin,
)
    ensures
        bit_is_set(with_bit(dir_reg, pin.spec_number(), dir == GpioDir::OUT), pin.spec_number())
            == (dir == GpioDir::OUT),
        other != pin ==> bit_is_set(
            with_bit(dir_reg, pin.spec_number(), dir == GpioDir::OUT),
            other.spec_number(),
        ) == bit_is_set(dir_reg, other.spec_number()),
{
    lemma_pin_numbers_distinct(other, pin);
    lemma_with_bit(dir_reg, pin.spec_number(), dir == GpioDir::OUT);
}

/// `toggle` inverts the level of its pin and keeps every other pin's level;
/// toggling the word that a toggle wrote gives back the word it read.
pub proof fn lemma_toggle(input: u32, pin: GpioPin, other: GpioPin)
    ensures
        bit_is_set(with_bit_flipped(input, pin.spec_number()), pin.spec_number()) == !bit_is_set(
            input,
            pin.spec_number(),
        ),
        other != pin ==> bit_is_set(with_bit_flipped(input, pin.spec_number()), other.spec_number())
            == bit_is_set(input, other.spec_number()),
        with_bit_flipped(with_bit_flipped(input, pin.spec_number()), pin.spec_number()) == input,
{
    let n = pin.spec_number();
    lemma_pin_numbers_distinct(other, pin);
    lemma_with_bit(input, n, !bit_is_set(input, n));
    assert(with_bit_flipped(with_bit_flipped(input, n), n) == input) by (bit_vector)
        requires
            n < 32,
    ;
}

/// Writing `set_high`'s word to OUTSET (which sets the bits written) or
/// `set_low`'s word to OUTCLR (which clears them) leaves OUT as writing
/// `set_state`'s word to OUT does, for high and low.
pub proof fn lemma_set_high_low_match_set_state(out: u32, pin: GpioPin)
    ensures
        out | bit_mask(pin.spec_number()) == with_bit(out, pin.spec_number(), true),
        out & !bit_mask(pin.spec_number()) == with_bit(out, pin.spec_number(), false),
{
}

/// The PIN_CNF words that the pull and input-buffer writes store.
pub proof fn lemma_pin_cnf_words()
    ensures
        pin_cnf_with_pull(GpioPull::UP) == 14,
        pin_cnf_with_pull(GpioPull::DOWN) == 6,
        pin_cnf_with_pull(GpioPull::NONE) == 2,
        pin_cnf_with_input_buffer(GpioBufState::Connect) == 0,
        pin_cnf_with_input_buffer(GpioBufState::Disconnect) == 2,
{
    assert(((2u32 & !(3u32 << 2u32)) | ((3u32 & 3u32) << 2u32)) == 14u32) by (bit_vector);
    assert(((2u32 & !(3u32 << 2u32)) | ((1u32 & 3u32) << 2u32)) == 6u32) by (bit_vector);
    assert(((2u32 & !(3u32 << 2u32)) | ((0u32 & 3u32) << 2u32)) == 2u32) by (bit_vector);
    assert(((2u32 & !(1u32 << 1u32)) | ((0u32 & 1u32) << 1u32)) == 0u32) by (bit_vector);
    assert(((2u32 & !(1u32 << 1u32)) | ((1u32 & 1u32) << 1u32)) == 2u32) by (bit_vector);
}

/// Distinct events name distinct IN registers.
pub proof fn lemma_in_channels_distinct(a: GpioFullEvents, b: GpioFullEvents)
    ensures
        a != b ==> a.spec_number() != b.spec_number(),
{
}

/// The IN event of GPIOTE channel `k`, for `k` below 8; `Port` otherwise.
pub open spec fn in_event(k: nat) -> GpioFullEvents {
    if k == 0 {
        GpioFullEvents::In0
    } else if k == 1 {
        GpioFullEvents::In1
    } else if k == 2 {
        GpioFullEvents::In2
    } else if k == 3 {
        GpioFullEvents::In3
    } else if k == 4 {
        GpioFullEvents::In4
    } else if k == 5 {
        GpioFullEvents::In5
    } else if k == 6 {
        GpioFullEvents::In6
    } else if k == 7 {
        GpioFullEvents::In7
    } else {
        GpioFullEvents::Port
    }
}

/// Event `InK` is recorded on IN channel `K` and channel `K` records `InK`,
/// for every `K` below 8; `Port` has no IN channel.
pub proof fn lemma_in_event_channels(e: GpioFullEvents, k: nat)
    ensures
        e != GpioFullEvents::Port ==> e.spec_number() < 8 && in_event(e.spec_number()) == e,
        k < 8 ==> in_event(k) != GpioFullEvents::Port && in_event(k).spec_number() == k,
        e == GpioFullEvents::Port ==> e.spec_number() == 8,
{
}

impl GpioInst {
    /// The port's index: 0 for P0, 1 for P1.
    pub open spec fn index(self) -> nat {
        match self {
            GpioInst::P0 => 0,
            GpioInst::P1 => 1,
        }
    }
}

/// Port registers start at `0x5000_0000 + index * 0x300`; the GPIOTE block
/// is peripheral 6, at `0x4000_0000 + 6 * 0x1000`.
pub proof fn lemma_port_addresses(p: GpioInst)
    ensures
        p.spec_base_address() == 0x5000_0000 + p.index() * 0x300,
        INTERRUPT_ADDRESS == 0x4000_0000 + 6 * 0x1000,
{
}

} // verus!

//! Port instances and the input-buffer control that the generic GPIO
//! interface leaves out.
use vstd::prelude::*;
pub use crate::gestalt::gpio;
use crate::gestalt::gpio::GpioPin;

verus! {

/// Whether a pin's input buffer is connected.
#[derive(Clone, Copy, PartialEq, Eq, Structural, Debug)]
pub enum GpioBufState {
    Connect,
    Disconnect,
}

/// Input-buffer control of a port: the PIN_CNF value that connects or
/// disconnects the buffer of a pin.
pub trait GpioNoneGestalt {
    fn set_inp_buf(&self, pin: GpioPin, state: GpioBufState) -> (pin_cnf: u32)
        ensures
            pin_cnf == crate::gestalt::gpio::pin_cnf_with_input_buffer(state),
    ;
}

/// The two GPIO ports.
#[derive(Clone, Copy, PartialEq, Eq, Structural, Debug)]
pub enum GpioInst {
    P0,
    P1,
}

impl GpioInst {
    pub open spec fn spec_base_address(self) -> u32 {
        match self {
            GpioInst::P0 => 0x5000_0000,
            GpioInst::P1 => 0x5000_0300,
        }
    }

    /// Base address of the port's register block.
    pub fn base_address(self) -> (addr: u32)
        ensures
            addr == self.spec_base_address(),
            addr == 0x5000_0000 + self.index() * 0x300,
    {
        match self {
            GpioInst::P0 => 0x5000_0000,
            GpioInst::P1 => 0x5000_0300,
        }
    }
}

} // verus!

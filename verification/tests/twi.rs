use nrf_gestalt::gestalt::gpio::GpioPin;
use nrf_gestalt::gestalt::twi::{new, Freq, TwiInst};

#[test]
fn twi_instances_and_frequencies() {
    assert_eq!(new(TwiInst::Twi0).base, 0x4000_3000);
    assert_eq!(new(TwiInst::Twi1).base, 0x4000_4000);
    assert_eq!(Freq::Freq100k.register_value(), 0x0198_0000);
    assert_eq!(Freq::Freq250k.register_value(), 0x0400_0000);
    assert_eq!(Freq::Freq400k.register_value(), 0x0640_0000);
}

#[test]
fn twi_register_words() {
    let t = new(TwiInst::Twi0);
    assert_eq!(t.write(), 1);
    assert_eq!(t.read(), 1);
    assert_eq!(t.enable(true), 6);
    assert_eq!(t.enable(false), 0);
    assert_eq!(t.set_sda(GpioPin::Gpio26), 26);
    assert_eq!(t.set_scl(GpioPin::Gpio27), 27);
    assert_eq!(t.set_freq(Freq::Freq400k), 0x0640_0000);
    assert_eq!(t.set_tx_buf(&[1u8, 2, 3]), 3);
    assert_eq!(t.set_rx_buf(&[0u8; 16]), 16);
    assert_eq!(t.set_rx_buf(&[]), 0);
    assert_eq!(t.set_addr(0x42), 0x42);
}

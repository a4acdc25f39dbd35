use nrf_gestalt::gestalt::gpio::GpioPin;
use nrf_gestalt::gestalt::uart::{new, Baudrate, UartFullEvents, UartInst};

#[test]
fn uart_instances_and_baud_rates() {
    assert_eq!(new(UartInst::Uart0).base, 0x4000_2000);
    assert_eq!(new(UartInst::Uart1).base, 0x4002_8000);
    assert_eq!(Baudrate::Baud1200.register_value(), 0x0004_F000);
    assert_eq!(Baudrate::Baud9600.register_value(), 0x0027_5000);
    assert_eq!(Baudrate::Baud115200.register_value(), 0x01D6_0000);
    assert_eq!(Baudrate::Baud250000.register_value(), 0x0400_0000);
    assert_eq!(Baudrate::Baud1M.register_value(), 0x1000_0000);
}

#[test]
fn uart_register_words() {
    let u = new(UartInst::Uart0);
    assert_eq!(u.write(), 1);
    assert_eq!(u.read(), 1);
    assert_eq!(u.enable(true), 8);
    assert_eq!(u.enable(false), 0);
    assert_eq!(u.set_rx(GpioPin::Gpio8), 8);
    assert_eq!(u.set_tx(GpioPin::Gpio6), 6);
    assert_eq!(u.set_baud(Baudrate::Baud115200), 0x01D6_0000);
    assert_eq!(u.set_tx_buf(&[1usize, 2, 3, 4]), 4);
    assert_eq!(u.set_rx_buf(&[0usize; 10]), 10);
}

#[test]
fn uart_events() {
    let u = new(UartInst::Uart1);
    assert!(u.is_writed(1));
    assert!(!u.is_writed(0));
    assert!(u.is_readed(1));
    assert!(!u.is_readed(2));
    assert_eq!(u.flush_write_event(), 0);
    assert_eq!(u.flush_read_event(), 0);
    assert!(u.is_event_active(UartFullEvents::Error, 1));
    assert!(!u.is_event_active(UartFullEvents::Cts, 0));
    assert_eq!(u.flush_event(UartFullEvents::TxStopped), 0);
}

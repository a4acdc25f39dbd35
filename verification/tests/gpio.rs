use nrf_gestalt::gestalt::gpio::{
    new, GpioDir, GpioFullEvents, GpioPin, GpioPull, GpioState, Port, EVENT_SIZE,
    INTERRUPT_ADDRESS, PIN_CNF_RESET,
};
use nrf_gestalt::non_gestalt::gpio::{GpioBufState, GpioInst, GpioNoneGestalt};
use nrf_gestalt::registers::{event_is_set, register_word, EVENT_CLEAR};

fn port0() -> Port {
    new(GpioInst::P0)
}

#[test]
fn new_uses_port_and_gpiote_addresses() {
    let p0 = new(GpioInst::P0);
    assert_eq!(p0.base_pin, 0x5000_0000);
    assert_eq!(p0.base_interrupt, 0x4000_6000);
    let p1 = new(GpioInst::P1);
    assert_eq!(p1.base_pin, 0x5000_0300);
    assert_eq!(p1.base_interrupt, INTERRUPT_ADDRESS);
    assert_eq!(GpioInst::P1.base_address(), 0x5000_0300);
}

#[test]
fn pin_numbers_follow_names() {
    assert_eq!(GpioPin::Gpio0.number(), 0);
    assert_eq!(GpioPin::Gpio13.number(), 13);
    assert_eq!(GpioPin::Gpio31.number(), 31);
}

#[test]
fn level_direction_and_pull_encodings() {
    assert_eq!(GpioState::UP.level(), 1);
    assert_eq!(GpioState::DOWN.level(), 0);
    assert_eq!(GpioDir::IN.value(), 0);
    assert_eq!(GpioDir::OUT.value(), 1);
    assert_eq!(GpioPull::UP.value(), 3);
    assert_eq!(GpioPull::DOWN.value(), 1);
    assert_eq!(GpioPull::NONE.value(), 0);
}

#[test]
fn set_state_replaces_only_the_pin_bit() {
    let p = port0();
    assert_eq!(p.set_state(0b1010, GpioPin::Gpio0, GpioState::UP), 0b1011);
    assert_eq!(p.set_state(0b1010, GpioPin::Gpio1, GpioState::DOWN), 0b1000);
    assert_eq!(p.set_state(0b1010, GpioPin::Gpio1, GpioState::UP), 0b1010);
    assert_eq!(p.set_state(0xFFFF_FFFF, GpioPin::Gpio31, GpioState::DOWN), 0x7FFF_FFFF);
    assert_eq!(p.set_state(0, GpioPin::Gpio31, GpioState::UP), 0x8000_0000);
}

#[test]
fn set_high_and_low_write_the_pin_mask() {
    let p = port0();
    assert_eq!(p.set_high(GpioPin::Gpio5), 32);
    assert_eq!(p.set_low(GpioPin::Gpio5), 32);
    assert_eq!(p.set_high(GpioPin::Gpio31), 0x8000_0000);
    // OUTSET and OUTCLR leave OUT as set_state does.
    let out = 0x1234_5678u32;
    assert_eq!(out | p.set_high(GpioPin::Gpio0), p.set_state(out, GpioPin::Gpio0, GpioState::UP));
    assert_eq!(out & !p.set_low(GpioPin::Gpio3), p.set_state(out, GpioPin::Gpio3, GpioState::DOWN));
}

#[test]
fn set_direction_replaces_only_the_pin_bit() {
    let p = port0();
    assert_eq!(p.set_direction(0, GpioPin::Gpio3, GpioDir::OUT), 8);
    assert_eq!(p.set_direction(0xF, GpioPin::Gpio3, GpioDir::IN), 7);
    assert_eq!(p.set_direction(0xF, GpioPin::Gpio2, GpioDir::OUT), 0xF);
}

#[test]
fn pull_words_keep_the_reset_value_elsewhere() {
    let p = port0();
    assert_eq!(PIN_CNF_RESET, 2);
    assert_eq!(p.set_pull(GpioPin::Gpio4, GpioPull::UP), 14);
    assert_eq!(p.set_pull(GpioPin::Gpio4, GpioPull::DOWN), 6);
    assert_eq!(p.set_pull(GpioPin::Gpio4, GpioPull::NONE), 2);
    assert_eq!(p.set_pull_up(GpioPin::Gpio9), 14);
    assert_eq!(p.set_pull_down(GpioPin::Gpio9), 6);
    assert_eq!(p.set_pull_none(GpioPin::Gpio9), 2);
}

#[test]
fn input_buffer_words() {
    let p = port0();
    assert_eq!(p.set_inp_buf(GpioPin::Gpio7, GpioBufState::Connect), 0);
    assert_eq!(p.set_inp_buf(GpioPin::Gpio7, GpioBufState::Disconnect), 2);
}

#[test]
fn toggle_inverts_the_pin_from_the_input() {
    let p = port0();
    assert_eq!(p.toggle(0b0101, GpioPin::Gpio0), 0b0100);
    assert_eq!(p.toggle(0b0101, GpioPin::Gpio1), 0b0111);
    assert_eq!(p.toggle(0, GpioPin::Gpio31), 0x8000_0000);
}

#[test]
fn toggle_twice_gives_back_the_word() {
    let p = port0();
    for v in [0u32, 1, 0xDEAD_BEEF, 0xFFFF_FFFF] {
        for pin in [GpioPin::Gpio0, GpioPin::Gpio17, GpioPin::Gpio31] {
            assert_eq!(p.toggle(p.toggle(v, pin), pin), v);
            assert_ne!(p.get(p.toggle(v, pin), pin), p.get(v, pin));
        }
    }
}

#[test]
fn get_reads_the_pin_bit() {
    let p = port0();
    assert_eq!(p.get(0b100, GpioPin::Gpio2), GpioState::UP);
    assert_eq!(p.get(0b100, GpioPin::Gpio1), GpioState::DOWN);
    assert_eq!(p.get(0x8000_0000, GpioPin::Gpio31), GpioState::UP);
    assert_eq!(p.get(0x7FFF_FFFF, GpioPin::Gpio31), GpioState::DOWN);
}

#[test]
fn get_reads_back_set_state() {
    let p = port0();
    let out = 0xA5A5_A5A5u32;
    for st in [GpioState::UP, GpioState::DOWN] {
        let w = p.set_state(out, GpioPin::Gpio6, st);
        assert_eq!(p.get(w, GpioPin::Gpio6), st);
        assert_eq!(p.get(w, GpioPin::Gpio7), p.get(out, GpioPin::Gpio7));
    }
    assert_eq!(p.get_port(), 0);
}

#[test]
fn first_active_event_is_found() {
    let p = port0();
    assert_eq!(p.witch_interrupt_number_active(&[0, 0, 1, 1, 0, 0, 0, 0]), Some(2));
    assert_eq!(p.witch_interrupt_number_active(&[1, 0, 0, 0, 0, 0, 0, 0]), Some(0));
    assert_eq!(p.witch_interrupt_number_active(&[0, 0, 0, 0, 0, 0, 0, 1]), Some(7));
    assert_eq!(p.witch_interrupt_number_active(&[0, 2, 0, 0, 0, 0, 0, 0]), None);
    assert_eq!(p.witch_interrupt_number_active(&[0; 8]), None);
    assert_eq!(p.witch_interrupt_number_active(&[]), None);
}

#[test]
fn gpio_events_map_to_in_channels() {
    assert_eq!(GpioFullEvents::In0.in_channel(), Some(0));
    assert_eq!(GpioFullEvents::In5.in_channel(), Some(5));
    assert_eq!(GpioFullEvents::In7.in_channel(), Some(7));
    assert_eq!(GpioFullEvents::Port.in_channel(), None);
    assert_eq!(GpioFullEvents::Port.number(), 8);
    assert_eq!(EVENT_SIZE, 8);
}

#[test]
fn gpio_event_activity_and_clearing() {
    let p = port0();
    assert!(p.is_event_active(GpioFullEvents::In3, 1));
    assert!(!p.is_event_active(GpioFullEvents::In3, 0));
    assert!(!p.is_event_active(GpioFullEvents::In3, 3));
    assert!(!p.is_event_active(GpioFullEvents::Port, 1));
    assert_eq!(p.flush_event(GpioFullEvents::Port), 0);
    assert_eq!(p.flush_event(GpioFullEvents::In1), EVENT_CLEAR);
}

#[test]
fn event_flag_and_register_word() {
    assert!(event_is_set(1));
    assert!(!event_is_set(0));
    assert!(!event_is_set(0xFFFF_FFFF));
    assert_eq!(register_word(7), 7);
    assert_eq!(register_word(0xFFFF_FFFF), 0xFFFF_FFFF);
    if usize::BITS == 64 {
        assert_eq!(register_word((0x1_0000_0042u64) as usize), 0x42);
    }
}

use stm32u5::exti::{Exti, Line, Port as ExtiPort, TriggerMode};
use stm32u5::flash::{
    self, DoubleWordProgram, FlashError, Latency, FLASH_KEY1, FLASH_KEY2,
};
use stm32u5::gpio::{AlternateFunction, Mode, OutputType, Pin, Port, PortConfig, Pull, Speed};
use stm32u5::gtzc::Gtzc;
use stm32u5::regs::{clear_bit, flag_bits, get_field, set_bit, set_field, test_bit, widen, RegisterWrite};

#[test]
fn single_bits_are_set_cleared_and_read() {
    assert_eq!(set_bit(0, 0), 1);
    assert_eq!(set_bit(0x10, 31), 0x8000_0010);
    assert_eq!(clear_bit(0xFFFF_FFFF, 4), 0xFFFF_FFEF);
    assert!(test_bit(0x8000_0000, 31));
    assert!(!test_bit(0x7FFF_FFFF, 31));
    assert_eq!(flag_bits(true), 1);
    assert_eq!(flag_bits(false), 0);
    assert_eq!(widen(0xBEEF), 0xBEEF);
}

#[test]
fn later_bit_write_overrides_earlier_one() {
    let v = 0x1234_5678;
    assert_eq!(clear_bit(set_bit(v, 3), 3), clear_bit(v, 3));
    assert_eq!(set_bit(clear_bit(v, 3), 3), set_bit(v, 3));
}

#[test]
fn fields_read_back_what_was_written() {
    let v = set_field(0xFFFF_FFFF, 8, 4, 0x5);
    assert_eq!(v, 0xFFFF_F5FF);
    assert_eq!(get_field(v, 8, 4), 0x5);
    assert_eq!(get_field(v, 0, 8), 0xFF);
    // A later write of the same field wins.
    assert_eq!(set_field(set_field(0, 4, 3, 7), 4, 3, 2), set_field(0, 4, 3, 2));
    // A value wider than the field spills into the bits above it.
    assert_eq!(set_field(0, 0, 2, 0b111), 0b111);
}

#[test]
fn gpio_mode_speed_pull_fields() {
    let pb9 = Pin::new(Port::B, 9);
    assert_eq!(pb9.port(), Port::B);
    assert_eq!(pb9.pin(), 9);
    assert_eq!(pb9.set_mode(0xFFFF_FFFF, Mode::Output), 0xFFF7_FFFF);
    assert_eq!(pb9.set_speed(0, Speed::VeryHigh), 0b11 << 18);
    assert_eq!(pb9.set_pull(0, Pull::Down), 0b10 << 18);
    assert_eq!(pb9.set_output_type(0, OutputType::OpenDrain), 1 << 9);
    assert_eq!(pb9.set_output_type(0xFFFF, OutputType::PushPull), 0xFDFF);
    assert_eq!(pb9.set_alternate_function(0, AlternateFunction::AF7), 7 << 4);
}

#[test]
fn gpio_bsrr_words_and_levels() {
    let pa5 = Pin::new(Port::A, 5);
    assert_eq!(pa5.set_high(), 1 << 5);
    assert_eq!(pa5.set_low(), 1 << 21);
    assert_eq!(pa5.write(true), pa5.set_high());
    assert_eq!(pa5.write(false), pa5.set_low());
    assert!(pa5.is_high(0x20));
    assert!(pa5.is_low(0xFFDF));
    assert!(pa5.read(0x20));
}

#[test]
fn gpio_toggle_twice_is_identity() {
    let pc13 = Pin::new(Port::C, 13);
    let odr = 0x1234;
    assert_eq!(pc13.toggle(odr), 0x3234);
    assert_eq!(pc13.toggle(pc13.toggle(odr)), odr);
}

#[test]
fn gpio_init_alternate_touches_only_the_pin() {
    let mut port = PortConfig { moder: 0, otyper: 0, ospeedr: 0, pupdr: 0, afrl: 0x1111_1111, afrh: 0x2222_2222 };
    let pa3 = Pin::new(Port::A, 3);
    pa3.init_alternate(&mut port, AlternateFunction::AF8, OutputType::PushPull, Speed::VeryHigh, Pull::Up);
    assert_eq!(port.moder, 0b10 << 6);
    assert_eq!(port.afrl, 0x1111_8111);
    assert_eq!(port.afrh, 0x2222_2222);
    assert_eq!(port.ospeedr, 0b11 << 6);
    assert_eq!(port.pupdr, 0b01 << 6);
    assert_eq!(port.otyper, 0);
}

#[test]
fn gpio_init_enables_all_port_clocks() {
    assert_eq!(stm32u5::gpio::init(0), 0x1FF);
}

#[test]
fn exti_trigger_and_port_selection() {
    let exti = Exti::new();
    assert_eq!(exti.set_trigger(Line::Line3, TriggerMode::Rising, 0, 0), (1 << 3, 0));
    assert_eq!(exti.set_trigger(Line::Line3, TriggerMode::Falling, 0, 0), (0, 1 << 3));
    assert_eq!(exti.set_trigger(Line::Line3, TriggerMode::Both, 1, 2), (0b1001, 0b1010));
    assert_eq!(exti.set_trigger(Line::Line3, TriggerMode::Falling, 0b1001, 0), (0b0001, 0b1000));
    assert_eq!(exti.set_trigger(Line::Line3, TriggerMode::Rising, 0, 0b1010), (0b1000, 0b0010));
    assert_eq!(exti.gpio_select_register(Line::Line5), 0x64);
    assert_eq!(exti.configure_gpio(Line::Line5, ExtiPort::PC, 0xFFFF_FFFF), 0xFFFF_FF2F);
    assert_eq!(exti.enable_interrupt(Line::Line0, 0), 1);
    assert_eq!(exti.disable_interrupt(Line::Line0, 0xF), 0xE);
}

#[test]
fn flash_latency_roundtrip() {
    for (latency, ws) in [
        (Latency::Ws0, 0u32),
        (Latency::Ws1, 1),
        (Latency::Ws2, 2),
        (Latency::Ws3, 3),
        (Latency::Ws4, 4),
        (Latency::Ws5, 5),
    ] {
        let acr = flash::set_latency(latency, 0xFFFF_FFF0);
        assert_eq!(acr, 0xFFFF_FFF0 | ws);
        assert_eq!(flash::get_latency(acr), latency);
    }
    // Values above 5 read as the highest latency.
    assert_eq!(flash::get_latency(0xF), Latency::Ws5);
}

#[test]
fn flash_unlock_sequence() {
    assert_eq!(flash::unlock_keys(1), Some([FLASH_KEY1, FLASH_KEY2]));
    assert_eq!(flash::unlock_keys(0), None);
    assert_eq!(flash::unlock(0), Ok(()));
    assert_eq!(flash::unlock(1), Err(FlashError::UnlockFailed));
}

#[test]
fn flash_double_word_alignment() {
    assert_eq!(flash::program_double_word(0x0800_0004, 0), Err(FlashError::AlignmentError));
    assert_eq!(
        flash::program_double_word(0x0800_0008, 0x1122_3344_5566_7788),
        Ok(DoubleWordProgram { address: 0x0800_0008, low: 0x5566_7788, high: 0x1122_3344 })
    );
}

#[test]
fn flash_program_splits_into_little_endian_double_words() {
    let data: Vec<u8> = (1..=16).collect();
    let words = flash::program(0x0800_0000, &data).unwrap();
    assert_eq!(words, vec![(0x0800_0000, 0x0807_0605_0403_0201), (0x0800_0008, 0x100F_0E0D_0C0B_0A09)]);
    assert_eq!(flash::program(0x0800_0000, &[]).unwrap(), vec![]);
}

#[test]
fn flash_program_alignment_errors() {
    assert_eq!(flash::program(0x0800_0001, &[0; 8]), Err(FlashError::AlignmentError));
    assert_eq!(flash::program(0x0800_0000, &[0; 7]), Err(FlashError::AlignmentError));
}

#[test]
fn flash_erase_and_program_control_words() {
    assert_eq!(flash::lock(0), 1);
    assert!(flash::is_busy(1 << 16));
    assert_eq!(flash::start_programming(0), 1);
    assert_eq!(flash::end_programming(1), 0);
    assert_eq!(flash::end_erase(0b10), 0);
}

#[test]
fn gtzc_peripheral_security_roundtrip() {
    let g = Gtzc::new();
    for id in [0u8, 5, 31] {
        for secure in [true, false] {
            let d = g.etzpc_set_peripheral_secure(id, secure, 0xFFFF_FFFF).unwrap();
            assert_eq!(g.etzpc_get_peripheral_secure(id, d), secure);
        }
    }
    assert_eq!(g.etzpc_set_peripheral_secure(5, true, 0), Some(1 << 8));
    assert_eq!(g.etzpc_set_peripheral_secure(32, true, 0), None);
    assert!(!g.etzpc_get_peripheral_secure(40, 0xFFFF_FFFF));
    assert_eq!(g.etzpc_decprot_register(9), 0x18);
    assert_eq!(g.etzpc_lock_peripheral(1, 0), Some(1 << 10));
    assert!(g.etzpc_is_locked(1, 1 << 10));
}

#[test]
fn register_write_is_plain_data() {
    let w = RegisterWrite { offset: 0x10, value: 3 };
    assert_eq!(w, RegisterWrite { offset: 0x10, value: 3 });
}

#[test]
fn division_rounds_toward_zero() {
    assert_eq!(stm32u5::math::div_toward_zero(-7, 2), -3);
    assert_eq!(stm32u5::math::div_toward_zero(7, -2), -3);
    assert_eq!(stm32u5::math::div_toward_zero(-7, -2), 3);
    assert_eq!(stm32u5::math::div_toward_zero(7, 2), 3);
    assert_eq!(stm32u5::math::div_toward_zero(0, -5), 0);
}

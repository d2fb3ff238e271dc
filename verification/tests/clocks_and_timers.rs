use stm32u5::irtim::{init_irtim_default, Irtim};
use stm32u5::lptim::{self, delay_ms_lptim1, get_encoder_count, init_lptim2_pwm, Config as LptimConfig, Lptim, Prescaler};
use stm32u5::power;
use stm32u5::pwr::{self, LowPowerMode, VoltageScaling};
use stm32u5::rcc::{self, ClockFrequencies};
use stm32u5::regs::{RegisterWrite, Step};
use stm32u5::rtc::{self, Alarm, AlarmMask, Date, InitWait, Rtc, RtcError, Time, WakeupClock, INIT_TIMEOUT};
use stm32u5::tamp::{Tamp, TamperInput, TamperTrigger};
use stm32u5::tim1_8::{self, init_tim1_default, init_tim8_default, AdvancedTimer};

fn time(hours: u8, minutes: u8, seconds: u8, pm: bool) -> Time {
    Time { hours, minutes, seconds, sub_seconds: 0, pm }
}

#[test]
fn rtc_time_encoding() {
    let rtc = Rtc::new();
    assert_eq!(rtc.set_time(&time(23, 59, 58, false)), 0x0023_5958);
    assert_eq!(rtc.set_time(&time(11, 5, 0, true)), 0x0051_0500);
}

#[test]
fn rtc_time_roundtrip() {
    let rtc = Rtc::new();
    for (h, m, s, pm) in [(0, 0, 0, false), (23, 59, 59, false), (12, 30, 45, true), (39, 79, 79, true)] {
        let t = time(h, m, s, pm);
        let back = rtc.get_time(rtc.set_time(&t), 0x1234_00FF);
        assert_eq!((back.hours, back.minutes, back.seconds, back.pm), (h, m, s, pm));
        assert_eq!(back.sub_seconds, 0x00FF);
    }
}

#[test]
fn rtc_date_roundtrip() {
    let rtc = Rtc::new();
    let d = Date { year: 24, month: 12, day: 31, weekday: 2 };
    let dr = rtc.set_date(&d);
    assert_eq!(dr, 0x0024_5231);
    let back = rtc.get_date(dr);
    assert_eq!((back.year, back.month, back.day, back.weekday), (24, 12, 31, 2));
    for (year, month, day, weekday) in [(0, 1, 1, 1), (99, 9, 9, 7), (59, 10, 20, 5)] {
        let back = rtc.get_date(rtc.set_date(&Date { year, month, day, weekday }));
        assert_eq!((back.year, back.month, back.day, back.weekday), (year, month, day, weekday));
    }
}

#[test]
fn rtc_weekday_too_large_spills_into_the_year() {
    let rtc = Rtc::new();
    let back = rtc.get_date(rtc.set_date(&Date { year: 0, month: 1, day: 1, weekday: 8 }));
    assert_eq!(back.weekday, 0);
    assert_eq!(back.year, 1);
}

#[test]
fn rtc_init_mode_wait() {
    let rtc = Rtc::new();
    assert_eq!(rtc.request_init_mode(1 << 6), None);
    assert_eq!(rtc.request_init_mode(0), Some(1 << 7));
    assert!(matches!(rtc.enter_init_mode(INIT_TIMEOUT, 1 << 6), InitWait::Done(Ok(()))));
    assert!(matches!(rtc.enter_init_mode(1, 0), InitWait::Done(Err(RtcError::InitFailed))));
    assert!(matches!(rtc.enter_init_mode(3, 0), InitWait::Poll(2)));
    assert_eq!(rtc.disable_write_protection(), [0xCA, 0x53]);
    assert_eq!(rtc.enable_write_protection(), 0xFF);
    assert_eq!(rtc.exit_init_mode(0xFF), 0x7F);
}

#[test]
fn rtc_alarm_and_wakeup() {
    let rtc = Rtc::new();
    let w = rtc.set_alarm(Alarm::AlarmB, &time(7, 30, 0, false), AlarmMask::Day);
    assert_eq!(w[0], RegisterWrite { offset: rtc::reg::ALRMBR, value: 0x0007_3000 | (0b1110 << 24) });
    assert_eq!(w[1], RegisterWrite { offset: rtc::reg::ALRMBSSR, value: 0 });
    assert_eq!(rtc.alarm_disable(Alarm::AlarmB, 0xFFFF), 0xFEFF);
    assert_eq!(rtc.alarm_enable(Alarm::AlarmA, 0), 1);
    assert!(rtc.alarm_update_pending(Alarm::AlarmB, 1 << 16));
    let w = rtc.enable_wakeup(WakeupClock::CkSpre, 10, 0);
    assert_eq!(w[0], RegisterWrite { offset: rtc::reg::WUTR, value: 10 });
    assert_eq!(w[2].value, 0b100 | (1 << 10));
    assert_eq!(rtc.disable_wakeup(1 << 10), 0);
    assert_eq!(rtc.write_backup(31, 5), RegisterWrite { offset: 124, value: 5 });
    assert_eq!(rtc.read_backup(2), 8);
    assert_eq!(rtc::init_rtc_default(1 << 6)[1].value, 0);
    assert_eq!(rtc.init_lse(0)[0].value, (127 << 16) | 255);
}

#[test]
fn rcc_frequencies() {
    let reset = ClockFrequencies::default();
    assert_eq!(reset, rcc::init());
    assert_eq!(rcc::get_sysclk_freq(&reset), 16_000_000);
    let pll = rcc::configure_pll_160mhz();
    assert_eq!(rcc::get_sysclk_freq(&pll), 160_000_000);
    assert_eq!(rcc::get_hclk_freq(&pll), 160_000_000);
    assert_eq!(rcc::get_pclk1_freq(&pll), 160_000_000);
    assert_eq!(rcc::get_pclk2_freq(&pll), 160_000_000);
    assert_eq!(rcc::get_pclk3_freq(&pll), 160_000_000);
    let (clocks, steps) = stm32u5::init_with_pll();
    assert_eq!(clocks, pll);
    assert_eq!(steps, rcc::pll_160mhz_sequence());
    let acr = stm32u5::flash::FLASH_BASE + stm32u5::flash::reg::ACR;
    let cr = rcc::RCC_BASE + rcc::reg::CR;
    let cfgr = rcc::RCC_BASE + rcc::reg::CFGR;
    assert_eq!(steps, vec![
        Step::SetField { addr: cr, pos: 24, width: 1, value: 0 },
        Step::WaitField { addr: cr, pos: 25, width: 1, value: 0 },
        Step::Write { addr: rcc::RCC_BASE + rcc::reg::PLLCFGR, value: 0x1000_2831 },
        Step::SetField { addr: cr, pos: 24, width: 1, value: 1 },
        Step::WaitField { addr: cr, pos: 25, width: 1, value: 1 },
        Step::SetField { addr: acr, pos: 0, width: 4, value: 4 },
        Step::WaitField { addr: acr, pos: 0, width: 4, value: 4 },
        Step::SetField { addr: cfgr, pos: 0, width: 2, value: 3 },
        Step::WaitField { addr: cfgr, pos: 2, width: 2, value: 3 },
    ]);
    let set_sw = steps[7];
    assert_eq!(set_sw.store(0xFFFF_FFF0), 0xFFFF_FFF3);
    assert!(steps[8].is_satisfied(0b1100));
    assert!(!steps[8].is_satisfied(0b0100));
    assert!(Step::Pause { cycles: 3 }.is_well_formed());
    assert!(!Step::SetField { addr: 0, pos: 30, width: 4, value: 0 }.is_well_formed());
    assert_eq!(stm32u5::get_sysclk_freq(&stm32u5::init()), 16_000_000);
}

#[test]
fn rcc_register_words() {
    assert_eq!(rcc::pllcfgr_160mhz(), 0x1000_2831);
    assert_eq!(rcc::hsi16_on(0), 1);
    assert!(rcc::hsi16_ready(0b10));
    assert_eq!(rcc::select_hsi16(0xFF), 0xFD);
    assert!(rcc::hsi16_selected(0b0100));
    assert_eq!(rcc::select_pll(0), 3);
    assert!(rcc::pll_selected(0b1100));
    assert_eq!(rcc::pll_off(1 << 24), 0);
    assert!(rcc::pll_ready(1 << 25));
    assert_eq!(rcc::flash_latency_160mhz(0xFF), 0xF4);
    assert!(rcc::flash_latency_set(0x14));
    assert_eq!(rcc::enable_apb1_clock(rcc::apb1::LPTIM1, 1), 0x8000_0001);
    assert_eq!(rcc::enable_ahb2_clock(rcc::ahb2::GPIOA | rcc::ahb2::GPIOB, 0), 3);
}

#[test]
fn busy_wait_cycles() {
    let pll = rcc::configure_pll_160mhz();
    assert_eq!(stm32u5::delay_ms(10, &pll), 1_600_000);
    assert_eq!(stm32u5::delay_us(10, &pll), 1_600);
    assert_eq!(stm32u5::delay_ms(u32::MAX, &pll), u32::MAX as u64 * 160_000);
}

#[test]
fn pwr_wakeup_pins() {
    assert_eq!(pwr::enable_wakeup_pin(1, 0), Some(1 << 8));
    assert_eq!(pwr::enable_wakeup_pin(8, 0), Some(1 << 15));
    assert_eq!(pwr::enable_wakeup_pin(0, 0), None);
    assert_eq!(pwr::enable_wakeup_pin(9, 0), None);
    assert_eq!(pwr::disable_wakeup_pin(3, 0xFFFF), Some(0xFBFF));
    assert!(pwr::is_wakeup_flag_set(2, 1 << 17));
    assert!(!pwr::is_wakeup_flag_set(9, u32::MAX));
    assert_eq!(pwr::clear_wakeup_flag(8, 0), Some(1 << 7));
    assert_eq!(pwr::clear_wakeup_flag(0, 0), None);
}

#[test]
fn pwr_levels_and_modes() {
    assert_eq!(pwr::set_pvd_level(7, 0), Some(0b1110));
    assert_eq!(pwr::set_pvd_level(8, 0), None);
    assert_eq!(pwr::set_voltage_scaling(VoltageScaling::Range3, 0), 2 << 16);
    assert_eq!(pwr::configure_for_160mhz(0xFFFF_FFFF), 0xFFFC_FFFF);
    assert_eq!(pwr::enter_stop_mode(LowPowerMode::Stop2, 0xFF), 0xFA);
    assert_eq!(pwr::enter_standby_mode(0), 4);
    assert_eq!(pwr::enter_shutdown_mode(0), 6);
    assert_eq!(pwr::enter_sleep_mode(0xFF), 0xF8);
    assert_eq!(power::stop(LowPowerMode::Stop1, 0), 1);
    assert_eq!(power::sleep(7), 0);
    assert_eq!(power::standby(0), 4);
    assert_eq!(power::shutdown(0), 6);
    assert_eq!(pwr::init(0, 0), (1 << 28, 1 << 8));
    assert_eq!(pwr::enable_ucpd(0xFF), 0xBF);
    assert_eq!(pwr::clear_stop_flag(0xFF), 0xBF);
}

#[test]
fn lptim_configuration() {
    let t = Lptim::lptim1();
    let c = LptimConfig { prescaler: Prescaler::Div32, ..LptimConfig::default() };
    // LSE (3), divide by 32 (5) at bit 3, preload at bit 22.
    assert_eq!(t.init(&c), 3 | (5 << 3) | (1 << 22));
    assert_eq!(t.enable_interrupt(true, true), 3);
    assert_eq!(t.enable_interrupt(false, true), 2);
    assert_eq!(delay_ms_lptim1(250, 0)[0], RegisterWrite { offset: lptim::reg::ARR, value: 250 });
    assert_eq!(get_encoder_count(0x0001_0002), 2);
}

#[test]
fn lptim_pwm_period_and_duty() {
    let w = init_lptim2_pwm(1000, 25, 0);
    assert_eq!(w.len(), 5);
    assert_eq!(w[1], RegisterWrite { offset: lptim::reg::ARR, value: 4000 });
    assert_eq!(w[2], RegisterWrite { offset: lptim::reg::CMP, value: 1000 });
    assert_eq!(w[4].value, 0b101);
    // A period above 16 bits is cut to its low 16 bits.
    let w = init_lptim2_pwm(50, 50, 0);
    assert_eq!(w[1].value, 80_000 & 0xFFFF);
}

#[test]
fn irtim_default_carrier() {
    let w = init_irtim_default(0);
    assert_eq!(w[0].value, 0);
    assert_eq!(w[1].value, 420);
    assert_eq!(w[2].value, 210);
    assert_eq!(w[3].value, 1 << 7);
    assert_eq!(w[4].value, (1 << 7) | (1 << 1));
    let ir = Irtim::new();
    // 1 MHz carrier from a 200 MHz clock: 200 ticks, no prescaling.
    let w = ir.configure_pwm_ir(1_000_000, 100, 200_000_000, 0);
    assert_eq!((w[0].value, w[1].value, w[2].value), (0, 199, 200));
    // 100 Hz from 16 MHz: 160000 ticks need a prescaler of 3.
    let w = ir.configure_pwm_ir(100, 50, 16_000_000, 0);
    assert_eq!((w[0].value, w[1].value, w[2].value), (2, 53332, 26666));
}

#[test]
fn advanced_timer_words() {
    let t = init_tim1_default();
    assert_eq!(t.base(), tim1_8::TIM1_BASE);
    assert_eq!(init_tim8_default().base(), tim1_8::TIM8_BASE);
    assert_eq!(AdvancedTimer::default().base(), tim1_8::TIM1_BASE);
    assert_eq!(t.set_ccr5(77), RegisterWrite { offset: tim1_8::reg::CCR5, value: 77 });
    assert_eq!(t.set_dead_time(0x42, 0xFFFF_FFFF), 0xFFFF_FF42);
    assert_eq!(t.enable_main_output(0), 1 << 15);
    assert_eq!(t.clear_update_flag(0xFF), 0xFE);
    assert_eq!(t.generate_com_event(), 1 << 5);
    assert_eq!(t.get_counter(0xABCD_0102), 0x0102);
}

#[test]
fn tamper_configuration() {
    let t = Tamp::new();
    assert_eq!(t.enable_tamper(TamperInput::Tamper3, TamperTrigger::HighLevel, 0, 0), (1 << 2, 0b11 << 4));
    assert_eq!(t.disable_tamper(TamperInput::Tamper3, 0xFF), 0xFB);
    assert!(t.is_tamper_detected(TamperInput::Tamper8, 1 << 7));
    assert_eq!(t.clear_tamper_flag(TamperInput::Tamper2), 2);
    assert_eq!(t.write_backup(1, 3), RegisterWrite { offset: 0x104, value: 3 });
    assert_eq!(t.read_backup(0), 0x100);
    assert_eq!(t.increment_counter2(0), 1 << 16);
    assert_eq!(stm32u5::tamp::init_tamp_default(1 << 21, 1), (1 << 21) | 1);
}

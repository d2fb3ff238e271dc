use stm32u5::adc::{self, Config as AdcConfig};
use stm32u5::adc::{gpio_to_channel, init_adc1_default, Adc, Channel as AdcChannel};
use stm32u5::adc4::{init_adc4_default, Adc4};
use stm32u5::adf::Adf;
use stm32u5::cordic::{Cordic, Function, Precision, Scale};
use stm32u5::dac::{self, Channel as DacChannel, Dac};
use stm32u5::fmac::{Fmac, COEFF};
use stm32u5::mdf::{self, Filter, FilterConfig, Mdf};
use stm32u5::opamp::{init_opamp1_follower, init_opamp2_pga, Opamp};
use stm32u5::regs::{RegisterWrite, Step};

#[test]
fn temperature_at_calibration_points() {
    let adc = Adc::adc1();
    assert_eq!(adc.read_temperature(1000, 1000, 1300), 30_000);
    assert_eq!(adc.read_temperature(1300, 1000, 1300), 130_000);
}

#[test]
fn temperature_between_and_below_calibration() {
    let adc = Adc::adc1();
    assert_eq!(adc.read_temperature(1150, 1000, 1300), 80_000);
    // -33333.3 rounds toward zero.
    assert_eq!(adc.read_temperature(900, 1000, 1300), -3_333);
}

#[test]
fn vrefint_gives_vdd() {
    let adc = Adc::adc1();
    assert_eq!(adc.read_vrefint(1500, 1500), 3000);
    assert_eq!(adc.read_vrefint(1650, 1500), 2727);
}

#[test]
fn gpio_channel_mapping() {
    assert_eq!(gpio_to_channel(0, 0), Some(AdcChannel::Channel0));
    assert_eq!(gpio_to_channel(0, 7), Some(AdcChannel::Channel7));
    assert_eq!(gpio_to_channel(2, 3), Some(AdcChannel::Channel11));
    assert_eq!(gpio_to_channel(1, 4), Some(AdcChannel::Channel15));
    assert_eq!(gpio_to_channel(1, 3), None);
    assert_eq!(gpio_to_channel(3, 0), None);
    // No two pins share a channel.
    let mut seen = Vec::new();
    for port in 0..3u8 {
        for pin in 0..16u8 {
            if let Some(c) = gpio_to_channel(port, pin) {
                assert!(!seen.contains(&c));
                seen.push(c);
            }
        }
    }
    assert_eq!(seen.len(), 16);
}

#[test]
fn adc_control_bits() {
    let adc = Adc::adc1();
    assert_eq!(adc.enable(0), 1);
    assert!(adc.is_ready(1));
    assert!(adc.is_conversion_complete(1 << 2));
    assert_eq!(adc.read(0xABCD_1234), 0x1234);
}

#[test]
fn adc_default_init() {
    let r = init_adc1_default(0);
    // Clock divided by 4: prescaler code 2 at bit 18.
    assert_eq!(r.ccr, 2 << 18);
    // 12-bit resolution (code 0), no other option.
    assert_eq!(r.cfgr, 0);
    assert_eq!(init_adc4_default(), Adc4::new().init(&stm32u5::adc4::Config::default()));
}

#[test]
fn dac_voltage_codes() {
    let dac = Dac::new();
    assert_eq!(dac.set_voltage(DacChannel::Channel1, 1650, 3300), RegisterWrite { offset: dac::reg::DHR12R1, value: 2047 });
    assert_eq!(dac.set_voltage(DacChannel::Channel2, 3300, 3300), RegisterWrite { offset: dac::reg::DHR12R2, value: 4095 });
    assert_eq!(dac.set_voltage(DacChannel::Channel1, 0, 3300).value, 0);
    // Values beyond 12 bits are masked.
    assert_eq!(dac.set_value_12bit(DacChannel::Channel1, 0x1FFF).value, 0xFFF);
}

#[test]
fn opamp_modes() {
    assert_eq!(init_opamp1_follower(), 5);
    assert_eq!(init_opamp2_pga(), 25);
    let op = Opamp::opamp1();
    assert_eq!(op.calibration_start(0), (1 << 30, (1 << 30) | 1));
    assert!(op.calibration_done(1 << 14));
    let csr = (0x15 << 24) | (0b11 << 30) | 1;
    assert_eq!(op.calibrate(csr), (0x15, (0x15 << 24) | 1));
    assert!(op.is_ready(1 << 8));
}

#[test]
fn cordic_operations() {
    let c = Cordic::new();
    assert_eq!(c.sin_cos_result(0x4000_0000, 0xC000_0000), (0xC000_0000u32 as i32, 0x4000_0000));
    let op = c.sin(0x2000_0000);
    assert_eq!(op.csr, c.init(Function::Sine, Precision::Iter24, Scale::Scale1));
    assert_eq!(op.arg1, 0x2000_0000);
    assert_eq!(op.arg2, None);
    assert_eq!(c.write_arg1(-1), 0xFFFF_FFFF);
    assert_eq!(c.read_res1(0x8000_0000), i32::MIN);
}

#[test]
fn fmac_coefficients_and_samples() {
    let f = Fmac::new();
    let w = f.load_coefficients(&[1, -1]);
    assert_eq!(w, vec![RegisterWrite { offset: COEFF, value: 1 }, RegisterWrite { offset: COEFF + 4, value: 0xFFFF_FFFF }]);
    assert_eq!(f.process_sample(-2, 0x0001_FFFE), (0xFFFF_FFFE, -2));
    let mut out = [9i16; 4];
    f.process_buffer(&[1, 2, 3], &mut out, &[10, 20, 30]);
    assert_eq!(out, [10, 20, 30, 9]);
    let mut short = [0i16; 2];
    f.process_buffer(&[1, 2, 3], &mut short, &[10, 20]);
    assert_eq!(short, [10, 20]);
}

#[test]
fn mdf_filter_configuration() {
    let m = Mdf::new();
    let config = FilterConfig { old_enable: true, old_threshold: 100, ..FilterConfig::default() };
    let w = m.configure_filter(Filter::F2, &config);
    assert_eq!(w.len(), 5);
    assert_eq!(w[0], RegisterWrite { offset: 0x200 + mdf::DFLTCR, value: (3 << 13) | 64 });
    assert_eq!(w[4], RegisterWrite { offset: 0x200 + mdf::DFLTOLDCR, value: (1 << 31) | 100 });
    assert_eq!(m.configure_filter(Filter::F0, &FilterConfig::default()).len(), 4);
    assert_eq!(m.filter_base(Filter::F5), mdf::MDF1_BASE + 0x500);
    assert_eq!(m.set_offset(Filter::F0, -1, 0x1234_5678), 0xFFFF_5678);
}

#[test]
fn adf_samples_fill_the_buffer_prefix() {
    let a = Adf::new();
    let mut buf = [7i32; 4];
    assert_eq!(a.read_samples(&mut buf, &[1, 0xFFFF_FFFF]), 2);
    assert_eq!(buf, [1, -1, 7, 7]);
}

#[test]
fn adc_bring_up_sequence() {
    let a = Adc::adc1();
    let cfg = AdcConfig { continuous: true, ..AdcConfig::default() };
    let seq = a.init_sequence(&cfg);
    let cr = adc::ADC1_BASE + adc::reg::CR;
    assert_eq!(seq, vec![
        Step::SetField { addr: cr, pos: 28, width: 1, value: 1 },
        Step::Pause { cycles: 1000 },
        Step::SetField { addr: adc::ADC1_COMMON_BASE + adc::common_reg::CCR, pos: 18, width: 4, value: 2 },
        Step::Write { addr: adc::ADC1_BASE + adc::reg::CFGR, value: 1 << 13 },
        Step::SetField { addr: cr, pos: 31, width: 1, value: 1 },
        Step::WaitField { addr: cr, pos: 31, width: 1, value: 0 },
        Step::SetField { addr: cr, pos: 0, width: 1, value: 1 },
        Step::WaitField { addr: adc::ADC1_BASE + adc::reg::ISR, pos: 0, width: 1, value: 1 },
    ]);
    let c4 = stm32u5::adc4::Config::default();
    let seq4 = Adc4::new().init_sequence(&c4);
    assert_eq!(seq4.len(), 7);
    assert_eq!(seq4[2], Step::Write { addr: stm32u5::adc4::ADC4_BASE + stm32u5::adc4::reg::CFGR, value: Adc4::new().init(&c4) });
    assert_eq!(seq4[6], Step::WaitField { addr: stm32u5::adc4::ADC4_BASE + stm32u5::adc4::reg::ISR, pos: 0, width: 1, value: 1 });
}

#[test]
fn adf_read_stops_at_empty_or_full() {
    let a = Adf::new();
    assert!(a.read_samples_continue(0, 4, 1));
    assert!(!a.read_samples_continue(0, 4, 0));
    assert!(!a.read_samples_continue(4, 4, 1));
}

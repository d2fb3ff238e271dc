use stm32u5::dlyb::CalibrationStep;
use stm32u5::fmc::{
    config_nand_default, config_nor_default, config_sdram_default, config_sdram_timing_100mhz, reg as fmc_reg,
    timing_100mhz_nor, Bank, Fmc, NandBank, NandTiming, SdramBank, SdramCommand, SdramTiming, Timing,
};
use stm32u5::dcmi::{self, init_dcmi_dma, init_dcmi_ov7670, CropConfig, Dcmi, FrameRate};
use stm32u5::dsi::{self, init_dsi_default, Dsi};
use stm32u5::gpu2d::{self, init_dma2d, Dma2d, PixelFormat};
use stm32u5::hspi::{self, Hspi};
use stm32u5::can::{CanError, CanFrame, Fdcan};
use stm32u5::debug;
use stm32u5::dlyb::{Dlyb, DlybError};
use stm32u5::gpio::PortConfig;
use stm32u5::hrtim::{Hrtim, Timer, MASTER_CMP2, TIM_CMP1, TIM_PER};
use stm32u5::i2c::{self, calculate_timing, Config as I2cConfig, I2c, I2cSpeed};
use stm32u5::i3c::{init_i3c1_default, I3c};
use stm32u5::jpeg::{self, init_jpeg_default, Jpeg};
use stm32u5::lpuart::{self, debug_putc, debug_puts, init_debug_lpuart, init_lpuart1_debug, Lpuart};
use stm32u5::ltdc::{self, init_ltdc_480x272, resolutions, Layer, Ltdc};
use stm32u5::pssi::{self, Pssi};
use stm32u5::regs::{RegisterWrite, Step};
use stm32u5::sai::{self, init_sai_i2s_output, Sai};
use stm32u5::sdmmc::{self, init_sd_card, Command, CommandWait, DataDirection, ResponseType, Sdmmc, SdmmcError};
use stm32u5::smps::{self, init_smps_default, OutputVoltage, Smps, SmpsMode};

#[test]
fn lpuart_baud_and_init() {
    let u = Lpuart::lpuart1();
    let w = u.init(&lpuart::Config::default(), 16_000_000);
    assert_eq!(w.len(), 7);
    // (16e6 * 256 + 57600) / 115200 = 35556.
    assert_eq!(w[3], RegisterWrite { offset: lpuart::reg::BRR, value: 35556 });
    assert_eq!(w[6].value, (1 << 3) | (1 << 2) | 1);
    let mut porta = PortConfig { moder: 0, otyper: 0xFFFF, ospeedr: 0, pupdr: 0, afrl: 0, afrh: 0 };
    let w2 = init_lpuart1_debug(9600, 16_000_000, &mut porta);
    assert_eq!(w2[3].value, (16_000_000u32 * 256 + 4800) / 9600);
    assert_eq!(porta.afrl, 0x8800);
    assert_eq!(porta.otyper, 0xFFF3);
    assert_eq!(porta.pupdr, 0b01 << 6);
}

#[test]
fn lpuart_text_and_debug_port() {
    let u = Lpuart::lpuart1();
    assert_eq!(u.send_str("Hi!"), vec![0x48, 0x69, 0x21]);
    assert_eq!(u.send_str("é"), vec![0xC3, 0xA9]);
    assert_eq!(u.receive(0x1FF), 0xFF);
    assert!(u.is_tx_ready(1 << 7));
    assert!(u.is_rx_ready(1 << 5));
    assert_eq!(u.enable_wakeup(0, 0), (1 << 2, 1 << 21));
    assert_eq!(debug_putc(&None, b'x'), None);
    assert!(debug_puts(&None, "abc").is_empty());
    let mut porta = PortConfig { moder: 0, otyper: 0, ospeedr: 0, pupdr: 0, afrl: 0, afrh: 0 };
    let (port, _) = init_debug_lpuart(115200, 16_000_000, &mut porta);
    assert_eq!(debug_putc(&port, b'x'), Some(0x78));
    assert_eq!(debug_puts(&port, "ok"), vec![0x6F, 0x6B]);
}

#[test]
fn print_hex_text() {
    assert_eq!(debug::print_hex(0), b"0x00000000".to_vec());
    assert_eq!(debug::print_hex(0xDEAD_BEEF), b"0xDEADBEEF".to_vec());
    assert_eq!(debug::print_hex(0x0123_4567), b"0x01234567".to_vec());
    assert_eq!(debug::println("hi"), b"hi\r\n".to_vec());
    assert_eq!(debug::println(""), b"\r\n".to_vec());
}

#[test]
fn print_hex_parses_back() {
    for v in [0u32, 1, 0x89AB_CDEF, u32::MAX] {
        let text = String::from_utf8(debug::print_hex(v)).unwrap();
        assert_eq!(u32::from_str_radix(&text[2..], 16).unwrap(), v);
    }
}

#[test]
fn i2c_transfers() {
    let i = I2c::i2c1();
    let w = i.init(&I2cConfig::default(), 16_000_000);
    assert_eq!(w.len(), 3);
    assert_eq!(w[1], RegisterWrite { offset: i2c::reg::TIMINGR, value: calculate_timing(16_000_000, I2cSpeed::Standard) });
    let w = i.init(&I2cConfig { own_address: 0x33, ..I2cConfig::default() }, 16_000_000);
    assert_eq!(w[2], RegisterWrite { offset: i2c::reg::OAR1, value: (1 << 15) | (0x33 << 1) });
    assert_eq!(i.start(0x50, true), (0x50 << 1) | (1 << 10) | (1 << 13) | (1 << 25));
    let (cr2, tx) = i.write(0x50, &[1, 2]);
    assert_eq!(cr2, i.start(0x50, false) | (2 << 16));
    assert_eq!(tx, vec![1, 2]);
    let (count, start) = i.read(0x50, 3, 0x00FF_0000);
    assert_eq!(count, 3 << 16);
    assert_eq!(start, (0x50 << 1) | (1 << 10) | (1 << 13) | (3 << 16) | (1 << 25));
    let ((wstart, wtx), (rcount, rstart)) = i.write_read(0x50, &[7], 4, 0);
    assert_eq!(wstart, (0x50 << 1) | (1 << 13) | (1 << 16) | (1 << 25));
    assert_eq!(wtx, vec![7]);
    assert_eq!(rcount, 4 << 16);
    assert_eq!((rstart >> 16) & 0xFF, 4);
    assert_eq!(calculate_timing(0, I2cSpeed::Fast), 0x7030_0C27);
}

#[test]
fn i3c_words() {
    let i = I3c::i3c1();
    let (word, tx) = i.write(0x08, &[0xAA]);
    assert_eq!(word, (0x08 << 1) | (1 << 16));
    assert_eq!(tx, vec![0xAA]);
    assert_eq!(i.read(0x08, 2), (0x08 << 1) | (1 << 14) | (2 << 16));
    let (ccc, data) = i.send_ccc(0x06, None);
    assert_eq!(ccc, (0x06 << 16) | (1 << 8) | (1 << 14));
    assert!(data.is_empty());
    assert_eq!(init_i3c1_default(0)[2], RegisterWrite { offset: stm32u5::i3c::reg::CR, value: 1 });
}

#[test]
fn sdmmc_command_wait() {
    let s = Sdmmc::sdmmc1();
    assert!(matches!(s.command_wait(sdmmc::COMMAND_TIMEOUT, 1 << 6), CommandWait::Done(Ok(()))));
    assert!(matches!(s.command_wait(5, 1 << 7), CommandWait::Done(Ok(()))));
    assert!(matches!(s.command_wait(5, 1 << 3), CommandWait::Done(Err(SdmmcError::Timeout))));
    assert!(matches!(s.command_wait(1, 0), CommandWait::Done(Err(SdmmcError::Timeout))));
    assert!(matches!(s.command_wait(5, 0), CommandWait::Poll(4)));
    assert_eq!(s.command_response(ResponseType::NoResponse, 7), 0);
    assert_eq!(s.command_response(ResponseType::Short, 7), 7);
    let w = s.send_command(Command::ReadSingleBlock, 0x200, ResponseType::Short);
    assert_eq!(w[2], RegisterWrite { offset: sdmmc::reg::CMD, value: 17 | (1 << 6) | (1 << 10) });
    let w = s.send_command(Command::SendIfCond, 0x1AA, ResponseType::Short);
    assert_eq!(w[1], RegisterWrite { offset: sdmmc::reg::ARG, value: 0x1AA });
    assert_eq!(w[2], RegisterWrite { offset: sdmmc::reg::CMD, value: 8 | (1 << 6) | (1 << 10) });
}

#[test]
fn sdmmc_block_roundtrip() {
    let s = Sdmmc::sdmmc1();
    let data: Vec<u8> = (0..13u8).map(|x| x.wrapping_mul(37)).collect();
    let words = s.write_block(&data);
    assert_eq!(words.len(), 4);
    assert_eq!(words[3], data[12] as u32);
    let mut back = vec![0u8; 13];
    s.read_block(&mut back, &words);
    assert_eq!(back, data);
}

#[test]
fn sdmmc_setup_and_card_init() {
    let s = Sdmmc::sdmmc1();
    let w = s.data_transfer_setup(512, DataDirection::Write);
    assert_eq!(w[1], RegisterWrite { offset: sdmmc::reg::DLEN, value: 512 });
    assert_eq!(w[2].value, 1 | (1 << 1) | (9 << 4));
    assert_eq!(s.set_clock(400_000, 160_000_000, 0xFFFF_FFFF), 0xFFFF_FC00 | 400);
    let cmds = init_sd_card();
    assert_eq!(cmds.len(), 6);
    assert_eq!(cmds[0], (Command::GoIdleState, 0, ResponseType::NoResponse));
    assert_eq!(cmds[1], (Command::SendIfCond, 0x1AA, ResponseType::Short));
    assert_eq!(cmds[3], (Command::SdSendOpCond, 0x4000_0000, ResponseType::Short));
    assert_eq!(s.init()[1].value, (1 << 17) | 118);
}

#[test]
fn sd_card_init_steps() {
    assert!(matches!(
        sdmmc::card_init_step(0, Ok(())),
        sdmmc::CardInitStep::Send(Command::GoIdleState, 0, ResponseType::NoResponse)
    ));
    assert!(matches!(
        sdmmc::card_init_step(4, Ok(())),
        sdmmc::CardInitStep::Send(Command::SendCid, 0, ResponseType::Long)
    ));
    assert!(matches!(sdmmc::card_init_step(6, Ok(())), sdmmc::CardInitStep::Done(Ok(()))));
    assert!(matches!(
        sdmmc::card_init_step(1, Ok(())),
        sdmmc::CardInitStep::Send(Command::SendIfCond, 0x1AA, ResponseType::Short)
    ));
    assert!(matches!(
        sdmmc::card_init_step(2, Err(SdmmcError::Timeout)),
        sdmmc::CardInitStep::Done(Err(SdmmcError::Timeout))
    ));
}

#[test]
fn dlyb_calibration() {
    let d = Dlyb::dlyb1();
    assert_eq!(d.calibrate(&[false, false, true]), Ok(3));
    assert_eq!(d.calibrate(&[true]), Ok(1));
    assert_eq!(d.calibrate(&[false; 31]), Err(DlybError::CalibrationFailed));
    assert_eq!(d.calibrate(&[]), Err(DlybError::CalibrationFailed));
}

#[test]
fn dlyb_init_optimal() {
    let d = Dlyb::dlyb1();
    let w = d.init_optimal(&[false, false, true], 0xFFFF_FFE0, 0).unwrap();
    assert_eq!(w[0], RegisterWrite { offset: stm32u5::dlyb::reg::CFGR, value: 0xFFFF_FFE3 });
    assert_eq!(w[1], RegisterWrite { offset: stm32u5::dlyb::reg::CR, value: 1 });
    assert_eq!(d.init_optimal(&[false; 31], 0, 0), Err(DlybError::CalibrationFailed));
}

#[test]
fn dlyb_calibration_steps() {
    let d = Dlyb::dlyb1();
    assert!(matches!(d.calibration_step(0, true), CalibrationStep::Try(1)));
    assert!(matches!(d.calibration_step(3, false), CalibrationStep::Try(4)));
    assert!(matches!(d.calibration_step(3, true), CalibrationStep::Done(Ok(3))));
    assert!(matches!(d.calibration_step(31, false), CalibrationStep::Done(Err(DlybError::CalibrationFailed))));
    let cfgr = stm32u5::dlyb::DLYB1_BASE + stm32u5::dlyb::reg::CFGR;
    assert_eq!(d.try_length_steps(7), vec![
        Step::SetField { addr: cfgr, pos: 0, width: 5, value: 7 },
        Step::SetField { addr: cfgr, pos: 8, width: 1, value: 1 },
        Step::Pause { cycles: 10000 },
    ]);
}

#[test]
fn can_controller() {
    let c = Fdcan::fdcan1();
    let w = c.init(500_000, 2_000_000, 160_000_000);
    assert_eq!(w[0].value, (80 << 16) | (3 << 8) | 1);
    assert_eq!(w[1].value, (20 << 16) | (3 << 8) | 1);
    let mut frame = CanFrame { id: 1, is_extended: false, is_fd: false, data: [0; 64], dlc: 0 };
    assert_eq!(c.send(&frame), Ok(()));
    assert_eq!(c.receive(&mut frame), Err(CanError::NoMessage));
    assert_eq!(frame.id, 1);
}

#[test]
fn hrtim_periods_and_compares() {
    let h = Hrtim::new();
    // 160 MHz, 100 kHz, prescale code 1 (factor 2): 160e6 / 200e3 - 1 = 799.
    assert_eq!(h.update_frequency(Timer::A, 100_000, 160, 1 << 3), RegisterWrite { offset: TIM_PER, value: 799 });
    assert_eq!(h.update_frequency(Timer::A, 100_000, 160, 0), RegisterWrite { offset: TIM_PER, value: 1599 });
    assert_eq!(h.set_compare(Timer::Master, 2, 5), Some(RegisterWrite { offset: MASTER_CMP2, value: 5 }));
    assert_eq!(h.set_compare(Timer::B, 1, 5), Some(RegisterWrite { offset: TIM_CMP1, value: 5 }));
    assert_eq!(h.set_compare(Timer::B, 5, 5), None);
    assert_eq!(h.set_compare(Timer::B, 0, 5), None);
}

#[test]
fn sai_block_init() {
    let w = init_sai_i2s_output();
    assert_eq!(w.len(), 5);
    // Master transmitter, free protocol, 16-bit data (code 0b100 at bit 5).
    assert_eq!(w[1], RegisterWrite { offset: sai::block_reg::SAI_CR1, value: 0b100 << 5 });
    assert_eq!(w[2].value, 31 | (15 << 8) | (1 << 16) | (1 << 17));
    assert_eq!(w[4].value, (0b100 << 5) | (1 << 16));
    assert_eq!(Sai::sai1().init(0), 1 << 21);
    assert_eq!(Sai::sai2().init(1), (1 << 22) | 1);
    let s = Sai::sai2();
    assert_eq!(s.block_b().block_base(), sai::SAI2_BASE + sai::SAI_BLOCK_B_OFFSET);
    assert_eq!(s.init(0), 1 << 22);
}

#[test]
fn ltdc_panel_setup() {
    let l = Ltdc::new();
    let t = l.init(&resolutions::WVGA_480X272());
    assert_eq!(t[0], RegisterWrite { offset: ltdc::reg::SSCR, value: (40 << 16) | 9 });
    assert_eq!(t[1].value, (42 << 16) | 11);
    assert_eq!(t[2].value, (522 << 16) | 283);
    assert_eq!(t[3].value, (524 << 16) | 285);
    let w = init_ltdc_480x272(0x2000_0000, 0, 0);
    assert_eq!(w.len(), 14);
    assert_eq!(w[8], RegisterWrite { offset: ltdc::layer_reg::L1CFBAR, value: 0x2000_0000 });
    assert_eq!(w[9].value, (960 << 16) | 963);
    assert_eq!(w[13], RegisterWrite { offset: ltdc::reg::GCR, value: 1 });
    assert_eq!(l.enable_layer(Layer::Layer2, 0).offset, ltdc::layer_reg::L1CR + ltdc::LAYER2_OFFSET);
    assert_eq!(l.set_background_color(1, 2, 3), 0x0001_0203);
    assert_eq!(l.reload(false), 2);
    assert_eq!(resolutions::VGA_640X480().total_height, 525);
}

#[test]
fn pssi_buffers() {
    let p = Pssi::new();
    assert_eq!(p.send_buffer(&[1, 2, 255]), vec![1, 2, 255]);
    let mut buf = [0u8; 3];
    p.receive_buffer(&mut buf, &[0x1FF, 0x100, 7]);
    assert_eq!(buf, [0xFF, 0x00, 7]);
    assert_eq!(p.receive_halfword(0x1234_5678), 0x5678);
    assert_eq!(p.enable(0), 1 << 14);
    assert_eq!(p.clear_overrun(), pssi::int_bits::OVR);
    let c = pssi::Config::default();
    // 8-bit data and bus, both control signals, continuous mode.
    assert_eq!(p.configure(&c) & (1 << 18), 1 << 18);
}

#[test]
fn jpeg_control() {
    let j = Jpeg::new();
    assert_eq!(init_jpeg_default(), 1);
    assert_eq!(j.init(&jpeg::Config { mode: jpeg::OperationMode::Decompress, ..jpeg::Config::default() }), 0b1001);
    assert_eq!(j.enable_dma(true, false, 0), 1 << 11);
    assert_eq!(j.disable_dma(0xFFFF), 0xE7FF);
    assert!(j.is_complete(1 << 2));
}

#[test]
fn smps_default() {
    let w = init_smps_default(0xFFFF_FFFF);
    assert_eq!(w[0], RegisterWrite { offset: smps::reg::CR, value: 0 });
    assert_eq!(w[1].value, 0xFFF3_FFFF);
    assert_eq!(w[2].value, 0xFFF3_FDFF);
    assert_eq!(w[3].value, 0b11 << 8);
    assert_eq!(w[4].value, (0b11 << 8) | 1);
    let s = Smps::new();
    assert_eq!(s.set_mode(SmpsMode::Disabled, 0xFFFF), (0xFCFF, 0xFCFE));
    assert_eq!(s.set_voltage(OutputVoltage::V1800, 0), 9 << 16);
}

#[test]
fn fmc_nor_bank_writes() {
    let fmc = Fmc::new();
    let w = fmc.init_nor(Bank::Bank2, &config_nor_default(), &Timing::default());
    assert_eq!(w[0], RegisterWrite { offset: 0x08, value: 0x0000_1811 });
    assert_eq!(w[1], RegisterWrite { offset: 0x0C, value: 0x0020_0110 });
    let t = timing_100mhz_nor();
    let w1 = fmc.init_nor(Bank::Bank1, &config_nor_default(), &t);
    assert_eq!(w1[0].offset, 0x00);
    assert_eq!(w1[1].offset, 0x04);
    assert_eq!(fmc.disable_bank(0x1811), 0x1810);
    assert_eq!(fmc.get_bank_base(Bank::Bank3), 0x6800_0000);
    assert_eq!(fmc.bank_address(Bank::Bank3, 0x20), 0x6800_0020);
}

#[test]
fn fmc_sdram_bank_writes() {
    let fmc = Fmc::new();
    let timing = SdramTiming::default();
    let w = fmc.init_sdram(SdramBank::Bank2, &config_sdram_default(), &timing);
    assert_eq!(w[0], RegisterWrite { offset: 0x144, value: 0x0000_10D4 });
    assert_eq!(w[1], RegisterWrite { offset: 0x14C, value: 0x0222_7472 });
    let w1 = fmc.init_sdram(SdramBank::Both, &config_sdram_default(), &config_sdram_timing_100mhz());
    assert_eq!(w1[0].offset, 0x140);
    assert_eq!(w1[1].offset, 0x148);
    assert_eq!(fmc.send_sdram_command(SdramCommand::LoadMode, SdramBank::Both), 0x1C);
    assert_eq!(fmc.set_sdram_refresh_rate(0x603), 0xC06);
    assert!(fmc.is_sdram_busy(0x20));
    assert!(!fmc.is_sdram_busy(1));
    assert_eq!(fmc.sdram_address(SdramBank::Bank2, 4), 0xD000_0004);
    assert_eq!(fmc.sdram_address(SdramBank::Both, 4), 0xC000_0004);
    assert_eq!(fmc.sdram_power_down(), 0x0E);
    assert_eq!(fmc.sdram_enter_self_refresh(), 0x0D);
}

#[test]
fn fmc_sdram_power_up_sequence() {
    let fmc = Fmc::new();
    let seq = fmc.sdram_init_sequence(&config_sdram_default(), &SdramTiming::default());
    let base = stm32u5::fmc::FMC_BASE;
    let wait = Step::WaitField { addr: base + 0x158, pos: 5, width: 1, value: 0 };
    assert_eq!(seq.len(), 24);
    assert_eq!(seq[0], Step::Write { addr: base + 0x140, value: 0x0000_10D4 });
    assert_eq!(seq[1], Step::Write { addr: base + 0x148, value: 0x0111_6361 });
    assert_eq!(seq[2], Step::Write { addr: base + 0x150, value: 0x9 });
    assert_eq!(seq[3], wait);
    assert_eq!(seq[4], Step::Write { addr: base + 0x150, value: 0xA });
    assert_eq!(seq[5], wait);
    for k in 2..10 {
        assert_eq!(seq[2 + 2 * k], Step::Write { addr: base + 0x150, value: 0xB });
        assert_eq!(seq[3 + 2 * k], wait);
    }
    assert_eq!(seq[22], Step::Write { addr: base + 0x150, value: 0x460C });
    assert_eq!(seq[23], wait);
}

#[test]
fn fmc_nand_bank_writes() {
    let fmc = Fmc::new();
    let w = fmc.init_nand(NandBank::Bank3, &config_nand_default(), &NandTiming::default());
    assert_eq!(w[0], RegisterWrite { offset: 0x80, value: 0x0008_004A });
    assert_eq!(w[1], RegisterWrite { offset: 0x88, value: 0x0101_0301 });
    assert_eq!(w[2], RegisterWrite { offset: 0x8C, value: 0x0101_0301 });
    assert_eq!(fmc.nand_register(NandBank::Bank3, fmc_reg::SR2), 0x84);
    assert_eq!(fmc.nand_register(NandBank::Bank2, fmc_reg::ECCR2), 0x74);
    assert_eq!(fmc.enable_nand_bank(0), 1);
    assert_eq!(fmc.disable_nand_bank(0x0008_004B), 0x0008_004A);
    assert!(fmc.is_nand_ready(0x40));
    assert!(!fmc.is_nand_ready(0x20));
    assert_eq!(fmc.nand_address(NandBank::Bank3, 0x10), 0x8400_0010);
}

#[test]
fn dcmi_register_values() {
    let d = Dcmi::new();
    assert_eq!(init_dcmi_ov7670(), 0x40A0);
    let w = d.configure_crop(&CropConfig { h_offset: 2, v_offset: 3, width: 320, height: 240 });
    assert_eq!(w[0], RegisterWrite { offset: dcmi::reg::CWSTRT, value: 0x0002_0003 });
    assert_eq!(w[1], RegisterWrite { offset: dcmi::reg::CWSIZE, value: 0x013F_00EF });
    assert_eq!(d.set_frame_rate(FrameRate::Quarter, 0xFFFF_FFFF), 0xFFFF_FEFF);
    assert_eq!(d.set_data_width(dcmi::DataWidth::Bits12, 0), 0x800);
    assert_eq!(d.enable_interrupt(true, true, true), 0x19);
    assert_eq!(d.enable_interrupt(false, false, false), 0);
    assert_eq!(d.enable(0), 0x4000);
    assert_eq!(d.stop_capture(0x4001), 0x4000);
    assert!(d.is_frame_captured(1));
    assert!(d.is_fifo_not_empty(4) && d.is_data_available(4));
    assert!(d.is_vsync(2) && !d.is_hsync(2));
}

#[test]
fn dcmi_dma_sequence() {
    let with_crop = init_dcmi_dma(0x2000_0000, 320, 240);
    assert_eq!(with_crop.len(), 6);
    assert_eq!(with_crop[0], RegisterWrite { offset: dcmi::reg::CR, value: 0x20 });
    assert_eq!(with_crop[1], RegisterWrite { offset: dcmi::reg::CWSTRT, value: 0 });
    assert_eq!(with_crop[2], RegisterWrite { offset: dcmi::reg::CWSIZE, value: 0x013F_00EF });
    assert_eq!(with_crop[3], RegisterWrite { offset: dcmi::reg::IER, value: 1 });
    assert_eq!(with_crop[4], RegisterWrite { offset: dcmi::reg::CR, value: 0x4020 });
    assert_eq!(with_crop[5], RegisterWrite { offset: dcmi::reg::CR, value: 0x4021 });
    let no_crop = init_dcmi_dma(0x2000_0000, 0, 240);
    assert_eq!(no_crop.len(), 4);
    assert_eq!(no_crop[1], RegisterWrite { offset: dcmi::reg::IER, value: 1 });
}

#[test]
fn dsi_register_values() {
    let w = init_dsi_default(0, 0xFF, 0xFF, 0, 0);
    assert_eq!(w[0], RegisterWrite { offset: dsi::reg::HCR, value: 1 });
    assert_eq!(w[1], RegisterWrite { offset: dsi::reg::VMCR, value: 0xFC });
    assert_eq!(w[2], RegisterWrite { offset: dsi::reg::VPCR, value: 0xFF });
    assert_eq!(w[3], RegisterWrite { offset: dsi::reg::WCFGR, value: 1 });
    assert_eq!(w[4], RegisterWrite { offset: dsi::reg::WCR, value: 1 });
    let d = Dsi::new();
    let v = d.configure_video(800, 480, 10, 2, 46, 23);
    assert_eq!(v[0], RegisterWrite { offset: dsi::reg::VCCR, value: 800 });
    assert_eq!(v[1], RegisterWrite { offset: dsi::reg::VNPCR, value: 480 });
    assert_eq!(v[2], RegisterWrite { offset: dsi::reg::VHPCCR, value: 0x000A_002E });
    assert_eq!(v[3], RegisterWrite { offset: dsi::reg::VVPCCR, value: 0x0002_0017 });
    assert!(d.is_ready(4));
    assert_eq!(d.disable_low_power(3), 2);
}

#[test]
fn dma2d_copy_and_fill() {
    let g = Dma2d::new();
    let c = g.copy(0x2000_0000, 0x2001_0000, 100, 50, 0);
    assert_eq!(c, vec![
        RegisterWrite { offset: gpu2d::reg::CR, value: 0x0003_0000 },
        RegisterWrite { offset: gpu2d::reg::FGMAR, value: 0x2000_0000 },
        RegisterWrite { offset: gpu2d::reg::OMAR, value: 0x2001_0000 },
        RegisterWrite { offset: gpu2d::reg::NLR, value: 0x0064_0032 },
        RegisterWrite { offset: gpu2d::reg::FGOR, value: 0 },
        RegisterWrite { offset: gpu2d::reg::OOR, value: 0 },
        RegisterWrite { offset: gpu2d::reg::CR, value: 0x0003_0001 },
        RegisterWrite { offset: gpu2d::reg::IFCR, value: 2 },
    ]);
    let f = g.fill(0x2002_0000, 10, 2, 0xFF00_FF00, 0x0003_0000);
    assert_eq!(f, vec![
        RegisterWrite { offset: gpu2d::reg::CR, value: 0x0002_0000 },
        RegisterWrite { offset: gpu2d::reg::OMAR, value: 0x2002_0000 },
        RegisterWrite { offset: gpu2d::reg::NLR, value: 0x000A_0002 },
        RegisterWrite { offset: gpu2d::reg::OOR, value: 0 },
        RegisterWrite { offset: gpu2d::reg::OCOLR, value: 0xFF00_FF00 },
        RegisterWrite { offset: gpu2d::reg::CR, value: 0x0002_0001 },
        RegisterWrite { offset: gpu2d::reg::IFCR, value: 2 },
    ]);
    assert_eq!(init_dma2d(0), 0x0003_0000);
    assert_eq!(g.enable_interrupts(true, true, 0), 0x300);
    assert_eq!(g.enable_interrupts(false, true, 0), 0x100);
    assert_eq!(g.disable_interrupts(0x301), 1);
    assert_eq!(g.set_output_color_mode(PixelFormat::Rgb565, 0xFF), 0xFA);
    assert!(g.is_complete(2) && !g.has_error(2));
}

#[test]
fn hspi_register_values() {
    let h = Hspi::hspi1();
    let w = h.init(0);
    assert_eq!(w[0], RegisterWrite { offset: hspi::reg::DCR1, value: 0x0017_0000 });
    assert_eq!(w[1], RegisterWrite { offset: hspi::reg::DCR2, value: 0 });
    assert_eq!(w[2], RegisterWrite { offset: hspi::reg::HLCR, value: 0x60C });
    assert_eq!(w[3], RegisterWrite { offset: hspi::reg::CR, value: 1 });
    let r = h.configure_memory_mapped_read(0xEB, 0x46);
    assert_eq!(r[0], RegisterWrite { offset: hspi::reg::TCR, value: 6 });
    assert_eq!(r[1], RegisterWrite { offset: hspi::reg::CCR, value: 0x040C_EFEB });
    let wr = h.configure_memory_mapped_write(0xEB, 0x46);
    assert_eq!(wr[1], RegisterWrite { offset: hspi::reg::WCCR, value: 0x000C_EFEB });
    assert_eq!(h.clear_flags(), 0x78);
    assert!(h.is_transfer_complete(0x20) && !h.has_transfer_error(0x20));
    assert_eq!(h.enable_memory_mapped(0), 0x10);
    assert_eq!(h.disable(0x11), 0x10);
}

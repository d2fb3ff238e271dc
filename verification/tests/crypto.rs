use stm32u5::aes::{self, aes128_ecb_encrypt, init_aes_default, pack_block, Aes, AesStatus, KeySize, Mode};
use stm32u5::crc::{self, Crc};
use stm32u5::hash::{self, compute_hash, digest_register, HashControl, HashDatatype, HashMode};
use stm32u5::pka::{self, Operation, Pka, PkaError, WaitStep, WAIT_TIMEOUT};
use stm32u5::regs::RegisterWrite;
use stm32u5::rng::{self, random_bytes, random_u64, Rng, RngStatus};
use stm32u5::saes::{self, CryptoMode, KeySize as SaesKeySize, Saes};

#[test]
fn little_endian_words_and_bytes() {
    assert_eq!(aes::word_from_le_bytes(0x01, 0x02, 0x03, 0x04), 0x0403_0201);
    assert_eq!(aes::byte_of_word(0x0403_0201, 0), 0x01);
    assert_eq!(aes::byte_of_word(0x0403_0201, 3), 0x04);
    for w in [0u32, 0xDEAD_BEEF, u32::MAX] {
        let b: Vec<u8> = (0..4).map(|k| aes::byte_of_word(w, k)).collect();
        assert_eq!(aes::word_from_le_bytes(b[0], b[1], b[2], b[3]), w);
    }
}

#[test]
fn block_packing() {
    let p: [u8; 16] = core::array::from_fn(|i| i as u8);
    assert_eq!(pack_block(&p), [0x0302_0100, 0x0706_0504, 0x0B0A_0908, 0x0F0E_0D0C]);
    let blocks = Aes::input_blocks(&[0u8; 40]);
    assert_eq!(blocks.len(), 2);
}

#[test]
fn ecb_output_is_little_endian() {
    let mut ct = [0u8; 16];
    aes128_ecb_encrypt(&[0x0302_0100, 0x0706_0504, 0x0B0A_0908, 0x0F0E_0D0C], &mut ct);
    let expected: [u8; 16] = core::array::from_fn(|i| i as u8);
    assert_eq!(ct, expected);
}

#[test]
fn ctr_applied_twice_restores_input() {
    let a = Aes::new();
    let input: Vec<u8> = (0..20u8).collect();
    let keystream = [[0x1111_1111u32, 0x2222_2222, 0x3333_3333, 0x4444_4444], [0xA5A5_A5A5, 0, 0, 0]];
    let mut once = vec![0u8; 20];
    a.encrypt_ctr(&input, &mut once, &keystream);
    assert_eq!(once[0], 0x11);
    assert_eq!(once[4], 4 ^ 0x22);
    assert_eq!(once[16], 16 ^ 0xA5);
    let mut twice = vec![0u8; 20];
    a.encrypt_ctr(&once, &mut twice, &keystream);
    assert_eq!(twice, input);
}

#[test]
fn ctr_leaves_the_rest_of_the_output() {
    let a = Aes::new();
    let mut out = vec![0xEEu8; 6];
    a.encrypt_ctr(&[0, 0], &mut out, &[[0x0000_FF01, 0, 0, 0]]);
    assert_eq!(out, vec![0x01, 0xFF, 0xEE, 0xEE, 0xEE, 0xEE]);
}

#[test]
fn cbc_writes_whole_blocks_only() {
    let a = Aes::new();
    let mut out = vec![0x77u8; 20];
    a.encrypt_cbc(&[0u8; 17], &mut out, &[[0x0403_0201, 0, 0, 0]]);
    assert_eq!(&out[0..4], &[1, 2, 3, 4]);
    assert_eq!(&out[4..16], &[0u8; 12]);
    assert_eq!(&out[16..20], &[0x77u8; 4]);
}

#[test]
fn aes_key_sizes_and_status() {
    assert_eq!(Aes::key_config(&[0; 4], Mode::Cbc).key_size, KeySize::Bits128);
    assert_eq!(Aes::key_config(&[0; 6], Mode::Cbc).key_size, KeySize::Bits192);
    assert_eq!(Aes::key_config(&[0; 8], Mode::Cbc).key_size, KeySize::Bits256);
    let a = Aes::new();
    assert_eq!(a.get_status(0), AesStatus::Ready);
    assert_eq!(a.get_status(1), AesStatus::Busy);
    assert_eq!(a.get_status(0b101), AesStatus::AuthPhase);
    assert_eq!(a.get_status(0b010), AesStatus::Error);
    assert_eq!(a.set_key(&[7; 10]).len(), 8);
    assert_eq!(init_aes_default(), a.init(&aes::Config::default()));
}

#[test]
fn rng_range_sampling() {
    let r = Rng::new();
    // 6 values: the largest multiple of 6 in 32 bits is 4294967292.
    assert_eq!(r.read_range(1, 6, 0), Some(1));
    assert_eq!(r.read_range(1, 6, 11), Some(6));
    assert_eq!(r.read_range(1, 6, 4_294_967_291), Some(6));
    assert_eq!(r.read_range(1, 6, 4_294_967_292), None);
    assert_eq!(r.read_range(1, 6, u32::MAX), None);
    // A range of 2^31 values accepts only the lower half of the words.
    assert_eq!(r.read_range(0, 0x7FFF_FFFF, 0x7FFF_FFFF), Some(0x7FFF_FFFF));
    assert_eq!(r.read_range(0, 0x7FFF_FFFF, 0x8000_0000), None);
}

#[test]
fn rng_status_and_words() {
    let r = Rng::new();
    assert_eq!(r.get_status(0), RngStatus::Busy);
    assert_eq!(r.get_status(0b101), RngStatus::ClockError);
    assert_eq!(r.get_status(0b011), RngStatus::SeedError);
    assert_eq!(r.get_status(0b111), RngStatus::ClockError);
    assert_eq!(r.get_status(1), RngStatus::Ready);
    assert_eq!(random_u64(0x1122_3344, 0x5566_7788), 0x5566_7788_1122_3344);
    assert_eq!(rng::init_rng_default(), 1 << 2);
    let mut buf = [0u32; 3];
    r.read_multiple(&mut buf, &[1, 2, 3]);
    assert_eq!(buf, [1, 2, 3]);
}

#[test]
fn rng_bytes_are_little_endian() {
    let mut buf = [0u8; 6];
    random_bytes(&mut buf, &[0x4433_2211, 0x0000_6655]);
    assert_eq!(buf, [0x11, 0x22, 0x33, 0x44, 0x55, 0x66]);
    let mut empty: [u8; 0] = [];
    random_bytes(&mut empty, &[]);
}

#[test]
fn pka_waits_for_completion() {
    let p = Pka::new();
    assert!(matches!(p.wait_completion(WAIT_TIMEOUT, 1), WaitStep::Finished(Ok(()))));
    assert!(matches!(p.wait_completion(5, 0b100), WaitStep::Finished(Err(PkaError::IllegalParam))));
    assert!(matches!(p.wait_completion(1, 0), WaitStep::Finished(Err(PkaError::Timeout))));
    assert!(matches!(p.wait_completion(5, 0), WaitStep::Poll(4)));
    // Done wins over error flags.
    assert!(matches!(p.wait_completion(5, 0b111), WaitStep::Finished(Ok(()))));
}

#[test]
fn pka_words() {
    let p = Pka::new();
    assert_eq!(p.start_operation(Operation::EccSign, 0), 1 | (0x10 << 8));
    assert_eq!(p.enable(0, 0), (1 << 8, 1 << 8, 0));
    assert_eq!(p.write_ram(3, 9), RegisterWrite { offset: pka::reg::RAM0 + 12, value: 9 });
    assert_eq!(pka::init(0, 0), (1 << 8, 1 << 8, 0));
}

#[test]
fn saes_fields_and_keys() {
    let s = Saes::new();
    assert_eq!(s.set_mode(saes::Mode::Decrypt, 0), 1 << 1);
    assert_eq!(s.set_key_size(SaesKeySize::Key256, 0xFFFF_FFFF), 0xFFFF_FFF7);
    assert_eq!(s.set_crypto_mode(CryptoMode::GCM, 0), 3 << 5);
    let w = s.write_key(&[1, 2, 3, 4, 5, 6, 7, 8]);
    assert_eq!(w[7], RegisterWrite { offset: saes::reg::KEYR0 + 28, value: 8 });
    let iv = s.write_iv(&[9, 8, 7, 6]);
    assert_eq!(iv[0], RegisterWrite { offset: saes::reg::IVR0, value: 9 });
    assert!(s.is_busy(1));
}

#[test]
fn hash_feeds_every_word() {
    let w = compute_hash(&[5; 20]);
    assert_eq!(w.len(), 21);
    assert_eq!(w[0], RegisterWrite { offset: hash::reg::CR, value: 0x7 });
    for k in 1..21 {
        assert_eq!(w[k], RegisterWrite { offset: hash::reg::DIN, value: 5 });
    }
    let v = compute_hash(&[1, 2, 3]);
    assert_eq!(v[3], RegisterWrite { offset: hash::reg::DIN, value: 3 });
    assert_eq!(compute_hash(&[]).len(), 1);
    assert_eq!(digest_register(0), 0x310);
    assert_eq!(digest_register(7), 0x32C);
    assert_eq!(hash::init(), 4);
    assert!(hash::is_digest_ready(1 << 1));
    assert!(!hash::is_digest_ready(1));
    assert_eq!(hash::start_hash(0), 1);
}

#[test]
fn hash_control_fields() {
    let mut c = HashControl::default();
    c.mode = HashMode::SHA1;
    c.datatype = HashDatatype::Byte;
    c.dma_enable = true;
    assert_eq!(c.configure(), 0x28);
    c.mode = HashMode::MD5;
    c.datatype = HashDatatype::HalfWord;
    c.dma_enable = false;
    c.init = true;
    assert_eq!(c.configure(), 0x15);
    assert_eq!(HashControl::default().configure(), 0x3);
}

#[test]
fn crc_free_functions() {
    assert_eq!(crc::crc32(0xFFFF_0000), 0x0000_FFFF);
    assert_eq!(crc::crc16(0x0001_BEEF), 0xBEEF);
    assert_eq!(crc::crc8(0x0000_01A5), 0xA5);
}

#[test]
fn crc_finishing() {
    let c = Crc::new();
    assert_eq!(c.calculate_crc32(0), 0xFFFF_FFFF);
    assert_eq!(c.calculate_crc32(0x1234_5678), !0x1234_5678u32);
    assert_eq!(c.calculate_crc16(0xABCD_1234), 0x1234);
    assert_eq!(c.calculate_crc8(0xABCD_1234), 0x34);
    let w = c.init(&Crc::crc32_config());
    assert_eq!(w[0], RegisterWrite { offset: crc::reg::CR, value: 1 });
    assert_eq!(w[1].value, 0x04C1_1DB7);
    assert_eq!(w[2].value, 0xFFFF_FFFF);
}

#[test]
fn crc_feed_sequence() {
    let c = Crc::new();
    let w = c.feed(&Crc::crc32_config(), &[0xAB, 0x01]);
    assert_eq!(w.len(), 6);
    assert_eq!(w[0], RegisterWrite { offset: crc::reg::CR, value: 1 });
    assert_eq!(w[1], RegisterWrite { offset: crc::reg::POL, value: 0x04C1_1DB7 });
    assert_eq!(w[2], RegisterWrite { offset: crc::reg::INIT, value: 0xFFFF_FFFF });
    assert_eq!(w[4], RegisterWrite { offset: crc::reg::DR, value: 0xAB });
    assert_eq!(w[5], RegisterWrite { offset: crc::reg::DR, value: 0x01 });
    assert_eq!(c.feed(&Crc::crc8_config(), &[]).len(), 4);
}

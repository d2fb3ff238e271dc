//! DAC - Digital-to-Analog Converter
//!
//! The STM32U5 has a 12-bit DAC with two output channels:
//! - DAC1_OUT1: PA4
//! - DAC1_OUT2: PA5
//!
use vstd::prelude::*;
use crate::regs::{self, RegisterWrite, clear_bit, set_bit, set_field, test_bit};
pub mod reg;

verus! {

broadcast use regs::lemma_low_mask_value;

/// DAC base address
pub const DAC_BASE: usize = 0x4000_7400;

/// DAC channel
#[derive(Clone, Copy, Debug, PartialEq, Eq, Structural)]
pub enum Channel {
    /// DAC channel 1 (PA4)
    Channel1,
    /// DAC channel 2 (PA5)
    Channel2,
}

impl Channel {
    /// The register encoding of this value.
    pub open spec fn value(self) -> u32 {
        match self {
            Channel::Channel1 => 0u32,
            Channel::Channel2 => 1u32,
        }
    }

    /// The register encoding of this value.
    pub fn bits(self) -> (r: u32)
        ensures
            r == self.value(),
    {
        match self {
            Channel::Channel1 => 0,
            Channel::Channel2 => 1,
        }
    }
}

/// DAC trigger source
#[derive(Clone, Copy, Debug, PartialEq, Eq, Structural)]
pub enum Trigger {
    /// Software trigger
    Software,
    /// Timer 8 TRGO
    Tim8,
    /// Timer 7 TRGO
    Tim7,
    /// Timer 15 TRGO
    Tim15,
    /// Timer 2 TRGO
    Tim2,
    /// Timer 4 TRGO
    Tim4,
    /// External line 9
    Exti9,
    /// Timer 6 TRGO
    Tim6,
    /// Timer 3 TRGO
    Tim3,
    /// HRTIM RST TRG1
    HrtimRst1,
    /// HRTIM RST TRG2
    HrtimRst2,
    /// LPTIM1 OUT
    Lptim1,
    /// LPTIM2 OUT
    Lptim2,
    /// LPTIM3 OUT
    Lptim3,
}

impl Trigger {
    /// The register encoding of this value.
    pub open spec fn value(self) -> u32 {
        match self {
            Trigger::Software => 0b000u32,
            Trigger::Tim8 => 0b001u32,
            Trigger::Tim7 => 0b010u32,
            Trigger::Tim15 => 0b011u32,
            Trigger::Tim2 => 0b100u32,
            Trigger::Tim4 => 0b101u32,
            Trigger::Exti9 => 0b110u32,
            Trigger::Tim6 => 0b111u32,
            Trigger::Tim3 => 0b1000u32,
            Trigger::HrtimRst1 => 0b1001u32,
            Trigger::HrtimRst2 => 0b1010u32,
            Trigger::Lptim1 => 0b1011u32,
            Trigger::Lptim2 => 0b1100u32,
            Trigger::Lptim3 => 0b1101u32,
        }
    }

    /// The register encoding of this value.
    pub fn bits(self) -> (r: u32)
        ensures
            r == self.value(),
    {
        match self {
            Trigger::Software => 0b000,
            Trigger::Tim8 => 0b001,
            Trigger::Tim7 => 0b010,
            Trigger::Tim15 => 0b011,
            Trigger::Tim2 => 0b100,
            Trigger::Tim4 => 0b101,
            Trigger::Exti9 => 0b110,
            Trigger::Tim6 => 0b111,
            Trigger::Tim3 => 0b1000,
            Trigger::HrtimRst1 => 0b1001,
            Trigger::HrtimRst2 => 0b1010,
            Trigger::Lptim1 => 0b1011,
            Trigger::Lptim2 => 0b1100,
            Trigger::Lptim3 => 0b1101,
        }
    }
}

/// DAC configuration
#[derive(Clone, Copy, Debug)]
pub struct Config {
    /// Enable buffer
    pub buffer_enable: bool,
    /// Trigger source
    pub trigger: Trigger,
    /// Trigger enable
    pub trigger_enable: bool,
    /// DMA enable
    pub dma_enable: bool,
}

impl Default for Config {
    fn default() -> (r: Self)
        ensures
            r == (Config { buffer_enable: true, trigger: Trigger::Software, trigger_enable: false, dma_enable: false }),
    {
        Config { buffer_enable: true, trigger: Trigger::Software, trigger_enable: false, dma_enable: false }
    }
}

/// DAC instance
pub struct Dac {
    base: usize,
}

impl Dac {
    /// Base address of this instance's register block.
    pub closed spec fn base_addr(&self) -> usize {
        self.base
    }

    /// Base address of this instance's register block.
    pub fn base(&self) -> (r: usize)
        ensures
            r == self.base_addr(),
    {
        self.base
    }

    /// Create DAC instance
    pub fn new() -> (r: Self)
        ensures
            r.base_addr() == DAC_BASE,
    {
        Self { base: DAC_BASE }
    }

    /// CR after `init_channel`: the channel's 16-bit half holds EN (bit 0),
    /// BOFF (bit 1) when the buffer is off, and, with a trigger, TEN (bit 2)
    /// and the trigger source in TSEL (bits 3-6); DMAEN (bit 12) with DMA.
    pub open spec fn init_cr(channel: Channel, config: Config, cr: u32) -> u32 {
        let b = (16 * channel.value()) as u32;
        let v1 = cr | (1u32 << b);
        let v2 = if !config.buffer_enable { v1 | (1u32 << (b + 1) as u32) } else { v1 };
        let v3 = if config.trigger_enable {
            regs::with_field(v2 | (1u32 << (b + 2) as u32), (b + 3) as u32, 4, config.trigger.value())
        } else {
            v2
        };
        if config.dma_enable { v3 | (1u32 << (b + 12) as u32) } else { v3 }
    }

    /// CR value that `init_channel` writes; it then waits for
    /// `is_channel_ready`.
    pub fn init_channel(&self, channel: Channel, config: &Config, cr: u32) -> (r: u32)
        ensures
            r == Self::init_cr(channel, *config, cr),
    {
        let b: u32 = channel.bits() * 16;
        let mut val = cr | (1u32 << b);
        if !config.buffer_enable {
            val = val | (1u32 << (b + 1));
        }
        if config.trigger_enable {
            val = val | (1u32 << (b + 2));
            val = set_field(val, b + 3, 4, config.trigger.bits());
        }
        if config.dma_enable {
            val = val | (1u32 << (b + 12));
        }
        val
    }

    /// Whether SR reports the channel ready (DACxRDY, bit 14 of the channel's
    /// half).
    pub fn is_channel_ready(&self, channel: Channel, sr: u32) -> (r: bool)
        ensures
            r == regs::bit(sr, (16 * channel.value() + 14) as u32),
    {
        test_bit(sr, channel.bits() * 16 + 14)
    }

    /// The write of `set_value_12bit`: the low 12 bits of `value` into the
    /// channel's right-aligned 12-bit holding register.
    pub fn set_value_12bit(&self, channel: Channel, value: u16) -> (r: RegisterWrite)
        ensures
            r == (RegisterWrite {
                offset: match channel { Channel::Channel1 => reg::DHR12R1, Channel::Channel2 => reg::DHR12R2 },
                value: (value & 0xFFF) as u32,
            }),
    {
        let offset = match channel {
            Channel::Channel1 => reg::DHR12R1,
            Channel::Channel2 => reg::DHR12R2,
        };
        RegisterWrite { offset, value: (value & 0xFFF) as u32 }
    }

    /// The write of `set_value_8bit`: `value` into the channel's
    /// right-aligned 8-bit holding register.
    pub fn set_value_8bit(&self, channel: Channel, value: u8) -> (r: RegisterWrite)
        ensures
            r == (RegisterWrite {
                offset: match channel { Channel::Channel1 => reg::DHR8R1, Channel::Channel2 => reg::DHR8R2 },
                value: value as u32,
            }),
    {
        let offset = match channel {
            Channel::Channel1 => reg::DHR8R1,
            Channel::Channel2 => reg::DHR8R2,
        };
        RegisterWrite { offset, value: value as u32 }
    }

    /// The code for `voltage_mv` on a full scale of `vref_mv`:
    /// `voltage_mv * 4095 / vref_mv`, rounded down and truncated to 16 bits.
    pub open spec fn voltage_code(voltage_mv: u32, vref_mv: u32) -> u16 {
        ((voltage_mv * 4095) / (vref_mv as int)) as u16
    }

    /// The write of `set_voltage`: the 12-bit code of the voltage, through
    /// `set_value_12bit`.
    pub fn set_voltage(&self, channel: Channel, voltage_mv: u32, vref_mv: u32) -> (r: RegisterWrite)
        requires
            vref_mv != 0,
            voltage_mv * 4095 <= u32::MAX,
        ensures
            r == (RegisterWrite {
                offset: match channel { Channel::Channel1 => reg::DHR12R1, Channel::Channel2 => reg::DHR12R2 },
                value: (Self::voltage_code(voltage_mv, vref_mv) & 0xFFF) as u32,
            }),
            r.value == (voltage_mv * 4095 / vref_mv as int) % 4096,
            voltage_mv <= vref_mv ==> r.value * vref_mv <= voltage_mv * 4095 < (r.value + 1) * vref_mv,
    {
        proof {
            lemma_voltage_code_scales(voltage_mv, vref_mv);
        }
        let value = ((voltage_mv * 4095) / vref_mv) as u16;
        self.set_value_12bit(channel, value)
    }

    /// SWTRGR word of `software_trigger`: the channel's bit.
    pub fn software_trigger(&self, channel: Channel) -> (r: u32)
        ensures
            r == 1u32 << channel.value(),
    {
        1u32 << channel.bits()
    }

    /// Offset of the channel's output register, read by `get_output`.
    pub fn output_register(&self, channel: Channel) -> (r: usize)
        ensures
            r == match channel { Channel::Channel1 => reg::DOR1, Channel::Channel2 => reg::DOR2 },
    {
        match channel {
            Channel::Channel1 => reg::DOR1,
            Channel::Channel2 => reg::DOR2,
        }
    }

    /// The output value held in DOR, truncated to 16 bits.
    pub fn get_output(&self, dor: u32) -> (r: u16)
        ensures
            r == dor as u16,
    {
        dor as u16
    }

    /// CR with the channel enabled (EN, bit 0 of its half).
    pub fn enable_channel(&self, channel: Channel, cr: u32) -> (r: u32)
        ensures
            r == regs::with_bit(cr, (16 * channel.value()) as u32, true),
    {
        set_bit(cr, channel.bits() * 16)
    }

    /// CR with the channel disabled (EN cleared).
    pub fn disable_channel(&self, channel: Channel, cr: u32) -> (r: u32)
        ensures
            r == regs::with_bit(cr, (16 * channel.value()) as u32, false),
    {
        clear_bit(cr, channel.bits() * 16)
    }

}

/// The configuration `init_dac_default` programs on channel 1 (after enabling
/// the DAC clock and putting PA4 in analog mode).
pub fn init_dac_default() -> (r: Config)
    ensures
        r == (Config { buffer_enable: true, trigger: Trigger::Software, trigger_enable: false, dma_enable: false }),
{
    Config::default()
}

/// The 12-bit code of `set_voltage` scales the voltage by the given
/// reference, for every voltage and reference: it is `voltage_mv * 4095 /
/// vref_mv` rounded down, kept to 12 bits; for a voltage within the
/// reference it is the largest code whose share of the reference does not
/// exceed the voltage, `code * vref_mv <= voltage_mv * 4095 < (code + 1) *
/// vref_mv`.
pub proof fn lemma_voltage_code_scales(voltage_mv: u32, vref_mv: u32)
    requires
        vref_mv != 0,
        voltage_mv * 4095 <= u32::MAX,
    ensures
        (Dac::voltage_code(voltage_mv, vref_mv) & 0xFFF) as u32 == (voltage_mv * 4095 / vref_mv as int) % 4096,
        voltage_mv <= vref_mv ==> ({
            let code = (Dac::voltage_code(voltage_mv, vref_mv) & 0xFFF) as u32;
            code * vref_mv <= voltage_mv * 4095 < (code + 1) * vref_mv
        }),
{
    let q: u32 = (voltage_mv * 4095 / vref_mv as int) as u32;
    assert(q == voltage_mv * 4095 / vref_mv as int) by (nonlinear_arith)
        requires
            vref_mv != 0,
            voltage_mv * 4095 <= u32::MAX,
            q == (voltage_mv * 4095 / vref_mv as int) as u32,
    ;
    assert(Dac::voltage_code(voltage_mv, vref_mv) == q as u16);
    assert(((q as u16) & 0xFFFu16) as u32 == q % 4096) by (bit_vector);
    if voltage_mv <= vref_mv {
        assert(q <= 4095) by (nonlinear_arith)
            requires
                vref_mv != 0,
                voltage_mv <= vref_mv,
                q == voltage_mv * 4095 / vref_mv as int,
        ;
        assert(q % 4096 == q);
        assert(q * vref_mv <= voltage_mv * 4095 < (q + 1) * vref_mv) by (nonlinear_arith)
            requires
                vref_mv != 0,
                q == voltage_mv * 4095 / vref_mv as int,
        ;
    }
}

} // verus!

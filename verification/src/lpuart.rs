//! LPUART - Low Power Universal Asynchronous Receiver/Transmitter
//!
//! # Overview
//! STM32U5 Low-Power Universal Asynchronous Receiver/Transmitter (LPUART) provides
//! flexible asynchronous communication with low power consumption capabilities.
//!
//! # Features
//! Reference: RM0456 Chapter 67: Low-power universal asynchronous receiver transmitter (LPUART)
//!
//! ## LPUART Interfaces
//! - **LPUART1**
//!
//! ## Transfer Speed
//! - Up to 10 Mbps (depending on clock source)
//!
//! ## Advanced Features
//! Reference: RM0456 Section 67.2
//! - DMA support
//! - Hardware flow control (RTS/CTS)
//! - Low power modes (Stop 0, Stop 1, Stop 2, Standby)
//! - Wakeup from Stop modes
//! - Auto baud rate detection
//! - Multi-processor communication
//! - 8-bit oversampling mode
//!
//! # Reference
//! - RM0456 Chapter 67: Low-power universal asynchronous receiver transmitter (LPUART)
//! - RM0456 Section 67.1: LPUART introduction
//! - RM0456 Section 67.2: LPUART main features
//! - RM0456 Section 67.3: LPUART functional description
//! - RM0456 Section 67.6: LPUART registers
use vstd::prelude::*;
use vstd::string::StringSliceAdditionalSpecFns;
use crate::gpio::{AlternateFunction, Mode, OutputType, Pin, Port, PortConfig, Pull, Speed};
use crate::regs::{self, RegisterWrite, clear_bit, set_bit, test_bit};
pub mod reg;

verus! {

broadcast use regs::lemma_low_mask_value;

/// LPUART1 base address
pub const LPUART1_BASE: usize = 0x4000_8000;

/// Data bits
#[derive(Clone, Copy, Debug, PartialEq, Eq, Structural)]
pub enum DataBits {
    Bits7,
    Bits8,
    Bits9,
}

impl DataBits {
    /// The register encoding of this value.
    pub open spec fn value(self) -> u32 {
        match self {
            DataBits::Bits7 => 0b10u32,
            DataBits::Bits8 => 0b00u32,
            DataBits::Bits9 => 0b01u32,
        }
    }

    /// The register encoding of this value.
    pub fn bits(self) -> (r: u32)
        ensures
            r == self.value(),
    {
        match self {
            DataBits::Bits7 => 0b10,
            DataBits::Bits8 => 0b00,
            DataBits::Bits9 => 0b01,
        }
    }
}

/// Stop bits
#[derive(Clone, Copy, Debug, PartialEq, Eq, Structural)]
pub enum StopBits {
    Bits1,
    Bits2,
}

impl StopBits {
    /// The register encoding of this value.
    pub open spec fn value(self) -> u32 {
        match self {
            StopBits::Bits1 => 0b00u32,
            StopBits::Bits2 => 0b10u32,
        }
    }

    /// The register encoding of this value.
    pub fn bits(self) -> (r: u32)
        ensures
            r == self.value(),
    {
        match self {
            StopBits::Bits1 => 0b00,
            StopBits::Bits2 => 0b10,
        }
    }
}

/// Parity
#[derive(Clone, Copy, Debug, PartialEq, Eq, Structural)]
pub enum Parity {
    NoParity,
    Even,
    Odd,
}

impl Parity {
    /// The register encoding of this value.
    pub open spec fn value(self) -> u32 {
        match self {
            Parity::NoParity => 0b00u32,
            Parity::Even => 0b10u32,
            Parity::Odd => 0b11u32,
        }
    }

    /// The register encoding of this value.
    pub fn bits(self) -> (r: u32)
        ensures
            r == self.value(),
    {
        match self {
            Parity::NoParity => 0b00,
            Parity::Even => 0b10,
            Parity::Odd => 0b11,
        }
    }
}

/// Flow control
#[derive(Clone, Copy, Debug, PartialEq, Eq, Structural)]
pub enum FlowControl {
    NoFlowControl,
    Rts,
    Cts,
    RtsCts,
}

impl FlowControl {
    /// The register encoding of this value.
    pub open spec fn value(self) -> u32 {
        match self {
            FlowControl::NoFlowControl => 0b00u32,
            FlowControl::Rts => 0b01u32,
            FlowControl::Cts => 0b10u32,
            FlowControl::RtsCts => 0b11u32,
        }
    }

    /// The register encoding of this value.
    pub fn bits(self) -> (r: u32)
        ensures
            r == self.value(),
    {
        match self {
            FlowControl::NoFlowControl => 0b00,
            FlowControl::Rts => 0b01,
            FlowControl::Cts => 0b10,
            FlowControl::RtsCts => 0b11,
        }
    }
}

/// LPUART configuration
#[derive(Clone, Copy, Debug)]
pub struct Config {
    pub baud_rate: u32,
    pub data_bits: DataBits,
    pub stop_bits: StopBits,
    pub parity: Parity,
    pub flow_control: FlowControl,
}

impl Default for Config {
    fn default() -> (r: Self)
        ensures
            r == (Config { baud_rate: 115200, data_bits: DataBits::Bits8, stop_bits: StopBits::Bits1, parity: Parity::NoParity, flow_control: FlowControl::NoFlowControl }),
    {
        Config { baud_rate: 115200, data_bits: DataBits::Bits8, stop_bits: StopBits::Bits1, parity: Parity::NoParity, flow_control: FlowControl::NoFlowControl }
    }
}

/// LPUART instance
pub struct Lpuart {
    base: usize,
}

impl Lpuart {
    /// Base address of this instance's register block.
    pub closed spec fn base_addr(&self) -> usize {
        self.base
    }

    /// Base address of this instance's register block.
    pub fn base(&self) -> (r: usize)
        ensures
            r == self.base_addr(),
    {
        self.base
    }

    /// Create LPUART1 instance
    pub fn lpuart1() -> (r: Self)
        ensures
            r.base_addr() == LPUART1_BASE,
    {
        Self { base: LPUART1_BASE }
    }

    /// Baud-rate register value: 256 × the kernel clock over the baud rate,
    /// rounded to nearest.
    pub open spec fn brr_value(baud_rate: u32, lpuart_clk: u32) -> u32 {
        ((lpuart_clk * 256 + baud_rate / 2) / baud_rate as int) as u32
    }

    /// CR1 value of `init`: data bits at bit 28, parity at bit 9, then the
    /// transmitter (bit 3), the receiver (bit 2) and the LPUART (bit 0)
    /// enabled.
    pub open spec fn cr1_value(config: Config) -> u32 {
        (config.data_bits.value() << 28u32) | (config.parity.value() << 9u32) | (1u32 << 3u32) | (1u32 << 2u32)
            | 1u32
    }

    /// The writes of `init`, in order: CR1, CR2 and CR3 cleared, BRR for the
    /// baud rate, CR2 with the stop bits at bit 12, CR3 with the flow control
    /// at bit 8, then CR1.
    pub open spec fn init_writes(config: Config, lpuart_clk: u32) -> Seq<RegisterWrite> {
        seq![
            RegisterWrite { offset: reg::CR1, value: 0 },
            RegisterWrite { offset: reg::CR2, value: 0 },
            RegisterWrite { offset: reg::CR3, value: 0 },
            RegisterWrite { offset: reg::BRR, value: Self::brr_value(config.baud_rate, lpuart_clk) },
            RegisterWrite { offset: reg::CR2, value: config.stop_bits.value() << 12u32 },
            RegisterWrite { offset: reg::CR3, value: config.flow_control.value() << 8u32 },
            RegisterWrite { offset: reg::CR1, value: Self::cr1_value(config) },
        ]
    }

    /// The writes of `init` for a kernel clock of `lpuart_clk` Hz.
    pub fn init(&self, config: &Config, lpuart_clk: u32) -> (r: Vec<RegisterWrite>)
        requires
            config.baud_rate != 0,
            lpuart_clk * 256 + config.baud_rate / 2 <= u32::MAX,
        ensures
            r@ == Self::init_writes(*config, lpuart_clk),
    {
        let brr: u32 = (lpuart_clk * 256 + config.baud_rate / 2) / config.baud_rate;
        let cr1: u32 = (config.data_bits.bits() << 28u32) | (config.parity.bits() << 9u32) | (1u32 << 3u32) | (1u32 << 2u32) | 1u32;
        let mut r: Vec<RegisterWrite> = Vec::new();
        r.push(RegisterWrite { offset: reg::CR1, value: 0 });
        r.push(RegisterWrite { offset: reg::CR2, value: 0 });
        r.push(RegisterWrite { offset: reg::CR3, value: 0 });
        r.push(RegisterWrite { offset: reg::BRR, value: brr });
        r.push(RegisterWrite { offset: reg::CR2, value: config.stop_bits.bits() << 12u32 });
        r.push(RegisterWrite { offset: reg::CR3, value: config.flow_control.bits() << 8u32 });
        r.push(RegisterWrite { offset: reg::CR1, value: cr1 });
        r
    }

    /// TDR word of `send`, written once `is_tx_ready` reads true.
    pub fn send(&self, byte: u8) -> (r: u32)
        ensures
            r == byte as u32,
    {
        byte as u32
    }

    /// The byte of `receive`: the low 8 bits of RDR, read once `is_rx_ready`
    /// reads true.
    pub fn receive(&self, rdr: u32) -> (r: u8)
        ensures
            r == rdr as u8,
    {
        rdr as u8
    }

    /// Whether a received byte is waiting (RXNE, bit 5).
    pub fn is_rx_ready(&self, isr: u32) -> (r: bool)
        ensures
            r == regs::bit(isr, 5),
    {
        test_bit(isr, 5)
    }

    /// Whether the transmit register is empty (TXE, bit 7).
    pub fn is_tx_ready(&self, isr: u32) -> (r: bool)
        ensures
            r == regs::bit(isr, 7),
    {
        test_bit(isr, 7)
    }

    /// The TDR words of `send_str`: the UTF-8 bytes of `s`, in order.
    pub fn send_str(&self, s: &str) -> (r: Vec<u32>)
        ensures
            r@.len() == s.spec_bytes().len(),
            forall|i: int| 0 <= i < r@.len() ==> #[trigger] r@[i] == s.spec_bytes()[i] as u32,
    {
        let bytes = s.as_bytes();
        let mut r: Vec<u32> = Vec::new();
        let mut i: usize = 0;
        while i < bytes.len()
            invariant
                bytes@ == s.spec_bytes(),
                i <= bytes@.len(),
                r@.len() == i,
                forall|k: int| 0 <= k < i ==> #[trigger] r@[k] == bytes@[k] as u32,
            decreases bytes@.len() - i,
        {
            r.push(self.send(bytes[i]));
            i = i + 1;
        }
        r
    }

    /// CR1 and CR3 of `enable_wakeup`: the receiver kept enabled (CR1 bit 2)
    /// and wake-up from Stop enabled (CR3 bit 21).
    pub fn enable_wakeup(&self, cr1: u32, cr3: u32) -> (r: (u32, u32))
        ensures
            r == (regs::with_bit(cr1, 2, true), regs::with_bit(cr3, 21, true)),
    {
        (set_bit(cr1, 2), set_bit(cr3, 21))
    }

    /// CR1 and CR3 of `disable_wakeup`: CR1 bit 2 and CR3 bit 21 cleared.
    pub fn disable_wakeup(&self, cr1: u32, cr3: u32) -> (r: (u32, u32))
        ensures
            r == (regs::with_bit(cr1, 2, false), regs::with_bit(cr3, 21, false)),
    {
        (clear_bit(cr1, 2), clear_bit(cr3, 21))
    }

}

/// `init_lpuart1_debug`: PA2 (TX) in alternate function 8, push-pull, very
/// high speed, no pull, and PA3 (RX) likewise with a pull-up, in the port A
/// configuration `porta`; the returned writes initialize LPUART1 at
/// `baud_rate` with 8 data bits, 1 stop bit, no parity and no flow control
/// (after its clock is enabled).
pub fn init_lpuart1_debug(baud_rate: u32, lpuart_clk: u32, porta: &mut PortConfig) -> (r: Vec<RegisterWrite>)
    requires
        baud_rate != 0,
        lpuart_clk * 256 + baud_rate / 2 <= u32::MAX,
    ensures
        r@ == Lpuart::init_writes(
            Config { baud_rate, data_bits: DataBits::Bits8, stop_bits: StopBits::Bits1, parity: Parity::NoParity, flow_control: FlowControl::NoFlowControl },
            lpuart_clk,
        ),
        final(porta).moder == regs::with_field(regs::with_field(old(porta).moder, 4, 2, Mode::Alternate.value()), 6, 2, Mode::Alternate.value()),
        final(porta).afrl == regs::with_field(regs::with_field(old(porta).afrl, 8, 4, AlternateFunction::AF8.value()), 12, 4, AlternateFunction::AF8.value()),
        final(porta).afrh == old(porta).afrh,
        final(porta).otyper == regs::with_bit(regs::with_bit(old(porta).otyper, 2, false), 3, false),
        final(porta).ospeedr == regs::with_field(regs::with_field(old(porta).ospeedr, 4, 2, Speed::VeryHigh.value()), 6, 2, Speed::VeryHigh.value()),
        final(porta).pupdr == regs::with_field(regs::with_field(old(porta).pupdr, 4, 2, Pull::NoPull.value()), 6, 2, Pull::Up.value()),
{
    let pa2 = Pin::new(Port::A, 2);
    let pa3 = Pin::new(Port::A, 3);
    pa2.init_alternate(porta, AlternateFunction::AF8, OutputType::PushPull, Speed::VeryHigh, Pull::NoPull);
    pa3.init_alternate(porta, AlternateFunction::AF8, OutputType::PushPull, Speed::VeryHigh, Pull::Up);
    let lpuart = Lpuart::lpuart1();
    let config = Config { baud_rate, ..Config::default() };
    lpuart.init(&config, lpuart_clk)
}

/// `init_debug_lpuart`: `init_lpuart1_debug`, and LPUART1 as the debug port
/// that `debug_putc` and `debug_puts` send through.
pub fn init_debug_lpuart(baud_rate: u32, lpuart_clk: u32, porta: &mut PortConfig) -> (r: (Option<Lpuart>, Vec<RegisterWrite>))
    requires
        baud_rate != 0,
        lpuart_clk * 256 + baud_rate / 2 <= u32::MAX,
    ensures
        r.0 matches Some(l) && l.base_addr() == LPUART1_BASE,
        r.1@ == Lpuart::init_writes(
            Config { baud_rate, data_bits: DataBits::Bits8, stop_bits: StopBits::Bits1, parity: Parity::NoParity, flow_control: FlowControl::NoFlowControl },
            lpuart_clk,
        ),
{
    let writes = init_lpuart1_debug(baud_rate, lpuart_clk, porta);
    (Some(Lpuart::lpuart1()), writes)
}

/// TDR word that `debug_putc` sends through the debug port, if one was set
/// up; nothing is sent otherwise.
pub fn debug_putc(port: &Option<Lpuart>, c: u8) -> (r: Option<u32>)
    ensures
        port is Some ==> r == Some(c as u32),
        port is None ==> r is None,
{
    match port {
        Some(lpuart) => Some(lpuart.send(c)),
        None => None,
    }
}

/// TDR words that `debug_puts` sends through the debug port: the bytes of
/// `s` if a port was set up, none otherwise.
pub fn debug_puts(port: &Option<Lpuart>, s: &str) -> (r: Vec<u32>)
    ensures
        port is None ==> r@.len() == 0,
        port is Some ==> r@.len() == s.spec_bytes().len()
            && forall|i: int| 0 <= i < r@.len() ==> #[trigger] r@[i] == s.spec_bytes()[i] as u32,
{
    match port {
        Some(lpuart) => lpuart.send_str(s),
        None => Vec::new(),
    }
}

/// The baud-rate word that `init` writes divides 256 times the kernel clock
/// by the baud rate, rounded to nearest: for every baud rate and clock
/// that `init` accepts, `brr * baud` is within half a baud of `256 * clk`.
pub proof fn lemma_brr_rounds_to_nearest(baud_rate: u32, lpuart_clk: u32)
    requires
        baud_rate != 0,
        lpuart_clk * 256 + baud_rate / 2 <= u32::MAX,
    ensures
        Lpuart::brr_value(baud_rate, lpuart_clk) * baud_rate <= lpuart_clk * 256 + baud_rate / 2,
        lpuart_clk * 256 + baud_rate / 2 < (Lpuart::brr_value(baud_rate, lpuart_clk) + 1) * baud_rate,
{
    let n: int = lpuart_clk * 256 + baud_rate / 2;
    let q: int = n / baud_rate as int;
    assert(0 <= q <= n) by (nonlinear_arith)
        requires
            baud_rate >= 1,
            n >= 0,
            q == n / baud_rate as int,
    ;
    assert(Lpuart::brr_value(baud_rate, lpuart_clk) == q);
    assert(q * baud_rate <= n < (q + 1) * baud_rate) by (nonlinear_arith)
        requires
            baud_rate >= 1,
            q == n / baud_rate as int,
    ;
}

} // verus!

//! GPIO - General Purpose Input/Output
//!
//! The STM32U5 has nine GPIO ports (A-I) of 16 pins each.
use vstd::prelude::*;
use crate::regs::{self, clear_bit, set_bit, set_field, test_bit};
pub mod reg;

verus! {

broadcast use regs::lemma_low_mask_value;

/// GPIO port base addresses
pub const GPIOA_BASE: usize = 0x4202_0000;
pub const GPIOB_BASE: usize = 0x4202_0400;
pub const GPIOC_BASE: usize = 0x4202_0800;
pub const GPIOD_BASE: usize = 0x4202_0C00;
pub const GPIOE_BASE: usize = 0x4202_1000;
pub const GPIOF_BASE: usize = 0x4202_1400;
pub const GPIOG_BASE: usize = 0x4202_1800;
pub const GPIOH_BASE: usize = 0x4202_1C00;
pub const GPIOI_BASE: usize = 0x4202_2000;

/// GPIO modes
#[derive(Clone, Copy, Debug, PartialEq, Eq, Structural)]
pub enum Mode {
    /// Input mode
    Input,
    /// General purpose output mode
    Output,
    /// Alternate function mode
    Alternate,
    /// Analog mode
    Analog,
}

impl Mode {
    /// The register encoding of this value.
    pub open spec fn value(self) -> u32 {
        match self {
            Mode::Input => 0b00u32,
            Mode::Output => 0b01u32,
            Mode::Alternate => 0b10u32,
            Mode::Analog => 0b11u32,
        }
    }

    /// The register encoding of this value.
    pub fn bits(self) -> (r: u32)
        ensures
            r == self.value(),
    {
        match self {
            Mode::Input => 0b00,
            Mode::Output => 0b01,
            Mode::Alternate => 0b10,
            Mode::Analog => 0b11,
        }
    }
}

/// GPIO output types
#[derive(Clone, Copy, Debug, PartialEq, Eq, Structural)]
pub enum OutputType {
    /// Push-pull output
    PushPull,
    /// Open-drain output
    OpenDrain,
}

impl OutputType {
    /// The register encoding of this value.
    pub open spec fn value(self) -> u32 {
        match self {
            OutputType::PushPull => 0u32,
            OutputType::OpenDrain => 1u32,
        }
    }

    /// The register encoding of this value.
    pub fn bits(self) -> (r: u32)
        ensures
            r == self.value(),
    {
        match self {
            OutputType::PushPull => 0,
            OutputType::OpenDrain => 1,
        }
    }
}

/// GPIO output speeds
#[derive(Clone, Copy, Debug, PartialEq, Eq, Structural)]
pub enum Speed {
    /// Low speed
    Low,
    /// Medium speed
    Medium,
    /// High speed
    High,
    /// Very high speed
    VeryHigh,
}

impl Speed {
    /// The register encoding of this value.
    pub open spec fn value(self) -> u32 {
        match self {
            Speed::Low => 0b00u32,
            Speed::Medium => 0b01u32,
            Speed::High => 0b10u32,
            Speed::VeryHigh => 0b11u32,
        }
    }

    /// The register encoding of this value.
    pub fn bits(self) -> (r: u32)
        ensures
            r == self.value(),
    {
        match self {
            Speed::Low => 0b00,
            Speed::Medium => 0b01,
            Speed::High => 0b10,
            Speed::VeryHigh => 0b11,
        }
    }
}

/// GPIO pull-up/pull-down configuration
#[derive(Clone, Copy, Debug, PartialEq, Eq, Structural)]
pub enum Pull {
    /// No pull-up or pull-down
    NoPull,
    /// Pull-up
    Up,
    /// Pull-down
    Down,
}

impl Pull {
    /// The register encoding of this value.
    pub open spec fn value(self) -> u32 {
        match self {
            Pull::NoPull => 0b00u32,
            Pull::Up => 0b01u32,
            Pull::Down => 0b10u32,
        }
    }

    /// The register encoding of this value.
    pub fn bits(self) -> (r: u32)
        ensures
            r == self.value(),
    {
        match self {
            Pull::NoPull => 0b00,
            Pull::Up => 0b01,
            Pull::Down => 0b10,
        }
    }
}

/// GPIO alternate functions
#[derive(Clone, Copy, Debug, PartialEq, Eq, Structural)]
pub enum AlternateFunction {
    AF0,
    AF1,
    AF2,
    AF3,
    AF4,
    AF5,
    AF6,
    AF7,
    AF8,
    AF9,
    AF10,
    AF11,
    AF12,
    AF13,
    AF14,
    AF15,
}

impl AlternateFunction {
    /// The register encoding of this value.
    pub open spec fn value(self) -> u32 {
        match self {
            AlternateFunction::AF0 => 0u32,
            AlternateFunction::AF1 => 1u32,
            AlternateFunction::AF2 => 2u32,
            AlternateFunction::AF3 => 3u32,
            AlternateFunction::AF4 => 4u32,
            AlternateFunction::AF5 => 5u32,
            AlternateFunction::AF6 => 6u32,
            AlternateFunction::AF7 => 7u32,
            AlternateFunction::AF8 => 8u32,
            AlternateFunction::AF9 => 9u32,
            AlternateFunction::AF10 => 10u32,
            AlternateFunction::AF11 => 11u32,
            AlternateFunction::AF12 => 12u32,
            AlternateFunction::AF13 => 13u32,
            AlternateFunction::AF14 => 14u32,
            AlternateFunction::AF15 => 15u32,
        }
    }

    /// The register encoding of this value.
    pub fn bits(self) -> (r: u32)
        ensures
            r == self.value(),
    {
        match self {
            AlternateFunction::AF0 => 0,
            AlternateFunction::AF1 => 1,
            AlternateFunction::AF2 => 2,
            AlternateFunction::AF3 => 3,
            AlternateFunction::AF4 => 4,
            AlternateFunction::AF5 => 5,
            AlternateFunction::AF6 => 6,
            AlternateFunction::AF7 => 7,
            AlternateFunction::AF8 => 8,
            AlternateFunction::AF9 => 9,
            AlternateFunction::AF10 => 10,
            AlternateFunction::AF11 => 11,
            AlternateFunction::AF12 => 12,
            AlternateFunction::AF13 => 13,
            AlternateFunction::AF14 => 14,
            AlternateFunction::AF15 => 15,
        }
    }
}

/// GPIO port enumeration
#[derive(Clone, Copy, Debug, PartialEq, Eq, Structural)]
pub enum Port {
    A,
    B,
    C,
    D,
    E,
    F,
    G,
    H,
    I,
}

impl Port {
    /// The register encoding of this value.
    pub open spec fn value(self) -> u32 {
        match self {
            Port::A => 0u32,
            Port::B => 1u32,
            Port::C => 2u32,
            Port::D => 3u32,
            Port::E => 4u32,
            Port::F => 5u32,
            Port::G => 6u32,
            Port::H => 7u32,
            Port::I => 8u32,
        }
    }

    /// The register encoding of this value.
    pub fn bits(self) -> (r: u32)
        ensures
            r == self.value(),
    {
        match self {
            Port::A => 0,
            Port::B => 1,
            Port::C => 2,
            Port::D => 3,
            Port::E => 4,
            Port::F => 5,
            Port::G => 6,
            Port::H => 7,
            Port::I => 8,
        }
    }
}

/// GPIO pin structure
#[derive(Clone, Copy, Debug)]
pub struct Pin {
    port: Port,
    pin: u8,
}

/// The configuration registers of one GPIO port, as `Pin::init_*` read and
/// update them.
#[derive(Clone, Copy, Debug, PartialEq, Eq, Structural)]
pub struct PortConfig {
    /// Mode register (MODER).
    pub moder: u32,
    /// Output type register (OTYPER).
    pub otyper: u32,
    /// Output speed register (OSPEEDR).
    pub ospeedr: u32,
    /// Pull-up/pull-down register (PUPDR).
    pub pupdr: u32,
    /// Alternate function low register (AFRL, pins 0-7).
    pub afrl: u32,
    /// Alternate function high register (AFRH, pins 8-15).
    pub afrh: u32,
}

/// Output data register after a write of `bsrr` to the bit set/reset
/// register: bits 0-15 of `bsrr` set the matching ODR bits, bits 16-31 reset
/// bit `i - 16`, and setting wins when a bit is both set and reset.
pub open spec fn bsrr_effect(odr: u32, bsrr: u32) -> u32 {
    (odr & !(bsrr >> 16u32)) | (bsrr & 0xffffu32)
}

impl Pin {
    /// The port of this pin.
    pub closed spec fn port_spec(&self) -> Port {
        self.port
    }

    /// The number (0-15) of this pin in its port.
    pub closed spec fn pin_spec(&self) -> u8 {
        self.pin
    }

    /// Pin `pin` of `port`; pin numbers run from 0 to 15.
    pub fn new(port: Port, pin: u8) -> (r: Self)
        requires
            pin < 16,
        ensures
            r.port_spec() == port,
            r.pin_spec() == pin,
    {
        Self { port, pin }
    }

    /// The port of this pin.
    pub fn port(&self) -> (r: Port)
        ensures
            r == self.port_spec(),
    {
        self.port
    }

    /// The number of this pin in its port.
    pub fn pin(&self) -> (r: u8)
        ensures
            r == self.pin_spec(),
            r < 16,
    {
        proof {
            use_type_invariant(self);
        }
        self.pin
    }

    /// Pins are numbered 0 to 15.
    #[verifier::type_invariant]
    spec fn pin_in_range(&self) -> bool {
        self.pin < 16
    }

    /// Base address of the register block of this pin's port.
    pub open spec fn port_base_spec(port: Port) -> usize {
        match port {
            Port::A => GPIOA_BASE,
            Port::B => GPIOB_BASE,
            Port::C => GPIOC_BASE,
            Port::D => GPIOD_BASE,
            Port::E => GPIOE_BASE,
            Port::F => GPIOF_BASE,
            Port::G => GPIOG_BASE,
            Port::H => GPIOH_BASE,
            Port::I => GPIOI_BASE,
        }
    }

    /// Base address of the register block of this pin's port.
    pub fn port_base(&self) -> (r: usize)
        ensures
            r == Self::port_base_spec(self.port_spec()),
    {
        match self.port {
            Port::A => GPIOA_BASE,
            Port::B => GPIOB_BASE,
            Port::C => GPIOC_BASE,
            Port::D => GPIOD_BASE,
            Port::E => GPIOE_BASE,
            Port::F => GPIOF_BASE,
            Port::G => GPIOG_BASE,
            Port::H => GPIOH_BASE,
            Port::I => GPIOI_BASE,
        }
    }

    /// MODER with the 2-bit mode field of this pin (at bit `2 * pin`) set to
    /// `mode`; the other pins keep their modes.
    pub fn set_mode(&self, moder: u32, mode: Mode) -> (r: u32)
        ensures
            r == regs::with_field(moder, (2 * self.pin_spec()) as u32, 2, mode.value()),
            regs::field(r, (2 * self.pin_spec()) as u32, 2) == mode.value(),
            forall|j: u32|
                j < 32 && !(2 * self.pin_spec() <= j < 2 * self.pin_spec() + 2) ==> regs::bit(r, j)
                    == regs::bit(moder, j),
    {
        proof {
            use_type_invariant(self);
            regs::lemma_with_field(moder, (2 * self.pin) as u32, 2, mode.value());
        }
        set_field(moder, (self.pin * 2) as u32, 2, mode.bits())
    }

    /// OTYPER with this pin's bit set for open-drain and cleared for
    /// push-pull.
    pub fn set_output_type(&self, otyper: u32, otype: OutputType) -> (r: u32)
        ensures
            r == regs::with_bit(otyper, self.pin_spec() as u32, otype == OutputType::OpenDrain),
    {
        proof {
            use_type_invariant(self);
        }
        if otype == OutputType::OpenDrain {
            set_bit(otyper, self.pin as u32)
        } else {
            clear_bit(otyper, self.pin as u32)
        }
    }

    /// OSPEEDR with the 2-bit speed field of this pin set to `speed`.
    pub fn set_speed(&self, ospeedr: u32, speed: Speed) -> (r: u32)
        ensures
            r == regs::with_field(ospeedr, (2 * self.pin_spec()) as u32, 2, speed.value()),
            regs::field(r, (2 * self.pin_spec()) as u32, 2) == speed.value(),
    {
        proof {
            use_type_invariant(self);
            regs::lemma_with_field(ospeedr, (2 * self.pin) as u32, 2, speed.value());
        }
        set_field(ospeedr, (self.pin * 2) as u32, 2, speed.bits())
    }

    /// PUPDR with the 2-bit pull field of this pin set to `pull`.
    pub fn set_pull(&self, pupdr: u32, pull: Pull) -> (r: u32)
        ensures
            r == regs::with_field(pupdr, (2 * self.pin_spec()) as u32, 2, pull.value()),
            regs::field(r, (2 * self.pin_spec()) as u32, 2) == pull.value(),
    {
        proof {
            use_type_invariant(self);
            regs::lemma_with_field(pupdr, (2 * self.pin) as u32, 2, pull.value());
        }
        set_field(pupdr, (self.pin * 2) as u32, 2, pull.bits())
    }

    /// First bit of this pin's 4-bit field in its alternate-function
    /// register.
    pub open spec fn af_pos(&self) -> u32 {
        (4 * (self.pin_spec() % 8)) as u32
    }

    /// Offset of the alternate-function register that holds this pin: AFRL
    /// for pins 0-7, AFRH for pins 8-15.
    pub fn alternate_function_register(&self) -> (r: usize)
        ensures
            r == if self.pin_spec() < 8 { reg::AFRL } else { reg::AFRH },
    {
        if self.pin < 8 {
            reg::AFRL
        } else {
            reg::AFRH
        }
    }

    /// Alternate-function register `afr` (the one
    /// `alternate_function_register` names) with this pin's 4-bit field set to
    /// `af`.
    pub fn set_alternate_function(&self, afr: u32, af: AlternateFunction) -> (r: u32)
        ensures
            r == regs::with_field(afr, self.af_pos(), 4, af.value()),
            regs::field(r, self.af_pos(), 4) == af.value(),
    {
        proof {
            use_type_invariant(self);
            regs::lemma_with_field(afr, self.af_pos(), 4, af.value());
        }
        let pos: u32 = if self.pin < 8 {
            (self.pin * 4) as u32
        } else {
            ((self.pin - 8) * 4) as u32
        };
        set_field(afr, pos, 4, af.bits())
    }

    /// The level of this pin in the input data register `idr`.
    pub fn read(&self, idr: u32) -> (r: bool)
        ensures
            r == regs::bit(idr, self.pin_spec() as u32),
    {
        proof {
            use_type_invariant(self);
        }
        test_bit(idr, self.pin as u32)
    }

    /// BSRR word that drives this pin high (bit `pin`) or low (bit
    /// `pin + 16`).
    pub fn write(&self, high: bool) -> (r: u32)
        ensures
            r == bsrr_word(*self, high),
    {
        proof {
            use_type_invariant(self);
        }
        if high {
            1u32 << (self.pin as u32)
        } else {
            1u32 << (self.pin as u32 + 16)
        }
    }

    /// ODR with this pin's output bit inverted.
    pub fn toggle(&self, odr: u32) -> (r: u32)
        ensures
            r == odr ^ (1u32 << (self.pin_spec() as u32)),
    {
        proof {
            use_type_invariant(self);
        }
        odr ^ (1u32 << (self.pin as u32))
    }

    /// BSRR word that drives this pin high.
    pub fn set_high(&self) -> (r: u32)
        ensures
            r == 1u32 << (self.pin_spec() as u32),
    {
        self.write(true)
    }

    /// BSRR word that drives this pin low.
    pub fn set_low(&self) -> (r: u32)
        ensures
            r == 1u32 << (self.pin_spec() + 16) as u32,
    {
        self.write(false)
    }

    /// Whether this pin reads high in `idr`.
    pub fn is_high(&self, idr: u32) -> (r: bool)
        ensures
            r == regs::bit(idr, self.pin_spec() as u32),
    {
        self.read(idr)
    }

    /// Whether this pin reads low in `idr`.
    pub fn is_low(&self, idr: u32) -> (r: bool)
        ensures
            r == !regs::bit(idr, self.pin_spec() as u32),
    {
        !self.read(idr)
    }

    /// Port registers after `init_input`: this pin in input mode with the
    /// given pull.
    pub fn init_input(&self, regs: &mut PortConfig, pull: Pull)
        ensures
            *final(regs) == (PortConfig {
                moder: regs::with_field(old(regs).moder, (2 * self.pin_spec()) as u32, 2, Mode::Input.value()),
                pupdr: regs::with_field(old(regs).pupdr, (2 * self.pin_spec()) as u32, 2, pull.value()),
                ..*old(regs)
            }),
    {
        regs.moder = self.set_mode(regs.moder, Mode::Input);
        regs.pupdr = self.set_pull(regs.pupdr, pull);
    }

    /// Port registers after `init_output`: this pin in output mode with the
    /// given output type and speed.
    pub fn init_output(&self, regs: &mut PortConfig, otype: OutputType, speed: Speed)
        ensures
            *final(regs) == (PortConfig {
                moder: regs::with_field(old(regs).moder, (2 * self.pin_spec()) as u32, 2, Mode::Output.value()),
                otyper: regs::with_bit(old(regs).otyper, self.pin_spec() as u32, otype == OutputType::OpenDrain),
                ospeedr: regs::with_field(old(regs).ospeedr, (2 * self.pin_spec()) as u32, 2, speed.value()),
                ..*old(regs)
            }),
    {
        regs.moder = self.set_mode(regs.moder, Mode::Output);
        regs.otyper = self.set_output_type(regs.otyper, otype);
        regs.ospeedr = self.set_speed(regs.ospeedr, speed);
    }

    /// Port registers after `init_alternate`: this pin in alternate-function
    /// mode with the given function, output type, speed and pull.
    pub fn init_alternate(
        &self,
        regs: &mut PortConfig,
        af: AlternateFunction,
        otype: OutputType,
        speed: Speed,
        pull: Pull,
    )
        ensures
            final(regs).moder == regs::with_field(old(regs).moder, (2 * self.pin_spec()) as u32, 2, Mode::Alternate.value()),
            self.pin_spec() < 8 ==> final(regs).afrl == regs::with_field(old(regs).afrl, self.af_pos(), 4, af.value())
                && final(regs).afrh == old(regs).afrh,
            self.pin_spec() >= 8 ==> final(regs).afrh == regs::with_field(old(regs).afrh, self.af_pos(), 4, af.value())
                && final(regs).afrl == old(regs).afrl,
            final(regs).otyper == regs::with_bit(old(regs).otyper, self.pin_spec() as u32, otype == OutputType::OpenDrain),
            final(regs).ospeedr == regs::with_field(old(regs).ospeedr, (2 * self.pin_spec()) as u32, 2, speed.value()),
            final(regs).pupdr == regs::with_field(old(regs).pupdr, (2 * self.pin_spec()) as u32, 2, pull.value()),
    {
        regs.moder = self.set_mode(regs.moder, Mode::Alternate);
        if self.pin < 8 {
            regs.afrl = self.set_alternate_function(regs.afrl, af);
        } else {
            regs.afrh = self.set_alternate_function(regs.afrh, af);
        }
        regs.otyper = self.set_output_type(regs.otyper, otype);
        regs.ospeedr = self.set_speed(regs.ospeedr, speed);
        regs.pupdr = self.set_pull(regs.pupdr, pull);
    }

    /// Port registers after `init_analog`: this pin in analog mode.
    pub fn init_analog(&self, regs: &mut PortConfig)
        ensures
            *final(regs) == (PortConfig {
                moder: regs::with_field(old(regs).moder, (2 * self.pin_spec()) as u32, 2, Mode::Analog.value()),
                ..*old(regs)
            }),
    {
        regs.moder = self.set_mode(regs.moder, Mode::Analog);
    }
}

/// BSRR word that drives `pin` high (bit `pin`) or low (bit `pin + 16`).
pub open spec fn bsrr_word(pin: Pin, high: bool) -> u32 {
    if high {
        1u32 << (pin.pin_spec() as u32)
    } else {
        1u32 << (pin.pin_spec() + 16) as u32
    }
}

/// Toggling a pin twice leaves the output register as it was.
pub proof fn lemma_toggle_twice(odr: u32, pin: u32)
    requires
        pin < 16,
    ensures
        (odr ^ (1u32 << pin)) ^ (1u32 << pin) == odr,
{
    assert((odr ^ (1u32 << pin)) ^ (1u32 << pin) == odr) by (bit_vector);
}

/// Driving a pin through BSRR: after `set_high` the pin's output bit is
/// set, after `set_low` it is clear, and the other 31 bits of ODR are
/// unchanged either way.
pub proof fn lemma_bsrr_drives_only_the_pin(pin: Pin, odr: u32, high: bool)
    requires
        pin.pin_spec() < 16,
    ensures
        regs::bit(bsrr_effect(odr, bsrr_word(pin, high)), pin.pin_spec() as u32) == high,
        forall|j: u32| j < 32 && j != pin.pin_spec() ==> #[trigger] regs::bit(bsrr_effect(odr, bsrr_word(pin, high)), j) == regs::bit(odr, j),
{
    let p = pin.pin_spec() as u32;
    let w = if high { 1u32 << p } else { 1u32 << (p + 16) };
    assert({
        &&& regs::bit(((odr & !(w >> 16u32)) | (w & 0xffffu32)), p) == high
        &&& forall|j: u32| j < 32 && j != p ==> #[trigger] regs::bit(((odr & !(w >> 16u32)) | (w & 0xffffu32)), j) == regs::bit(odr, j)
    }) by (bit_vector)
        requires
            p < 16,
            w == if high { 1u32 << p } else { 1u32 << (p + 16) },
    ;
}

/// The clock-enable bits that `init` sets in AHB2ENR: all nine GPIO ports.
pub fn init(ahb2enr: u32) -> (r: u32)
    ensures
        r == ahb2enr | crate::rcc::ahb2::GPIOA | crate::rcc::ahb2::GPIOB | crate::rcc::ahb2::GPIOC
            | crate::rcc::ahb2::GPIOD | crate::rcc::ahb2::GPIOE | crate::rcc::ahb2::GPIOF
            | crate::rcc::ahb2::GPIOG | crate::rcc::ahb2::GPIOH | crate::rcc::ahb2::GPIOI,
{
    ahb2enr | crate::rcc::ahb2::GPIOA | crate::rcc::ahb2::GPIOB | crate::rcc::ahb2::GPIOC
        | crate::rcc::ahb2::GPIOD | crate::rcc::ahb2::GPIOE | crate::rcc::ahb2::GPIOF
        | crate::rcc::ahb2::GPIOG | crate::rcc::ahb2::GPIOH | crate::rcc::ahb2::GPIOI
}

} // verus!

//! RTC - Real-Time Clock
//!
//! # Overview
//! STM32U5 Real-Time Clock (RTC) provides calendar functions, alarms, wakeup timer,
//! and backup registers that maintain data during power loss.
//!
//! # Features
//! Reference: RM0456 Chapter 63: Real-time clock (RTC)
//!
//! ## Calendar
//! - Seconds, minutes, hours (12/24-hour format)
//! - Date, month, year (0-99, 2000-2099)
//! - Weekday
//! - Sub-second precision
//!
//! ## Alarms
//! - **Alarm A** and **Alarm B** with flexible match options
//! - Wakeup timer with configurable clock source
//!
//! ## Other Features
//! - Timestamp functionality
//! - Tamper detection
//! - 32 backup registers (32-bit each)
//! - Backup domain retention
//!
//! # Reference
//! - RM0456 Chapter 63: Real-time clock (RTC)
//! - RM0456 Section 63.1: RTC introduction
//! - RM0456 Section 63.2: RTC main features
//! - RM0456 Section 63.3: RTC functional description
//! - RM0456 Section 63.6: RTC registers
use vstd::prelude::*;
use crate::regs::{self, RegisterWrite, clear_bit, get_field, set_bit, set_field, test_bit};
pub mod reg;

verus! {

broadcast use regs::lemma_low_mask_value;

/// RTC base address (backup domain)
pub const RTC_BASE: usize = 0x4200_0000;
/// Backup register base address
pub const BACKUP_REG_BASE: usize = 0x4200_0080;

/// Alarm ID
#[derive(Clone, Copy, Debug, PartialEq, Eq, Structural)]
pub enum Alarm {
    AlarmA,
    AlarmB,
}

impl Alarm {
    /// The register encoding of this value.
    pub open spec fn value(self) -> u32 {
        match self {
            Alarm::AlarmA => 0u32,
            Alarm::AlarmB => 1u32,
        }
    }

    /// The register encoding of this value.
    pub fn bits(self) -> (r: u32)
        ensures
            r == self.value(),
    {
        match self {
            Alarm::AlarmA => 0,
            Alarm::AlarmB => 1,
        }
    }
}

/// Alarm match mask
#[derive(Clone, Copy, Debug, PartialEq, Eq, Structural)]
pub enum AlarmMask {
    /// Match seconds only
    Seconds,
    /// Match seconds and minutes
    Minutes,
    /// Match seconds, minutes, and hours
    Hours,
    /// Match seconds, minutes, hours, and day/date
    Day,
    /// Match all fields
    All,
}

impl AlarmMask {
    /// The register encoding of this value.
    pub open spec fn value(self) -> u32 {
        match self {
            AlarmMask::Seconds => 0b0000u32,
            AlarmMask::Minutes => 0b1000u32,
            AlarmMask::Hours => 0b1100u32,
            AlarmMask::Day => 0b1110u32,
            AlarmMask::All => 0b1111u32,
        }
    }

    /// The register encoding of this value.
    pub fn bits(self) -> (r: u32)
        ensures
            r == self.value(),
    {
        match self {
            AlarmMask::Seconds => 0b0000,
            AlarmMask::Minutes => 0b1000,
            AlarmMask::Hours => 0b1100,
            AlarmMask::Day => 0b1110,
            AlarmMask::All => 0b1111,
        }
    }
}

/// RTC wakeup clock source
#[derive(Clone, Copy, Debug, PartialEq, Eq, Structural)]
pub enum WakeupClock {
    /// RTC/16 clock
    Div16,
    /// RTC/8 clock
    Div8,
    /// RTC/4 clock
    Div4,
    /// RTC/2 clock
    Div2,
    /// ck_spre (1 Hz)
    CkSpre,
    /// ck_spre with additional counter
    CkSpreExtended,
}

impl WakeupClock {
    /// The register encoding of this value.
    pub open spec fn value(self) -> u32 {
        match self {
            WakeupClock::Div16 => 0b000u32,
            WakeupClock::Div8 => 0b001u32,
            WakeupClock::Div4 => 0b010u32,
            WakeupClock::Div2 => 0b011u32,
            WakeupClock::CkSpre => 0b100u32,
            WakeupClock::CkSpreExtended => 0b110u32,
        }
    }

    /// The register encoding of this value.
    pub fn bits(self) -> (r: u32)
        ensures
            r == self.value(),
    {
        match self {
            WakeupClock::Div16 => 0b000,
            WakeupClock::Div8 => 0b001,
            WakeupClock::Div4 => 0b010,
            WakeupClock::Div2 => 0b011,
            WakeupClock::CkSpre => 0b100,
            WakeupClock::CkSpreExtended => 0b110,
        }
    }
}

/// RTC initialization result
#[derive(Clone, Copy, Debug, PartialEq, Eq, Structural)]
pub enum RtcError {
    InitFailed,
    WriteProtected,
    InvalidTime,
    InvalidDate,
}

/// RTC time structure
#[derive(Clone, Copy, Debug, Default)]
pub struct Time {
    pub hours: u8,
    pub minutes: u8,
    pub seconds: u8,
    pub sub_seconds: u16,
    pub pm: bool,
}

/// RTC date structure
#[derive(Clone, Copy, Debug, Default)]
pub struct Date {
    pub year: u8,
    pub month: u8,
    pub day: u8,
    pub weekday: u8,
}

/// RTC datetime structure
#[derive(Clone, Copy, Debug, Default)]
pub struct DateTime {
    pub date: Date,
    pub time: Time,
}

/// Number of ICSR reads after which `enter_init_mode` gives up.
pub const INIT_TIMEOUT: u32 = 100_000;

/// What `enter_init_mode` does after one read of ICSR.
#[derive(Clone, Copy, Debug)]
pub enum InitWait {
    /// The wait is over, with this result.
    Done(Result<(), RtcError>),
    /// Read ICSR again; this many reads are left before the timeout.
    Poll(u32),
}

/// TR value of a time, also the time part of an alarm: BCD seconds (units
/// at bit 0, tens at bit 4), minutes (bits 8 and 12), hours (bits 16 and
/// 20), and the PM flag at bit 22.
pub open spec fn time_register(t: Time) -> u32 {
    ((t.seconds % 10) as u32) | (((t.seconds / 10) as u32) << 4u32) | (((t.minutes % 10) as u32) << 8u32) | (((t.minutes
        / 10) as u32) << 12u32) | (((t.hours % 10) as u32) << 16u32) | (((t.hours / 10) as u32) << 20u32) | (if t.pm {
        1u32 << 22u32
    } else {
        0u32
    })
}

/// The time that TR and SSR hold: each BCD field read as tens × 10 + units
/// (tens of seconds and minutes in 3 bits, of hours in 2 bits), the PM
/// flag, and the low 16 bits of SSR as the sub-seconds.
pub open spec fn time_from_registers(tr: u32, ssr: u32) -> Time {
    Time {
        hours: (regs::field(tr, 20, 2) * 10 + regs::field(tr, 16, 4)) as u8,
        minutes: (regs::field(tr, 12, 3) * 10 + regs::field(tr, 8, 4)) as u8,
        seconds: (regs::field(tr, 4, 3) * 10 + regs::field(tr, 0, 4)) as u8,
        sub_seconds: ssr as u16,
        pm: regs::bit(tr, 22),
    }
}

/// DR value of a date: BCD day (units at bit 0, tens at bit 4), month
/// (bits 8 and 12), the weekday at bit 13, and the year (bits 16 and 20).
pub open spec fn date_register(d: Date) -> u32 {
    ((d.day % 10) as u32) | (((d.day / 10) as u32) << 4u32) | (((d.month % 10) as u32) << 8u32) | (((d.month / 10) as u32)
        << 12u32) | ((d.weekday as u32) << 13u32) | (((d.year % 10) as u32) << 16u32) | (((d.year / 10) as u32) << 20u32)
}

/// The date that DR holds: tens of days in 2 bits, of months in 1 bit, of
/// years in 4 bits, and the weekday in bits 13-15.
pub open spec fn date_from_register(dr: u32) -> Date {
    Date {
        year: (regs::field(dr, 20, 4) * 10 + regs::field(dr, 16, 4)) as u8,
        month: (regs::field(dr, 12, 1) * 10 + regs::field(dr, 8, 4)) as u8,
        day: (regs::field(dr, 4, 2) * 10 + regs::field(dr, 0, 4)) as u8,
        weekday: regs::field(dr, 13, 3) as u8,
    }
}

/// Whether every field of `t` fits its BCD field: fewer than 40 hours, 80
/// minutes and 80 seconds (every time of day does).
pub open spec fn time_fits(t: Time) -> bool {
    t.hours < 40 && t.minutes < 80 && t.seconds < 80
}

/// Whether every field of `d` fits its BCD field: a day below 40, a month
/// below 20, a weekday below 8 and a year below 160 (every calendar date of
/// 2000-2099 does).
pub open spec fn date_fits(d: Date) -> bool {
    d.day < 40 && d.month < 20 && d.weekday < 8 && d.year < 160
}

/// Digits placed in the time layout read back from their fields.
proof fn lemma_time_digits(su: u32, st: u32, mu: u32, mt: u32, hu: u32, ht: u32, pm: bool)
    requires
        su < 16,
        st < 8,
        mu < 16,
        mt < 8,
        hu < 16,
        ht < 4,
    ensures
        ({
            let w = su | (st << 4u32) | (mu << 8u32) | (mt << 12u32) | (hu << 16u32) | (ht << 20u32) | (if pm {
                1u32 << 22u32
            } else {
                0u32
            });
            &&& regs::field(w, 0, 4) == su
            &&& regs::field(w, 4, 3) == st
            &&& regs::field(w, 8, 4) == mu
            &&& regs::field(w, 12, 3) == mt
            &&& regs::field(w, 16, 4) == hu
            &&& regs::field(w, 20, 2) == ht
            &&& regs::bit(w, 22) == pm
        }),
{
    let w = su | (st << 4u32) | (mu << 8u32) | (mt << 12u32) | (hu << 16u32) | (ht << 20u32) | (if pm {
        1u32 << 22u32
    } else {
        0u32
    });
    assert(((w >> 0u32) & 0xfu32) == su && ((w >> 4u32) & 0x7u32) == st && ((w >> 8u32) & 0xfu32) == mu && ((w >> 12u32)
        & 0x7u32) == mt && ((w >> 16u32) & 0xfu32) == hu && ((w >> 20u32) & 0x3u32) == ht && (((w >> 22u32) & 1u32
        == 1u32) == pm)) by (bit_vector)
        requires
            su < 16,
            st < 8,
            mu < 16,
            mt < 8,
            hu < 16,
            ht < 4,
            w == su | (st << 4u32) | (mu << 8u32) | (mt << 12u32) | (hu << 16u32) | (ht << 20u32) | (if pm {
                1u32 << 22u32
            } else {
                0u32
            }),
    ;
}

/// Digits placed in the date layout read back from their fields.
proof fn lemma_date_digits(du: u32, dt: u32, mu: u32, mt: u32, wd: u32, yu: u32, yt: u32)
    requires
        du < 16,
        dt < 4,
        mu < 16,
        mt < 2,
        wd < 8,
        yu < 16,
        yt < 16,
    ensures
        ({
            let w = du | (dt << 4u32) | (mu << 8u32) | (mt << 12u32) | (wd << 13u32) | (yu << 16u32) | (yt << 20u32);
            &&& regs::field(w, 0, 4) == du
            &&& regs::field(w, 4, 2) == dt
            &&& regs::field(w, 8, 4) == mu
            &&& regs::field(w, 12, 1) == mt
            &&& regs::field(w, 13, 3) == wd
            &&& regs::field(w, 16, 4) == yu
            &&& regs::field(w, 20, 4) == yt
        }),
{
    let w = du | (dt << 4u32) | (mu << 8u32) | (mt << 12u32) | (wd << 13u32) | (yu << 16u32) | (yt << 20u32);
    assert(((w >> 0u32) & 0xfu32) == du && ((w >> 4u32) & 0x3u32) == dt && ((w >> 8u32) & 0xfu32) == mu && ((w >> 12u32)
        & 0x1u32) == mt && ((w >> 13u32) & 0x7u32) == wd && ((w >> 16u32) & 0xfu32) == yu && ((w >> 20u32) & 0xfu32)
        == yt) by (bit_vector)
        requires
            du < 16,
            dt < 4,
            mu < 16,
            mt < 2,
            wd < 8,
            yu < 16,
            yt < 16,
            w == du | (dt << 4u32) | (mu << 8u32) | (mt << 12u32) | (wd << 13u32) | (yu << 16u32) | (yt << 20u32),
    ;
}

/// Reading back a time written with `set_time` gives the same hours,
/// minutes, seconds and PM flag, for every time whose fields fit.
pub proof fn lemma_time_roundtrip(t: Time, ssr: u32)
    requires
        time_fits(t),
    ensures
        ({
            let back = time_from_registers(time_register(t), ssr);
            &&& back.hours == t.hours
            &&& back.minutes == t.minutes
            &&& back.seconds == t.seconds
            &&& back.pm == t.pm
            &&& back.sub_seconds == ssr as u16
        }),
{
    lemma_time_digits(
        (t.seconds % 10) as u32,
        (t.seconds / 10) as u32,
        (t.minutes % 10) as u32,
        (t.minutes / 10) as u32,
        (t.hours % 10) as u32,
        (t.hours / 10) as u32,
        t.pm,
    );
}

/// Reading back a date written with `set_date` gives the same date, for
/// every date whose fields fit.
pub proof fn lemma_date_roundtrip(d: Date)
    requires
        date_fits(d),
    ensures
        date_from_register(date_register(d)) == d,
{
    lemma_date_digits(
        (d.day % 10) as u32,
        (d.day / 10) as u32,
        (d.month % 10) as u32,
        (d.month / 10) as u32,
        d.weekday as u32,
        (d.year % 10) as u32,
        (d.year / 10) as u32,
    );
}

/// RTC instance
pub struct Rtc;

impl Rtc {
    /// Create RTC instance
    pub fn new() -> (r: Self) {
        Rtc
    }

    /// The two WPR keys, 0xCA then 0x53, that lift the write protection.
    pub fn disable_write_protection(&self) -> (r: [u32; 2])
        ensures
            r@ == seq![0xCAu32, 0x53u32],
    {
        let r = [0xCAu32, 0x53u32];
        assert(r@ =~= seq![0xCAu32, 0x53u32]);
        r
    }

    /// The WPR word, 0xFF, that restores the write protection.
    pub fn enable_write_protection(&self) -> (r: u32)
        ensures
            r == 0xFF,
    {
        0xFF
    }

    /// The ICSR write that requests initialization mode (INIT, bit 7), or
    /// none when ICSR already shows it (INITF, bit 6).
    pub fn request_init_mode(&self, icsr: u32) -> (r: Option<u32>)
        ensures
            regs::bit(icsr, 6) ==> r is None,
            !regs::bit(icsr, 6) ==> r == Some(regs::with_bit(icsr, 7, true)),
    {
        if test_bit(icsr, 6) {
            None
        } else {
            Some(set_bit(icsr, 7))
        }
    }

    /// The outcome of one read of ICSR while `remaining` reads are left:
    /// done once INITF (bit 6) is set, a failure when this was the last read
    /// allowed, and another read otherwise. `enter_init_mode` starts with
    /// `INIT_TIMEOUT` reads left.
    pub fn enter_init_mode(&self, remaining: u32, icsr: u32) -> (r: InitWait)
        requires
            remaining > 0,
        ensures
            regs::bit(icsr, 6) ==> r matches InitWait::Done(Ok(())),
            !regs::bit(icsr, 6) && remaining == 1 ==> r matches InitWait::Done(Err(RtcError::InitFailed)),
            !regs::bit(icsr, 6) && remaining > 1 ==> (r matches InitWait::Poll(n) && n == remaining - 1),
    {
        if test_bit(icsr, 6) {
            InitWait::Done(Ok(()))
        } else if remaining == 1 {
            InitWait::Done(Err(RtcError::InitFailed))
        } else {
            InitWait::Poll(remaining - 1)
        }
    }

    /// ICSR with the initialization request (INIT, bit 7) withdrawn.
    pub fn exit_init_mode(&self, icsr: u32) -> (r: u32)
        ensures
            r == regs::with_bit(icsr, 7, false),
    {
        clear_bit(icsr, 7)
    }

    /// ICSR with the synchronization flag (RSF, bit 5) cleared, the first step
    /// of waiting for the calendar registers to resynchronize.
    pub fn start_sync(&self, icsr: u32) -> (r: u32)
        ensures
            r == regs::with_bit(icsr, 5, false),
    {
        clear_bit(icsr, 5)
    }

    /// Whether the calendar registers are synchronized (RSF, bit 5 of ICSR).
    pub fn is_synchronized(&self, icsr: u32) -> (r: bool)
        ensures
            r == regs::bit(icsr, 5),
    {
        test_bit(icsr, 5)
    }

    /// RCC BDCR with the LSE oscillator switched on (LSEON, bit 0).
    pub fn lse_on(&self, bdcr: u32) -> (r: u32)
        ensures
            r == regs::with_bit(bdcr, 0, true),
    {
        set_bit(bdcr, 0)
    }

    /// Whether the LSE oscillator is ready (LSERDY, bit 1 of BDCR).
    pub fn lse_ready(&self, bdcr: u32) -> (r: bool)
        ensures
            r == regs::bit(bdcr, 1),
    {
        test_bit(bdcr, 1)
    }

    /// The two BDCR writes that clock the RTC from LSE: the clock selection
    /// (RTCSEL, bits 8-9) set to LSE (01), then the RTC clock enabled
    /// (RTCEN, bit 15).
    pub fn select_lse_clock(&self, bdcr: u32) -> (r: (u32, u32))
        ensures
            r.0 == regs::with_field(bdcr, 8, 2, 1),
            r.1 == regs::with_bit(r.0, 15, true),
    {
        let a = set_field(bdcr, 8, 2, 1);
        (a, set_bit(a, 15))
    }

    /// The writes of `init_lse` in initialization mode: PRER with the
    /// asynchronous prescaler 127 at bit 16 and the synchronous one 255 (a 1
    /// Hz calendar from 32.768 kHz), then CR in 24-hour format (FMT, bit 6,
    /// cleared).
    pub fn init_lse(&self, cr: u32) -> (r: [RegisterWrite; 2])
        ensures
            r[0] == (RegisterWrite { offset: reg::PRER, value: (127u32 << 16u32) | 255u32 }),
            r[1] == (RegisterWrite { offset: reg::CR, value: regs::with_bit(cr, 6, false) }),
    {
        [RegisterWrite { offset: reg::PRER, value: (127u32 << 16u32) | 255u32 }, RegisterWrite { offset: reg::CR, value: clear_bit(cr, 6) }]
    }

    /// TR value written by `set_time` in initialization mode.
    pub fn set_time(&self, time: &Time) -> (r: u32)
        ensures
            r == time_register(*time),
    {
        let pm: u32 = if time.pm { 1u32 << 22u32 } else { 0u32 };
        ((time.seconds % 10) as u32) | (((time.seconds / 10) as u32) << 4u32) | (((time.minutes % 10) as u32) << 8u32)
            | (((time.minutes / 10) as u32) << 12u32) | (((time.hours % 10) as u32) << 16u32) | (((time.hours / 10) as u32)
            << 20u32) | pm
    }

    /// The time of `get_time`, from TR and SSR.
    pub fn get_time(&self, tr: u32, ssr: u32) -> (r: Time)
        ensures
            r == time_from_registers(tr, ssr),
    {
        let st = get_field(tr, 4, 3);
        let su = get_field(tr, 0, 4);
        let mt = get_field(tr, 12, 3);
        let mu = get_field(tr, 8, 4);
        let ht = get_field(tr, 20, 2);
        let hu = get_field(tr, 16, 4);
        Time {
            seconds: st as u8 * 10 + su as u8,
            minutes: mt as u8 * 10 + mu as u8,
            hours: ht as u8 * 10 + hu as u8,
            sub_seconds: ssr as u16,
            pm: test_bit(tr, 22),
        }
    }

    /// DR value written by `set_date` in initialization mode.
    pub fn set_date(&self, date: &Date) -> (r: u32)
        ensures
            r == date_register(*date),
    {
        ((date.day % 10) as u32) | (((date.day / 10) as u32) << 4u32) | (((date.month % 10) as u32) << 8u32) | (((date.month
            / 10) as u32) << 12u32) | ((date.weekday as u32) << 13u32) | (((date.year % 10) as u32) << 16u32) | (((date.year
            / 10) as u32) << 20u32)
    }

    /// The date of `get_date`, from DR.
    pub fn get_date(&self, dr: u32) -> (r: Date)
        ensures
            r == date_from_register(dr),
    {
        let dt = get_field(dr, 4, 2);
        let du = get_field(dr, 0, 4);
        let mt = get_field(dr, 12, 1);
        let mu = get_field(dr, 8, 4);
        let yt = get_field(dr, 20, 4);
        let yu = get_field(dr, 16, 4);
        Date {
            day: dt as u8 * 10 + du as u8,
            month: mt as u8 * 10 + mu as u8,
            year: yt as u8 * 10 + yu as u8,
            weekday: get_field(dr, 13, 3) as u8,
        }
    }

    /// CR with the enable bit of alarm `alarm` (bit 8 × alarm) cleared, the
    /// first write of `set_alarm`.
    pub fn alarm_disable(&self, alarm: Alarm, cr: u32) -> (r: u32)
        ensures
            r == regs::with_bit(cr, (8 * alarm.value()) as u32, false),
    {
        clear_bit(cr, 8 * alarm.bits())
    }

    /// Whether the alarm's update is still pending (bit 8 × (alarm + 1) of
    /// CR); `set_alarm` waits while it is set.
    pub fn alarm_update_pending(&self, alarm: Alarm, cr: u32) -> (r: bool)
        ensures
            r == regs::bit(cr, (8 * alarm.value() + 8) as u32),
    {
        test_bit(cr, 8 * alarm.bits() + 8)
    }

    /// The alarm writes of `set_alarm`: the alarm register (ALRMAR or
    /// ALRMBR) with the time in TR layout and the mask at bit 24, then the
    /// sub-second register cleared.
    pub fn set_alarm(&self, alarm: Alarm, time: &Time, mask: AlarmMask) -> (r: [RegisterWrite; 2])
        ensures
            r[0] == (RegisterWrite {
                offset: if alarm == Alarm::AlarmA { reg::ALRMAR } else { reg::ALRMBR },
                value: time_register(*time) | (mask.value() << 24u32),
            }),
            r[1] == (RegisterWrite { offset: if alarm == Alarm::AlarmA { reg::ALRMASSR } else { reg::ALRMBSSR }, value: 0 }),
    {
        let (alrmr, alrmassr) = match alarm {
            Alarm::AlarmA => (reg::ALRMAR, reg::ALRMASSR),
            Alarm::AlarmB => (reg::ALRMBR, reg::ALRMBSSR),
        };
        [RegisterWrite { offset: alrmr, value: self.set_time(time) | (mask.bits() << 24u32) }, RegisterWrite { offset: alrmassr, value: 0 }]
    }

    /// CR with the enable bit of alarm `alarm` (bit 8 × alarm) set, the last
    /// write of `set_alarm`.
    pub fn alarm_enable(&self, alarm: Alarm, cr: u32) -> (r: u32)
        ensures
            r == regs::with_bit(cr, (8 * alarm.value()) as u32, true),
    {
        set_bit(cr, 8 * alarm.bits())
    }

    /// CR with the wake-up timer disabled (WUTE, bit 10); `enable_wakeup` writes
    /// it first and waits until `wakeup_writable` reads true, and
    /// `disable_wakeup` writes only it.
    pub fn wakeup_timer_off(&self, cr: u32) -> (r: u32)
        ensures
            r == regs::with_bit(cr, 10, false),
    {
        clear_bit(cr, 10)
    }

    /// Whether the wake-up timer accepts a new value (WUTWF, bit 2 of CR).
    pub fn wakeup_writable(&self, cr: u32) -> (r: bool)
        ensures
            r == regs::bit(cr, 2),
    {
        test_bit(cr, 2)
    }

    /// The writes of `enable_wakeup` once the timer accepts them: WUTR with
    /// the reload value, CR with the clock selection (WUCKSEL, bits 0-2),
    /// then CR with the timer enabled (WUTE, bit 10).
    pub fn enable_wakeup(&self, clock: WakeupClock, value: u16, cr: u32) -> (r: [RegisterWrite; 3])
        ensures
            r[0] == (RegisterWrite { offset: reg::WUTR, value: value as u32 }),
            r[1] == (RegisterWrite { offset: reg::CR, value: regs::with_field(cr, 0, 3, clock.value()) }),
            r[2] == (RegisterWrite { offset: reg::CR, value: regs::with_bit(regs::with_field(cr, 0, 3, clock.value()), 10, true) }),
    {
        let c = set_field(cr, 0, 3, clock.bits());
        [
            RegisterWrite { offset: reg::WUTR, value: value as u32 },
            RegisterWrite { offset: reg::CR, value: c },
            RegisterWrite { offset: reg::CR, value: set_bit(c, 10) },
        ]
    }

    /// CR of `disable_wakeup`: the wake-up timer disabled.
    pub fn disable_wakeup(&self, cr: u32) -> (r: u32)
        ensures
            r == regs::with_bit(cr, 10, false),
    {
        self.wakeup_timer_off(cr)
    }

    /// Offset from `BACKUP_REG_BASE` of backup register `index`, the one
    /// `read_backup` reads.
    pub fn read_backup(&self, index: u8) -> (r: usize)
        requires
            index < 32,
        ensures
            r == 4 * index,
    {
        index as usize * 4
    }

    /// The write of `write_backup`: `value` to backup register `index`, at
    /// its offset from `BACKUP_REG_BASE`.
    pub fn write_backup(&self, index: u8, value: u32) -> (r: RegisterWrite)
        requires
            index < 32,
        ensures
            r == (RegisterWrite { offset: (4 * index) as usize, value }),
    {
        RegisterWrite { offset: index as usize * 4, value }
    }

}

/// The writes of `init_rtc_default` in initialization mode: those of
/// `Rtc::init_lse`.
pub fn init_rtc_default(cr: u32) -> (r: [RegisterWrite; 2])
    ensures
        r[0] == (RegisterWrite { offset: reg::PRER, value: (127u32 << 16u32) | 255u32 }),
        r[1] == (RegisterWrite { offset: reg::CR, value: regs::with_bit(cr, 6, false) }),
{
    let rtc = Rtc::new();
    rtc.init_lse(cr)
}

} // verus!

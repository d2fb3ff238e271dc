//! Timings of common panel resolutions.
use vstd::prelude::*;
use crate::ltdc::TimingConfig;

verus! {

/// Timings of a 480 x 272 WVGA panel.
pub open spec fn timing_480x272() -> TimingConfig {
    TimingConfig {
        hsync: 41,
        hbp: 2,
        active_width: 480,
        total_width: 525,
        vsync: 10,
        vbp: 2,
        active_height: 272,
        total_height: 286,
    }
}

/// Timings of a 480 x 272 WVGA panel.
#[allow(non_snake_case)]
pub fn WVGA_480X272() -> (r: TimingConfig)
    ensures
        r == timing_480x272(),
{
    TimingConfig {
        hsync: 41,
        hbp: 2,
        active_width: 480,
        total_width: 525,
        vsync: 10,
        vbp: 2,
        active_height: 272,
        total_height: 286,
    }
}

/// Timings of an 800 x 480 WVGA panel.
#[allow(non_snake_case)]
pub fn WVGA_800X480() -> (r: TimingConfig)
    ensures
        r == (TimingConfig {
            hsync: 128,
            hbp: 88,
            active_width: 800,
            total_width: 1056,
            vsync: 2,
            vbp: 32,
            active_height: 480,
            total_height: 525,
        }),
{
    TimingConfig {
        hsync: 128,
        hbp: 88,
        active_width: 800,
        total_width: 1056,
        vsync: 2,
        vbp: 32,
        active_height: 480,
        total_height: 525,
    }
}

/// Timings of a 640 x 480 VGA panel.
#[allow(non_snake_case)]
pub fn VGA_640X480() -> (r: TimingConfig)
    ensures
        r == (TimingConfig {
            hsync: 96,
            hbp: 48,
            active_width: 640,
            total_width: 800,
            vsync: 2,
            vbp: 33,
            active_height: 480,
            total_height: 525,
        }),
{
    TimingConfig {
        hsync: 96,
        hbp: 48,
        active_width: 640,
        total_width: 800,
        vsync: 2,
        vbp: 33,
        active_height: 480,
        total_height: 525,
    }
}

} // verus!

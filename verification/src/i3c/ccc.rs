use vstd::prelude::*;

verus! {

/// Broadcast ENTDAA (Enter DAA - Dynamic Address Assignment)
pub const ENTDAA: u8 = 0x00;
/// Broadcast SETDASA (Set Dynamic Address from Static)
pub const SETDASA: u8 = 0x01;
/// Broadcast SETNEWDA (Set New Dynamic Address)
pub const SETNEWDA: u8 = 0x08;
/// Broadcast GETPID (Get Provisional ID)
pub const GETPID: u8 = 0x0D;
/// Broadcast GETBCR (Get Bus Characteristic)
pub const GETBCR: u8 = 0x0E;
/// Broadcast GETDC (Get Device Characteristic)
pub const GETDC: u8 = 0x0F;
/// Broadcast GETMWL (Get Max Write Length)
pub const GETMWL: u8 = 0x10;
/// Broadcast GETMRL (Get Max Read Length)
pub const GETMRL: u8 = 0x11;
/// Broadcast SETXTIME (Set Exchange Timing)
pub const SETXTIME: u8 = 0x28;
/// Broadcast GETXTIME (Get Exchange Timing)
pub const GETXTIME: u8 = 0x29;
/// Broadcast SETAASA (Set All Devices to Address)
pub const SETAASA: u8 = 0x2D;
/// Broadcast SETBUSCON (Set Bus Configuration)
pub const SETBUSCON: u8 = 0x2E;

} // verus!

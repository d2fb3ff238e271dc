use vstd::prelude::*;

verus! {

/// DSI Host Configuration Register
pub const HCR: usize = 0x00;
/// DSI Version Register
pub const VCR: usize = 0x04;
/// DSI Clock Control Register
pub const CCR: usize = 0x08;
/// DSI Low-Power Control Register
pub const LPCR: usize = 0x0C;
/// DSI Power Control Register
pub const PCR: usize = 0x10;
/// DSI Generic Header Configuration Register
pub const GHCR: usize = 0x14;
/// DSI Generic Payload Data Register 0
pub const GPDR: usize = 0x18;
/// DSI Generic Payload Data Register 1
pub const GPSR: usize = 0x1C;
/// DSI Host Timeout Counter Configuration Register
pub const TCCR0: usize = 0x20;
/// DSI Host Timeout Counter Configuration Register 1
pub const TCCR1: usize = 0x24;
/// DSI Clock Lane Configuration Register
pub const CLCR: usize = 0x28;
/// DSI Clock Lane Timer Configuration Register
pub const CLTCR: usize = 0x2C;
/// DSI D-PHY Configuration Register
pub const DPC: usize = 0x30;
/// DSI D-PHY Timeout Configuration Register
pub const DPT: usize = 0x34;
/// DSI D-PHY Status Register
pub const DPSC: usize = 0x38;
/// DSI Interrupt Enable Register 0
pub const IER0: usize = 0x3C;
/// DSI Interrupt Enable Register 1
pub const IER1: usize = 0x40;
/// DSI Status Register 0
pub const SR0: usize = 0x44;
/// DSI Status Register 1
pub const SR1: usize = 0x48;
/// DSI Interrupt Flag Clear Register 0
pub const IFCR0: usize = 0x4C;
/// DSI Interrupt Flag Clear Register 1
pub const IFCR1: usize = 0x50;
/// DSI Video Mode Configuration Register
pub const VMCR: usize = 0x54;
/// DSI Video Packet Configuration Register
pub const VPCR: usize = 0x58;
/// DSI Video Mode Configuration Register 1
pub const VCCR: usize = 0x5C;
/// DSI Video Mode Configuration Register 2
pub const VNPCR: usize = 0x60;
/// DSI Video Mode Configuration Register 3
pub const VHPCCR: usize = 0x64;
/// DSI Video Mode Configuration Register 4
pub const VVPCCR: usize = 0x68;
/// DSI Video Mode Configuration Register 5
pub const VFWCR: usize = 0x6C;
/// DSI Wrapper Configuration Register
pub const WCFGR: usize = 0x70;
/// DSI Wrapper Control Register
pub const WCR: usize = 0x74;
/// DSI Wrapper Interrupt Enable Register
pub const WIER: usize = 0x78;
/// DSI Wrapper Status and Interrupt Flag Register
pub const WISR: usize = 0x7C;
/// DSI Wrapper Interrupt Flag Clear Register
pub const WIFCR: usize = 0x80;

} // verus!

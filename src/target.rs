//! The two supported device generations and the flash layout they share.
use vstd::prelude::*;

verus! {

/// USB vendor identifier of the bootloader.
pub const PICOBOOT_VID: u16 = 0x2E8A;
pub const PICOBOOT_PID_RP2040: u16 = 0x0003;
pub const PICOBOOT_PID_RP2350: u16 = 0x000f;

/// Write and read granularity of the flash.
pub const PICO_PAGE_SIZE: usize = 256;
/// Erase granularity of the flash: sixteen pages.
pub const PICO_SECTOR_SIZE: usize = 4096;
/// Address at which the flash is mapped.
pub const PICO_FLASH_START: u32 = 0x10000000;
/// Initial stack pointer handed to the older reboot command (end of SRAM).
pub const PICO_STACK_POINTER: u32 = 0x20042000;
/// Delay before the device reboots at the end of a flashing pass.
pub const PICO_REBOOT_DELAY_MS: u32 = 500;

#[derive(Debug, Clone, Copy, PartialEq, Eq, Structural)]
pub enum TargetID {
    Rp2040,
    Rp2350,
}

/// The reboot command that a generation understands.
#[derive(Debug, Clone, Copy, PartialEq, Eq, Structural)]
pub enum RebootRequest {
    /// The older command: program counter, stack pointer, delay.
    Legacy { pc: u32, sp: u32, delay: u32 },
    /// The newer command, into normal boot.
    Normal { delay: u32 },
}

impl TargetID {
    pub open spec fn spec_product_id(self) -> u16 {
        match self {
            TargetID::Rp2040 => PICOBOOT_PID_RP2040,
            TargetID::Rp2350 => PICOBOOT_PID_RP2350,
        }
    }

    pub fn product_id(&self) -> (r: u16)
        ensures
            r == self.spec_product_id(),
    {
        match self {
            TargetID::Rp2040 => PICOBOOT_PID_RP2040,
            TargetID::Rp2350 => PICOBOOT_PID_RP2350,
        }
    }

    /// The generation with this product identifier, if any.
    pub fn from_product_id(pid: u16) -> (r: Option<TargetID>)
        ensures
            r matches Some(t) ==> t.spec_product_id() == pid,
            r is None <==> (pid != PICOBOOT_PID_RP2040 && pid != PICOBOOT_PID_RP2350),
    {
        if pid == PICOBOOT_PID_RP2040 {
            Some(TargetID::Rp2040)
        } else if pid == PICOBOOT_PID_RP2350 {
            Some(TargetID::Rp2350)
        } else {
            None
        }
    }

    /// The generations in the order a host looks for them.
    pub fn known() -> (r: Vec<TargetID>)
        ensures
            r@ == seq![TargetID::Rp2040, TargetID::Rp2350],
    {
        let r = vec![TargetID::Rp2040, TargetID::Rp2350];
        assert(r@ =~= seq![TargetID::Rp2040, TargetID::Rp2350]);
        r
    }

    pub open spec fn spec_firmware_name(self) -> Seq<char> {
        match self {
            TargetID::Rp2040 => "fw_blink.uf2"@,
            TargetID::Rp2350 => "fw_blink_rp2350.uf2"@,
        }
    }

    /// The file name of the firmware image for this generation.
    pub fn firmware_name(&self) -> (r: &'static str)
        ensures
            r@ == self.spec_firmware_name(),
    {
        match self {
            TargetID::Rp2040 => "fw_blink.uf2",
            TargetID::Rp2350 => "fw_blink_rp2350.uf2",
        }
    }

    pub fn page_size(&self) -> (r: usize)
        ensures
            r == PICO_PAGE_SIZE,
    {
        PICO_PAGE_SIZE
    }

    pub fn sector_size(&self) -> (r: usize)
        ensures
            r == PICO_SECTOR_SIZE,
    {
        PICO_SECTOR_SIZE
    }

    pub open spec fn spec_reboot_request(self, delay: u32) -> RebootRequest {
        match self {
            TargetID::Rp2040 => RebootRequest::Legacy { pc: 0, sp: PICO_STACK_POINTER, delay },
            TargetID::Rp2350 => RebootRequest::Normal { delay },
        }
    }

    /// The reboot into the flashed image: the older generation starts at
    /// program counter 0 with the stack at the end of SRAM.
    pub fn reboot_request(&self, delay: u32) -> (r: RebootRequest)
        ensures
            r == self.spec_reboot_request(delay),
    {
        match self {
            TargetID::Rp2040 => RebootRequest::Legacy { pc: 0, sp: PICO_STACK_POINTER, delay },
            TargetID::Rp2350 => RebootRequest::Normal { delay },
        }
    }
}

} // verus!

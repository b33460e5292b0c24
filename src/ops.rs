//! The flash operations as commands: each builds its argument block, its
//! declared argument length and its transfer length.
use vstd::prelude::*;
use crate::target::RebootRequest;
use crate::wire::{
    PicobootCmd, PicobootCmdId, PicobootRangeCmd, PicobootReboot2Cmd, PicobootRebootCmd,
    PICOBOOT_MAGIC, range_args, reboot2_args, reboot_args, zeros,
};

verus! {

/// `c` is the header that `PicobootCmd::new` builds from these values.
pub open spec fn is_command(c: PicobootCmd, id: PicobootCmdId, cmd_size: u8, transfer_len: u32, args: Seq<u8>) -> bool {
    &&& c.magic == PICOBOOT_MAGIC
    &&& c.token == 0
    &&& c.cmd_id == id.spec_code()
    &&& c.cmd_size == cmd_size
    &&& c._unused == 0
    &&& c.transfer_len == transfer_len
    &&& c.args@ == args
}

/// Modes of the exclusive-access claim.
pub const ACCESS_NOT_EXCLUSIVE: u8 = 0;
pub const ACCESS_EXCLUSIVE: u8 = 1;
pub const ACCESS_EXCLUSIVE_EJECT: u8 = 2;

impl PicobootCmd {
    /// Claims (or gives up) exclusive access to the flash; one argument byte.
    pub fn exclusive_access(mode: u8) -> (r: PicobootCmd)
        ensures
            is_command(r, PicobootCmdId::ExclusiveAccess, 1, 0, seq![mode] + zeros(15)),
    {
        let mut args = [0u8; 16];
        args[0] = mode;
        assert(args@ =~= seq![mode] + zeros(15));
        PicobootCmd::new(PicobootCmdId::ExclusiveAccess, 1, 0, args)
    }

    /// Reboot of the older generation: program counter, stack pointer, delay.
    pub fn reboot(pc: u32, sp: u32, delay: u32) -> (r: PicobootCmd)
        ensures
            is_command(r, PicobootCmdId::Reboot, 12, 0, reboot_args(pc, sp, delay)),
    {
        PicobootCmd::new(PicobootCmdId::Reboot, 12, 0, PicobootRebootCmd::ser(pc, sp, delay))
    }

    /// Reboot of the newer generation into normal boot (flags 0) after
    /// `delay` milliseconds.
    pub fn reboot2_normal(delay: u32) -> (r: PicobootCmd)
        ensures
            is_command(r, PicobootCmdId::Reboot2, 0x10, 0, reboot2_args(0, delay, 0, 0)),
    {
        PicobootCmd::new(PicobootCmdId::Reboot2, 0x10, 0, PicobootReboot2Cmd::ser(0, delay, 0, 0))
    }

    /// Erases `size` bytes of flash from `addr`; no data phase.
    pub fn flash_erase(addr: u32, size: u32) -> (r: PicobootCmd)
        ensures
            is_command(r, PicobootCmdId::FlashErase, 8, 0, range_args(addr, size)),
    {
        PicobootCmd::new(PicobootCmdId::FlashErase, 8, 0, PicobootRangeCmd::ser(addr, size))
    }

    /// Writes `size` bytes to flash at `addr`; the bytes follow in the data
    /// phase.
    pub fn flash_write(addr: u32, size: u32) -> (r: PicobootCmd)
        ensures
            is_command(r, PicobootCmdId::Write, 8, size, range_args(addr, size)),
    {
        PicobootCmd::new(PicobootCmdId::Write, 8, size, PicobootRangeCmd::ser(addr, size))
    }

    /// Reads `size` bytes of flash from `addr` in the data phase.
    pub fn flash_read(addr: u32, size: u32) -> (r: PicobootCmd)
        ensures
            is_command(r, PicobootCmdId::Read, 8, size, range_args(addr, size)),
    {
        PicobootCmd::new(PicobootCmdId::Read, 8, size, PicobootRangeCmd::ser(addr, size))
    }
}


impl RebootRequest {
    /// The reboot command for this request.
    pub fn command(&self) -> (r: PicobootCmd)
        ensures
            (match *self {
                RebootRequest::Legacy { pc, sp, delay } => is_command(
                    r,
                    PicobootCmdId::Reboot,
                    12,
                    0,
                    reboot_args(pc, sp, delay),
                ),
                RebootRequest::Normal { delay } => is_command(
                    r,
                    PicobootCmdId::Reboot2,
                    0x10,
                    0,
                    reboot2_args(0, delay, 0, 0),
                ),
            }),
    {
        match *self {
            RebootRequest::Legacy { pc, sp, delay } => PicobootCmd::reboot(pc, sp, delay),
            RebootRequest::Normal { delay } => PicobootCmd::reboot2_normal(delay),
        }
    }
}

/// A write of `size` bytes at `addr` and the read of `size` bytes at `addr`
/// that checks it name the same flash range and the same transfer length,
/// with their data phases in opposite directions: the read returns what the
/// device holds in exactly the range the write filled.
pub proof fn lemma_write_read_same_range(w: PicobootCmd, r: PicobootCmd, addr: u32, size: u32)
    requires
        is_command(w, PicobootCmdId::Write, 8, size, range_args(addr, size)),
        is_command(r, PicobootCmdId::Read, 8, size, range_args(addr, size)),
    ensures
        w.args@ == r.args@,
        w.transfer_len == r.transfer_len,
        !w.spec_reads(),
        r.spec_reads(),
{
}
} // verus!

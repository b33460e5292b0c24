//! Fixed little-endian layouts of the command header, the argument blocks and
//! the status reply.
use vstd::prelude::*;

verus! {

/// Magic word that opens every command header.
pub const PICOBOOT_MAGIC: u32 = 0x431FD10B;

/// Little-endian bytes of a 16-bit value.
pub open spec fn le16(x: u16) -> Seq<u8> {
    seq![(x % 256) as u8, (x / 256) as u8]
}

/// Little-endian bytes of a 32-bit value.
pub open spec fn le32(x: u32) -> Seq<u8> {
    seq![(x % 256) as u8, ((x / 256) % 256) as u8, ((x / 65536) % 256) as u8, (x / 16777216) as u8]
}

/// The value of four little-endian bytes.
pub open spec fn le32_value(b0: u8, b1: u8, b2: u8, b3: u8) -> int {
    b0 + b1 * 256 + b2 * 65536 + b3 * 16777216
}

/// Little-endian bytes of a 64-bit value.
pub open spec fn le64(x: u64) -> Seq<u8> {
    le32((x % 0x1_0000_0000) as u32) + le32((x / 0x1_0000_0000) as u32)
}

/// `n` zero bytes.
pub open spec fn zeros(n: nat) -> Seq<u8> {
    Seq::new(n, |i: int| 0u8)
}

fn le32_bytes(x: u32) -> (r: [u8; 4])
    ensures
        r@ == le32(x),
{
    let r = [(x % 256) as u8, ((x / 256) % 256) as u8, ((x / 65536) % 256) as u8, (x / 16777216) as u8];
    assert(r@ =~= le32(x));
    r
}


/// The codes that name a command.
pub open spec fn is_cmd_code(x: u8) -> bool {
    (x <= 0xA && x != 0x4) || x == 0xD || x == 0x84 || x == 0x8B || x == 0x8C
}

/// Command identifiers. The high bit (0x80) of a code marks a command whose
/// data phase runs from the device to the host.
#[derive(Debug, Clone, Copy, PartialEq, Eq, Structural)]
pub enum PicobootCmdId {
    Unknown,
    ExclusiveAccess,
    Reboot,
    FlashErase,
    Read,
    Write,
    ExitXip,
    EnterCmdXip,
    Exec,
    VectorizeFlash,
    Reboot2,
    GetInfo,
    OtpRead,
    OtpWrite,
}

impl PicobootCmdId {
    /// The one-byte code of the identifier on the wire.
    pub open spec fn spec_code(self) -> u8 {
        match self {
            PicobootCmdId::Unknown => 0x0,
            PicobootCmdId::ExclusiveAccess => 0x1,
            PicobootCmdId::Reboot => 0x2,
            PicobootCmdId::FlashErase => 0x3,
            PicobootCmdId::Read => 0x84,
            PicobootCmdId::Write => 0x5,
            PicobootCmdId::ExitXip => 0x6,
            PicobootCmdId::EnterCmdXip => 0x7,
            PicobootCmdId::Exec => 0x8,
            PicobootCmdId::VectorizeFlash => 0x9,
            PicobootCmdId::Reboot2 => 0xA,
            PicobootCmdId::GetInfo => 0x8B,
            PicobootCmdId::OtpRead => 0x8C,
            PicobootCmdId::OtpWrite => 0xD,
        }
    }

    pub fn code(&self) -> (r: u8)
        ensures
            r == self.spec_code(),
    {
        match self {
            PicobootCmdId::Unknown => 0x0,
            PicobootCmdId::ExclusiveAccess => 0x1,
            PicobootCmdId::Reboot => 0x2,
            PicobootCmdId::FlashErase => 0x3,
            PicobootCmdId::Read => 0x84,
            PicobootCmdId::Write => 0x5,
            PicobootCmdId::ExitXip => 0x6,
            PicobootCmdId::EnterCmdXip => 0x7,
            PicobootCmdId::Exec => 0x8,
            PicobootCmdId::VectorizeFlash => 0x9,
            PicobootCmdId::Reboot2 => 0xA,
            PicobootCmdId::GetInfo => 0x8B,
            PicobootCmdId::OtpRead => 0x8C,
            PicobootCmdId::OtpWrite => 0xD,
        }
    }

    /// Decodes a command code; codes that name no command are refused.
    pub fn try_from(x: u8) -> (r: Result<PicobootCmdId, ()>)
        ensures
            r is Ok <==> is_cmd_code(x),
            r matches Ok(id) ==> id.spec_code() == x,
    {
        match x {
            0x0 => Ok(PicobootCmdId::Unknown),
            0x1 => Ok(PicobootCmdId::ExclusiveAccess),
            0x2 => Ok(PicobootCmdId::Reboot),
            0x3 => Ok(PicobootCmdId::FlashErase),
            0x84 => Ok(PicobootCmdId::Read),
            0x5 => Ok(PicobootCmdId::Write),
            0x6 => Ok(PicobootCmdId::ExitXip),
            0x7 => Ok(PicobootCmdId::EnterCmdXip),
            0x8 => Ok(PicobootCmdId::Exec),
            0x9 => Ok(PicobootCmdId::VectorizeFlash),
            0xA => Ok(PicobootCmdId::Reboot2),
            0x8B => Ok(PicobootCmdId::GetInfo),
            0x8C => Ok(PicobootCmdId::OtpRead),
            0xD => Ok(PicobootCmdId::OtpWrite),
            _ => Err(()),
        }
    }
}

/// Status codes that the device reports for the last command.
#[derive(Debug, Clone, Copy, PartialEq, Eq, Structural)]
pub enum PicobootStatus {
    Success,
    UnknownCmd,
    InvalidCmdLength,
    InvalidTransferLength,
    InvalidAddress,
    BadAlignment,
    InterleavedWrite,
    Rebooting,
    UnknownError,
    InvalidState,
    NotPermitted,
    InvalidArg,
    BufferTooSmall,
    PreconditionNotMet,
    ModifiedData,
    InvalidData,
    NotFound,
    UnsupportedModification,
}

impl PicobootStatus {
    /// The numeric code of the status on the wire.
    pub open spec fn spec_code(self) -> u32 {
        match self {
            PicobootStatus::Success => 0,
            PicobootStatus::UnknownCmd => 1,
            PicobootStatus::InvalidCmdLength => 2,
            PicobootStatus::InvalidTransferLength => 3,
            PicobootStatus::InvalidAddress => 4,
            PicobootStatus::BadAlignment => 5,
            PicobootStatus::InterleavedWrite => 6,
            PicobootStatus::Rebooting => 7,
            PicobootStatus::UnknownError => 8,
            PicobootStatus::InvalidState => 9,
            PicobootStatus::NotPermitted => 10,
            PicobootStatus::InvalidArg => 11,
            PicobootStatus::BufferTooSmall => 12,
            PicobootStatus::PreconditionNotMet => 13,
            PicobootStatus::ModifiedData => 14,
            PicobootStatus::InvalidData => 15,
            PicobootStatus::NotFound => 16,
            PicobootStatus::UnsupportedModification => 17,
        }
    }

    /// Decodes a status code; only the codes 0 through 17 are defined.
    pub fn try_from(x: u32) -> (r: Result<PicobootStatus, ()>)
        ensures
            r is Ok <==> x <= 17,
            r matches Ok(s) ==> s.spec_code() == x,
    {
        match x {
            0 => Ok(PicobootStatus::Success),
            1 => Ok(PicobootStatus::UnknownCmd),
            2 => Ok(PicobootStatus::InvalidCmdLength),
            3 => Ok(PicobootStatus::InvalidTransferLength),
            4 => Ok(PicobootStatus::InvalidAddress),
            5 => Ok(PicobootStatus::BadAlignment),
            6 => Ok(PicobootStatus::InterleavedWrite),
            7 => Ok(PicobootStatus::Rebooting),
            8 => Ok(PicobootStatus::UnknownError),
            9 => Ok(PicobootStatus::InvalidState),
            10 => Ok(PicobootStatus::NotPermitted),
            11 => Ok(PicobootStatus::InvalidArg),
            12 => Ok(PicobootStatus::BufferTooSmall),
            13 => Ok(PicobootStatus::PreconditionNotMet),
            14 => Ok(PicobootStatus::ModifiedData),
            15 => Ok(PicobootStatus::InvalidData),
            16 => Ok(PicobootStatus::NotFound),
            17 => Ok(PicobootStatus::UnsupportedModification),
            _ => Err(()),
        }
    }
}


/// Argument block of the range commands: address, size, eight reserved bytes.
pub open spec fn range_args(addr: u32, size: u32) -> Seq<u8> {
    le32(addr) + le32(size) + zeros(8)
}

/// Argument block of the older reboot command: program counter, stack
/// pointer, delay, four reserved bytes.
pub open spec fn reboot_args(pc: u32, sp: u32, delay: u32) -> Seq<u8> {
    le32(pc) + le32(sp) + le32(delay) + zeros(4)
}

/// Argument block of the newer reboot command: flags, delay and two
/// parameter words.
pub open spec fn reboot2_args(flags: u32, delay: u32, p0: u32, p1: u32) -> Seq<u8> {
    le32(flags) + le32(delay) + le32(p0) + le32(p1)
}

fn words_to_args(a: [u8; 4], b: [u8; 4], c: [u8; 4], d: [u8; 4]) -> (r: [u8; 16])
    ensures
        r@ == a@ + b@ + c@ + d@,
{
    let r = [
        a[0], a[1], a[2], a[3], b[0], b[1], b[2], b[3],
        c[0], c[1], c[2], c[3], d[0], d[1], d[2], d[3],
    ];
    assert(r@ =~= a@ + b@ + c@ + d@);
    r
}

pub struct PicobootRangeCmd {
    pub addr: u32,
    pub size: u32,
    pub _unused: u64,
}

impl PicobootRangeCmd {
    pub fn to_bytes(&self) -> (r: [u8; 16])
        ensures
            r@ == le32(self.addr) + le32(self.size) + le64(self._unused),
    {
        let lo = (self._unused % 0x1_0000_0000) as u32;
        let hi = (self._unused / 0x1_0000_0000) as u32;
        let r = words_to_args(le32_bytes(self.addr), le32_bytes(self.size), le32_bytes(lo), le32_bytes(hi));
        assert(r@ =~= le32(self.addr) + le32(self.size) + le64(self._unused));
        r
    }

    pub fn ser(addr: u32, size: u32) -> (r: [u8; 16])
        ensures
            r@ == range_args(addr, size),
    {
        let c = PicobootRangeCmd { addr: addr, size: size, _unused: 0 };
        let r = c.to_bytes();
        assert(le64(0) =~= zeros(8));
        assert(r@ =~= range_args(addr, size));
        r
    }
}

pub struct PicobootRebootCmd {
    pub pc: u32,
    pub sp: u32,
    pub delay: u32,
    pub _unused: u32,
}

impl PicobootRebootCmd {
    pub fn to_bytes(&self) -> (r: [u8; 16])
        ensures
            r@ == le32(self.pc) + le32(self.sp) + le32(self.delay) + le32(self._unused),
    {
        let r = words_to_args(
            le32_bytes(self.pc),
            le32_bytes(self.sp),
            le32_bytes(self.delay),
            le32_bytes(self._unused),
        );
        r
    }

    pub fn ser(pc: u32, sp: u32, delay: u32) -> (r: [u8; 16])
        ensures
            r@ == reboot_args(pc, sp, delay),
    {
        let c = PicobootRebootCmd { pc: pc, sp: sp, delay: delay, _unused: 0 };
        let r = c.to_bytes();
        assert(le32(0) =~= zeros(4));
        r
    }
}

pub struct PicobootReboot2Cmd {
    pub flags: u32,
    pub delay: u32,
    pub p0: u32,
    pub p1: u32,
}

impl PicobootReboot2Cmd {
    pub fn to_bytes(&self) -> (r: [u8; 16])
        ensures
            r@ == reboot2_args(self.flags, self.delay, self.p0, self.p1),
    {
        words_to_args(
            le32_bytes(self.flags),
            le32_bytes(self.delay),
            le32_bytes(self.p0),
            le32_bytes(self.p1),
        )
    }

    pub fn ser(flags: u32, delay: u32, p0: u32, p1: u32) -> (r: [u8; 16])
        ensures
            r@ == reboot2_args(flags, delay, p0, p1),
    {
        let c = PicobootReboot2Cmd { flags, delay, p0, p1 };
        c.to_bytes()
    }
}

/// The 32-byte command header.
#[derive(Debug, Clone, Copy)]
pub struct PicobootCmd {
    pub magic: u32,
    pub token: u32,
    pub cmd_id: u8,
    pub cmd_size: u8,
    pub _unused: u16,
    pub transfer_len: u32,
    pub args: [u8; 16],
}

/// The bytes of a command header on the wire.
pub open spec fn header_bytes(c: PicobootCmd) -> Seq<u8> {
    le32(c.magic) + le32(c.token) + seq![c.cmd_id, c.cmd_size] + le16(c._unused) + le32(
        c.transfer_len,
    ) + c.args@
}

fn push_le32(v: &mut Vec<u8>, x: u32)
    ensures
        final(v)@ == old(v)@ + le32(x),
{
    let b = le32_bytes(x);
    v.push(b[0]);
    v.push(b[1]);
    v.push(b[2]);
    v.push(b[3]);
    assert(final(v)@ =~= old(v)@ + le32(x));
}

impl PicobootCmd {
    /// A header with the magic word, no token yet, and no reserved bits.
    pub fn new(cmd_id: PicobootCmdId, cmd_size: u8, transfer_len: u32, args: [u8; 16]) -> (r: Self)
        ensures
            r.magic == PICOBOOT_MAGIC,
            r.token == 0,
            r.cmd_id == cmd_id.spec_code(),
            r.cmd_size == cmd_size,
            r._unused == 0,
            r.transfer_len == transfer_len,
            r.args == args,
    {
        PicobootCmd {
            magic: PICOBOOT_MAGIC,
            token: 0,
            cmd_id: cmd_id.code(),
            cmd_size: cmd_size,
            _unused: 0,
            transfer_len: transfer_len,
            args: args,
        }
    }

    /// Whether the data phase of this command runs from the device to the host.
    pub open spec fn spec_reads(self) -> bool {
        self.cmd_id >= 0x80
    }

    pub fn reads(&self) -> (r: bool)
        ensures
            r == self.spec_reads(),
    {
        self.cmd_id >= 0x80
    }

    pub fn to_bytes(&self) -> (r: Vec<u8>)
        ensures
            r@ == header_bytes(*self),
            r@.len() == 32,
    {
        let mut v: Vec<u8> = Vec::new();
        push_le32(&mut v, self.magic);
        push_le32(&mut v, self.token);
        v.push(self.cmd_id);
        v.push(self.cmd_size);
        v.push((self._unused % 256) as u8);
        v.push((self._unused / 256) as u8);
        push_le32(&mut v, self.transfer_len);
        let mut i: usize = 0;
        while i < 16
            invariant
                i <= 16,
                v@ == le32(self.magic) + le32(self.token) + seq![self.cmd_id, self.cmd_size]
                    + le16(self._unused) + le32(self.transfer_len) + self.args@.subrange(0, i as int),
            decreases 16 - i,
        {
            v.push(self.args[i]);
            i = i + 1;
            assert(v@ =~= le32(self.magic) + le32(self.token) + seq![self.cmd_id, self.cmd_size]
                + le16(self._unused) + le32(self.transfer_len) + self.args@.subrange(0, i as int));
        }
        assert(self.args@.subrange(0, 16) =~= self.args@);
        v
    }
}

/// The 16-byte status reply.
#[derive(Debug, Clone, Copy)]
pub struct PicobootStatusCmd {
    pub token: u32,
    pub status_code: u32,
    pub cmd_id: u8,
    pub in_progress: u8,
    pub _unused: [u8; 6],
}

/// What a status reply holds, read from its bytes.
pub open spec fn status_decoded(b: Seq<u8>, r: PicobootStatusCmd) -> bool {
    &&& r.token == le32_value(b[0], b[1], b[2], b[3])
    &&& r.status_code == le32_value(b[4], b[5], b[6], b[7])
    &&& r.cmd_id == b[8]
    &&& r.in_progress == b[9]
    &&& r._unused@ == b.subrange(10, 16)
}

fn read_le32(b0: u8, b1: u8, b2: u8, b3: u8) -> (r: u32)
    ensures
        r == le32_value(b0, b1, b2, b3),
{
    b0 as u32 + (b1 as u32) * 256 + (b2 as u32) * 65536 + (b3 as u32) * 16777216
}

impl PicobootStatusCmd {
    pub fn decode(b: &[u8; 16]) -> (r: PicobootStatusCmd)
        ensures
            status_decoded(b@, r),
    {
        let r = PicobootStatusCmd {
            token: read_le32(b[0], b[1], b[2], b[3]),
            status_code: read_le32(b[4], b[5], b[6], b[7]),
            cmd_id: b[8],
            in_progress: b[9],
            _unused: [b[10], b[11], b[12], b[13], b[14], b[15]],
        };
        assert(r._unused@ =~= b@.subrange(10, 16));
        r
    }
}

} // verus!

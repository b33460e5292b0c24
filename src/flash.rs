//! The flashing pass: the image cut into zero-padded blocks, each block
//! erased (once per sector), written, read back and compared, then the
//! reboot. The pass is a state machine that names the next operation.
use vstd::prelude::*;
use crate::wire::zeros;
use crate::target::{PICO_FLASH_START, PICO_PAGE_SIZE, PICO_REBOOT_DELAY_MS, PICO_SECTOR_SIZE, RebootRequest, TargetID};

verus! {

/// The number of blocks of `b` bytes that cover `len` bytes.
pub open spec fn block_count(len: nat, b: nat) -> nat
    recommends
        b > 0,
{
    if len % b == 0 {
        len / b
    } else {
        len / b + 1
    }
}

/// Block `i` of the image: its bytes from `i * b`, at most `b` of them,
/// zero-padded to `b`.
pub open spec fn block_of(image: Seq<u8>, b: nat, i: int) -> Seq<u8> {
    let start = i * b;
    let end = if start + b <= image.len() {
        start + b
    } else {
        image.len() as int
    };
    image.subrange(start, end) + zeros((b - (end - start)) as nat)
}

/// The blocks of the image in order.
pub open spec fn blocks_of(image: Seq<u8>, b: nat) -> Seq<Seq<u8>> {
    Seq::new(block_count(image.len(), b), |i: int| block_of(image, b, i))
}

/// The blocks laid end to end.
pub open spec fn concat(bs: Seq<Seq<u8>>) -> Seq<u8>
    decreases bs.len(),
{
    if bs.len() == 0 {
        Seq::empty()
    } else {
        concat(bs.drop_last()) + bs.last()
    }
}

proof fn lemma_block_start(len: int, b: int, k: int)
    requires
        b > 0,
        len >= 0,
        0 <= k < block_count(len as nat, b as nat),
    ensures
        k * b < len,
        0 <= k * b,
{
    assert(len == (len / b) * b + len % b) by (nonlinear_arith)
        requires
            b > 0,
    ;
    assert(0 <= len % b < b) by (nonlinear_arith)
        requires
            b > 0,
    ;
    if len % b == 0 {
        assert(k * b < len) by (nonlinear_arith)
            requires
                k < len / b,
                len == (len / b) * b,
                b > 0,
        ;
    } else {
        assert(k * b < len) by (nonlinear_arith)
            requires
                k <= len / b,
                len == (len / b) * b + len % b,
                len % b > 0,
                b > 0,
        ;
    }
    assert(0 <= k * b) by (nonlinear_arith)
        requires
            k >= 0,
            b > 0,
    ;
}

proof fn lemma_block_count_covers(len: int, b: int)
    requires
        b > 0,
        len >= 0,
    ensures
        block_count(len as nat, b as nat) * b >= len,
        block_count(len as nat, b as nat) * b < len + b,
{
    let n = block_count(len as nat, b as nat) as int;
    assert(len == (len / b) * b + len % b) by (nonlinear_arith)
        requires
            b > 0,
    ;
    assert(0 <= len % b < b) by (nonlinear_arith)
        requires
            b > 0,
    ;
    assert(n * b >= len && n * b < len + b) by (nonlinear_arith)
        requires
            len == (len / b) * b + len % b,
            0 <= len % b < b,
            len % b == 0 ==> n == len / b,
            len % b != 0 ==> n == len / b + 1,
    ;
}

proof fn lemma_concat_prefix(image: Seq<u8>, b: nat, n: int)
    requires
        b > 0,
        0 <= n <= block_count(image.len(), b),
    ensures
        concat(blocks_of(image, b).take(n)).len() == n * b,
        forall|x: int|
            0 <= x < n * b && x < image.len() ==> #[trigger] concat(blocks_of(image, b).take(n))[x]
                == image[x],
    decreases n,
{
    let bs = blocks_of(image, b);
    if n == 0 {
        assert(bs.take(0) =~= Seq::<Seq<u8>>::empty());
        assert(n * b == 0);
    } else {
        lemma_concat_prefix(image, b, n - 1);
        assert(bs.take(n).drop_last() =~= bs.take(n - 1));
        let prev = concat(bs.take(n - 1));
        let blk = block_of(image, b, n - 1);
        assert(bs.take(n).last() == blk);
        assert(concat(bs.take(n)) == prev + blk);
        let start = (n - 1) * b;
        assert(n * b == start + b) by (nonlinear_arith)
            requires
                start == (n - 1) * b,
        ;
        lemma_block_start(image.len() as int, b as int, n - 1);
        assert(blk.len() == b);
        assert(concat(bs.take(n)).len() == n * b);
        assert forall|x: int| 0 <= x < n * b && x < image.len() implies #[trigger] concat(
            bs.take(n),
        )[x] == image[x] by {
            if x >= start {
                assert(concat(bs.take(n))[x] == blk[x - start]);
            } else {
                assert(concat(bs.take(n))[x] == prev[x]);
            }
        }
    }
}

/// Cutting an image into blocks of `b` bytes gives `ceil(len / b)` blocks of
/// exactly `b` bytes each, and laying them end to end and cutting the result
/// back to the image's length gives the image again.
pub proof fn lemma_blocks_reassemble(image: Seq<u8>, b: nat)
    requires
        b > 0,
    ensures
        blocks_of(image, b).len() == block_count(image.len(), b),
        forall|i: int| 0 <= i < blocks_of(image, b).len() ==> (#[trigger] blocks_of(image, b)[i]).len() == b,
        concat(blocks_of(image, b)).len() >= image.len(),
        concat(blocks_of(image, b)).subrange(0, image.len() as int) == image,
{
    let bs = blocks_of(image, b);
    let n = block_count(image.len(), b) as int;
    assert forall|i: int| 0 <= i < bs.len() implies (#[trigger] bs[i]).len() == b by {
        lemma_block_start(image.len() as int, b as int, i);
    }
    lemma_concat_prefix(image, b, n);
    assert(bs.take(n) =~= bs);
    lemma_block_count_covers(image.len() as int, b as int);
    assert(concat(bs).subrange(0, image.len() as int) =~= image);
}


fn padded_block(image: &Vec<u8>, start: usize, size: usize, b: usize) -> (r: Vec<u8>)
    requires
        start + size <= image@.len(),
        size <= b,
    ensures
        r@ == image@.subrange(start as int, start + size) + zeros((b - size) as nat),
{
    let len = image.len();
    let mut r: Vec<u8> = Vec::new();
    let mut k: usize = 0;
    while k < size
        invariant
            len == image@.len(),
            k <= size,
            start + size <= image@.len(),
            r@ == image@.subrange(start as int, start + k),
        decreases size - k,
    {
        r.push(image[start + k]);
        k = k + 1;
        assert(r@ =~= image@.subrange(start as int, start + k));
    }
    while k < b
        invariant
            size <= k <= b,
            start + size <= image@.len(),
            r@ == image@.subrange(start as int, start + size) + zeros((k - size) as nat),
        decreases b - k,
    {
        r.push(0u8);
        k = k + 1;
        assert(r@ =~= image@.subrange(start as int, start + size) + zeros((k - size) as nat));
    }
    r
}

/// Cuts the image into blocks of `block_size` bytes, the last one
/// zero-padded.
pub fn pages_of(image: &Vec<u8>, block_size: usize) -> (r: Vec<Vec<u8>>)
    requires
        block_size > 0,
    ensures
        r@.len() == block_count(image@.len(), block_size as nat),
        forall|i: int| 0 <= i < r@.len() ==> (#[trigger] r@[i])@ == blocks_of(image@, block_size as nat)[i],
{
    let len = image.len();
    let n = if len % block_size == 0 {
        len / block_size
    } else {
        assert(len / block_size < usize::MAX) by (nonlinear_arith)
            requires
                len % block_size != 0,
                block_size > 0,
                len <= usize::MAX,
        ;
        len / block_size + 1
    };
    let mut pages: Vec<Vec<u8>> = Vec::new();
    let mut k: usize = 0;
    while k < n
        invariant
            block_size > 0,
            len == image@.len(),
            n == block_count(len as nat, block_size as nat),
            k <= n,
            pages@.len() == k,
            forall|i: int| 0 <= i < k ==> (#[trigger] pages@[i])@ == block_of(image@, block_size as nat, i),
        decreases n - k,
    {
        proof {
            lemma_block_start(len as int, block_size as int, k as int);
        }
        let start = k * block_size;
        let rest = len - start;
        let size = if rest < block_size {
            rest
        } else {
            block_size
        };
        let page = padded_block(image, start, size, block_size);
        assert(page@ == block_of(image@, block_size as nat, k as int));
        pages.push(page);
        k = k + 1;
    }
    pages
}


/// Bytes of address space from the start of flash to the top of the 32-bit
/// address range.
pub const FLASH_SPAN: u64 = 0xF000_0000;

/// The block size of a pass: one page or one sector per write.
#[derive(Debug, Clone, Copy, PartialEq, Eq, Structural)]
pub enum BlockMode {
    Page,
    Sector,
}

impl BlockMode {
    pub open spec fn spec_size(self) -> nat {
        match self {
            BlockMode::Page => PICO_PAGE_SIZE as nat,
            BlockMode::Sector => PICO_SECTOR_SIZE as nat,
        }
    }

    pub fn size(&self) -> (r: usize)
        ensures
            r == self.spec_size(),
    {
        match self {
            BlockMode::Page => PICO_PAGE_SIZE,
            BlockMode::Sector => PICO_SECTOR_SIZE,
        }
    }
}

/// The next operation of a pass.
#[derive(Debug)]
pub enum FlashOp {
    Erase { addr: u32, size: u32 },
    Write { addr: u32, data: Vec<u8> },
    Read { addr: u32, size: u32 },
    Reboot(RebootRequest),
    Finished,
}

pub enum FlashOpView {
    Erase { addr: u32, size: u32 },
    Write { addr: u32, data: Seq<u8> },
    Read { addr: u32, size: u32 },
    Reboot(RebootRequest),
    Finished,
}

impl View for FlashOp {
    type V = FlashOpView;

    open spec fn view(&self) -> FlashOpView {
        match self {
            FlashOp::Erase { addr, size } => FlashOpView::Erase { addr: *addr, size: *size },
            FlashOp::Write { addr, data } => FlashOpView::Write { addr: *addr, data: data@ },
            FlashOp::Read { addr, size } => FlashOpView::Read { addr: *addr, size: *size },
            FlashOp::Reboot(q) => FlashOpView::Reboot(*q),
            FlashOp::Finished => FlashOpView::Finished,
        }
    }
}

#[derive(Debug, Clone, Copy, PartialEq, Eq, Structural)]
pub enum FlashError {
    /// The image does not fit between the start of flash and the top of the
    /// address space.
    ImageTooLarge,
    /// The bytes read back from `addr` differ from the block written there.
    VerifyFailed { addr: u32 },
    /// A read-back came where none was asked for, or none came where one was.
    UnexpectedEvent,
}

#[derive(Debug, Clone, Copy, PartialEq, Eq, Structural)]
pub enum PassPhase {
    /// About to erase the current block's sector or write the block.
    NextBlock,
    /// The current block was written; its read-back is next.
    Written,
    /// The current block is being read back.
    Reading,
    /// The reboot was issued.
    Done,
    /// A block failed to verify, or the pass was driven out of order.
    Failed,
}

/// Absolute address of block `i`.
pub open spec fn block_addr(i: int, b: nat) -> int {
    PICO_FLASH_START + i * b
}

/// Base address of the sector holding `addr`.
pub open spec fn sector_of(addr: int) -> int {
    addr - addr % (PICO_SECTOR_SIZE as int)
}

/// The part of a pass that changes from step to step.
pub struct PassState {
    pub index: int,
    pub phase: PassPhase,
    pub erased: Seq<u32>,
}

/// One step of the pass over `blocks` of `b` bytes for `target`. The event
/// is the bytes read back, where the last operation was a read.
pub open spec fn pass_step(
    blocks: Seq<Seq<u8>>,
    b: nat,
    target: TargetID,
    s: PassState,
    read_back: Option<Seq<u8>>,
) -> (PassState, Result<FlashOpView, FlashError>) {
    let failed = PassState { phase: PassPhase::Failed, ..s };
    match s.phase {
        PassPhase::NextBlock => if read_back is Some {
            (failed, Err(FlashError::UnexpectedEvent))
        } else {
            at_block(blocks, b, target, s)
        },
        PassPhase::Written => if read_back is Some {
            (failed, Err(FlashError::UnexpectedEvent))
        } else {
            (
                PassState { phase: PassPhase::Reading, ..s },
                Ok(FlashOpView::Read { addr: block_addr(s.index, b) as u32, size: b as u32 }),
            )
        },
        PassPhase::Reading => match read_back {
            None => (failed, Err(FlashError::UnexpectedEvent)),
            Some(v) => if v == blocks[s.index] {
                at_block(blocks, b, target, PassState { index: s.index + 1, phase: PassPhase::NextBlock, ..s })
            } else {
                (failed, Err(FlashError::VerifyFailed { addr: block_addr(s.index, b) as u32 }))
            },
        },
        PassPhase::Done => (s, Ok(FlashOpView::Finished)),
        PassPhase::Failed => (s, Err(FlashError::UnexpectedEvent)),
    }
}

/// At the start of block `s.index`: the reboot after the last block, else an
/// erase of the block's sector unless this pass erased it already, else the
/// write of the block.
pub open spec fn at_block(blocks: Seq<Seq<u8>>, b: nat, target: TargetID, s: PassState) -> (
    PassState,
    Result<FlashOpView, FlashError>,
) {
    if s.index >= blocks.len() {
        (
            PassState { phase: PassPhase::Done, ..s },
            Ok(FlashOpView::Reboot(target.spec_reboot_request(PICO_REBOOT_DELAY_MS))),
        )
    } else {
        let addr = block_addr(s.index, b);
        let sector = sector_of(addr) as u32;
        if !s.erased.contains(sector) {
            (
                PassState { erased: s.erased.push(sector), phase: PassPhase::NextBlock, ..s },
                Ok(FlashOpView::Erase { addr: sector, size: PICO_SECTOR_SIZE as u32 }),
            )
        } else {
            (
                PassState { phase: PassPhase::Written, ..s },
                Ok(FlashOpView::Write { addr: addr as u32, data: blocks[s.index] }),
            )
        }
    }
}

/// A flashing pass over one image.
pub struct FlashPass {
    pub blocks: Vec<Vec<u8>>,
    pub block_size: usize,
    pub target: TargetID,
    pub erased: Vec<u32>,
    pub index: usize,
    pub phase: PassPhase,
}

impl FlashPass {
    pub open spec fn blocks_view(&self) -> Seq<Seq<u8>> {
        Seq::new(self.blocks@.len(), |i: int| self.blocks@[i]@)
    }

    pub open spec fn state(&self) -> PassState {
        PassState { index: self.index as int, phase: self.phase, erased: self.erased@ }
    }

    pub open spec fn wf(&self) -> bool {
        &&& self.block_size == PICO_PAGE_SIZE || self.block_size == PICO_SECTOR_SIZE
        &&& self.blocks@.len() * self.block_size <= FLASH_SPAN
        &&& forall|i: int| 0 <= i < self.blocks@.len() ==> (#[trigger] self.blocks@[i])@.len() == self.block_size
        &&& self.index <= self.blocks@.len()
        &&& (self.phase == PassPhase::Written || self.phase == PassPhase::Reading) ==> self.index < self.blocks@.len()
        &&& self.erased@.no_duplicates()
    }

    /// A pass over `image` cut into blocks of the mode's size, starting at
    /// the start of flash; refused where the blocks would run past the top of
    /// the address space.
    pub fn new(image: &Vec<u8>, target: TargetID, mode: BlockMode) -> (r: Result<FlashPass, FlashError>)
        ensures
            r is Err <==> block_count(image@.len(), mode.spec_size()) * mode.spec_size() > FLASH_SPAN,
            r is Err ==> r == Err::<FlashPass, _>(FlashError::ImageTooLarge),
            r matches Ok(p) ==> {
                &&& p.wf()
                &&& p.blocks_view() == blocks_of(image@, mode.spec_size())
                &&& p.block_size == mode.spec_size()
                &&& p.target == target
                &&& p.erased@.len() == 0
                &&& p.index == 0
                &&& p.phase == PassPhase::NextBlock
            },
    {
        let bs = mode.size();
        proof {
            lemma_block_count_covers(image@.len() as int, bs as int);
        }
        if image.len() as u64 > FLASH_SPAN {
            return Err(FlashError::ImageTooLarge);
        }
        let blocks = pages_of(image, bs);
        proof {
            lemma_blocks_reassemble(image@, bs as nat);
        }
        if blocks.len() as u64 * bs as u64 > FLASH_SPAN {
            return Err(FlashError::ImageTooLarge);
        }
        let p = FlashPass {
            blocks: blocks,
            block_size: bs,
            target: target,
            erased: Vec::new(),
            index: 0,
            phase: PassPhase::NextBlock,
        };
        assert(p.blocks_view() =~= blocks_of(image@, bs as nat));
        assert(p.erased@.no_duplicates());
        Ok(p)
    }
}


impl FlashPass {
    fn addr_of(&self, i: usize) -> (r: u32)
        requires
            self.wf(),
            i < self.blocks@.len(),
        ensures
            r == block_addr(i as int, self.block_size as nat),
    {
        let bs = self.block_size;
        let n = self.blocks.len();
        assert(i * bs < n * bs) by (nonlinear_arith)
            requires
                i < n,
                bs > 0,
        ;
        let off = i * bs;
        assert(off < 0xF000_0000);
        PICO_FLASH_START + off as u32
    }

    fn sector_erased(&self, sector: u32) -> (r: bool)
        ensures
            r == self.erased@.contains(sector),
    {
        let mut k: usize = 0;
        while k < self.erased.len()
            invariant
                k <= self.erased@.len(),
                forall|j: int| 0 <= j < k ==> self.erased@[j] != sector,
            decreases self.erased@.len() - k,
        {
            if self.erased[k] == sector {
                return true;
            }
            k = k + 1;
        }
        false
    }

    fn at_block(&mut self) -> (r: FlashOp)
        requires
            old(self).wf(),
            old(self).phase == PassPhase::NextBlock,
        ensures
            final(self).wf(),
            final(self).blocks == old(self).blocks,
            final(self).block_size == old(self).block_size,
            final(self).target == old(self).target,
            (final(self).state(), Ok::<FlashOpView, FlashError>(r@)) == at_block(
                old(self).blocks_view(),
                old(self).block_size as nat,
                old(self).target,
                old(self).state(),
            ),
    {
        if self.index >= self.blocks.len() {
            self.phase = PassPhase::Done;
            return FlashOp::Reboot(self.target.reboot_request(PICO_REBOOT_DELAY_MS));
        }
        let addr = self.addr_of(self.index);
        let sector = addr - addr % (PICO_SECTOR_SIZE as u32);
        if !self.sector_erased(sector) {
            self.erased.push(sector);
            assert(self.erased@.no_duplicates()) by {
                assert forall|a: int, b: int|
                    0 <= a < b < self.erased@.len() implies self.erased@[a] != self.erased@[b] by {
                    if b == self.erased@.len() - 1 {
                        assert(old(self).erased@.contains(old(self).erased@[a]));
                    }
                }
            }
            FlashOp::Erase { addr: sector, size: PICO_SECTOR_SIZE as u32 }
        } else {
            self.phase = PassPhase::Written;
            FlashOp::Write { addr: addr, data: self.blocks[self.index].clone() }
        }
    }

    /// Takes the bytes read back, where the last operation was a read, and
    /// names the next operation, as `pass_step` says.
    pub fn advance(&mut self, read_back: Option<Vec<u8>>) -> (r: Result<FlashOp, FlashError>)
        requires
            old(self).wf(),
        ensures
            final(self).wf(),
            final(self).blocks == old(self).blocks,
            final(self).block_size == old(self).block_size,
            final(self).target == old(self).target,
            final(self).state() == pass_step(
                old(self).blocks_view(),
                old(self).block_size as nat,
                old(self).target,
                old(self).state(),
                match read_back {
                    Some(v) => Some(v@),
                    None => None,
                },
            ).0,
            (match r {
                Ok(op) => Ok(op@),
                Err(e) => Err(e),
            }) == pass_step(
                old(self).blocks_view(),
                old(self).block_size as nat,
                old(self).target,
                old(self).state(),
                match read_back {
                    Some(v) => Some(v@),
                    None => None,
                },
            ).1,
    {
        match self.phase {
            PassPhase::NextBlock => {
                if read_back.is_some() {
                    self.phase = PassPhase::Failed;
                    Err(FlashError::UnexpectedEvent)
                } else {
                    Ok(self.at_block())
                }
            },
            PassPhase::Written => {
                if read_back.is_some() {
                    self.phase = PassPhase::Failed;
                    Err(FlashError::UnexpectedEvent)
                } else {
                    self.phase = PassPhase::Reading;
                    let addr = self.addr_of(self.index);
                    Ok(FlashOp::Read { addr: addr, size: self.block_size as u32 })
                }
            },
            PassPhase::Reading => match read_back {
                None => {
                    self.phase = PassPhase::Failed;
                    Err(FlashError::UnexpectedEvent)
                },
                Some(v) => {
                    let addr = self.addr_of(self.index);
                    if bytes_equal(&v, &self.blocks[self.index]) {
                        assert(self.index < self.blocks.len());
                        self.index = self.index + 1;
                        self.phase = PassPhase::NextBlock;
                        Ok(self.at_block())
                    } else {
                        self.phase = PassPhase::Failed;
                        Err(FlashError::VerifyFailed { addr: addr })
                    }
                },
            },
            PassPhase::Done => Ok(FlashOp::Finished),
            PassPhase::Failed => Err(FlashError::UnexpectedEvent),
        }
    }
}

/// Byte-for-byte comparison of a read-back with the block written.
pub fn bytes_equal(a: &Vec<u8>, b: &Vec<u8>) -> (r: bool)
    ensures
        r == (a@ == b@),
{
    if a.len() != b.len() {
        return false;
    }
    let mut k: usize = 0;
    while k < a.len()
        invariant
            a@.len() == b@.len(),
            k <= a@.len(),
            forall|j: int| 0 <= j < k ==> a@[j] == b@[j],
        decreases a@.len() - k,
    {
        if a[k] != b[k] {
            return false;
        }
        k = k + 1;
    }
    assert(a@ =~= b@);
    true
}

/// Within one pass each sector is erased at most once: an erase names a
/// sector that the pass had not erased before and records it, every other
/// step leaves the record as it was, and the record never holds a sector
/// twice.
pub proof fn lemma_erase_once(p: FlashPass, read_back: Option<Seq<u8>>)
    requires
        p.wf(),
    ensures
        p.erased@.no_duplicates(),
        ({
            let (s, r) = pass_step(p.blocks_view(), p.block_size as nat, p.target, p.state(), read_back);
            &&& s.erased.no_duplicates()
            &&& r matches Ok(FlashOpView::Erase { addr, size }) ==> !p.erased@.contains(addr)
                && s.erased == p.erased@.push(addr) && addr as int % PICO_SECTOR_SIZE as int == 0
            &&& !(r matches Ok(FlashOpView::Erase { .. })) ==> s.erased == p.erased@
        }),
{
    let (s, r) = pass_step(p.blocks_view(), p.block_size as nat, p.target, p.state(), read_back);
    if r matches Ok(FlashOpView::Erase { addr, size }) {
        let i = if p.phase == PassPhase::Reading { p.index + 1 } else { p.index as int };
        let a = block_addr(i, p.block_size as nat);
        assert(0 <= i * p.block_size) by (nonlinear_arith)
            requires
                i >= 0,
        ;
        assert(i * p.block_size < p.blocks@.len() * p.block_size) by (nonlinear_arith)
            requires
                i < p.blocks@.len(),
                p.block_size > 0,
        ;
        assert((a - a % 4096) % 4096 == 0) by (nonlinear_arith)
            requires
                a >= 0,
        ;
        assert(s.erased.no_duplicates()) by {
            assert forall|x: int, y: int| 0 <= x < y < s.erased.len() implies s.erased[x] != s.erased[y] by {
                if y == s.erased.len() - 1 {
                    assert(p.erased@.contains(p.erased@[x]));
                }
            }
        }
    }
}
} // verus!

//! Flash memory controller and programmer.
//!
//! The programmer drives the flash controller's unlock/erase/program state
//! machine. It is verified against a model of the controller registers and
//! of the flash array itself, halfword by halfword: erasing sets a whole
//! page to the erased value, programming stores a halfword only where the
//! target still holds the erased value, and sets the programming-error flag
//! where it does not.

use vstd::prelude::*;

verus! {

/// First address of the flash memory area.
pub const FLASH_START: u32 = 0x0800_0000;

/// Last address of the flash memory area.
pub const FLASH_END: u32 = 0x0801_FFFF;

/// First key of the unlock sequence.
pub const KEY1: u32 = 0x45670123;

/// Second key of the unlock sequence.
pub const KEY2: u32 = 0xCDEF89AB;

/// Bytes per kibibyte; also the size of one erasable page.
pub const SZ_1K: u32 = 1024;

/// Halfwords the flash array holds at the largest size.
pub const FLASH_HALFWORDS: usize = 0x10000;

/// The value an erased halfword reads as.
pub const ERASED: u16 = 0xFFFF;

/// Flash operation errors.
#[derive(Debug, Clone, Copy, PartialEq, Eq, Structural)]
#[non_exhaustive]
pub enum Error {
    /// Address is out of the flash memory area.
    AddressLargerThanFlash,
    /// Address is not aligned to a multiple of two.
    AddressMisaligned,
    /// Length is not a multiple of two.
    LengthNotMultiple2,
    /// End address is out of the flash memory area.
    LengthTooLong,
    /// Flash erasing failed.
    EraseError,
    /// Flash programming failed: the target was not erased.
    ProgrammingError,
    /// Flash writing failed: the page is protected.
    WriteError,
    /// Flash data verification failed.
    VerifyError,
    /// Flash unlocking failed.
    UnlockError,
    /// Flash locking failed.
    LockError,
}

/// Flash size specifier.
#[derive(Debug, Clone, Copy, PartialEq, Eq, Structural)]
pub enum FlashSize {
    Sz16K,
    Sz32K,
    Sz64K,
    Sz128K,
}

impl FlashSize {
    /// The size in bytes, in spec form.
    pub open spec fn spec_bytes(self) -> u32 {
        match self {
            FlashSize::Sz16K => 16384,
            FlashSize::Sz32K => 32768,
            FlashSize::Sz64K => 65536,
            FlashSize::Sz128K => 131072,
        }
    }

    /// The size in bytes.
    pub fn bytes(self) -> (r: u32)
        ensures
            r == self.spec_bytes(),
    {
        match self {
            FlashSize::Sz16K => 16 * SZ_1K,
            FlashSize::Sz32K => 32 * SZ_1K,
            FlashSize::Sz64K => 64 * SZ_1K,
            FlashSize::Sz128K => 128 * SZ_1K,
        }
    }
}

/// Extension trait that constrains the flash memory controller into
/// [`Parts`].
pub trait FlashExt: Sized {
    /// Constrains the controller to play nicely with the other
    /// abstractions.
    fn constrain(self) -> Parts;
}

/// Model of the flash memory controller: its control and status registers,
/// the unlock key sequencing, and the flash array itself.
pub struct Parts {
    /// Lock bit (CTL.LK).
    pub lk: bool,
    /// Page erase mode bit (CTL.PER).
    pub per: bool,
    /// Programming mode bit (CTL.PG).
    pub pg: bool,
    /// Operation start bit (CTL.START).
    pub start: bool,
    /// Busy flag (STAT.BUSY). The model completes operations synchronously,
    /// so a well-formed controller is never busy.
    pub busy: bool,
    /// Write protection error flag (STAT.WPERR).
    pub wperr: bool,
    /// Programming error flag (STAT.PGERR).
    pub pgerr: bool,
    /// Erase address register (ADDR).
    pub addr: u32,
    /// Progress of the unlock key sequence: zero before any key, one after
    /// the first.
    pub key_stage: u8,
    /// The flash array, one halfword per entry.
    pub mem: Vec<u16>,
}

impl View for Parts {
    type V = Seq<u16>;

    /// The flash array, one halfword per entry.
    closed spec fn view(&self) -> Seq<u16> {
        self.mem@
    }
}

impl Parts {
    /// Well-formedness: the array spans the largest flash size and no
    /// operation is in flight.
    pub open spec fn wf(self) -> bool {
        &&& self@.len() == FLASH_HALFWORDS
        &&& self.busy == false
    }

    /// A quiescent controller: well-formed, with no stale error flags and
    /// no unlock sequence in progress.
    pub open spec fn ready(self) -> bool {
        &&& self.wf()
        &&& self.wperr == false
        &&& self.pgerr == false
        &&& self.per == false
        &&& self.pg == false
        &&& self.key_stage == 0
    }

    /// Everything but the lock bit is unchanged between `pre` and `post`.
    pub open spec fn same_but_lk(pre: Parts, post: Parts) -> bool {
        &&& post@ == pre@
        &&& post.per == pre.per
        &&& post.pg == pre.pg
        &&& post.start == pre.start
        &&& post.busy == pre.busy
        &&& post.wperr == pre.wperr
        &&& post.pgerr == pre.pgerr
        &&& post.addr == pre.addr
        &&& post.key_stage == pre.key_stage
    }

    /// Builds a locked controller over a fully erased array.
    pub fn new() -> (r: Parts)
        ensures
            r.wf(),
            r.ready(),
            r.lk == true,
            r.per == false,
            r.pg == false,
            r.start == false,
            r.wperr == false,
            r.pgerr == false,
            r.key_stage == 0,
            forall|i: int| 0 <= i < r@.len() ==> r@[i] == ERASED,
    {
        let mut mem: Vec<u16> = Vec::new();
        let mut i: usize = 0;
        while i < FLASH_HALFWORDS
            invariant
                i <= FLASH_HALFWORDS,
                mem@.len() == i,
                forall|j: int| 0 <= j < i ==> mem@[j] == ERASED,
            decreases FLASH_HALFWORDS - i,
        {
            mem.push(ERASED);
            i = i + 1;
        }
        Parts {
            lk: true,
            per: false,
            pg: false,
            start: false,
            busy: false,
            wperr: false,
            pgerr: false,
            addr: 0,
            key_stage: 0,
            mem,
        }
    }

    /// Writes one key into the key register. The documented sequence — the
    /// first key followed by the second — clears the lock bit; anything
    /// else resets the sequence. Do not rearrange the two writes.
    pub fn key_write(&mut self, key: u32)
        ensures
            final(self)@ == old(self)@,
            final(self).busy == old(self).busy,
            final(self).per == old(self).per,
            final(self).pg == old(self).pg,
            final(self).start == old(self).start,
            final(self).wperr == old(self).wperr,
            final(self).pgerr == old(self).pgerr,
            final(self).addr == old(self).addr,
            (old(self).key_stage == 0 && key == KEY1) ==> (final(self).key_stage == 1 && final(self).lk == old(self).lk),
            (old(self).key_stage == 1 && key == KEY2) ==> (final(self).key_stage == 0 && final(self).lk == false),
            !((old(self).key_stage == 0 && key == KEY1) || (old(self).key_stage == 1 && key
                == KEY2)) ==> (final(self).key_stage == 0 && final(self).lk == old(self).lk),
    {
        if self.key_stage == 0 && key == KEY1 {
            self.key_stage = 1;
        } else if self.key_stage == 1 && key == KEY2 {
            self.lk = false;
            self.key_stage = 0;
        } else {
            self.key_stage = 0;
        }
    }

    /// Erases the page containing byte offset `offset`: every halfword of
    /// the page reads as erased afterwards. This is the model's response to
    /// the start command of a page erase.
    fn erase_page(&mut self, offset: u32)
        requires
            old(self).wf(),
            offset <= 0x1_FFFF,
        ensures
            final(self).wf(),
            final(self)@.len() == old(self)@.len(),
            forall|h: int|
                0 <= h < final(self)@.len() ==> final(self)@[h] == if spec_page_first_halfword(
                    offset as int,
                ) <= h < spec_page_first_halfword(offset as int) + 512 {
                    ERASED
                } else {
                    old(self)@[h]
                },
            final(self).lk == old(self).lk,
            final(self).per == old(self).per,
            final(self).pg == old(self).pg,
            final(self).start == old(self).start,
            final(self).wperr == old(self).wperr,
            final(self).pgerr == old(self).pgerr,
            final(self).addr == old(self).addr,
            final(self).key_stage == old(self).key_stage,
    {
        let page_start: u32 = (offset / SZ_1K) * SZ_1K;
        let first: usize = (page_start / 2) as usize;
        let mut h: usize = first;
        while h < first + 512
            invariant
                first == spec_page_first_halfword(offset as int),
                first + 512 <= self@.len(),
                first <= h <= first + 512,
                self@.len() == old(self)@.len(),
                forall|k: int|
                    0 <= k < self@.len() ==> self@[k] == if first <= k < h {
                        ERASED
                    } else {
                        old(self)@[k]
                    },
                self.lk == old(self).lk,
                self.per == old(self).per,
                self.pg == old(self).pg,
                self.start == old(self).start,
                self.busy == old(self).busy,
                self.wperr == old(self).wperr,
                self.pgerr == old(self).pgerr,
                self.addr == old(self).addr,
                self.key_stage == old(self).key_stage,
            decreases first + 512 - h,
        {
            self.mem.set(h, ERASED);
            h = h + 1;
        }
    }

    /// Programs the halfword at halfword index `h`: stores the value where
    /// the target still reads as erased, and raises the programming error
    /// flag — leaving the target alone — where it does not. This is the
    /// model's response to a programming-mode store.
    fn program_halfword(&mut self, h: usize, hword: u16)
        requires
            old(self).wf(),
            h < old(self)@.len(),
        ensures
            final(self).wf(),
            final(self)@.len() == old(self)@.len(),
            old(self)@[h as int] == ERASED ==> (final(self)@ == old(self)@.update(
                h as int,
                hword,
            ) && final(self).pgerr == old(self).pgerr),
            old(self)@[h as int] != ERASED ==> (final(self)@ == old(self)@ && final(self).pgerr
                == true),
            final(self).lk == old(self).lk,
            final(self).per == old(self).per,
            final(self).pg == old(self).pg,
            final(self).start == old(self).start,
            final(self).wperr == old(self).wperr,
            final(self).addr == old(self).addr,
            final(self).key_stage == old(self).key_stage,
    {
        if self.mem[h] == ERASED {
            self.mem.set(h, hword);
        } else {
            self.pgerr = true;
        }
    }

    /// Hands out a programmer for a flash of the given size, with
    /// verification of erases and writes switched on.
    pub fn writer(self, flash_sz: FlashSize) -> (r: FlashWriter)
        ensures
            r.fmc == self,
            r.flash_sz == flash_sz,
            r.verify == true,
    {
        FlashWriter { fmc: self, flash_sz, verify: true }
    }
}

/// The first halfword index of the page containing byte offset `offset`.
pub open spec fn spec_page_first_halfword(offset: int) -> int {
    (offset / 1024) * 512
}

/// What address validation reports for a byte offset: out of the flash
/// area, misaligned, or fine.
pub open spec fn spec_valid_address(offset: int) -> Result<(), Error> {
    if offset > FLASH_END - FLASH_START {
        Err(Error::AddressLargerThanFlash)
    } else if offset % 2 != 0 {
        Err(Error::AddressMisaligned)
    } else {
        Ok(())
    }
}

/// What length validation reports for a byte range of a flash of
/// `size` bytes: past the end, an odd length, or fine.
pub open spec fn spec_valid_length(offset: int, length: int, size: int) -> Result<(), Error> {
    if offset + length > size {
        Err(Error::LengthTooLong)
    } else if length % 2 != 0 {
        Err(Error::LengthNotMultiple2)
    } else {
        Ok(())
    }
}

/// How many halfwords of `mem`, starting at `base`, a programming run
/// covers before it hits a target that is not erased: `n` when every one of
/// the `n` targets is erased.
pub open spec fn spec_programmable_count(mem: Seq<u16>, base: int, n: int) -> int
    decreases n,
{
    if n <= 0 {
        0
    } else if mem[base] != ERASED {
        0
    } else {
        1 + spec_programmable_count(mem, base + 1, n - 1)
    }
}

/// The shape of [`spec_programmable_count`]: it never exceeds `n`, every
/// halfword before it is erased, and the one at it — when any remains — is
/// not.
pub proof fn lemma_programmable_count(mem: Seq<u16>, base: int, n: int)
    ensures
        0 <= spec_programmable_count(mem, base, n) <= n || n < 0,
        forall|h: int|
            base <= h < base + spec_programmable_count(mem, base, n) ==> mem[h] == ERASED,
        spec_programmable_count(mem, base, n) < n ==> mem[base + spec_programmable_count(
            mem,
            base,
            n,
        )] != ERASED,
    decreases n,
{
    if n <= 0 {
    } else if mem[base] != ERASED {
    } else {
        lemma_programmable_count(mem, base + 1, n - 1);
        assert forall|h: int|
            base <= h < base + spec_programmable_count(mem, base, n) implies mem[h] == ERASED by {
            if h > base {
                assert(base + 1 <= h < base + 1 + spec_programmable_count(mem, base + 1, n - 1));
            }
        }
    }
}

/// Halfword `k` of a byte buffer, little-endian.
pub open spec fn spec_le_hword(bytes: Seq<u8>, k: int) -> u16 {
    (bytes[2 * k] + bytes[2 * k + 1] * 0x100) as u16
}

/// The flash programmer: drives the controller's unlock, erase and program
/// sequences over the modeled flash array.
pub struct FlashWriter {
    /// The controller and array the programmer drives.
    pub fmc: Parts,
    /// The size of the flash actually present.
    pub flash_sz: FlashSize,
    /// Whether erases and writes are read back and checked.
    pub verify: bool,
}

impl View for FlashWriter {
    type V = Seq<u16>;

    /// The flash array the programmer drives, one halfword per entry.
    open spec fn view(&self) -> Seq<u16> {
        self.fmc@
    }
}

impl FlashWriter {
    /// Waits for any ongoing operation; a well-formed controller has none.
    fn busy_wait(&mut self)
        requires
            old(self).fmc.busy == false,
        ensures
            *final(self) == *old(self),
    {
        while self.fmc.busy
            invariant
                self.fmc.busy == false,
            decreases 0int,
        {
        }
    }

    /// Reports whether the controller is locked.
    fn is_locked(&mut self) -> (r: bool)
        ensures
            *final(self) == *old(self),
            r == old(self).fmc.lk,
    {
        self.fmc.lk
    }

    /// Unlocks the controller by writing the two-key sequence.
    fn unlock(&mut self) -> (r: Result<(), Error>)
        requires
            old(self).fmc.busy == false,
            old(self).fmc.key_stage == 0,
        ensures
            r == Ok::<(), Error>(()),
            Parts::same_but_lk(old(self).fmc, final(self).fmc),
            final(self).fmc.lk == false,
            final(self).flash_sz == old(self).flash_sz,
            final(self).verify == old(self).verify,
    {
        if !self.is_locked() {
            return Ok(());
        }

        self.busy_wait();

        // Write the two keys, in this order and no other: a wrong sequence
        // locks the controller out until reset.
        self.fmc.key_write(KEY1);
        self.fmc.key_write(KEY2);

        if self.is_locked() {
            Err(Error::UnlockError)
        } else {
            Ok(())
        }
    }

    /// Locks the controller.
    fn lock(&mut self) -> (r: Result<(), Error>)
        requires
            old(self).fmc.busy == false,
        ensures
            r == Ok::<(), Error>(()),
            Parts::same_but_lk(old(self).fmc, final(self).fmc),
            final(self).fmc.lk == true,
            final(self).flash_sz == old(self).flash_sz,
            final(self).verify == old(self).verify,
    {
        if self.is_locked() {
            return Ok(());
        }

        self.busy_wait();

        self.fmc.lk = true;

        if self.is_locked() {
            Ok(())
        } else {
            Err(Error::LockError)
        }
    }

    /// Validates a byte offset: it must lie in the flash area and be
    /// halfword-aligned.
    fn valid_address(&self, offset: u32) -> (r: Result<(), Error>)
        ensures
            r == spec_valid_address(offset as int),
    {
        if offset > FLASH_END - FLASH_START {
            Err(Error::AddressLargerThanFlash)
        } else if offset % 2 != 0 {
            Err(Error::AddressMisaligned)
        } else {
            Ok(())
        }
    }

    /// Validates a byte range: it must end within the configured flash size
    /// and span a whole number of halfwords.
    fn valid_length(&self, offset: u32, length: usize) -> (r: Result<(), Error>)
        ensures
            r == spec_valid_length(offset as int, length as int, self.flash_sz.spec_bytes() as int),
    {
        let bytes = self.flash_sz.bytes();
        if offset > bytes || length > (bytes - offset) as usize {
            Err(Error::LengthTooLong)
        } else if length % 2 != 0 {
            Err(Error::LengthNotMultiple2)
        } else {
            Ok(())
        }
    }

    /// Erases the page containing `start_offset`: unlocks, runs the page
    /// erase with the target address, relocks, and — when verification is
    /// on — reads the page back. Afterwards every byte of that page reads
    /// as erased.
    pub fn page_erase(&mut self, start_offset: u32) -> (r: Result<(), Error>)
        requires
            old(self).fmc.ready(),
        ensures
            final(self).fmc.ready(),
            final(self).flash_sz == old(self).flash_sz,
            final(self).verify == old(self).verify,
            spec_valid_address(start_offset as int) matches Err(e) ==> (r == Err::<(), Error>(e)
                && *final(self) == *old(self)),
            spec_valid_address(start_offset as int) is Ok ==> (r == Ok::<(), Error>(()) && final(self).fmc.lk == true && final(self).fmc.per == false && final(self)@.len()
                == old(self)@.len() && forall|h: int|
                0 <= h < final(self)@.len() ==> final(self)@[h] == if spec_page_first_halfword(
                    start_offset as int,
                ) <= h < spec_page_first_halfword(start_offset as int) + 512 {
                    ERASED
                } else {
                    old(self)@[h]
                }),
    {
        match self.valid_address(start_offset) {
            Ok(_) => {},
            Err(e) => {
                return Err(e);
            },
        }

        match self.unlock() {
            Ok(_) => {},
            Err(e) => {
                return Err(e);
            },
        }

        // Select page erase mode and the page's address, then start the
        // operation; the model's flash responds at once.
        self.fmc.per = true;
        self.fmc.addr = FLASH_START + start_offset;
        self.fmc.start = true;
        self.fmc.erase_page(start_offset);

        self.busy_wait();

        let wperr = self.fmc.wperr;

        // Leave page erase mode and relock.
        self.fmc.per = false;

        match self.lock() {
            Ok(_) => {},
            Err(e) => {
                return Err(e);
            },
        }

        if wperr {
            self.fmc.wperr = false;
            Err(Error::EraseError)
        } else {
            if !self.verify || self.is_page_erased(start_offset) {
                Ok(())
            } else {
                Err(Error::VerifyError)
            }
        }
    }

    /// Reads the page containing `start_offset` back, reporting whether
    /// every halfword of it is erased.
    fn is_page_erased(&self, start_offset: u32) -> (r: bool)
        requires
            self.fmc.wf(),
            start_offset <= 0x1_FFFF,
        ensures
            r == forall|h: int|
                spec_page_first_halfword(start_offset as int) <= h < spec_page_first_halfword(
                    start_offset as int,
                ) + 512 ==> self@[h] == ERASED,
    {
        let page_start: u32 = (start_offset / SZ_1K) * SZ_1K;
        let first: usize = (page_start / 2) as usize;
        let mut h: usize = first;
        while h < first + 512
            invariant
                first == spec_page_first_halfword(start_offset as int),
                first + 512 <= self@.len(),
                first <= h <= first + 512,
                forall|k: int| first <= k < h ==> self@[k] == ERASED,
            decreases first + 512 - h,
        {
            if self.fmc.mem[h] != ERASED {
                return false;
            }
            h = h + 1;
        }
        true
    }

    /// Erases every page touched by the byte range from `start` to `end`,
    /// page by page. The whole pages containing the range read as erased
    /// afterwards.
    pub fn erase_range(&mut self, start: u32, end: u32) -> (r: Result<(), Error>)
        requires
            old(self).fmc.ready(),
        ensures
            final(self).fmc.ready(),
            final(self).flash_sz == old(self).flash_sz,
            final(self).verify == old(self).verify,
            ({
                let length = if end >= start {
                    end - start
                } else {
                    0
                };
                let v = spec_valid_length(
                    start as int,
                    length as int,
                    old(self).flash_sz.spec_bytes() as int,
                );
                &&& (v matches Err(e) ==> r == Err::<(), Error>(e) && *final(self) == *old(self))
                &&& ((v is Ok && start % 2 != 0 && start < end) ==> r == Err::<(), Error>(
                    Error::AddressMisaligned,
                ))
                &&& ((v is Ok && start % 2 == 0) ==> r == Ok::<(), Error>(()) && final(self)@.len() == old(self)@.len() && forall|h: int|
                    0 <= h < final(self)@.len() ==> final(self)@[h] == if spec_page_first_halfword(
                        start as int,
                    ) <= h < spec_page_first_halfword(start as int) + 512 * spec_page_count(
                        start as int,
                        end as int,
                    ) {
                        ERASED
                    } else {
                        old(self)@[h]
                    })
            }),
    {
        let length: usize = if end >= start {
            (end - start) as usize
        } else {
            0
        };
        match self.valid_length(start, length) {
            Ok(_) => {},
            Err(e) => {
                return Err(e);
            },
        }

        if start < end && start % 2 != 0 {
            // the first page erase would fail its address check
            return Err(Error::AddressMisaligned);
        }

        // Erase every page touched by the range, stepping one page at a
        // time.
        let ghost pre = *self;
        let mut offset: u32 = start;
        let mut pages: u32 = 0;
        while offset < end
            invariant
                self.fmc.ready(),
                self.flash_sz == pre.flash_sz,
                self.verify == pre.verify,
                start < end ==> start % 2 == 0,
                start < end ==> end <= pre.flash_sz.spec_bytes(),
                offset == start + pages * SZ_1K,
                pages <= spec_page_count(start as int, end as int),
                offset < end ==> pages < spec_page_count(start as int, end as int),
                self@.len() == pre@.len(),
                forall|h: int|
                    0 <= h < self@.len() ==> self@[h] == if spec_page_first_halfword(start as int)
                        <= h < spec_page_first_halfword(start as int) + 512 * pages {
                        ERASED
                    } else {
                        pre@[h]
                    },
            decreases spec_page_count(start as int, end as int) - pages,
        {
            match self.page_erase(offset) {
                Ok(_) => {},
                Err(e) => {
                    return Err(e);
                },
            }
            proof {
                assert(spec_page_first_halfword(offset as int) == spec_page_first_halfword(
                    start as int,
                ) + 512 * pages) by (nonlinear_arith)
                    requires
                        offset == start + pages * 1024,
                        start % 2 == 0,
                        offset >= 0,
                        start >= 0,
                        pages >= 0,
                ;
            }
            offset = offset + SZ_1K;
            pages = pages + 1;
        }

        Ok(())
    }

    /// Erases the flash pages from `start_offset` through `length` bytes.
    pub fn erase(&mut self, start_offset: u32, length: usize) -> (r: Result<(), Error>)
        requires
            old(self).fmc.ready(),
            start_offset + length <= u32::MAX,
        ensures
            final(self).fmc.ready(),
            final(self).flash_sz == old(self).flash_sz,
            final(self).verify == old(self).verify,
            ({
                let v = spec_valid_length(
                    start_offset as int,
                    length as int,
                    old(self).flash_sz.spec_bytes() as int,
                );
                &&& (v matches Err(e) ==> r == Err::<(), Error>(e) && *final(self) == *old(self))
                &&& ((v is Ok && start_offset % 2 == 0) ==> r == Ok::<(), Error>(()) && final(self)@.len() == old(self)@.len() && forall|h: int|
                    0 <= h < final(self)@.len() ==> final(self)@[h] == if spec_page_first_halfword(
                        start_offset as int,
                    ) <= h < spec_page_first_halfword(start_offset as int) + 512 * spec_page_count(
                        start_offset as int,
                        start_offset as int + length,
                    ) {
                        ERASED
                    } else {
                        old(self)@[h]
                    })
            }),
    {
        self.erase_range(start_offset, start_offset + length as u32)
    }

    /// Copies `length` bytes of the flash array starting at byte offset
    /// `offset`, low byte of each halfword first.
    pub fn read(&self, offset: u32, length: usize) -> (r: Result<Vec<u8>, Error>)
        requires
            self.fmc.wf(),
        ensures
            spec_valid_address(offset as int) matches Err(e) ==> r == Err::<Vec<u8>, Error>(e),
            (spec_valid_address(offset as int) is Ok && offset + length
                > self.flash_sz.spec_bytes()) ==> r == Err::<Vec<u8>, Error>(Error::LengthTooLong),
            (spec_valid_address(offset as int) is Ok && offset + length
                <= self.flash_sz.spec_bytes()) ==> (r matches Ok(data) && data@.len() == length
                && forall|i: int|
                0 <= i < length ==> data@[i] == spec_flash_byte(self@, offset as int + i)),
    {
        match self.valid_address(offset) {
            Ok(_) => {},
            Err(e) => {
                return Err(e);
            },
        }

        let bytes = self.flash_sz.bytes();
        if offset > bytes || length > (bytes - offset) as usize {
            return Err(Error::LengthTooLong);
        }

        let mut data: Vec<u8> = Vec::new();
        let mut i: usize = 0;
        while i < length
            invariant
                offset + length <= self.flash_sz.spec_bytes(),
                self.flash_sz.spec_bytes() <= 2 * self@.len(),
                i <= length,
                data@.len() == i,
                forall|j: int| 0 <= j < i ==> data@[j] == spec_flash_byte(self@, offset as int + j),
            decreases length - i,
        {
            let b: u32 = offset + i as u32;
            let hword = self.fmc.mem[(b / 2) as usize];
            let byte: u8 = if b % 2 == 0 {
                (hword % 0x100) as u8
            } else {
                (hword / 0x100) as u8
            };
            data.push(byte);
            i = i + 1;
        }

        Ok(data)
    }

    /// Programs `data` into the flash starting at byte offset `offset`,
    /// halfword by halfword. Programming stops at the first halfword whose
    /// target is not erased, which reports `ProgrammingError`; the
    /// halfwords before it stay programmed. The controller is relocked
    /// either way.
    pub fn write(&mut self, offset: u32, data: &Vec<u8>) -> (r: Result<(), Error>)
        requires
            old(self).fmc.ready(),
        ensures
            final(self).fmc.ready(),
            final(self).flash_sz == old(self).flash_sz,
            final(self).verify == old(self).verify,
            final(self)@.len() == old(self)@.len(),
            ({
                let v = spec_valid_length(
                    offset as int,
                    data@.len() as int,
                    old(self).flash_sz.spec_bytes() as int,
                );
                &&& (v matches Err(e) ==> r == Err::<(), Error>(e) && *final(self) == *old(self))
                &&& ((v is Ok && offset % 2 != 0 && data@.len() > 0) ==> r == Err::<(), Error>(
                    Error::AddressMisaligned,
                ))
                &&& ((v is Ok && offset % 2 == 0) ==> {
                    let base = offset as int / 2;
                    let n = data@.len() as int / 2;
                    let c = spec_programmable_count(old(self)@, base, n);
                    &&& r == if c == n {
                        Ok::<(), Error>(())
                    } else {
                        Err::<(), Error>(Error::ProgrammingError)
                    }
                    &&& final(self).fmc.lk == true
                    &&& final(self).fmc.pg == false
                    &&& forall|h: int|
                        0 <= h < final(self)@.len() ==> final(self)@[h] == if base <= h < base
                            + c {
                            spec_le_hword(data@, h - base)
                        } else {
                            old(self)@[h]
                        }
                })
            }),
    {
        match self.valid_length(offset, data.len()) {
            Ok(_) => {},
            Err(e) => {
                return Err(e);
            },
        }

        if data.len() > 0 && offset % 2 != 0 {
            // the first halfword would fail its address check; testing up
            // front keeps the controller locked
            return Err(Error::AddressMisaligned);
        }

        match self.unlock() {
            Ok(_) => {},
            Err(e) => {
                return Err(e);
            },
        }

        let ghost pre = *self;
        proof {
            lemma_programmable_count(pre@, offset as int / 2, data@.len() as int / 2);
        }
        let n = data.len() / 2;
        let mut result: Result<(), Error> = Ok(());
        let mut k: usize = 0;
        while k < n
            invariant_except_break
                result == Ok::<(), Error>(()),
            invariant
                self.fmc.wf(),
                self.fmc.key_stage == 0,
                self.fmc.wperr == false,
                self.flash_sz == pre.flash_sz,
                self.verify == pre.verify,
                n > 0 ==> offset % 2 == 0,
                n == data@.len() / 2,
                offset + data@.len() <= pre.flash_sz.spec_bytes(),
                pre.flash_sz.spec_bytes() <= 2 * pre@.len(),
                self@.len() == pre@.len(),
                k <= n,
                self.fmc.lk == false,
                self.fmc.pg == false,
                self.fmc.per == false,
                self.fmc.pgerr == false,
                0 <= spec_programmable_count(pre@, offset as int / 2, n as int) <= n,
                k <= spec_programmable_count(pre@, offset as int / 2, n as int),
                forall|h: int|
                    0 <= h < self@.len() ==> self@[h] == if offset as int / 2 <= h < offset as int
                        / 2 + k {
                        spec_le_hword(data@, h - offset as int / 2)
                    } else {
                        pre@[h]
                    },
            ensures
                self.fmc.wf(),
                self.fmc.key_stage == 0,
                self.fmc.wperr == false,
                self.fmc.pgerr == false,
                self.fmc.pg == false,
                self.fmc.per == false,
                self.fmc.lk == false,
                self.flash_sz == pre.flash_sz,
                self.verify == pre.verify,
                self@.len() == pre@.len(),
                ({
                    let c = spec_programmable_count(pre@, offset as int / 2, n as int);
                    &&& result == if c == n as int {
                        Ok::<(), Error>(())
                    } else {
                        Err::<(), Error>(Error::ProgrammingError)
                    }
                    &&& k == c
                    &&& forall|h: int|
                        0 <= h < self@.len() ==> self@[h] == if offset as int / 2 <= h < offset
                            as int / 2 + c {
                            spec_le_hword(data@, h - offset as int / 2)
                        } else {
                            pre@[h]
                        }
                }),
            decreases n - k,
        {
            proof {
                lemma_programmable_count(pre@, offset as int / 2, n as int);
            }
            let idx = 2 * k;

            // Select programming mode and store the halfword; the model's
            // flash responds at once.
            self.fmc.pg = true;
            self.busy_wait();

            let hword: u16 = (data[idx] as u16) + (data[idx + 1] as u16) * 0x100;
            let h = ((offset as usize) + idx) / 2;
            self.fmc.program_halfword(h, hword);

            self.busy_wait();
            self.fmc.pg = false;

            if self.fmc.pgerr {
                // The flag is cleared by writing it back.
                self.fmc.pgerr = false;
                result = Err(Error::ProgrammingError);
                break;
            } else if self.fmc.wperr {
                self.fmc.wperr = false;
                result = Err(Error::WriteError);
                break;
            } else if self.verify {
                // Read the programmed halfword back.
                let readback = self.fmc.mem[h];
                if readback != hword {
                    result = Err(Error::VerifyError);
                    break;
                }
            }
            k = k + 1;
        }

        match self.lock() {
            Ok(_) => {},
            Err(e) => {
                return Err(e);
            },
        }

        result
    }

    /// Switches verification of erase and write operations on or off. When
    /// on, every erased address is read back against the erased value and
    /// every written halfword against the value written.
    pub fn change_verification(&mut self, verify: bool)
        ensures
            *final(self) == (FlashWriter { verify, ..*old(self) }),
    {
        self.verify = verify;
    }
}

/// How many pages an erase of the byte range from `start` to `end` touches.
pub open spec fn spec_page_count(start: int, end: int) -> int {
    if end <= start {
        0
    } else {
        (end - start + 1023) / 1024
    }
}

/// Byte `b` of the flash array: the low or high half of its halfword.
pub open spec fn spec_flash_byte(mem: Seq<u16>, b: int) -> u8 {
    if b % 2 == 0 {
        (mem[b / 2] as int % 0x100) as u8
    } else {
        (mem[b / 2] as int / 0x100) as u8
    }
}

} // verus!

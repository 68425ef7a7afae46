//! The FIFO memory map of the USB controller.
//!
//! A fixed window of the peripheral's private SRAM backs the packet FIFOs:
//! one shared RX region for every OUT endpoint, and one TX region per IN
//! endpoint number. The offsets are a running sum of the preceding region
//! lengths; the regions beyond the configured count have zero length and are
//! unusable. [`FifoRam`] is a bounds-checked view of the window, replacing
//! raw pointer access with verified word reads and writes.

use vstd::prelude::*;

verus! {

/// Offset of the FIFO window within the peripheral's SRAM, in bytes. The
/// region offsets below are relative to this window.
pub const USB_FIFO_OFFSET: usize = 0x1000;

/// Length of the shared RX FIFO region in bytes.
pub const RX_FIFO_LEN: usize = 0x80;

/// Length of the TX FIFO region of IN endpoint number 0, in bytes.
pub const TX0_FIFO_LEN: usize = 0x80;

/// Length of the TX FIFO region of IN endpoint number 1, in bytes.
pub const TX1_FIFO_LEN: usize = 0x40;

/// Length of the TX FIFO region of IN endpoint number 2, in bytes.
pub const TX2_FIFO_LEN: usize = 0x0;

/// Length of the TX FIFO region of IN endpoint number 3, in bytes.
pub const TX3_FIFO_LEN: usize = 0x0;

/// Offset of the TX FIFO region of IN endpoint number 0 within the window.
pub const TX0_FIFO_OFFSET: usize = RX_FIFO_LEN;

/// Offset of the TX FIFO region of IN endpoint number 1 within the window.
pub const TX1_FIFO_OFFSET: usize = TX0_FIFO_OFFSET + TX0_FIFO_LEN;

/// Offset of the TX FIFO region of IN endpoint number 2 within the window.
pub const TX2_FIFO_OFFSET: usize = TX1_FIFO_OFFSET + TX1_FIFO_LEN;

/// Offset of the TX FIFO region of IN endpoint number 3 within the window.
pub const TX3_FIFO_OFFSET: usize = TX2_FIFO_OFFSET + TX2_FIFO_LEN;

/// Total length of the FIFO window that the regions partition, in bytes.
pub const FIFO_RAM_LEN: usize = TX3_FIFO_OFFSET + TX3_FIFO_LEN;

/// Bytes in one FIFO word.
pub const WORD_LEN: usize = 4;

/// Total length of the FIFO window in 32-bit words.
pub const FIFO_RAM_WORDS: usize = FIFO_RAM_LEN / WORD_LEN;

/// Byte offset of the TX FIFO region of IN endpoint number `i`.
pub open spec fn spec_tx_fifo_offset(i: int) -> int {
    if i == 0 {
        TX0_FIFO_OFFSET as int
    } else if i == 1 {
        TX1_FIFO_OFFSET as int
    } else if i == 2 {
        TX2_FIFO_OFFSET as int
    } else {
        TX3_FIFO_OFFSET as int
    }
}

/// Byte length of the TX FIFO region of IN endpoint number `i`.
pub open spec fn spec_tx_fifo_len(i: int) -> int {
    if i == 0 {
        TX0_FIFO_LEN as int
    } else if i == 1 {
        TX1_FIFO_LEN as int
    } else if i == 2 {
        TX2_FIFO_LEN as int
    } else {
        TX3_FIFO_LEN as int
    }
}

/// Byte offset of the TX FIFO region of IN endpoint number `index`.
pub fn tx_fifo_offset(index: usize) -> (r: usize)
    requires
        index < 4,
    ensures
        r == spec_tx_fifo_offset(index as int),
{
    if index == 0 {
        TX0_FIFO_OFFSET
    } else if index == 1 {
        TX1_FIFO_OFFSET
    } else if index == 2 {
        TX2_FIFO_OFFSET
    } else {
        TX3_FIFO_OFFSET
    }
}

/// Byte length of the TX FIFO region of IN endpoint number `index`.
pub fn tx_fifo_len(index: usize) -> (r: usize)
    requires
        index < 4,
    ensures
        r == spec_tx_fifo_len(index as int),
{
    if index == 0 {
        TX0_FIFO_LEN
    } else if index == 1 {
        TX1_FIFO_LEN
    } else if index == 2 {
        TX2_FIFO_LEN
    } else {
        TX3_FIFO_LEN
    }
}

/// The FIFO regions partition the window without overlap: every TX region
/// lies past the shared RX region, the TX regions follow each other in
/// endpoint order as a running sum of lengths, two regions of nonzero length
/// never share an offset, and together the regions exactly cover the window.
pub proof fn lemma_fifo_regions_disjoint()
    ensures
        spec_tx_fifo_offset(0) == 0x80,
        spec_tx_fifo_offset(1) == 0x100,
        spec_tx_fifo_offset(2) == 0x140,
        spec_tx_fifo_offset(3) == 0x140,
        spec_tx_fifo_len(2) == 0,
        spec_tx_fifo_len(3) == 0,
        forall|i: int| 0 <= i < 4 ==> spec_tx_fifo_offset(i) >= RX_FIFO_LEN,
        forall|i: int, j: int|
            0 <= i < j < 4 ==> spec_tx_fifo_offset(i) + spec_tx_fifo_len(i) <= spec_tx_fifo_offset(
                j,
            ),
        forall|i: int, j: int|
            0 <= i < 4 && 0 <= j < 4 && i != j && spec_tx_fifo_len(i) > 0 && spec_tx_fifo_len(j)
                > 0 ==> spec_tx_fifo_offset(i) != spec_tx_fifo_offset(j),
        spec_tx_fifo_offset(3) + spec_tx_fifo_len(3) == FIFO_RAM_LEN,
{
}

/// A bounds-checked view of the FIFO window, word by word.
pub struct FifoRam {
    words: Vec<u32>,
}

impl View for FifoRam {
    type V = Seq<u32>;

    closed spec fn view(&self) -> Seq<u32> {
        self.words@
    }
}

impl FifoRam {
    /// Builds the window, zero-filled, one word per four bytes.
    pub fn new() -> (r: FifoRam)
        ensures
            r@.len() == FIFO_RAM_WORDS,
            forall|i: int| 0 <= i < r@.len() ==> r@[i] == 0,
    {
        let mut words: Vec<u32> = Vec::new();
        let mut i: usize = 0;
        while i < FIFO_RAM_WORDS
            invariant
                i <= FIFO_RAM_WORDS,
                words@.len() == i,
                forall|j: int| 0 <= j < i ==> words@[j] == 0,
            decreases FIFO_RAM_WORDS - i,
        {
            words.push(0);
            i = i + 1;
        }
        FifoRam { words }
    }

    /// Reads the word at word index `i`.
    pub fn read_word(&self, i: usize) -> (w: u32)
        requires
            i < self@.len(),
        ensures
            w == self@[i as int],
    {
        self.words[i]
    }

    /// Overwrites the word at word index `i`.
    pub fn write_word(&mut self, i: usize, w: u32)
        requires
            i < old(self)@.len(),
        ensures
            final(self)@ == old(self)@.update(i as int, w),
    {
        self.words.set(i, w);
    }
}

} // verus!

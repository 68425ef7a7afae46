//! USB full-speed device driver.
//!
//! The driver owns the register block models of [`crate::usbfs::regs`] and
//! the FIFO window of [`crate::usbfs::fifo`], and every operation's contract
//! pins down what it does to them. An unverified bridge mirrors the model
//! onto the hardware registers and performs the busy-waits.

use vstd::prelude::*;

use crate::delay::McycleDelay;
use crate::rcu::Clocks;
use crate::usbfs::fifo::{
    FifoRam, FIFO_RAM_WORDS, RX_FIFO_LEN, WORD_LEN, spec_tx_fifo_len, spec_tx_fifo_offset,
    tx_fifo_len, tx_fifo_offset,
};
use crate::usbfs::fifo::{TX0_FIFO_LEN, TX0_FIFO_OFFSET, TX1_FIFO_LEN, TX1_FIFO_OFFSET, TX2_FIFO_LEN, TX2_FIFO_OFFSET, TX3_FIFO_LEN, TX3_FIFO_OFFSET};
use crate::usbfs::regs::{Dcfg, Dctl, DiepInten, DoepInten, EpCtl, EpLen, Gintf, Ginten, Grstatp, Grstctl, TxFifoLen, UsbfsDevice, UsbfsGlobal, UsbfsPwrclk};
use crate::usbfs::types::PollResult;
use crate::usbfs::PortSpeed;
use crate::usbfs::types::{EndpointAddress, EndpointType, UsbDirection, UsbError};

verus! {

/// Maximum number of IN endpoints, and of OUT endpoints.
pub const MAX_ENDPOINTS: usize = 4;

/// End-of-periodic-frame threshold, as a percentage of frame time.
#[derive(Clone, Copy, Debug, PartialEq, Eq, Structural)]
pub enum EOPFSetting {
    /// 80% of frame time.
    Pct80,
    /// 85% of frame time.
    Pct85,
    /// 90% of frame time.
    Pct90,
    /// 95% of frame time.
    Pct95,
}

impl EOPFSetting {
    /// The two-bit register encoding of the setting.
    pub open spec fn spec_bits(self) -> u8 {
        match self {
            EOPFSetting::Pct80 => 0b00,
            EOPFSetting::Pct85 => 0b01,
            EOPFSetting::Pct90 => 0b10,
            EOPFSetting::Pct95 => 0b11,
        }
    }

    /// The two-bit register encoding of the setting.
    pub fn bits(self) -> (r: u8)
        ensures
            r == self.spec_bits(),
    {
        match self {
            EOPFSetting::Pct80 => 0b00,
            EOPFSetting::Pct85 => 0b01,
            EOPFSetting::Pct90 => 0b10,
            EOPFSetting::Pct95 => 0b11,
        }
    }
}

/// Selector for which TX FIFO a flush command targets.
#[derive(Clone, Copy, Debug, PartialEq, Eq, Structural)]
pub enum TXFlushNum {
    Zero,
    One,
    Two,
    Three,
    All,
}

impl TXFlushNum {
    /// The five-bit register encoding of the selector.
    pub open spec fn spec_bits(self) -> u8 {
        match self {
            TXFlushNum::Zero => 0b0_0000,
            TXFlushNum::One => 0b0_0001,
            TXFlushNum::Two => 0b0_0010,
            TXFlushNum::Three => 0b0_0011,
            TXFlushNum::All => 0b1_0000,
        }
    }

    /// The five-bit register encoding of the selector.
    pub fn bits(self) -> (r: u8)
        ensures
            r == self.spec_bits(),
    {
        match self {
            TXFlushNum::Zero => 0b0_0000,
            TXFlushNum::One => 0b0_0001,
            TXFlushNum::Two => 0b0_0010,
            TXFlushNum::Three => 0b0_0011,
            TXFlushNum::All => 0b1_0000,
        }
    }
}

/// Maximum packet length settings for control endpoint 0.
#[derive(Clone, Copy, Debug, PartialEq, Eq, Structural)]
pub enum MPL {
    SixtyFour,
    ThirtyTwo,
    Sixteen,
    Eight,
}

impl MPL {
    /// The two-bit register encoding of the setting.
    pub open spec fn spec_bits(self) -> u8 {
        match self {
            MPL::SixtyFour => 0b00,
            MPL::ThirtyTwo => 0b01,
            MPL::Sixteen => 0b10,
            MPL::Eight => 0b11,
        }
    }

    /// The two-bit register encoding of the setting.
    pub fn bits(self) -> (r: u8)
        ensures
            r == self.spec_bits(),
    {
        match self {
            MPL::SixtyFour => 0b00,
            MPL::ThirtyTwo => 0b01,
            MPL::Sixteen => 0b10,
            MPL::Eight => 0b11,
        }
    }
}

/// Received packet status codes reported in the receive status register.
#[derive(Clone, Copy, Debug, PartialEq, Eq, Structural)]
pub enum ReceivedPacketStatus {
    GlobalOutNak,
    OutPacketReceived,
    OutTransferCompleted,
    SetupTransactionCompleted,
    SetupPacketReceived,
    Reserved,
}

impl ReceivedPacketStatus {
    /// The four-bit status code of the variant, with `Reserved` standing for
    /// every code the hardware does not define.
    pub open spec fn spec_bits(self) -> u8 {
        match self {
            ReceivedPacketStatus::GlobalOutNak => 0b0001,
            ReceivedPacketStatus::OutPacketReceived => 0b0010,
            ReceivedPacketStatus::OutTransferCompleted => 0b0011,
            ReceivedPacketStatus::SetupTransactionCompleted => 0b0100,
            ReceivedPacketStatus::SetupPacketReceived => 0b0110,
            ReceivedPacketStatus::Reserved => 0xff,
        }
    }

    /// The four-bit status code of the variant.
    pub fn bits(self) -> (r: u8)
        ensures
            r == self.spec_bits(),
    {
        match self {
            ReceivedPacketStatus::GlobalOutNak => 0b0001,
            ReceivedPacketStatus::OutPacketReceived => 0b0010,
            ReceivedPacketStatus::OutTransferCompleted => 0b0011,
            ReceivedPacketStatus::SetupTransactionCompleted => 0b0100,
            ReceivedPacketStatus::SetupPacketReceived => 0b0110,
            ReceivedPacketStatus::Reserved => 0xff,
        }
    }
}

/// Description of one endpoint: its address, transfer type, maximum packet
/// size and polling interval. Never mutated after the allocator creates it.
#[derive(Clone, Copy, Debug, PartialEq, Eq, Structural)]
pub struct Endpoint {
    /// The endpoint's address.
    pub address: EndpointAddress,
    /// The endpoint's transfer type.
    pub ep_type: EndpointType,
    /// The endpoint's maximum packet size in bytes.
    pub max_packet_size: u16,
    /// The endpoint's polling interval.
    pub interval: u8,
}

/// Byte offset within the FIFO window of the region backing `address`: OUT
/// endpoints share the RX region at the start of the window; an IN endpoint
/// uses the TX region of its endpoint number, clamped to the last one.
pub open spec fn spec_ep_fifo_offset(address: EndpointAddress) -> int {
    if address.direction == UsbDirection::Out {
        0
    } else {
        spec_tx_fifo_offset(spec_clamped_index(address))
    }
}

/// Byte length of the FIFO region backing `address`.
pub open spec fn spec_ep_fifo_len(address: EndpointAddress) -> int {
    if address.direction == UsbDirection::Out {
        RX_FIFO_LEN as int
    } else {
        spec_tx_fifo_len(spec_clamped_index(address))
    }
}

/// The endpoint number of `address`, clamped to the highest endpoint number.
pub open spec fn spec_clamped_index(address: EndpointAddress) -> int {
    if address.index < MAX_ENDPOINTS {
        address.index as int
    } else {
        MAX_ENDPOINTS - 1
    }
}

impl Endpoint {
    /// Builds an endpoint description. Pure; the allocator is the only
    /// caller and performs all validation there is.
    pub fn new(
        address: EndpointAddress,
        ep_type: EndpointType,
        max_packet_size: u16,
        interval: u8,
    ) -> (r: Endpoint)
        ensures
            r.address == address,
            r.ep_type == ep_type,
            r.max_packet_size == max_packet_size,
            r.interval == interval,
    {
        Endpoint { address, ep_type, max_packet_size, interval }
    }

    /// The endpoint's address.
    pub fn address(&self) -> (r: EndpointAddress)
        ensures
            r == self.address,
    {
        self.address
    }

    /// The endpoint's transfer type.
    pub fn ep_type(&self) -> (r: EndpointType)
        ensures
            r == self.ep_type,
    {
        self.ep_type
    }

    /// The endpoint's maximum packet size in bytes.
    pub fn max_packet_size(&self) -> (r: u16)
        ensures
            r == self.max_packet_size,
    {
        self.max_packet_size
    }

    /// The endpoint's polling interval.
    pub fn interval(&self) -> (r: u8)
        ensures
            r == self.interval,
    {
        self.interval
    }

    /// The FIFO region backing this endpoint, as a byte offset and byte
    /// length within the FIFO window.
    pub fn fifo_region(&self) -> (r: (usize, usize))
        ensures
            r.0 == spec_ep_fifo_offset(self.address),
            r.1 == spec_ep_fifo_len(self.address),
    {
        if self.address.is_out() {
            (0, RX_FIFO_LEN)
        } else {
            let index = self.clamped_index();
            (tx_fifo_offset(index), tx_fifo_len(index))
        }
    }

    /// The FIFO region backing this endpoint, as a word offset and word
    /// length within the FIFO window.
    pub fn fifo_word_region(&self) -> (r: (usize, usize))
        ensures
            r.0 == spec_ep_fifo_offset(self.address) / (WORD_LEN as int),
            r.1 == spec_ep_fifo_len(self.address) / (WORD_LEN as int),
    {
        let (offset, len) = self.fifo_region();
        (offset / WORD_LEN, len / WORD_LEN)
    }

    /// The endpoint number, clamped to the highest endpoint number.
    fn clamped_index(&self) -> (r: usize)
        ensures
            r == spec_clamped_index(self.address),
            r < MAX_ENDPOINTS,
    {
        let index = self.address.index();
        if index < MAX_ENDPOINTS {
            index
        } else {
            MAX_ENDPOINTS - 1
        }
    }
}

/// Whether an explicit claim of slot `i` of an endpoint table succeeds: the
/// slot must still be free.
pub open spec fn spec_explicit_alloc_ok(eps: Seq<Option<Endpoint>>, i: int) -> bool {
    eps[i] is None
}

/// The endpoint table after an explicit claim of slot `i` for `ep`: the slot
/// is filled if it was free, and the table is unchanged if not.
pub open spec fn spec_explicit_alloc(eps: Seq<Option<Endpoint>>, i: int, ep: Endpoint) -> Seq<
    Option<Endpoint>,
> {
    if spec_explicit_alloc_ok(eps, i) {
        eps.update(i, Some(ep))
    } else {
        eps
    }
}

/// The slot an automatic allocation picks: the first free one in endpoint
/// number order, if any is left.
pub open spec fn spec_first_free(eps: Seq<Option<Endpoint>>) -> Option<int> {
    if eps[0] is None {
        Some(0int)
    } else if eps[1] is None {
        Some(1int)
    } else if eps[2] is None {
        Some(2int)
    } else if eps[3] is None {
        Some(3int)
    } else {
        None
    }
}

/// Claiming a slot twice fails: once an explicit allocation has taken slot
/// `i`, a second explicit request for slot `i` is refused — by `alloc_ep`'s
/// contract it then reports `InvalidEndpoint`.
pub proof fn lemma_explicit_alloc_twice(eps: Seq<Option<Endpoint>>, i: int, ep: Endpoint)
    requires
        0 <= i < eps.len(),
        spec_explicit_alloc_ok(eps, i),
    ensures
        !spec_explicit_alloc_ok(spec_explicit_alloc(eps, i, ep), i),
{
}

/// A full direction overflows: when all four slots of a direction are taken,
/// no free slot is left — by `alloc_ep`'s contract the next automatic
/// allocation for that direction then reports `EndpointOverflow`.
pub proof fn lemma_full_direction_overflows(eps: Seq<Option<Endpoint>>)
    requires
        eps.len() == 4,
        forall|i: int| 0 <= i < 4 ==> eps[i] is Some,
    ensures
        spec_first_free(eps) is None,
{
}

/// The endpoint table of `s` for direction `dir`.
pub open spec fn spec_dir_table(s: UsbBusInner, dir: UsbDirection) -> Seq<Option<Endpoint>> {
    if dir == UsbDirection::In {
        s.in_endpoints@
    } else {
        s.out_endpoints@
    }
}

/// What the bring-up sequence leaves in an endpoint control register: an
/// endpoint found enabled is asked to disable and to NAK; one found idle is
/// cleared outright.
pub open spec fn spec_configured_ctl(c: EpCtl) -> EpCtl {
    if c.epen {
        EpCtl { epd: true, nak: true, ..c }
    } else {
        EpCtl::spec_inactive()
    }
}

/// The same for OUT endpoint 0, whose disable bit is fixed by hardware: an
/// enabled endpoint is only asked to NAK.
pub open spec fn spec_configured_out0_ctl(c: EpCtl) -> EpCtl {
    if c.epen {
        EpCtl { nak: true, ..c }
    } else {
        EpCtl::spec_inactive()
    }
}

/// Applies [`spec_configured_ctl`].
fn configured_ctl(c: EpCtl) -> (r: EpCtl)
    ensures
        r == spec_configured_ctl(c),
{
    if c.epen {
        EpCtl { epd: true, nak: true, ..c }
    } else {
        EpCtl::inactive()
    }
}

/// Applies [`spec_configured_out0_ctl`].
fn configured_out0_ctl(c: EpCtl) -> (r: EpCtl)
    ensures
        r == spec_configured_out0_ctl(c),
{
    if c.epen {
        EpCtl { nak: true, ..c }
    } else {
        EpCtl::inactive()
    }
}

/// The event one `poll` call reports for the given interrupt flags and
/// receive status, in priority order: a received OUT or SETUP packet first,
/// then wakeup, reset and suspend, and `NoEvent` when nothing is pending.
pub open spec fn spec_poll_event(gintf: Gintf, grstatp: Grstatp) -> PollResult {
    if grstatp.rpckst == ReceivedPacketStatus::OutPacketReceived.spec_bits() {
        PollResult::Data { ep_out: grstatp.epnum as u16, ep_in_complete: 0, ep_setup: 0 }
    } else if grstatp.rpckst == ReceivedPacketStatus::SetupPacketReceived.spec_bits() {
        PollResult::Data { ep_out: 0, ep_in_complete: 0, ep_setup: grstatp.epnum as u16 }
    } else if gintf.wkupif {
        PollResult::Resume
    } else if gintf.rst {
        PollResult::Reset
    } else if gintf.sp {
        PollResult::Suspend
    } else {
        PollResult::NoEvent
    }
}

/// Data preempts session events: whenever the receive status holds the
/// OUT-packet-received code, the poll event is that endpoint's data event,
/// whatever reset, suspend or resume flags are pending at the same time.
pub proof fn lemma_poll_data_priority(gintf: Gintf, grstatp: Grstatp)
    requires
        grstatp.rpckst == ReceivedPacketStatus::OutPacketReceived.spec_bits(),
    ensures
        spec_poll_event(gintf, grstatp) == (PollResult::Data {
            ep_out: grstatp.epnum as u16,
            ep_in_complete: 0,
            ep_setup: 0,
        }),
{
}

/// What setting or clearing STALL leaves in an IN endpoint control
/// register: an enabled endpoint is also asked to disable.
pub open spec fn spec_in_stalled_ctl(c: EpCtl, stalled: bool) -> EpCtl {
    EpCtl { epd: c.epd || c.epen, stall: stalled, ..c }
}

/// What setting or clearing STALL leaves in an OUT endpoint control
/// register.
pub open spec fn spec_out_stalled_ctl(c: EpCtl, stalled: bool) -> EpCtl {
    EpCtl { stall: stalled, ..c }
}

/// True of an endpoint whose transfer setup takes the isochronous path:
/// isochronous transfer type on a non-control endpoint number. Endpoint 0
/// is set up as a control endpoint whatever its recorded type.
pub open spec fn spec_is_iso_path(ep: Endpoint) -> bool {
    ep.ep_type == EndpointType::Isochronous && ep.address.index != 0
}

/// Whether the frame number register says the current frame is odd: its
/// ninth bit.
pub open spec fn spec_frame_odd(fnrsof: u16) -> bool {
    (fnrsof / 256) % 2 == 1
}

/// The transfer-length register after a transfer setup: one packet of `len`
/// bytes, and on the isochronous path one packet per frame.
pub open spec fn spec_xfer_len(old_len: EpLen, len: int, iso_path: bool) -> EpLen {
    EpLen {
        pcnt: 1,
        tlen: len as u32,
        mcpf: if iso_path {
            1
        } else {
            old_len.mcpf
        },
    }
}

/// The endpoint control register after a transfer setup: NAK cleared, the
/// endpoint enabled, and on the isochronous path the frame parity latched
/// into the data PID bit.
pub open spec fn spec_xfer_ctl(old_ctl: EpCtl, iso_path: bool, frame_odd: bool) -> EpCtl {
    EpCtl {
        epen: true,
        nak: false,
        pid_odd: if iso_path {
            frame_odd
        } else {
            old_ctl.pid_odd
        },
        ..old_ctl
    }
}

/// Whether an IN transfer setup arms the TX-FIFO-empty interrupt for its
/// endpoint: only a transfer with data, outside the isochronous path.
pub open spec fn spec_arms_fifo_empty(len: int, iso_path: bool) -> bool {
    len > 0 && !iso_path
}

/// Word `k` of a byte buffer packed as a little-endian 32-bit word.
pub open spec fn spec_le_word(bytes: Seq<u8>, k: int) -> u32 {
    (bytes[4 * k] + bytes[4 * k + 1] * 0x100 + bytes[4 * k + 2] * 0x1_0000 + bytes[4 * k + 3]
        * 0x100_0000) as u32
}

/// Byte `t` of a 32-bit word, little-endian.
pub open spec fn spec_word_byte(w: u32, t: int) -> u8 {
    if t == 0 {
        (w as int % 0x100) as u8
    } else if t == 1 {
        ((w as int / 0x100) % 0x100) as u8
    } else if t == 2 {
        ((w as int / 0x1_0000) % 0x100) as u8
    } else {
        ((w as int / 0x100_0000) % 0x100) as u8
    }
}

/// How many whole words a write copies into the TX FIFO region: every full
/// word of the buffer, clipped to the region. Trailing bytes short of a
/// full word are not copied — the known truncation of the word-wise FIFO.
pub open spec fn spec_write_word_count(buflen: int, wlen: int) -> int {
    let full = buflen / 4;
    if full < wlen {
        full
    } else {
        wlen
    }
}

/// How many whole words a read drains from the RX FIFO region: the packet
/// size rounded up to words — at least one — clipped to the region and to
/// the whole words of the buffer.
pub open spec fn spec_read_word_count(mps: int, buflen: int, wlen: int) -> int {
    let by_mps = if mps <= 4 {
        1int
    } else {
        (mps + 3) / 4
    };
    let by_buf = buflen / 4;
    let m1 = if by_buf < wlen {
        by_buf
    } else {
        wlen
    };
    if by_mps < m1 {
        by_mps
    } else {
        m1
    }
}

/// The endpoint a `write` call addresses: the allocated IN endpoint of the
/// address's number, if the address is an in-range IN address and its slot
/// is taken.
pub open spec fn spec_write_target(s: UsbBusInner, a: EndpointAddress) -> Option<Endpoint> {
    if (a.index as int) < (MAX_ENDPOINTS as int) && a.direction == UsbDirection::In {
        s.in_endpoints@[a.index as int]
    } else {
        None
    }
}

/// The endpoint a `read` call addresses: the allocated OUT endpoint of the
/// address's number, if the address is an in-range OUT address and its slot
/// is taken.
pub open spec fn spec_read_target(s: UsbBusInner, a: EndpointAddress) -> Option<Endpoint> {
    if (a.index as int) < (MAX_ENDPOINTS as int) && a.direction == UsbDirection::Out {
        s.out_endpoints@[a.index as int]
    } else {
        None
    }
}

/// The IN-endpoint TX-FIFO-empty flags after a transfer setup for endpoint
/// `i`: armed for a transfer with data outside the isochronous path, and
/// untouched otherwise.
pub open spec fn spec_armed_feinten(fe: Seq<bool>, i: int, len: int, iso_path: bool) -> Seq<
    bool,
> {
    if spec_arms_fifo_empty(len, iso_path) {
        fe.update(i, true)
    } else {
        fe
    }
}

/// Everything an IN transfer setup leaves alone: all state but the IN
/// transfer registers — length, control and TX-FIFO-empty flags — and the
/// FIFO window.
pub open spec fn spec_in_xfer_frame(pre: UsbBusInner, post: UsbBusInner) -> bool {
    &&& post.in_endpoints@ == pre.in_endpoints@
    &&& post.out_endpoints@ == pre.out_endpoints@
    &&& post.usbfs_global == pre.usbfs_global
    &&& post.usbfs_pwrclk == pre.usbfs_pwrclk
    &&& post.delay == pre.delay
    &&& post.usbfs_device.diepintf@ == pre.usbfs_device.diepintf@
    &&& post.usbfs_device.doepctl@ == pre.usbfs_device.doepctl@
    &&& post.usbfs_device.doeplen@ == pre.usbfs_device.doeplen@
    &&& post.usbfs_device.doepintf@ == pre.usbfs_device.doepintf@
    &&& post.usbfs_device.diepinten == pre.usbfs_device.diepinten
    &&& post.usbfs_device.doepinten == pre.usbfs_device.doepinten
    &&& post.usbfs_device.dcfg == pre.usbfs_device.dcfg
    &&& post.usbfs_device.dctl == pre.usbfs_device.dctl
    &&& post.usbfs_device.dstat_fnrsof == pre.usbfs_device.dstat_fnrsof
}

/// Everything an OUT transfer setup leaves alone: all state but the OUT
/// transfer registers — length and control.
pub open spec fn spec_out_xfer_frame(pre: UsbBusInner, post: UsbBusInner) -> bool {
    &&& post.in_endpoints@ == pre.in_endpoints@
    &&& post.out_endpoints@ == pre.out_endpoints@
    &&& post.usbfs_global == pre.usbfs_global
    &&& post.usbfs_pwrclk == pre.usbfs_pwrclk
    &&& post.delay == pre.delay
    &&& post.usbfs_device.diepctl@ == pre.usbfs_device.diepctl@
    &&& post.usbfs_device.dieplen@ == pre.usbfs_device.dieplen@
    &&& post.usbfs_device.diepfeinten@ == pre.usbfs_device.diepfeinten@
    &&& post.usbfs_device.diepintf@ == pre.usbfs_device.diepintf@
    &&& post.usbfs_device.doepintf@ == pre.usbfs_device.doepintf@
    &&& post.usbfs_device.diepinten == pre.usbfs_device.diepinten
    &&& post.usbfs_device.doepinten == pre.usbfs_device.doepinten
    &&& post.usbfs_device.dcfg == pre.usbfs_device.dcfg
    &&& post.usbfs_device.dctl == pre.usbfs_device.dctl
    &&& post.usbfs_device.dstat_fnrsof == pre.usbfs_device.dstat_fnrsof
}

/// The USB device controller driver.
///
/// Owns the endpoint allocation tables, the models of the three register
/// blocks, and the FIFO window. All mutable state of the controller lives
/// here; the bridge wraps one instance in its mutual-exclusion region.
pub struct UsbBusInner {
    /// Allocated IN endpoints, one slot per endpoint number.
    pub in_endpoints: [Option<Endpoint>; 4],
    /// Allocated OUT endpoints, one slot per endpoint number.
    pub out_endpoints: [Option<Endpoint>; 4],
    /// Model of the global register block.
    pub usbfs_global: UsbfsGlobal,
    /// Model of the device register block.
    pub usbfs_device: UsbfsDevice,
    /// Model of the power and clock register block.
    pub usbfs_pwrclk: UsbfsPwrclk,
    /// The FIFO window.
    pub fifo: FifoRam,
    /// The delay provider.
    pub delay: McycleDelay,
}

impl UsbBusInner {
    /// Well-formedness: the FIFO window has its fixed size, and every
    /// allocated endpoint sits in the slot its address names.
    pub open spec fn wf(self) -> bool {
        &&& self.fifo@.len() == FIFO_RAM_WORDS
        &&& forall|i: int|
            0 <= i < 4 ==> ((#[trigger] self.in_endpoints[i]) matches Some(ep)
                ==> ep.address.index == i)
        &&& forall|i: int|
            0 <= i < 4 ==> ((#[trigger] self.out_endpoints[i]) matches Some(ep)
                ==> ep.address.index == i)
    }

    /// Creates a driver that owns the given register block models, with no
    /// endpoint allocated and the FIFO window zeroed.
    pub fn new(
        usbfs_global: UsbfsGlobal,
        usbfs_device: UsbfsDevice,
        usbfs_pwrclk: UsbfsPwrclk,
        clocks: &Clocks,
    ) -> (r: UsbBusInner)
        ensures
            r.wf(),
            forall|i: int| 0 <= i < 4 ==> r.in_endpoints[i] is None,
            forall|i: int| 0 <= i < 4 ==> r.out_endpoints[i] is None,
            r.usbfs_global == usbfs_global,
            r.usbfs_device == usbfs_device,
            r.usbfs_pwrclk == usbfs_pwrclk,
            forall|i: int| 0 <= i < r.fifo@.len() ==> r.fifo@[i] == 0,
            r.delay.spec_core_frequency() == clocks.spec_sysclk(),
    {
        UsbBusInner {
            in_endpoints: [None, None, None, None],
            out_endpoints: [None, None, None, None],
            usbfs_global,
            usbfs_device,
            usbfs_pwrclk,
            fifo: FifoRam::new(),
            delay: McycleDelay::new(clocks),
        }
    }


    /// Allocates an endpoint with the given parameters. Called during
    /// enumeration setup, before `enable`.
    ///
    /// With an explicit address the request claims exactly that slot and is
    /// refused with `InvalidEndpoint` if the slot is out of range or already
    /// taken. Without one, the first free slot of the direction is claimed
    /// in endpoint number order, and `EndpointOverflow` is reported when
    /// none is left. Nothing but the claimed slot changes.
    pub fn alloc_ep(
        &mut self,
        ep_dir: UsbDirection,
        ep_addr: Option<EndpointAddress>,
        ep_type: EndpointType,
        max_packet_size: u16,
        interval: u8,
    ) -> (r: Result<EndpointAddress, UsbError>)
        requires
            old(self).wf(),
        ensures
            final(self).wf(),
            final(self).usbfs_global == old(self).usbfs_global,
            final(self).usbfs_device == old(self).usbfs_device,
            final(self).usbfs_pwrclk == old(self).usbfs_pwrclk,
            final(self).fifo@ == old(self).fifo@,
            final(self).delay == old(self).delay,
            ep_dir == UsbDirection::In ==> final(self).out_endpoints@ == old(self).out_endpoints@,
            ep_dir == UsbDirection::Out ==> final(self).in_endpoints@ == old(self).in_endpoints@,
            ep_addr matches Some(addr) ==> {
                let tbl = spec_dir_table(*old(self), ep_dir);
                if (addr.index as int) >= (MAX_ENDPOINTS as int) {
                    r == Err::<EndpointAddress, UsbError>(UsbError::InvalidEndpoint)
                        && spec_dir_table(*final(self), ep_dir) == tbl
                } else if !spec_explicit_alloc_ok(tbl, addr.index as int) {
                    r == Err::<EndpointAddress, UsbError>(UsbError::InvalidEndpoint)
                        && spec_dir_table(*final(self), ep_dir) == tbl
                } else {
                    r == Ok::<EndpointAddress, UsbError>(addr) && spec_dir_table(
                        *final(self),
                        ep_dir,
                    ) == spec_explicit_alloc(
                        tbl,
                        addr.index as int,
                        Endpoint { address: addr, ep_type, max_packet_size, interval },
                    )
                }
            },
            ep_addr is None ==> (match spec_first_free(spec_dir_table(*old(self), ep_dir)) {
                Some(i) => {
                    let addr = EndpointAddress { index: i as u8, direction: ep_dir };
                    r == Ok::<EndpointAddress, UsbError>(addr) && spec_dir_table(
                        *final(self),
                        ep_dir,
                    ) == spec_dir_table(*old(self), ep_dir).update(
                        i,
                        Some(Endpoint { address: addr, ep_type, max_packet_size, interval }),
                    )
                },
                None => r == Err::<EndpointAddress, UsbError>(UsbError::EndpointOverflow)
                    && spec_dir_table(*final(self), ep_dir) == spec_dir_table(*old(self), ep_dir),
            }),
    {
        if let Some(addr) = ep_addr {
            let index = addr.index();
            if index >= MAX_ENDPOINTS {
                return Err(UsbError::InvalidEndpoint);
            }
            match ep_dir {
                UsbDirection::In => {
                    if self.in_endpoints[index].is_some() {
                        return Err(UsbError::InvalidEndpoint);
                    }
                    self.in_endpoints[index] = Some(
                        Endpoint::new(addr, ep_type, max_packet_size, interval),
                    );
                },
                UsbDirection::Out => {
                    if self.out_endpoints[index].is_some() {
                        return Err(UsbError::InvalidEndpoint);
                    }
                    self.out_endpoints[index] = Some(
                        Endpoint::new(addr, ep_type, max_packet_size, interval),
                    );
                },
            }

            Ok(addr)
        } else {
            match ep_dir {
                UsbDirection::In => {
                    let index_opt: Option<usize> = if self.in_endpoints[0].is_none() {
                        Some(0)
                    } else if self.in_endpoints[1].is_none() {
                        Some(1)
                    } else if self.in_endpoints[2].is_none() {
                        Some(2)
                    } else if self.in_endpoints[3].is_none() {
                        Some(3)
                    } else {
                        None
                    };
                    if let Some(index) = index_opt {
                        let addr = EndpointAddress::from_parts(index, ep_dir);
                        self.in_endpoints[index] = Some(
                            Endpoint::new(addr, ep_type, max_packet_size, interval),
                        );
                        Ok(addr)
                    } else {
                        Err(UsbError::EndpointOverflow)
                    }
                },
                UsbDirection::Out => {
                    let index_opt: Option<usize> = if self.out_endpoints[0].is_none() {
                        Some(0)
                    } else if self.out_endpoints[1].is_none() {
                        Some(1)
                    } else if self.out_endpoints[2].is_none() {
                        Some(2)
                    } else if self.out_endpoints[3].is_none() {
                        Some(3)
                    } else {
                        None
                    };
                    if let Some(index) = index_opt {
                        let addr = EndpointAddress::from_parts(index, ep_dir);
                        self.out_endpoints[index] = Some(
                            Endpoint::new(addr, ep_type, max_packet_size, interval),
                        );
                        Ok(addr)
                    } else {
                        Err(UsbError::EndpointOverflow)
                    }
                },
            }
        }
    }


    /// Programs the FIFO geometry: the RX FIFO depth, and for every TX
    /// region its depth and its start address as the running sum of the
    /// preceding region lengths, beginning right after the RX region.
    pub fn setup_fifos(&mut self)
        ensures
            *final(self) == (UsbBusInner {
                usbfs_global: UsbfsGlobal {
                    grflen_rxfd: RX_FIFO_LEN as u16,
                    dieptflen: final(self).usbfs_global.dieptflen,
                    ..old(self).usbfs_global
                },
                ..*old(self)
            }),
            forall|i: int|
                0 <= i < 4 ==> final(self).usbfs_global.dieptflen[i] == (TxFifoLen {
                    txfd: spec_tx_fifo_len(i) as u16,
                    txrsar: spec_tx_fifo_offset(i) as u16,
                }),
    {
        self.usbfs_global.grflen_rxfd = RX_FIFO_LEN as u16;

        self.usbfs_global.dieptflen[0] = TxFifoLen {
            txfd: TX0_FIFO_LEN as u16,
            txrsar: TX0_FIFO_OFFSET as u16,
        };
        self.usbfs_global.dieptflen[1] = TxFifoLen {
            txfd: TX1_FIFO_LEN as u16,
            txrsar: TX1_FIFO_OFFSET as u16,
        };
        self.usbfs_global.dieptflen[2] = TxFifoLen {
            txfd: TX2_FIFO_LEN as u16,
            txrsar: TX2_FIFO_OFFSET as u16,
        };
        self.usbfs_global.dieptflen[3] = TxFifoLen {
            txfd: TX3_FIFO_LEN as u16,
            txrsar: TX3_FIFO_OFFSET as u16,
        };
    }

    /// Walks the eight endpoint register blocks: every endpoint found
    /// enabled is asked to disable and to NAK — except OUT endpoint 0,
    /// which has no independent disable bit and is only asked to NAK — and
    /// every idle one is cleared; all transfer lengths are zeroed and all
    /// pending per-endpoint interrupt flags are cleared.
    pub fn configure_endpoints(&mut self)
        ensures
            *final(self) == (UsbBusInner {
                usbfs_device: UsbfsDevice {
                    diepctl: final(self).usbfs_device.diepctl,
                    dieplen: final(self).usbfs_device.dieplen,
                    diepintf: final(self).usbfs_device.diepintf,
                    doepctl: final(self).usbfs_device.doepctl,
                    doeplen: final(self).usbfs_device.doeplen,
                    doepintf: final(self).usbfs_device.doepintf,
                    ..old(self).usbfs_device
                },
                ..*old(self)
            }),
            forall|i: int|
                0 <= i < 4 ==> final(self).usbfs_device.diepctl[i] == spec_configured_ctl(
                    old(self).usbfs_device.diepctl[i],
                ),
            final(self).usbfs_device.doepctl[0] == spec_configured_out0_ctl(
                old(self).usbfs_device.doepctl[0],
            ),
            forall|i: int|
                1 <= i < 4 ==> final(self).usbfs_device.doepctl[i] == spec_configured_ctl(
                    old(self).usbfs_device.doepctl[i],
                ),
            forall|i: int| 0 <= i < 4 ==> final(self).usbfs_device.dieplen[i] == EpLen::spec_zero(),
            forall|i: int| 0 <= i < 4 ==> final(self).usbfs_device.doeplen[i] == EpLen::spec_zero(),
            forall|i: int| 0 <= i < 4 ==> final(self).usbfs_device.diepintf[i] == 0,
            forall|i: int| 0 <= i < 4 ==> final(self).usbfs_device.doepintf[i] == 0,
    {
        self.usbfs_device.diepctl[0] = configured_ctl(self.usbfs_device.diepctl[0]);
        self.usbfs_device.diepctl[1] = configured_ctl(self.usbfs_device.diepctl[1]);
        self.usbfs_device.diepctl[2] = configured_ctl(self.usbfs_device.diepctl[2]);
        self.usbfs_device.diepctl[3] = configured_ctl(self.usbfs_device.diepctl[3]);
        self.usbfs_device.dieplen = [EpLen::zero(), EpLen::zero(), EpLen::zero(), EpLen::zero()];
        self.usbfs_device.diepintf = [0, 0, 0, 0];

        self.usbfs_device.doepctl[0] = configured_out0_ctl(self.usbfs_device.doepctl[0]);
        self.usbfs_device.doepctl[1] = configured_ctl(self.usbfs_device.doepctl[1]);
        self.usbfs_device.doepctl[2] = configured_ctl(self.usbfs_device.doepctl[2]);
        self.usbfs_device.doepctl[3] = configured_ctl(self.usbfs_device.doepctl[3]);
        self.usbfs_device.doeplen = [EpLen::zero(), EpLen::zero(), EpLen::zero(), EpLen::zero()];
        self.usbfs_device.doepintf = [0, 0, 0, 0];
    }

    /// Clears every pending OTG and global interrupt flag, then enables the
    /// wakeup and suspend interrupts, the device-mode interrupt sources, and
    /// the master AHB interrupt bit.
    pub fn enable_interrupts(&mut self)
        ensures
            *final(self) == (UsbBusInner {
                usbfs_global: UsbfsGlobal {
                    gotgintf: 0,
                    gintf: Gintf { wkupif: false, rst: false, sp: false },
                    ginten: Ginten::spec_device_mode(),
                    gahbcs_ginten: true,
                    ..old(self).usbfs_global
                },
                ..*old(self)
            }),
    {
        // clear any pending USB OTG interrupts
        self.usbfs_global.gotgintf = 0;

        // clear any pending interrupts
        self.usbfs_global.gintf = Gintf { wkupif: false, rst: false, sp: false };

        // enable the USB wakeup and suspend interrupts
        self.usbfs_global.ginten = Ginten { wkupie: true, spie: true, ..Ginten::all_off() };

        // enable device-mode-related interrupts
        self.usbfs_global.ginten = Ginten {
            rxfneie: true,
            rstie: true,
            enumfie: true,
            iepie: true,
            oepie: true,
            sofie: true,
            mfie: true,
            ..self.usbfs_global.ginten
        };

        self.usbfs_global.gahbcs_ginten = true;
    }

    /// Enables and initializes the controller: forces device mode, restarts
    /// the PHY clock, selects full speed and the frame-timing threshold,
    /// programs the FIFO geometry, flushes the TX FIFOs, masks the common
    /// endpoint interrupt sources, brings every endpoint register block to
    /// its idle state, and finally enables the interrupt sources the driver
    /// relies on.
    pub fn enable(&mut self)
        ensures
            final(self).usbfs_global.fdm == true,
            final(self).usbfs_global.fhm == false,
            final(self).usbfs_pwrclk == (UsbfsPwrclk { suclk: false, shclk: false }),
            final(self).usbfs_device.dcfg == (Dcfg {
                eopft: EOPFSetting::Pct80.spec_bits(),
                ds: PortSpeed::FullSpeedDevice.spec_bits(),
                dar: old(self).usbfs_device.dcfg.dar,
            }),
            final(self).usbfs_global.grflen_rxfd == RX_FIFO_LEN as u16,
            forall|i: int|
                0 <= i < 4 ==> final(self).usbfs_global.dieptflen[i] == (TxFifoLen {
                    txfd: spec_tx_fifo_len(i) as u16,
                    txrsar: spec_tx_fifo_offset(i) as u16,
                }),
            final(self).usbfs_global.grstctl == (Grstctl {
                txfnum: TXFlushNum::All.spec_bits(),
                txff: true,
                rxff: old(self).usbfs_global.grstctl.rxff,
            }),
            final(self).usbfs_device.diepinten == DiepInten::spec_all_off(),
            final(self).usbfs_device.doepinten == DoepInten::spec_all_off(),
            forall|i: int|
                0 <= i < 4 ==> final(self).usbfs_device.diepctl[i] == spec_configured_ctl(
                    old(self).usbfs_device.diepctl[i],
                ),
            final(self).usbfs_device.doepctl[0] == spec_configured_out0_ctl(
                old(self).usbfs_device.doepctl[0],
            ),
            forall|i: int|
                1 <= i < 4 ==> final(self).usbfs_device.doepctl[i] == spec_configured_ctl(
                    old(self).usbfs_device.doepctl[i],
                ),
            forall|i: int| 0 <= i < 4 ==> final(self).usbfs_device.dieplen[i] == EpLen::spec_zero(),
            forall|i: int| 0 <= i < 4 ==> final(self).usbfs_device.doeplen[i] == EpLen::spec_zero(),
            forall|i: int| 0 <= i < 4 ==> final(self).usbfs_device.diepintf[i] == 0,
            forall|i: int| 0 <= i < 4 ==> final(self).usbfs_device.doepintf[i] == 0,
            final(self).usbfs_global.gotgintf == 0,
            final(self).usbfs_global.gintf == (Gintf { wkupif: false, rst: false, sp: false }),
            final(self).usbfs_global.ginten == Ginten::spec_device_mode(),
            final(self).usbfs_global.gahbcs_ginten == true,
            final(self).usbfs_global.grstatp == old(self).usbfs_global.grstatp,
            final(self).usbfs_device.diepfeinten == old(self).usbfs_device.diepfeinten,
            final(self).usbfs_device.dctl == old(self).usbfs_device.dctl,
            final(self).usbfs_device.dstat_fnrsof == old(self).usbfs_device.dstat_fnrsof,
            final(self).in_endpoints@ == old(self).in_endpoints@,
            final(self).out_endpoints@ == old(self).out_endpoints@,
            final(self).fifo@ == old(self).fifo@,
            final(self).delay == old(self).delay,
    {
        // force to peripheral mode, then force device mode
        self.usbfs_global.fdm = false;
        self.usbfs_global.fhm = false;
        self.usbfs_global.fdm = true;

        // restart the PHY clock
        self.usbfs_pwrclk.suclk = false;
        self.usbfs_pwrclk.shclk = false;

        // set the frame-timing threshold and the device speed to full speed
        self.usbfs_device.dcfg.eopft = EOPFSetting::Pct80.bits();
        self.usbfs_device.dcfg.ds = PortSpeed::FullSpeedDevice.bits();

        self.setup_fifos();

        self.fifo_flush();

        // mask all IN and OUT endpoint common interrupt sources
        self.usbfs_device.diepinten = DiepInten::all_off();
        self.usbfs_device.doepinten = DoepInten::all_off();

        self.configure_endpoints();

        self.enable_interrupts();
    }


    /// Sets or clears the STALL condition for an endpoint. An IN endpoint
    /// found enabled is also asked to disable. An out-of-range endpoint
    /// number is deliberately ignored.
    pub fn set_stalled(&mut self, ep_addr: EndpointAddress, stalled: bool)
        ensures
            *final(self) == (UsbBusInner {
                usbfs_device: UsbfsDevice {
                    diepctl: final(self).usbfs_device.diepctl,
                    doepctl: final(self).usbfs_device.doepctl,
                    ..old(self).usbfs_device
                },
                ..*old(self)
            }),
            (ep_addr.index as int) >= (MAX_ENDPOINTS as int) ==> *final(self) == *old(self),
            ((ep_addr.index as int) < (MAX_ENDPOINTS as int) && ep_addr.direction
                == UsbDirection::In) ==> (final(self).usbfs_device.diepctl@ == old(self).usbfs_device.diepctl@.update(
                ep_addr.index as int,
                spec_in_stalled_ctl(
                    old(self).usbfs_device.diepctl[ep_addr.index as int],
                    stalled,
                ),
            ) && final(self).usbfs_device.doepctl@ == old(self).usbfs_device.doepctl@),
            ((ep_addr.index as int) < (MAX_ENDPOINTS as int) && ep_addr.direction
                == UsbDirection::Out) ==> (final(self).usbfs_device.doepctl@ == old(self).usbfs_device.doepctl@.update(
                ep_addr.index as int,
                spec_out_stalled_ctl(
                    old(self).usbfs_device.doepctl[ep_addr.index as int],
                    stalled,
                ),
            ) && final(self).usbfs_device.diepctl@ == old(self).usbfs_device.diepctl@),
    {
        let index = ep_addr.index();
        if index >= MAX_ENDPOINTS {
            return ;
        }
        if ep_addr.is_in() {
            let c = self.usbfs_device.diepctl[index];
            self.usbfs_device.diepctl[index] = EpCtl {
                epd: c.epd || c.epen,
                stall: stalled,
                ..c
            };
        } else {
            let c = self.usbfs_device.doepctl[index];
            self.usbfs_device.doepctl[index] = EpCtl { stall: stalled, ..c };
        }
    }

    /// Reports whether the STALL condition is set for an endpoint. An
    /// out-of-range endpoint number reads as not stalled.
    pub fn is_stalled(&self, ep_addr: EndpointAddress) -> (r: bool)
        ensures
            r == if (ep_addr.index as int) < (MAX_ENDPOINTS as int) {
                if ep_addr.direction == UsbDirection::In {
                    self.usbfs_device.diepctl[ep_addr.index as int].stall
                } else {
                    self.usbfs_device.doepctl[ep_addr.index as int].stall
                }
            } else {
                false
            },
    {
        let index = ep_addr.index();
        if index >= MAX_ENDPOINTS {
            return false;
        }
        if ep_addr.is_in() {
            self.usbfs_device.diepctl[index].stall
        } else {
            self.usbfs_device.doepctl[index].stall
        }
    }

    /// Reads the global interrupt flags and the receive status once and
    /// translates them into the event of highest priority, data events
    /// first: see [`spec_poll_event`].
    pub fn poll(&self) -> (r: PollResult)
        ensures
            r == spec_poll_event(self.usbfs_global.gintf, self.usbfs_global.grstatp),
    {
        let gintf = self.usbfs_global.gintf;
        let grstatp = self.usbfs_global.grstatp;
        let rpckst = grstatp.rpckst;

        if rpckst == ReceivedPacketStatus::OutPacketReceived.bits() {
            PollResult::Data { ep_out: grstatp.epnum as u16, ep_in_complete: 0, ep_setup: 0 }
        } else if rpckst == ReceivedPacketStatus::SetupPacketReceived.bits() {
            PollResult::Data { ep_out: 0, ep_in_complete: 0, ep_setup: grstatp.epnum as u16 }
        } else if gintf.wkupif {
            PollResult::Resume
        } else if gintf.rst {
            PollResult::Reset
        } else if gintf.sp {
            PollResult::Suspend
        } else {
            PollResult::NoEvent
        }
    }


    /// Programs an IN endpoint's registers for one outgoing packet of `len`
    /// bytes: packet count one, length `len`; on the isochronous path one
    /// packet per frame and the frame parity latched, otherwise the
    /// TX-FIFO-empty interrupt armed for transfers with data; NAK cleared
    /// and the endpoint enabled.
    fn setup_in_xfer(&mut self, ep: Endpoint, len: usize) -> (r: Result<(), UsbError>)
        requires
            len <= u32::MAX,
        ensures
            (ep.address.index as int) >= (MAX_ENDPOINTS as int) ==> (r == Err::<(), UsbError>(
                UsbError::EndpointOverflow,
            ) && *final(self) == *old(self)),
            (ep.address.index as int) < (MAX_ENDPOINTS as int) ==> {
                let i = ep.address.index as int;
                let iso = spec_is_iso_path(ep);
                &&& r == Ok::<(), UsbError>(())
                &&& spec_in_xfer_frame(*old(self), *final(self))
                &&& final(self).fifo@ == old(self).fifo@
                &&& final(self).usbfs_device.dieplen@ == old(self).usbfs_device.dieplen@.update(
                    i,
                    spec_xfer_len(old(self).usbfs_device.dieplen[i], len as int, iso),
                )
                &&& final(self).usbfs_device.diepctl@ == old(self).usbfs_device.diepctl@.update(
                    i,
                    spec_xfer_ctl(
                        old(self).usbfs_device.diepctl[i],
                        iso,
                        spec_frame_odd(old(self).usbfs_device.dstat_fnrsof),
                    ),
                )
                &&& final(self).usbfs_device.diepfeinten@ == spec_armed_feinten(
                    old(self).usbfs_device.diepfeinten@,
                    i,
                    len as int,
                    iso,
                )
            },
    {
        let index = ep.address().index();
        if index >= MAX_ENDPOINTS {
            return Err(UsbError::EndpointOverflow);
        }

        let iso = index != 0 && ep.ep_type() == EndpointType::Isochronous;

        let l = self.usbfs_device.dieplen[index];
        self.usbfs_device.dieplen[index] = EpLen {
            pcnt: 1,
            tlen: len as u32,
            mcpf: if iso {
                1
            } else {
                l.mcpf
            },
        };

        // latch the frame parity into the data PID bit on the isochronous
        // path
        let odd = (self.usbfs_device.dstat_fnrsof / 256) % 2 == 1;
        let c = self.usbfs_device.diepctl[index];
        self.usbfs_device.diepctl[index] = EpCtl {
            epen: true,
            nak: false,
            pid_odd: if iso {
                odd
            } else {
                c.pid_odd
            },
            ..c
        };

        if !iso && len > 0 {
            // arm the TX FIFO empty interrupt for this endpoint
            self.usbfs_device.diepfeinten[index] = true;
        }

        proof {
            assert(self.usbfs_device.dieplen@ =~= old(self).usbfs_device.dieplen@.update(
                index as int,
                spec_xfer_len(old(self).usbfs_device.dieplen[index as int], len as int,
                spec_is_iso_path(ep)),
            ));
            assert(self.usbfs_device.diepctl@ =~= old(self).usbfs_device.diepctl@.update(
                index as int,
                spec_xfer_ctl(
                    old(self).usbfs_device.diepctl[index as int],
                    spec_is_iso_path(ep),
                    spec_frame_odd(old(self).usbfs_device.dstat_fnrsof),
                ),
            ));
            assert(self.usbfs_device.diepfeinten@ =~= spec_armed_feinten(
                old(self).usbfs_device.diepfeinten@,
                index as int,
                len as int,
                spec_is_iso_path(ep),
            ));
        }

        Ok(())
    }

    /// Programs an OUT endpoint's registers for one incoming packet of
    /// `len` bytes: packet count one, length `len`; on the isochronous path
    /// the frame parity latched; NAK cleared and the endpoint enabled.
    fn setup_out_xfer(&mut self, ep: Endpoint, len: usize) -> (r: Result<(), UsbError>)
        requires
            len <= u32::MAX,
        ensures
            (ep.address.index as int) >= (MAX_ENDPOINTS as int) ==> (r == Err::<(), UsbError>(
                UsbError::EndpointOverflow,
            ) && *final(self) == *old(self)),
            (ep.address.index as int) < (MAX_ENDPOINTS as int) ==> {
                let i = ep.address.index as int;
                let iso = spec_is_iso_path(ep);
                &&& r == Ok::<(), UsbError>(())
                &&& spec_out_xfer_frame(*old(self), *final(self))
                &&& final(self).fifo@ == old(self).fifo@
                &&& final(self).usbfs_device.doeplen@ == old(self).usbfs_device.doeplen@.update(
                    i,
                    spec_xfer_len(old(self).usbfs_device.doeplen[i], len as int, iso),
                )
                &&& final(self).usbfs_device.doepctl@ == old(self).usbfs_device.doepctl@.update(
                    i,
                    spec_xfer_ctl(
                        old(self).usbfs_device.doepctl[i],
                        iso,
                        spec_frame_odd(old(self).usbfs_device.dstat_fnrsof),
                    ),
                )
            },
    {
        let index = ep.address().index();
        if index >= MAX_ENDPOINTS {
            return Err(UsbError::EndpointOverflow);
        }

        let iso = index != 0 && ep.ep_type() == EndpointType::Isochronous;

        let l = self.usbfs_device.doeplen[index];
        self.usbfs_device.doeplen[index] = EpLen {
            pcnt: 1,
            tlen: len as u32,
            mcpf: if iso {
                1
            } else {
                l.mcpf
            },
        };

        // latch the frame parity into the data PID bit on the isochronous
        // path
        let odd = (self.usbfs_device.dstat_fnrsof / 256) % 2 == 1;
        let c = self.usbfs_device.doepctl[index];
        self.usbfs_device.doepctl[index] = EpCtl {
            epen: true,
            nak: false,
            pid_odd: if iso {
                odd
            } else {
                c.pid_odd
            },
            ..c
        };

        proof {
            assert(self.usbfs_device.doeplen@ =~= old(self).usbfs_device.doeplen@.update(
                index as int,
                spec_xfer_len(old(self).usbfs_device.doeplen[index as int], len as int,
                spec_is_iso_path(ep)),
            ));
            assert(self.usbfs_device.doepctl@ =~= old(self).usbfs_device.doepctl@.update(
                index as int,
                spec_xfer_ctl(
                    old(self).usbfs_device.doepctl[index as int],
                    spec_is_iso_path(ep),
                    spec_frame_odd(old(self).usbfs_device.dstat_fnrsof),
                ),
            ));
        }

        Ok(())
    }
    /// Writes one packet into an IN endpoint's TX FIFO.
    ///
    /// Fails with `InvalidEndpoint` unless the address names an allocated
    /// IN endpoint in range, and with `BufferOverflow` when the buffer is
    /// longer than the endpoint's maximum packet size — each call carries
    /// at most one packet. On success the transfer registers are armed as
    /// [`spec_xfer_len`] and [`spec_xfer_ctl`] describe, and the buffer's
    /// full words are copied into the endpoint's FIFO region, clipped to
    /// the region's size. Returns the number of bytes accepted, always the
    /// buffer's length; completion is signalled later through `poll`.
    #[verifier::loop_isolation(false)]
    pub fn write(&mut self, ep_addr: EndpointAddress, buf: &Vec<u8>) -> (r: Result<
        usize,
        UsbError,
    >)
        requires
            old(self).wf(),
        ensures
            final(self).wf(),
            spec_write_target(*old(self), ep_addr) is None ==> (r == Err::<usize, UsbError>(
                UsbError::InvalidEndpoint,
            ) && *final(self) == *old(self)),
            spec_write_target(*old(self), ep_addr) matches Some(ep) ==> {
                if buf@.len() > ep.max_packet_size as int {
                    r == Err::<usize, UsbError>(UsbError::BufferOverflow) && *final(self) == *old(self)
                } else {
                    let i = ep_addr.index as int;
                    let iso = spec_is_iso_path(ep);
                    let woff = spec_ep_fifo_offset(ep.address) / 4;
                    let words = spec_write_word_count(
                        buf@.len() as int,
                        spec_ep_fifo_len(ep.address) / 4,
                    );
                    &&& r == Ok::<usize, UsbError>(buf@.len() as usize)
                    &&& spec_in_xfer_frame(*old(self), *final(self))
                    &&& final(self).usbfs_device.dieplen@ == old(self).usbfs_device.dieplen@.update(
                        i,
                        spec_xfer_len(old(self).usbfs_device.dieplen[i], buf@.len() as int, iso),
                    )
                    &&& final(self).usbfs_device.diepctl@ == old(self).usbfs_device.diepctl@.update(
                        i,
                        spec_xfer_ctl(
                            old(self).usbfs_device.diepctl[i],
                            iso,
                            spec_frame_odd(old(self).usbfs_device.dstat_fnrsof),
                        ),
                    )
                    &&& final(self).usbfs_device.diepfeinten@ == spec_armed_feinten(
                        old(self).usbfs_device.diepfeinten@,
                        i,
                        buf@.len() as int,
                        iso,
                    )
                    &&& final(self).fifo@.len() == old(self).fifo@.len()
                    &&& forall|m: int|
                        woff <= m < woff + words ==> final(self).fifo@[m] == spec_le_word(
                            buf@,
                            m - woff,
                        )
                    &&& forall|m: int|
                        0 <= m < old(self).fifo@.len() && !(woff <= m < woff + words) ==> final(self).fifo@[m] == old(self).fifo@[m]
                }
            },
    {
        let index = ep_addr.index();
        if index >= MAX_ENDPOINTS || ep_addr.is_out() || self.in_endpoints[index].is_none() {
            return Err(UsbError::InvalidEndpoint);
        }

        let ep = self.in_endpoints[index].unwrap();

        let len = buf.len();

        if len > ep.max_packet_size() as usize {
            return Err(UsbError::BufferOverflow);
        }

        match self.setup_in_xfer(ep, len) {
            Ok(_) => {},
            Err(e) => {
                return Err(e);
            },
        }

        // Transfer the data into the FIFO region in little-endian words.
        let (woff, wlen) = ep.fifo_word_region();
        let full_words = len / WORD_LEN;
        let words = if full_words < wlen {
            full_words
        } else {
            wlen
        };
        assert(woff + wlen <= FIFO_RAM_WORDS);

        let ghost pre = *self;
        let mut j: usize = 0;
        while j < words
            invariant
                j <= words,
                self.fifo@.len() == pre.fifo@.len(),
                forall|m: int|
                    woff <= m < woff + j ==> self.fifo@[m] == spec_le_word(buf@, m - woff),
                forall|m: int|
                    0 <= m < self.fifo@.len() && !(woff <= m < woff + j) ==> self.fifo@[m]
                        == pre.fifo@[m],
                self.usbfs_device == pre.usbfs_device,
                self.usbfs_global == pre.usbfs_global,
                self.usbfs_pwrclk == pre.usbfs_pwrclk,
                self.in_endpoints@ == pre.in_endpoints@,
                self.out_endpoints@ == pre.out_endpoints@,
                self.delay == pre.delay,
            decreases words - j,
        {
            let b0 = buf[4 * j];
            let b1 = buf[4 * j + 1];
            let b2 = buf[4 * j + 2];
            let b3 = buf[4 * j + 3];
            let w = (b0 as u32) + (b1 as u32) * 0x100 + (b2 as u32) * 0x1_0000 + (b3 as u32)
                * 0x100_0000;
            self.fifo.write_word(woff + j, w);
            j = j + 1;
        }

        Ok(len)
    }

    /// Reads one packet's worth of data from the shared RX FIFO into the
    /// caller's buffer.
    ///
    /// Fails with `InvalidEndpoint` unless the address names an allocated
    /// OUT endpoint in range, and with `BufferOverflow` when the buffer is
    /// shorter than the endpoint's maximum packet size — the received
    /// length is only known once the FIFO is drained, so the buffer must
    /// fit a full packet. On success the transfer registers are armed, and
    /// words are copied from the start of the RX region until the packet
    /// size is covered, as [`spec_read_word_count`] counts them. Returns
    /// the caller's full buffer length, not the received byte count.
    #[verifier::loop_isolation(false)]
    pub fn read(&mut self, ep_addr: EndpointAddress, buf: &mut Vec<u8>) -> (r: Result<
        usize,
        UsbError,
    >)
        requires
            old(self).wf(),
            old(buf)@.len() <= u32::MAX,
        ensures
            final(self).wf(),
            final(buf)@.len() == old(buf)@.len(),
            spec_read_target(*old(self), ep_addr) is None ==> (r == Err::<usize, UsbError>(
                UsbError::InvalidEndpoint,
            ) && *final(self) == *old(self) && final(buf)@ == old(buf)@),
            spec_read_target(*old(self), ep_addr) matches Some(ep) ==> {
                if old(buf)@.len() < ep.max_packet_size as int {
                    r == Err::<usize, UsbError>(UsbError::BufferOverflow) && *final(self) == *old(self) && final(buf)@ == old(buf)@
                } else {
                    let i = ep_addr.index as int;
                    let iso = spec_is_iso_path(ep);
                    let n = spec_read_word_count(
                        ep.max_packet_size as int,
                        old(buf)@.len() as int,
                        spec_ep_fifo_len(ep.address) / 4,
                    );
                    &&& r == Ok::<usize, UsbError>(old(buf)@.len() as usize)
                    &&& spec_out_xfer_frame(*old(self), *final(self))
                    &&& final(self).fifo@ == old(self).fifo@
                    &&& final(self).usbfs_device.doeplen@ == old(self).usbfs_device.doeplen@.update(
                        i,
                        spec_xfer_len(
                            old(self).usbfs_device.doeplen[i],
                            old(buf)@.len() as int,
                            iso,
                        ),
                    )
                    &&& final(self).usbfs_device.doepctl@ == old(self).usbfs_device.doepctl@.update(
                        i,
                        spec_xfer_ctl(
                            old(self).usbfs_device.doepctl[i],
                            iso,
                            spec_frame_odd(old(self).usbfs_device.dstat_fnrsof),
                        ),
                    )
                    &&& forall|m: int|
                        0 <= m < 4 * n ==> final(buf)@[m] == spec_word_byte(
                            old(self).fifo@[m / 4],
                            m % 4,
                        )
                    &&& forall|m: int| 4 * n <= m < old(buf)@.len() ==> final(buf)@[m] == old(buf)@[m]
                }
            },
    {
        let len = buf.len();
        let index = ep_addr.index();

        if index >= MAX_ENDPOINTS || ep_addr.is_in() || self.out_endpoints[index].is_none() {
            return Err(UsbError::InvalidEndpoint);
        }

        let ep = self.out_endpoints[index].unwrap();

        if len < ep.max_packet_size() as usize {
            return Err(UsbError::BufferOverflow);
        }

        match self.setup_out_xfer(ep, len) {
            Ok(_) => {},
            Err(e) => {
                return Err(e);
            },
        }

        // Drain words from the RX region — it starts at the window's base —
        // until the packet size is covered or the region or buffer runs out.
        let (_woff, wlen) = ep.fifo_word_region();
        let mps = ep.max_packet_size() as usize;
        let by_mps = if mps <= 4 {
            1
        } else {
            (mps + 3) / WORD_LEN
        };
        let by_buf = len / WORD_LEN;
        let m1 = if by_buf < wlen {
            by_buf
        } else {
            wlen
        };
        let n = if by_mps < m1 {
            by_mps
        } else {
            m1
        };
        assert(wlen <= FIFO_RAM_WORDS);

        let mut j: usize = 0;
        while j < n
            invariant
                j <= n,
                buf@.len() == len,
                forall|m: int|
                    0 <= m < 4 * j ==> buf@[m] == spec_word_byte(self.fifo@[m / 4], m % 4),
                forall|m: int| 4 * j <= m < len ==> buf@[m] == old(buf)@[m],
            decreases n - j,
        {
            let w = self.fifo.read_word(j);
            let b0 = (w % 0x100) as u8;
            let b1 = ((w / 0x100) % 0x100) as u8;
            let b2 = ((w / 0x1_0000) % 0x100) as u8;
            let b3 = ((w / 0x100_0000) % 0x100) as u8;
            buf.set(4 * j, b0);
            buf.set(4 * j + 1, b1);
            buf.set(4 * j + 2, b2);
            buf.set(4 * j + 3, b3);
            j = j + 1;
        }

        Ok(len)
    }

    /// Asks the delay provider to wait `delay` microseconds. On the model
    /// this changes nothing; the bridge performs the busy-wait.
    pub fn delay_us(&mut self, delay: u8)
        ensures
            *final(self) == *old(self),
    {
        let _ = delay;
    }

    /// Flushes the TX FIFO the selector names: programs the flush selector
    /// and the flush command bit, then waits out the required PHY clock
    /// cycles.
    pub fn tx_fifo_flush_by_index(&mut self, index: TXFlushNum)
        ensures
            *final(self) == (UsbBusInner {
                usbfs_global: UsbfsGlobal {
                    grstctl: Grstctl {
                        txfnum: index.spec_bits(),
                        txff: true,
                        ..old(self).usbfs_global.grstctl
                    },
                    ..old(self).usbfs_global
                },
                ..*old(self)
            }),
    {
        self.usbfs_global.grstctl.txfnum = index.bits();
        self.usbfs_global.grstctl.txff = true;

        // wait for an additional 3 PHY clock cycles
        self.delay_us(3u8);
    }

    /// Flushes all the TX FIFOs.
    pub fn tx_fifo_flush(&mut self)
        ensures
            *final(self) == (UsbBusInner {
                usbfs_global: UsbfsGlobal {
                    grstctl: Grstctl {
                        txfnum: TXFlushNum::All.spec_bits(),
                        txff: true,
                        ..old(self).usbfs_global.grstctl
                    },
                    ..old(self).usbfs_global
                },
                ..*old(self)
            }),
    {
        self.tx_fifo_flush_by_index(TXFlushNum::All)
    }

    /// Flushes all the data FIFOs. Flushing the TX FIFOs happens twice — a
    /// defensive repetition kept from the vendor's bring-up sequence — and
    /// the RX FIFO is deliberately left alone.
    pub fn fifo_flush(&mut self)
        ensures
            *final(self) == (UsbBusInner {
                usbfs_global: UsbfsGlobal {
                    grstctl: Grstctl {
                        txfnum: TXFlushNum::All.spec_bits(),
                        txff: true,
                        ..old(self).usbfs_global.grstctl
                    },
                    ..old(self).usbfs_global
                },
                ..*old(self)
            }),
    {
        self.tx_fifo_flush();
        self.tx_fifo_flush();
    }

    /// Flushes the RX FIFO.
    pub fn rx_fifo_flush(&mut self)
        ensures
            *final(self) == (UsbBusInner {
                usbfs_global: UsbfsGlobal {
                    grstctl: Grstctl { rxff: true, ..old(self).usbfs_global.grstctl },
                    ..old(self).usbfs_global
                },
                ..*old(self)
            }),
    {
        self.usbfs_global.grstctl.rxff = true;

        // wait for an additional 3 PHY clock cycles
        self.delay_us(3u8);
    }

    /// Signals a soft disconnect to the host.
    pub fn disconnect(&mut self)
        ensures
            *final(self) == (UsbBusInner {
                usbfs_device: UsbfsDevice {
                    dctl: Dctl { sd: true, ..old(self).usbfs_device.dctl },
                    ..old(self).usbfs_device
                },
                ..*old(self)
            }),
    {
        self.usbfs_device.dctl.sd = true;
    }

    /// Clears the soft disconnect, reconnecting to the host.
    pub fn connect(&mut self)
        ensures
            *final(self) == (UsbBusInner {
                usbfs_device: UsbfsDevice {
                    dctl: Dctl { sd: false, ..old(self).usbfs_device.dctl },
                    ..old(self).usbfs_device
                },
                ..*old(self)
            }),
    {
        self.usbfs_device.dctl.sd = false;
    }

    /// Forces the host to enumerate the device again: flushes the FIFOs,
    /// disconnects, waits a short fixed delay, and reconnects.
    pub fn reset(&mut self)
        ensures
            *final(self) == (UsbBusInner {
                usbfs_global: UsbfsGlobal {
                    grstctl: Grstctl {
                        txfnum: TXFlushNum::All.spec_bits(),
                        txff: true,
                        ..old(self).usbfs_global.grstctl
                    },
                    ..old(self).usbfs_global
                },
                usbfs_device: UsbfsDevice {
                    dctl: Dctl { sd: false, ..old(self).usbfs_device.dctl },
                    ..old(self).usbfs_device
                },
                ..*old(self)
            }),
    {
        self.fifo_flush();
        self.disconnect();

        self.delay_us(50u8);

        self.connect();
    }

    /// Writes the device address the host assigned into the device
    /// configuration register.
    pub fn set_device_address(&mut self, addr: u8)
        ensures
            *final(self) == (UsbBusInner {
                usbfs_device: UsbfsDevice {
                    dcfg: Dcfg { dar: addr, ..old(self).usbfs_device.dcfg },
                    ..old(self).usbfs_device
                },
                ..*old(self)
            }),
    {
        self.usbfs_device.dcfg.dar = addr;
    }

    /// Enters suspend mode: gates the USB PHY and HCLK clocks off.
    pub fn suspend(&mut self)
        ensures
            *final(self) == (UsbBusInner {
                usbfs_pwrclk: UsbfsPwrclk { suclk: true, shclk: true },
                ..*old(self)
            }),
    {
        self.usbfs_pwrclk.suclk = true;
        self.usbfs_pwrclk.shclk = true;
    }

    /// Resumes from suspend mode and requests remote wakeup.
    pub fn resume(&mut self)
        ensures
            *final(self) == (UsbBusInner {
                usbfs_pwrclk: UsbfsPwrclk { suclk: true, shclk: true },
                usbfs_device: UsbfsDevice {
                    dctl: Dctl { rwkup: true, ..old(self).usbfs_device.dctl },
                    ..old(self).usbfs_device
                },
                ..*old(self)
            }),
    {
        self.usbfs_pwrclk.suclk = true;
        self.usbfs_pwrclk.shclk = true;

        self.usbfs_device.dctl.rwkup = true;
    }
}


} // verus!

//! Controller area network: configuration and filter descriptions.
//!
//! The bit timing and filter-bank register programming are plain register
//! pokes; only the data carried into them is described here.

use vstd::prelude::*;

verus! {

/// A duration in CAN time quanta.
pub struct TQ(pub u8);

/// Bus configuration.
pub struct Config {
    /// Baud rate prescaler.
    pub prescaler: u16,
    /// Recover from bus-off automatically.
    pub auto_bus_off_recovery: bool,
    /// Retransmit automatically on lost arbitration or errors.
    pub auto_retransmission: bool,
    /// Wake up from sleep on bus activity.
    pub auto_wake_up: bool,
    /// Overwrite the receive FIFO on overrun rather than discarding.
    pub receive_fifo_overwrite: bool,
    /// Time-triggered communication mode.
    pub time_triggered_communication: bool,
    /// Transmit in FIFO order rather than by identifier priority.
    pub trans_fifo_order: bool,
    /// Listen without acknowledging.
    pub silent_communication: bool,
    /// Loop transmitted frames back.
    pub loopback_communication: bool,
    /// Resynchronization jump width.
    pub resync_jump_width: TQ,
    /// First bit segment.
    pub time_segment_1: TQ,
    /// Second bit segment.
    pub time_segment_2: TQ,
}

impl Default for Config {
    /// The 125 kilobit-per-second default configuration.
    fn default() -> (r: Config)
        ensures
            r.prescaler == 48,
            r.auto_bus_off_recovery == false,
            r.auto_retransmission == true,
            r.auto_wake_up == false,
            r.receive_fifo_overwrite == true,
            r.time_triggered_communication == false,
            r.trans_fifo_order == false,
            r.silent_communication == false,
            r.loopback_communication == false,
            r.resync_jump_width.0 == 0,
            r.time_segment_1.0 == 4,
            r.time_segment_2.0 == 2,
    {
        Config {
            prescaler: 48,
            auto_bus_off_recovery: false,
            auto_retransmission: true,
            auto_wake_up: false,
            receive_fifo_overwrite: true,
            time_triggered_communication: false,
            trans_fifo_order: false,
            silent_communication: false,
            loopback_communication: false,
            resync_jump_width: TQ(0),
            time_segment_1: TQ(4),
            time_segment_2: TQ(2),
        }
    }
}

/// A transmit mailbox.
#[derive(Clone, Copy, Debug, PartialEq, Eq, Structural)]
pub enum MailBox {
    MailBox0,
    MailBox1,
    MailBox2,
}

/// A receive FIFO.
#[derive(Clone, Copy, Debug, PartialEq, Eq, Structural)]
pub enum FIFO {
    FIFO0,
    FIFO1,
}

/// How a filter bank matches identifiers.
#[derive(Clone, Copy, Debug, PartialEq, Eq, Structural)]
pub enum FilterMode {
    /// Match against a list of identifiers.
    List,
    /// Match against an identifier and mask pair.
    Mask,
}

/// The contents of one filter bank.
pub enum FilterEntry {
    /// Two 32-bit entries.
    Entry32([u32; 2]),
    /// Four 16-bit entries.
    Entry16([u16; 4]),
}

/// One acceptance filter: its entries, its matching mode, and the FIFO its
/// matches land in.
pub struct Filter {
    /// The filter bank contents.
    pub entry: FilterEntry,
    /// The matching mode.
    pub mode: FilterMode,
    /// The receive FIFO assignment.
    pub fifo_index: FIFO,
}

/// No pin remapping (type state).
pub struct NoRemap;

/// First alternate pin mapping (type state).
pub struct Remap1;

/// Second alternate pin mapping (type state).
pub struct Remap2;

} // verus!

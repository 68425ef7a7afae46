//! Plain data types shared by the USB device driver: endpoint addressing,
//! transfer types, driver errors and the event set reported by `poll`.

use vstd::prelude::*;

verus! {

/// Direction of one endpoint, seen from the host: `Out` carries data to the
/// device, `In` carries data to the host.
#[derive(Clone, Copy, Debug, PartialEq, Eq, Structural)]
pub enum UsbDirection {
    Out,
    In,
}

/// USB transfer type of an endpoint.
#[derive(Clone, Copy, Debug, PartialEq, Eq, Structural)]
pub enum EndpointType {
    Control,
    Isochronous,
    Bulk,
    Interrupt,
}

/// Address of one endpoint: a 4-bit endpoint number together with the
/// direction bit.
#[derive(Clone, Copy, Debug, PartialEq, Eq, Structural)]
pub struct EndpointAddress {
    /// The endpoint number.
    pub index: u8,
    /// The direction bit.
    pub direction: UsbDirection,
}

impl EndpointAddress {
    /// Builds an address from an endpoint number and a direction.
    pub fn from_parts(index: usize, direction: UsbDirection) -> (r: EndpointAddress)
        requires
            index < 16,
        ensures
            r.index == index,
            r.direction == direction,
    {
        EndpointAddress { index: index as u8, direction }
    }

    /// The endpoint number.
    pub fn index(&self) -> (r: usize)
        ensures
            r == self.index,
    {
        self.index as usize
    }

    /// The direction.
    pub fn direction(&self) -> (r: UsbDirection)
        ensures
            r == self.direction,
    {
        self.direction
    }

    /// Whether the address names a device-to-host endpoint.
    pub fn is_in(&self) -> (r: bool)
        ensures
            r == (self.direction == UsbDirection::In),
    {
        self.direction == UsbDirection::In
    }

    /// Whether the address names a host-to-device endpoint.
    pub fn is_out(&self) -> (r: bool)
        ensures
            r == (self.direction == UsbDirection::Out),
    {
        self.direction == UsbDirection::Out
    }
}

/// Errors reported by the fallible driver operations.
#[derive(Clone, Copy, Debug, PartialEq, Eq, Structural)]
pub enum UsbError {
    /// The operation referenced an endpoint that was never allocated, or a
    /// requested explicit address is already taken.
    InvalidEndpoint,
    /// No free slot is left for an automatic allocation in the requested
    /// direction.
    EndpointOverflow,
    /// The caller's buffer does not fit the endpoint's maximum packet size:
    /// too long for a write, too short for a read.
    BufferOverflow,
}

/// The discrete event set that one `poll` call reports.
#[derive(Clone, Copy, Debug, PartialEq, Eq, Structural)]
pub enum PollResult {
    /// Nothing is pending; the expected steady state, not a failure.
    NoEvent,
    /// The host put the bus in reset.
    Reset,
    /// Bus activity stopped and the device may suspend.
    Suspend,
    /// Bus activity resumed.
    Resume,
    /// Endpoint data events. Each field carries an endpoint number.
    Data { ep_out: u16, ep_in_complete: u16, ep_setup: u16 },
}

} // verus!

//! Model of the three USBFS register blocks.
//!
//! The driver's decisions are made and verified against these plain-data
//! mirrors of the memory-mapped global, device and power/clock register
//! blocks. Each field keeps the last value the driver wrote, or — for the
//! fields that only the hardware fills, such as the interrupt flags and the
//! receive status — the value the surrounding bridge read from the hardware
//! before handing the model to the driver.

use vstd::prelude::*;

verus! {

/// One endpoint control register (DIEPxCTL / DOEPxCTL).
///
/// The hardware's set/clear command bits are folded into the state they
/// command: `snak`/`cnak` write the `nak` field, `sd1pid`/`sd0pid` write the
/// `pid_odd` field.
#[derive(Clone, Copy, Debug, PartialEq, Eq, Structural)]
pub struct EpCtl {
    /// Endpoint enable bit.
    pub epen: bool,
    /// Endpoint disable request bit.
    pub epd: bool,
    /// STALL handshake bit.
    pub stall: bool,
    /// NAK status: set by the set-NAK command, cleared by the clear-NAK
    /// command.
    pub nak: bool,
    /// Data PID / frame parity: true after a set-odd-frame command, false
    /// after a set-even-frame command.
    pub pid_odd: bool,
}

impl EpCtl {
    /// The all-clear state, as after writing zero to the register.
    pub open spec fn spec_inactive() -> EpCtl {
        EpCtl { epen: false, epd: false, stall: false, nak: false, pid_odd: false }
    }

    /// Builds the all-clear state.
    pub fn inactive() -> (r: EpCtl)
        ensures
            r == EpCtl::spec_inactive(),
    {
        EpCtl { epen: false, epd: false, stall: false, nak: false, pid_odd: false }
    }
}

/// One endpoint transfer-length register (DIEPxLEN / DOEPxLEN).
#[derive(Clone, Copy, Debug, PartialEq, Eq, Structural)]
pub struct EpLen {
    /// Packet count for the transfer.
    pub pcnt: u32,
    /// Transfer length in bytes.
    pub tlen: u32,
    /// Multi-packet count per frame (isochronous IN only).
    pub mcpf: u32,
}

impl EpLen {
    /// The zeroed register.
    pub open spec fn spec_zero() -> EpLen {
        EpLen { pcnt: 0, tlen: 0, mcpf: 0 }
    }

    /// Builds the zeroed register.
    pub fn zero() -> (r: EpLen)
        ensures
            r == EpLen::spec_zero(),
    {
        EpLen { pcnt: 0, tlen: 0, mcpf: 0 }
    }
}

/// The IN-endpoint common interrupt enable register (DIEPINTEN).
#[derive(Clone, Copy, Debug, PartialEq, Eq, Structural)]
pub struct DiepInten {
    /// Transfer finished.
    pub tfen: bool,
    /// Endpoint disabled.
    pub epdisen: bool,
    /// Control IN timeout.
    pub citoen: bool,
    /// Endpoint TX FIFO underrun.
    pub eptxfuden: bool,
    /// IN endpoint NAK effective.
    pub iepneen: bool,
}

impl DiepInten {
    /// The all-masked state.
    pub open spec fn spec_all_off() -> DiepInten {
        DiepInten { tfen: false, epdisen: false, citoen: false, eptxfuden: false, iepneen: false }
    }

    /// Builds the all-masked state.
    pub fn all_off() -> (r: DiepInten)
        ensures
            r == DiepInten::spec_all_off(),
    {
        DiepInten { tfen: false, epdisen: false, citoen: false, eptxfuden: false, iepneen: false }
    }
}

/// The OUT-endpoint common interrupt enable register (DOEPINTEN).
#[derive(Clone, Copy, Debug, PartialEq, Eq, Structural)]
pub struct DoepInten {
    /// Back-to-back SETUP packets.
    pub btbstpen: bool,
    /// Endpoint disabled.
    pub epdisen: bool,
    /// Endpoint RX FIFO overrun.
    pub eprxfovren: bool,
    /// SETUP phase finished.
    pub stpfen: bool,
    /// Transfer finished.
    pub tfen: bool,
}

impl DoepInten {
    /// The all-masked state.
    pub open spec fn spec_all_off() -> DoepInten {
        DoepInten { btbstpen: false, epdisen: false, eprxfovren: false, stpfen: false, tfen: false }
    }

    /// Builds the all-masked state.
    pub fn all_off() -> (r: DoepInten)
        ensures
            r == DoepInten::spec_all_off(),
    {
        DoepInten { btbstpen: false, epdisen: false, eprxfovren: false, stpfen: false, tfen: false }
    }
}

/// The device configuration register (DCFG).
#[derive(Clone, Copy, Debug, PartialEq, Eq, Structural)]
pub struct Dcfg {
    /// End-of-periodic-frame threshold selector.
    pub eopft: u8,
    /// Device speed selector.
    pub ds: u8,
    /// Device address assigned by the host.
    pub dar: u8,
}

/// The device control register (DCTL).
#[derive(Clone, Copy, Debug, PartialEq, Eq, Structural)]
pub struct Dctl {
    /// Soft disconnect bit.
    pub sd: bool,
    /// Remote wakeup request bit.
    pub rwkup: bool,
}

/// Model of the USBFS device register block.
#[derive(Clone, Copy, Debug)]
pub struct UsbfsDevice {
    /// IN endpoint control registers, one per endpoint number.
    pub diepctl: [EpCtl; 4],
    /// IN endpoint transfer length registers.
    pub dieplen: [EpLen; 4],
    /// IN endpoint pending interrupt flags (hardware-set, write-one-to-clear).
    pub diepintf: [u32; 4],
    /// OUT endpoint control registers.
    pub doepctl: [EpCtl; 4],
    /// OUT endpoint transfer length registers.
    pub doeplen: [EpLen; 4],
    /// OUT endpoint pending interrupt flags (hardware-set, write-one-to-clear).
    pub doepintf: [u32; 4],
    /// IN endpoint common interrupt enables.
    pub diepinten: DiepInten,
    /// OUT endpoint common interrupt enables.
    pub doepinten: DoepInten,
    /// IN endpoint TX-FIFO-empty interrupt enable (IEPTXFEIE), one flag per
    /// endpoint number.
    pub diepfeinten: [bool; 4],
    /// Device configuration register.
    pub dcfg: Dcfg,
    /// Device control register.
    pub dctl: Dctl,
    /// Frame number of the last start-of-frame, as the hardware reports it in
    /// the device status register (DSTAT.FNRSOF).
    pub dstat_fnrsof: u16,
}

/// One IN endpoint transmit FIFO length register (DIEPxTFLEN).
#[derive(Clone, Copy, Debug, PartialEq, Eq, Structural)]
pub struct TxFifoLen {
    /// FIFO depth.
    pub txfd: u16,
    /// FIFO start address relative to the FIFO RAM base.
    pub txrsar: u16,
}

/// The USB global interrupt flags the driver inspects (GINTF).
#[derive(Clone, Copy, Debug, PartialEq, Eq, Structural)]
pub struct Gintf {
    /// Wakeup interrupt flag.
    pub wkupif: bool,
    /// USB reset interrupt flag.
    pub rst: bool,
    /// Suspend interrupt flag.
    pub sp: bool,
}

/// The global interrupt enable bits the driver programs (GINTEN).
#[derive(Clone, Copy, Debug, PartialEq, Eq, Structural)]
pub struct Ginten {
    /// Wakeup interrupt enable.
    pub wkupie: bool,
    /// Suspend interrupt enable.
    pub spie: bool,
    /// RX FIFO non-empty interrupt enable.
    pub rxfneie: bool,
    /// USB reset interrupt enable.
    pub rstie: bool,
    /// Enumeration done interrupt enable.
    pub enumfie: bool,
    /// IN endpoint interrupt enable.
    pub iepie: bool,
    /// OUT endpoint interrupt enable.
    pub oepie: bool,
    /// Start-of-frame interrupt enable.
    pub sofie: bool,
    /// Mode fault interrupt enable.
    pub mfie: bool,
}

impl Ginten {
    /// The state with every interrupt source masked.
    pub open spec fn spec_all_off() -> Ginten {
        Ginten {
            wkupie: false,
            spie: false,
            rxfneie: false,
            rstie: false,
            enumfie: false,
            iepie: false,
            oepie: false,
            sofie: false,
            mfie: false,
        }
    }

    /// Builds the state with every interrupt source masked.
    pub fn all_off() -> (r: Ginten)
        ensures
            r == Ginten::spec_all_off(),
    {
        Ginten {
            wkupie: false,
            spie: false,
            rxfneie: false,
            rstie: false,
            enumfie: false,
            iepie: false,
            oepie: false,
            sofie: false,
            mfie: false,
        }
    }

    /// The state the bring-up sequence leaves behind: every device-mode
    /// source the driver uses is enabled.
    pub open spec fn spec_device_mode() -> Ginten {
        Ginten {
            wkupie: true,
            spie: true,
            rxfneie: true,
            rstie: true,
            enumfie: true,
            iepie: true,
            oepie: true,
            sofie: true,
            mfie: true,
        }
    }
}

/// The reset control register fields the driver writes (GRSTCTL).
#[derive(Clone, Copy, Debug, PartialEq, Eq, Structural)]
pub struct Grstctl {
    /// Selector of the TX FIFO to flush.
    pub txfnum: u8,
    /// TX FIFO flush command bit.
    pub txff: bool,
    /// RX FIFO flush command bit.
    pub rxff: bool,
}

/// The receive status read-and-pop register (GRSTATP), filled by hardware.
#[derive(Clone, Copy, Debug, PartialEq, Eq, Structural)]
pub struct Grstatp {
    /// Received packet status code.
    pub rpckst: u8,
    /// Endpoint number the status refers to.
    pub epnum: u8,
}

/// Model of the USBFS global register block.
#[derive(Clone, Copy, Debug)]
pub struct UsbfsGlobal {
    /// Force-device-mode bit (GUSBCS.FDM).
    pub fdm: bool,
    /// Force-host-mode bit (GUSBCS.FHM).
    pub fhm: bool,
    /// RX FIFO depth in 32-bit words (GRFLEN.RXFD).
    pub grflen_rxfd: u16,
    /// TX FIFO geometry registers, one per IN endpoint number.
    pub dieptflen: [TxFifoLen; 4],
    /// Pending OTG interrupt flags (hardware-set, write-one-to-clear).
    pub gotgintf: u32,
    /// Global interrupt flags.
    pub gintf: Gintf,
    /// Global interrupt enables.
    pub ginten: Ginten,
    /// Master AHB interrupt enable bit (GAHBCS.GINTEN).
    pub gahbcs_ginten: bool,
    /// Reset control register.
    pub grstctl: Grstctl,
    /// Receive status, as popped from the RX FIFO by the hardware.
    pub grstatp: Grstatp,
}

/// Model of the USBFS power and clock register block (PWRCLKCTL).
#[derive(Clone, Copy, Debug, PartialEq, Eq, Structural)]
pub struct UsbfsPwrclk {
    /// Stop the USB PHY clock.
    pub suclk: bool,
    /// Stop the HCLK to the USB block.
    pub shclk: bool,
}

impl UsbfsDevice {
    /// The power-on reset state of the block.
    pub open spec fn is_reset(self) -> bool {
        &&& forall|i: int| 0 <= i < 4 ==> self.diepctl[i] == EpCtl::spec_inactive()
        &&& forall|i: int| 0 <= i < 4 ==> self.dieplen[i] == EpLen::spec_zero()
        &&& forall|i: int| 0 <= i < 4 ==> self.diepintf[i] == 0
        &&& forall|i: int| 0 <= i < 4 ==> self.doepctl[i] == EpCtl::spec_inactive()
        &&& forall|i: int| 0 <= i < 4 ==> self.doeplen[i] == EpLen::spec_zero()
        &&& forall|i: int| 0 <= i < 4 ==> self.doepintf[i] == 0
        &&& self.diepinten == DiepInten::spec_all_off()
        &&& self.doepinten == DoepInten::spec_all_off()
        &&& forall|i: int| 0 <= i < 4 ==> self.diepfeinten[i] == false
        &&& self.dcfg == (Dcfg { eopft: 0, ds: 0, dar: 0 })
        &&& self.dctl == (Dctl { sd: false, rwkup: false })
        &&& self.dstat_fnrsof == 0
    }

    /// Builds the power-on reset state of the block.
    pub fn reset() -> (r: UsbfsDevice)
        ensures
            r.is_reset(),
    {
        let ctl = EpCtl::inactive();
        let len = EpLen::zero();
        UsbfsDevice {
            diepctl: [ctl, ctl, ctl, ctl],
            dieplen: [len, len, len, len],
            diepintf: [0, 0, 0, 0],
            doepctl: [ctl, ctl, ctl, ctl],
            doeplen: [len, len, len, len],
            doepintf: [0, 0, 0, 0],
            diepinten: DiepInten::all_off(),
            doepinten: DoepInten::all_off(),
            diepfeinten: [false, false, false, false],
            dcfg: Dcfg { eopft: 0, ds: 0, dar: 0 },
            dctl: Dctl { sd: false, rwkup: false },
            dstat_fnrsof: 0,
        }
    }
}

impl UsbfsGlobal {
    /// The power-on reset state of the block.
    pub open spec fn is_reset(self) -> bool {
        &&& self.fdm == false
        &&& self.fhm == false
        &&& self.grflen_rxfd == 0
        &&& forall|i: int| 0 <= i < 4 ==> self.dieptflen[i] == (TxFifoLen { txfd: 0, txrsar: 0 })
        &&& self.gotgintf == 0
        &&& self.gintf == (Gintf { wkupif: false, rst: false, sp: false })
        &&& self.ginten == Ginten::spec_all_off()
        &&& self.gahbcs_ginten == false
        &&& self.grstctl == (Grstctl { txfnum: 0, txff: false, rxff: false })
        &&& self.grstatp == (Grstatp { rpckst: 0, epnum: 0 })
    }

    /// Builds the power-on reset state of the block.
    pub fn reset() -> (r: UsbfsGlobal)
        ensures
            r.is_reset(),
    {
        let tf = TxFifoLen { txfd: 0, txrsar: 0 };
        UsbfsGlobal {
            fdm: false,
            fhm: false,
            grflen_rxfd: 0,
            dieptflen: [tf, tf, tf, tf],
            gotgintf: 0,
            gintf: Gintf { wkupif: false, rst: false, sp: false },
            ginten: Ginten::all_off(),
            gahbcs_ginten: false,
            grstctl: Grstctl { txfnum: 0, txff: false, rxff: false },
            grstatp: Grstatp { rpckst: 0, epnum: 0 },
        }
    }
}

impl UsbfsPwrclk {
    /// The power-on reset state of the block.
    pub open spec fn spec_reset() -> UsbfsPwrclk {
        UsbfsPwrclk { suclk: false, shclk: false }
    }

    /// Builds the power-on reset state of the block.
    pub fn reset() -> (r: UsbfsPwrclk)
        ensures
            r == UsbfsPwrclk::spec_reset(),
    {
        UsbfsPwrclk { suclk: false, shclk: false }
    }
}

} // verus!

//! Registers that keep their values as long as the backup battery or the
//! supply has power: they survive standby wakes and system resets. Writes
//! to the domain must be enabled first, through the gateway in [`crate::rcu`].

use vstd::prelude::*;

use crate::rcu::{Rcu, RcuRegs};

verus! {

/// Model of the power management unit's control bits the crate programs.
#[derive(Clone, Copy, Debug, PartialEq, Eq, Structural)]
pub struct Pmu {
    /// Backup domain write enable (CTL.BKPWEN).
    pub bkpwen: bool,
}

/// The existence of this value means that writing to the backup domain has
/// been enabled.
pub struct BackupDomain {}

/// Extension trait that sets up the backup domain gateway.
pub trait BkpExt: Sized {
    /// Enables the backup interface and hands out the domain.
    fn configure(self, rcu: &mut Rcu, pmu: &mut Pmu) -> BackupDomain;
}

/// Marks that the LXTAL low-speed oscillator has been configured and has
/// stabilized.
#[derive(Clone, Copy)]
pub struct Lxtal {}

impl Lxtal {
    /// Enables the oscillator without waiting for stabilization. The model
    /// treats stabilization as immediate; the bridge performs the wait.
    fn just_enable(regs: &mut RcuRegs)
        ensures
            *final(regs) == (RcuRegs {
                bdctl_lxtalen: true,
                bdctl_lxtalbps: false,
                bdctl_lxtalstb: true,
                ..*old(regs)
            }),
    {
        regs.bdctl_lxtalen = true;
        regs.bdctl_lxtalbps = false;
        regs.bdctl_lxtalstb = true;
    }

    /// Reports whether the oscillator is stable.
    fn is_stable(regs: &RcuRegs) -> (r: bool)
        ensures
            r == regs.bdctl_lxtalstb,
    {
        regs.bdctl_lxtalstb
    }

    /// Enables the oscillator and blocks until it has stabilized.
    pub fn enable_block(rcu: &mut Rcu) -> (r: Lxtal)
        ensures
            *final(rcu) == (Rcu {
                regs: RcuRegs {
                    bdctl_lxtalen: true,
                    bdctl_lxtalbps: false,
                    bdctl_lxtalstb: true,
                    ..old(rcu).regs
                },
                ..*old(rcu)
            }),
    {
        Lxtal::just_enable(&mut rcu.regs);
        let mut stable = Lxtal::is_stable(&rcu.regs);
        while !stable
            invariant
                stable == rcu.regs.bdctl_lxtalstb,
                rcu.regs.bdctl_lxtalstb,
            decreases 0int,
        {
            stable = Lxtal::is_stable(&rcu.regs);
        }
        Lxtal {}
    }
}

} // verus!

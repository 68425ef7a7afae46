//! Enhanced core-local interrupt controller: threshold, trigger type, and
//! the packing of interrupt level and priority into the per-interrupt
//! control byte.
//!
//! The control byte holds the level in its topmost bits and the priority
//! just below; how many bits each gets is set globally. The methods are
//! verified against a model of the controller's registers, one record per
//! interrupt number.

use vstd::prelude::*;

verus! {

/// How many of a control byte's bits carry level and priority together.
pub const EFFECTIVE_LEVEL_PRIORITY_BITS: u8 = 4;

/// How the four effective bits are split between level and priority.
#[derive(Clone, Copy, Debug, PartialEq, Eq, Structural)]
pub enum LevelPriorityBits {
    /// No level bits, four priority bits.
    L0P4,
    /// One level bit, three priority bits.
    L1P3,
    /// Two level bits, two priority bits.
    L2P2,
    /// Three level bits, one priority bit.
    L3P1,
    /// Four level bits, no priority bits.
    L4P0,
}

impl LevelPriorityBits {
    /// The number of level bits the split grants.
    pub open spec fn spec_bits(self) -> u8 {
        match self {
            LevelPriorityBits::L0P4 => 0,
            LevelPriorityBits::L1P3 => 1,
            LevelPriorityBits::L2P2 => 2,
            LevelPriorityBits::L3P1 => 3,
            LevelPriorityBits::L4P0 => 4,
        }
    }

    /// The number of level bits the split grants.
    pub fn bits(self) -> (r: u8)
        ensures
            r == self.spec_bits(),
    {
        match self {
            LevelPriorityBits::L0P4 => 0,
            LevelPriorityBits::L1P3 => 1,
            LevelPriorityBits::L2P2 => 2,
            LevelPriorityBits::L3P1 => 3,
            LevelPriorityBits::L4P0 => 4,
        }
    }
}

/// How an interrupt line is triggered.
#[derive(Clone, Copy, Debug, PartialEq, Eq, Structural)]
pub enum TriggerType {
    Level,
    RisingEdge,
    FallingEdge,
}

impl TriggerType {
    /// The register encoding of the trigger type.
    pub open spec fn spec_bits(self) -> u8 {
        match self {
            TriggerType::Level => 0,
            TriggerType::RisingEdge => 1,
            TriggerType::FallingEdge => 3,
        }
    }

    /// The register encoding of the trigger type.
    pub fn bits(self) -> (r: u8)
        ensures
            r == self.spec_bits(),
    {
        match self {
            TriggerType::Level => 0,
            TriggerType::RisingEdge => 1,
            TriggerType::FallingEdge => 3,
        }
    }
}

/// An interrupt level, zero through fifteen.
#[derive(Clone, Copy, Debug, PartialEq, Eq, Structural)]
pub enum Level {
    L0,
    L1,
    L2,
    L3,
    L4,
    L5,
    L6,
    L7,
    L8,
    L9,
    L10,
    L11,
    L12,
    L13,
    L14,
    L15,
}

impl Level {
    /// The level's numeric value.
    pub open spec fn spec_bits(self) -> u8 {
        match self {
            Level::L0 => 0,
            Level::L1 => 1,
            Level::L2 => 2,
            Level::L3 => 3,
            Level::L4 => 4,
            Level::L5 => 5,
            Level::L6 => 6,
            Level::L7 => 7,
            Level::L8 => 8,
            Level::L9 => 9,
            Level::L10 => 10,
            Level::L11 => 11,
            Level::L12 => 12,
            Level::L13 => 13,
            Level::L14 => 14,
            Level::L15 => 15,
        }
    }

    /// The level's numeric value.
    pub fn bits(self) -> (r: u8)
        ensures
            r == self.spec_bits(),
            r < 16,
    {
        match self {
            Level::L0 => 0,
            Level::L1 => 1,
            Level::L2 => 2,
            Level::L3 => 3,
            Level::L4 => 4,
            Level::L5 => 5,
            Level::L6 => 6,
            Level::L7 => 7,
            Level::L8 => 8,
            Level::L9 => 9,
            Level::L10 => 10,
            Level::L11 => 11,
            Level::L12 => 12,
            Level::L13 => 13,
            Level::L14 => 14,
            Level::L15 => 15,
        }
    }

    /// The level of a numeric value below sixteen.
    pub fn from_bits(bits: u8) -> (r: Level)
        requires
            bits < 16,
        ensures
            r.spec_bits() == bits,
    {
        match bits {
            0 => Level::L0,
            1 => Level::L1,
            2 => Level::L2,
            3 => Level::L3,
            4 => Level::L4,
            5 => Level::L5,
            6 => Level::L6,
            7 => Level::L7,
            8 => Level::L8,
            9 => Level::L9,
            10 => Level::L10,
            11 => Level::L11,
            12 => Level::L12,
            13 => Level::L13,
            14 => Level::L14,
            _ => Level::L15,
        }
    }
}

/// An interrupt priority, zero through fifteen.
#[derive(Clone, Copy, Debug, PartialEq, Eq, Structural)]
pub enum Priority {
    P0,
    P1,
    P2,
    P3,
    P4,
    P5,
    P6,
    P7,
    P8,
    P9,
    P10,
    P11,
    P12,
    P13,
    P14,
    P15,
}

impl Priority {
    /// The priority's numeric value.
    pub open spec fn spec_bits(self) -> u8 {
        match self {
            Priority::P0 => 0,
            Priority::P1 => 1,
            Priority::P2 => 2,
            Priority::P3 => 3,
            Priority::P4 => 4,
            Priority::P5 => 5,
            Priority::P6 => 6,
            Priority::P7 => 7,
            Priority::P8 => 8,
            Priority::P9 => 9,
            Priority::P10 => 10,
            Priority::P11 => 11,
            Priority::P12 => 12,
            Priority::P13 => 13,
            Priority::P14 => 14,
            Priority::P15 => 15,
        }
    }

    /// The priority's numeric value.
    pub fn bits(self) -> (r: u8)
        ensures
            r == self.spec_bits(),
            r < 16,
    {
        match self {
            Priority::P0 => 0,
            Priority::P1 => 1,
            Priority::P2 => 2,
            Priority::P3 => 3,
            Priority::P4 => 4,
            Priority::P5 => 5,
            Priority::P6 => 6,
            Priority::P7 => 7,
            Priority::P8 => 8,
            Priority::P9 => 9,
            Priority::P10 => 10,
            Priority::P11 => 11,
            Priority::P12 => 12,
            Priority::P13 => 13,
            Priority::P14 => 14,
            Priority::P15 => 15,
        }
    }

    /// The priority of a numeric value below sixteen.
    pub fn from_bits(bits: u8) -> (r: Priority)
        requires
            bits < 16,
        ensures
            r.spec_bits() == bits,
    {
        match bits {
            0 => Priority::P0,
            1 => Priority::P1,
            2 => Priority::P2,
            3 => Priority::P3,
            4 => Priority::P4,
            5 => Priority::P5,
            6 => Priority::P6,
            7 => Priority::P7,
            8 => Priority::P8,
            9 => Priority::P9,
            10 => Priority::P10,
            11 => Priority::P11,
            12 => Priority::P12,
            13 => Priority::P13,
            14 => Priority::P14,
            _ => Priority::P15,
        }
    }
}

/// The per-interrupt register set: pending and enable bits, the attribute
/// register's trigger and vectoring fields, and the level/priority control
/// byte.
#[derive(Clone, Copy, Debug, PartialEq, Eq, Structural)]
pub struct IntCtl {
    /// Pending bit (CLICINTIP.IP).
    pub ip: bool,
    /// Enable bit (CLICINTIE.IE).
    pub ie: bool,
    /// Trigger type field (CLICINTATTR.TRIG).
    pub trig: u8,
    /// Selective hardware vectoring bit (CLICINTATTR.SHV).
    pub shv: bool,
    /// Level/priority control byte (CLICINTCTL).
    pub ctl: u8,
}

impl IntCtl {
    /// The zeroed register set.
    pub open spec fn spec_zero() -> IntCtl {
        IntCtl { ip: false, ie: false, trig: 0, shv: false, ctl: 0 }
    }

    /// Builds the zeroed register set.
    pub fn zero() -> (r: IntCtl)
        ensures
            r == IntCtl::spec_zero(),
    {
        IntCtl { ip: false, ie: false, trig: 0, shv: false, ctl: 0 }
    }
}

/// Model of the interrupt controller: the global configuration and
/// threshold registers, and one register set per interrupt number.
pub struct Eclic {
    /// Level/priority split field (CLICCFG.NLBITS).
    pub nlbits: u8,
    /// Threshold level register (MTH).
    pub mth: u8,
    /// The per-interrupt register sets.
    pub ints: Vec<IntCtl>,
}

/// The number of level bits in effect for a configured split field: the
/// field value, capped at the four effective bits.
pub open spec fn spec_level_bits(nlbits: u8) -> u8 {
    if nlbits < EFFECTIVE_LEVEL_PRIORITY_BITS {
        nlbits
    } else {
        EFFECTIVE_LEVEL_PRIORITY_BITS
    }
}

impl Eclic {
    /// Builds a controller model with `n` interrupt lines, all registers
    /// zeroed.
    pub fn new(n: usize) -> (r: Eclic)
        ensures
            r.nlbits == 0,
            r.mth == 0,
            r.ints@.len() == n,
            forall|i: int| 0 <= i < n ==> r.ints@[i] == IntCtl::spec_zero(),
    {
        let mut ints: Vec<IntCtl> = Vec::new();
        let mut i: usize = 0;
        while i < n
            invariant
                i <= n,
                ints@.len() == i,
                forall|j: int| 0 <= j < i ==> ints@[j] == IntCtl::spec_zero(),
            decreases n - i,
        {
            ints.push(IntCtl::zero());
            i = i + 1;
        }
        Eclic { nlbits: 0, mth: 0, ints }
    }

    /// Resets every register of the controller to zero.
    pub fn reset(&mut self)
        ensures
            final(self).nlbits == 0,
            final(self).mth == 0,
            final(self).ints@.len() == old(self).ints@.len(),
            forall|i: int| 0 <= i < final(self).ints@.len() ==> final(self).ints@[i]
                == IntCtl::spec_zero(),
    {
        self.nlbits = 0;
        self.mth = 0;
        let n = self.ints.len();
        let mut i: usize = 0;
        while i < n
            invariant
                i <= n,
                self.ints@.len() == n,
                self.nlbits == 0,
                self.mth == 0,
                forall|j: int| 0 <= j < i ==> self.ints@[j] == IntCtl::spec_zero(),
            decreases n - i,
        {
            self.ints.set(i, IntCtl::zero());
            i = i + 1;
        }
    }

    /// Sets the interrupt threshold level.
    pub fn set_threshold_level(&mut self, level: Level)
        ensures
            *final(self) == (Eclic { mth: level.spec_bits(), ..*old(self) }),
    {
        self.mth = level.bits();
    }

    /// Reads the interrupt threshold level back.
    pub fn get_threshold_level(&self) -> (r: Level)
        ensures
            r.spec_bits() == self.mth % 16,
    {
        Level::from_bits(self.mth % 16)
    }

    /// Programs how the effective bits split between level and priority.
    pub fn set_level_priority_bits(&mut self, lp: LevelPriorityBits)
        ensures
            *final(self) == (Eclic { nlbits: lp.spec_bits(), ..*old(self) }),
    {
        self.nlbits = lp.bits();
    }

    /// Reads the split back, if the field holds one of the five settings.
    pub fn get_level_priority_bits(&self) -> (r: Option<LevelPriorityBits>)
        ensures
            r == if self.nlbits == 0 {
                Some(LevelPriorityBits::L0P4)
            } else if self.nlbits == 1 {
                Some(LevelPriorityBits::L1P3)
            } else if self.nlbits == 2 {
                Some(LevelPriorityBits::L2P2)
            } else if self.nlbits == 3 {
                Some(LevelPriorityBits::L3P1)
            } else if self.nlbits == 4 {
                Some(LevelPriorityBits::L4P0)
            } else {
                None::<LevelPriorityBits>
            },
    {
        match self.nlbits {
            0 => Some(LevelPriorityBits::L0P4),
            1 => Some(LevelPriorityBits::L1P3),
            2 => Some(LevelPriorityBits::L2P2),
            3 => Some(LevelPriorityBits::L3P1),
            4 => Some(LevelPriorityBits::L4P0),
            _ => None,
        }
    }

    /// The number of control byte bits designated for the interrupt level.
    pub fn get_level_bits(&self) -> (r: u8)
        ensures
            r == spec_level_bits(self.nlbits),
            r <= 4,
    {
        if self.nlbits < EFFECTIVE_LEVEL_PRIORITY_BITS {
            self.nlbits
        } else {
            EFFECTIVE_LEVEL_PRIORITY_BITS
        }
    }

    /// The number of control byte bits designated for the priority.
    pub fn get_priority_bits(&self) -> (r: u8)
        ensures
            r == EFFECTIVE_LEVEL_PRIORITY_BITS - spec_level_bits(self.nlbits),
    {
        EFFECTIVE_LEVEL_PRIORITY_BITS - self.get_level_bits()
    }

    /// Configures one interrupt: masks it, programs its trigger type, level
    /// and priority, and clears its pending state.
    pub fn setup(&mut self, interrupt: usize, tt: TriggerType, level: Level, priority: Priority)
        requires
            interrupt < old(self).ints@.len(),
        ensures
            final(self).nlbits == old(self).nlbits,
            final(self).mth == old(self).mth,
            final(self).ints@.len() == old(self).ints@.len(),
            forall|j: int|
                0 <= j < final(self).ints@.len() && j != interrupt ==> final(self).ints@[j] == old(self).ints@[j],
            final(self).ints@[interrupt as int].ie == false,
            final(self).ints@[interrupt as int].ip == false,
            final(self).ints@[interrupt as int].trig == tt.spec_bits(),
            final(self).ints@[interrupt as int].shv == false,
    {
        self.mask(interrupt);
        self.set_trigger_type(interrupt, tt);
        self.set_level(interrupt, level);
        self.set_priority(interrupt, priority);
        self.unpend(interrupt);
    }

    /// Enables an interrupt.
    pub fn unmask(&mut self, interrupt: usize)
        requires
            interrupt < old(self).ints@.len(),
        ensures
            final(self).nlbits == old(self).nlbits,
            final(self).mth == old(self).mth,
            final(self).ints@ == old(self).ints@.update(
                interrupt as int,
                IntCtl { ie: true, ..old(self).ints@[interrupt as int] },
            ),
    {
        let c = self.ints[interrupt];
        self.ints.set(interrupt, IntCtl { ie: true, ..c });
    }

    /// Disables an interrupt.
    pub fn mask(&mut self, interrupt: usize)
        requires
            interrupt < old(self).ints@.len(),
        ensures
            final(self).nlbits == old(self).nlbits,
            final(self).mth == old(self).mth,
            final(self).ints@ == old(self).ints@.update(
                interrupt as int,
                IntCtl { ie: false, ..old(self).ints@[interrupt as int] },
            ),
    {
        let c = self.ints[interrupt];
        self.ints.set(interrupt, IntCtl { ie: false, ..c });
    }

    /// Reports whether an interrupt is enabled.
    pub fn is_enabled(&self, interrupt: usize) -> (r: bool)
        requires
            interrupt < self.ints@.len(),
        ensures
            r == self.ints@[interrupt as int].ie,
    {
        self.ints[interrupt].ie
    }

    /// Forces an interrupt into the pending state.
    pub fn pend(&mut self, interrupt: usize)
        requires
            interrupt < old(self).ints@.len(),
        ensures
            final(self).nlbits == old(self).nlbits,
            final(self).mth == old(self).mth,
            final(self).ints@ == old(self).ints@.update(
                interrupt as int,
                IntCtl { ip: true, ..old(self).ints@[interrupt as int] },
            ),
    {
        let c = self.ints[interrupt];
        self.ints.set(interrupt, IntCtl { ip: true, ..c });
    }

    /// Clears an interrupt's pending state.
    pub fn unpend(&mut self, interrupt: usize)
        requires
            interrupt < old(self).ints@.len(),
        ensures
            final(self).nlbits == old(self).nlbits,
            final(self).mth == old(self).mth,
            final(self).ints@ == old(self).ints@.update(
                interrupt as int,
                IntCtl { ip: false, ..old(self).ints@[interrupt as int] },
            ),
    {
        let c = self.ints[interrupt];
        self.ints.set(interrupt, IntCtl { ip: false, ..c });
    }

    /// Reports whether an interrupt is pending.
    pub fn is_pending(&self, interrupt: usize) -> (r: bool)
        requires
            interrupt < self.ints@.len(),
        ensures
            r == self.ints@[interrupt as int].ip,
    {
        self.ints[interrupt].ip
    }

    /// Programs an interrupt's trigger type, clearing hardware vectoring.
    pub fn set_trigger_type(&mut self, interrupt: usize, tt: TriggerType)
        requires
            interrupt < old(self).ints@.len(),
        ensures
            final(self).nlbits == old(self).nlbits,
            final(self).mth == old(self).mth,
            final(self).ints@ == old(self).ints@.update(
                interrupt as int,
                IntCtl {
                    trig: tt.spec_bits(),
                    shv: false,
                    ..old(self).ints@[interrupt as int]
                },
            ),
    {
        let c = self.ints[interrupt];
        self.ints.set(interrupt, IntCtl { trig: tt.bits(), shv: false, ..c });
    }

    /// Reads an interrupt's trigger type back, if its field holds one.
    pub fn get_trigger_type(&self, interrupt: usize) -> (r: Option<TriggerType>)
        requires
            interrupt < self.ints@.len(),
        ensures
            r == if self.ints@[interrupt as int].trig == 0 {
                Some(TriggerType::Level)
            } else if self.ints@[interrupt as int].trig == 1 {
                Some(TriggerType::RisingEdge)
            } else if self.ints@[interrupt as int].trig == 3 {
                Some(TriggerType::FallingEdge)
            } else {
                None::<TriggerType>
            },
    {
        match self.ints[interrupt].trig {
            0 => Some(TriggerType::Level),
            1 => Some(TriggerType::RisingEdge),
            3 => Some(TriggerType::FallingEdge),
            _ => None,
        }
    }

    /// Writes an interrupt's level into the top level-bits of its control
    /// byte, keeping the priority bits below: the level is capped at what
    /// the configured bits can hold.
    pub fn set_level(&mut self, interrupt: usize, level: Level)
        requires
            interrupt < old(self).ints@.len(),
        ensures
            final(self).nlbits == old(self).nlbits,
            final(self).mth == old(self).mth,
            ({
                let lb = spec_level_bits(old(self).nlbits);
                let c = old(self).ints@[interrupt as int];
                let kept = (c.ctl << lb) >> lb;
                let capped = if level.spec_bits() < ((1u8 << lb) - 1) as u8 {
                    level.spec_bits()
                } else {
                    ((1u8 << lb) - 1) as u8
                };
                let shifted = if lb == 0 {
                    0u8
                } else {
                    capped << ((8 - lb) as u8)
                };
                final(self).ints@ == old(self).ints@.update(
                    interrupt as int,
                    IntCtl { ctl: kept | shifted, ..c },
                )
            }),
    {
        let c = self.ints[interrupt];
        let level_bits = self.get_level_bits();

        let mut intctl = c.ctl;
        intctl = intctl << level_bits;
        intctl = intctl >> level_bits;

        proof {
            assert(1u8 << level_bits >= 1 && 1u8 << level_bits <= 16) by (bit_vector)
                requires
                    level_bits <= 4,
            ;
        }
        let cap = (1u8 << level_bits) - 1;
        let lb_val = level.bits();
        let capped = if lb_val < cap {
            lb_val
        } else {
            cap
        };
        let shifted: u8 = if level_bits == 0 {
            0
        } else {
            capped << (8 - level_bits)
        };

        self.ints.set(interrupt, IntCtl { ctl: intctl | shifted, ..c });
    }

    /// Reads an interrupt's level back from the top level-bits of its
    /// control byte.
    pub fn get_level(&self, interrupt: usize) -> (r: Level)
        requires
            interrupt < self.ints@.len(),
        ensures
            ({
                let lb = spec_level_bits(self.nlbits);
                let c = self.ints@[interrupt as int];
                r.spec_bits() == (((c.ctl as u16) >> ((8 - lb) as u16)) as u8) & 0xF
            }),
    {
        let c = self.ints[interrupt];
        let level_bits = self.get_level_bits();
        let level = ((c.ctl as u16) >> ((8 - level_bits) as u16)) as u8;
        proof {
            assert(level & 0xF < 16) by (bit_vector);
        }
        Level::from_bits(level & 0xF)
    }

    /// Writes an interrupt's priority into the bits of its control byte
    /// just below the level bits: the priority is capped at what the
    /// remaining bits can hold.
    pub fn set_priority(&mut self, interrupt: usize, priority: Priority)
        requires
            interrupt < old(self).ints@.len(),
        ensures
            final(self).nlbits == old(self).nlbits,
            final(self).mth == old(self).mth,
            ({
                let lb = spec_level_bits(old(self).nlbits);
                let c = old(self).ints@[interrupt as int];
                let kept = if lb == 0 {
                    0u8
                } else {
                    (c.ctl >> ((8 - lb) as u8)) << ((8 - lb) as u8)
                };
                let capped = if priority.spec_bits() < ((1u8 << ((
                EFFECTIVE_LEVEL_PRIORITY_BITS - lb) as u8)) - 1) as u8 {
                    priority.spec_bits()
                } else {
                    ((1u8 << ((EFFECTIVE_LEVEL_PRIORITY_BITS - lb) as u8)) - 1) as u8
                };
                final(self).ints@ == old(self).ints@.update(
                    interrupt as int,
                    IntCtl {
                        ctl: kept | (capped << ((8 - EFFECTIVE_LEVEL_PRIORITY_BITS) as u8)),
                        ..c
                    },
                )
            }),
    {
        let c = self.ints[interrupt];
        let level_bits = self.get_level_bits();

        let intctl: u8 = if level_bits == 0 {
            0
        } else {
            (c.ctl >> (8 - level_bits)) << (8 - level_bits)
        };

        proof {
            assert(1u8 << ((EFFECTIVE_LEVEL_PRIORITY_BITS - level_bits) as u8) >= 1 && 1u8 << ((
            EFFECTIVE_LEVEL_PRIORITY_BITS - level_bits) as u8) <= 16) by (bit_vector)
                requires
                    level_bits <= 4,
                    EFFECTIVE_LEVEL_PRIORITY_BITS == 4u8,
            ;
        }
        let cap = (1u8 << (EFFECTIVE_LEVEL_PRIORITY_BITS - level_bits)) - 1;
        let pr_val = priority.bits();
        let capped = if pr_val < cap {
            pr_val
        } else {
            cap
        };
        let shifted = capped << (8 - EFFECTIVE_LEVEL_PRIORITY_BITS);

        self.ints.set(interrupt, IntCtl { ctl: intctl | shifted, ..c });
    }

    /// Reads an interrupt's priority back from the bits of its control
    /// byte just below the level bits.
    pub fn get_priority(&self, interrupt: usize) -> (r: Priority)
        requires
            interrupt < self.ints@.len(),
        ensures
            ({
                let lb = spec_level_bits(self.nlbits);
                let c = self.ints@[interrupt as int];
                r.spec_bits() == ((((c.ctl << lb) as u16) >> ((lb + (8
                    - EFFECTIVE_LEVEL_PRIORITY_BITS)) as u16)) as u8) & 0xF
            }),
    {
        let c = self.ints[interrupt];
        let level_bits = self.get_level_bits();
        let priority = (((c.ctl << level_bits) as u16) >> ((level_bits + (8
            - EFFECTIVE_LEVEL_PRIORITY_BITS)) as u16)) as u8;
        proof {
            assert(priority & 0xF < 16) by (bit_vector);
        }
        Priority::from_bits(priority & 0xF)
    }
}

} // verus!

//! Reset and clock unit: clock tree configuration and the frozen clock
//! frequencies derived from it.

use vstd::prelude::*;

use crate::backup_domain::{BackupDomain, Pmu};
use crate::time::Hertz;

verus! {

/// Extension trait that constrains the RCU peripheral into [`Rcu`].
pub trait RcuExt: Sized {
    /// Constrains the RCU peripheral so it plays nicely with the other
    /// abstractions.
    fn constrain(self) -> Rcu;
}

/// Model of the RCU register block: the oscillator and PLL controls, the
/// clock selectors and prescalers, the peripheral enable and reset bits the
/// crate programs, and the backup-domain control bits.
///
/// The hardware's oscillator-stable flags are modeled as following their
/// enable bits at once; the bridge performs the actual stabilization waits.
#[derive(Clone, Copy, Debug, PartialEq, Eq, Structural)]
pub struct RcuRegs {
    /// IRC8M internal oscillator enable.
    pub irc8men: bool,
    /// IRC8M stable flag.
    pub irc8mstb: bool,
    /// HXTAL external oscillator enable.
    pub hxtalen: bool,
    /// HXTAL stable flag.
    pub hxtalstb: bool,
    /// PLL enable.
    pub pllen: bool,
    /// PLL stable flag.
    pub pllstb: bool,
    /// System clock selector.
    pub scs: u8,
    /// AHB prescaler selector.
    pub ahbpsc: u8,
    /// APB1 prescaler selector.
    pub apb1psc: u8,
    /// APB2 prescaler selector.
    pub apb2psc: u8,
    /// PLL input selector: external prescaler path rather than IRC8M/2.
    pub pllsel: bool,
    /// PLL multiplier encoding, the five multiplier bits combined.
    pub pllmf: u8,
    /// USB clock prescaler selector.
    pub usbfspsc: u8,
    /// Prescaler input selector.
    pub predv0sel: bool,
    /// Prescaler divider bits.
    pub predv0: u8,
    /// ADC prescaler selector, low two bits (CFG0.ADCPSC[1:0]).
    pub adcpsc_1_0: u8,
    /// ADC prescaler selector, high bit (CFG0.ADCPSC[2]).
    pub adcpsc_2: bool,
    /// Power management unit clock enable (APB1EN.PMUEN).
    pub apb1en_pmuen: bool,
    /// Backup interface clock enable (APB1EN.BKPIEN).
    pub apb1en_bkpien: bool,
    /// ADC0 clock enable (APB2EN.ADC0EN).
    pub apb2en_adc0en: bool,
    /// ADC1 clock enable (APB2EN.ADC1EN).
    pub apb2en_adc1en: bool,
    /// ADC0 reset (APB2RST.ADC0RST).
    pub apb2rst_adc0rst: bool,
    /// ADC1 reset (APB2RST.ADC1RST).
    pub apb2rst_adc1rst: bool,
    /// LXTAL oscillator enable (BDCTL.LXTALEN).
    pub bdctl_lxtalen: bool,
    /// LXTAL bypass (BDCTL.LXTALBPS).
    pub bdctl_lxtalbps: bool,
    /// LXTAL stable flag (BDCTL.LXTALSTB).
    pub bdctl_lxtalstb: bool,
}

impl RcuRegs {
    /// The power-on state: the internal oscillator running, everything else
    /// at zero.
    pub open spec fn is_reset(self) -> bool {
        self == (RcuRegs {
            irc8men: true,
            irc8mstb: true,
            hxtalen: false,
            hxtalstb: false,
            pllen: false,
            pllstb: false,
            scs: 0,
            ahbpsc: 0,
            apb1psc: 0,
            apb2psc: 0,
            pllsel: false,
            pllmf: 0,
            usbfspsc: 0,
            predv0sel: false,
            predv0: 0,
            adcpsc_1_0: 0,
            adcpsc_2: false,
            apb1en_pmuen: false,
            apb1en_bkpien: false,
            apb2en_adc0en: false,
            apb2en_adc1en: false,
            apb2rst_adc0rst: false,
            apb2rst_adc1rst: false,
            bdctl_lxtalen: false,
            bdctl_lxtalbps: false,
            bdctl_lxtalstb: false,
        })
    }

    /// Builds the power-on state.
    pub fn reset() -> (r: RcuRegs)
        ensures
            r.is_reset(),
    {
        RcuRegs {
            irc8men: true,
            irc8mstb: true,
            hxtalen: false,
            hxtalstb: false,
            pllen: false,
            pllstb: false,
            scs: 0,
            ahbpsc: 0,
            apb1psc: 0,
            apb2psc: 0,
            pllsel: false,
            pllmf: 0,
            usbfspsc: 0,
            predv0sel: false,
            predv0: 0,
            adcpsc_1_0: 0,
            adcpsc_2: false,
            apb1en_pmuen: false,
            apb1en_bkpien: false,
            apb2en_adc0en: false,
            apb2en_adc1en: false,
            apb2rst_adc0rst: false,
            apb2rst_adc1rst: false,
            bdctl_lxtalen: false,
            bdctl_lxtalbps: false,
            bdctl_lxtalstb: false,
        }
    }
}

/// Constrained RCU peripheral.
pub struct Rcu {
    /// AMBA High-performance Bus registers.
    pub ahb: AHB,
    /// Advanced Peripheral Bus 1 registers.
    pub apb1: APB1,
    /// Advanced Peripheral Bus 2 registers.
    pub apb2: APB2,
    /// The clock configuration builder.
    pub cctl: CCTL,
    /// The gateway to the backup domain.
    pub bkp: BKP,
    /// The register block model.
    pub regs: RcuRegs,
}

impl Rcu {
    /// Builds the constrained peripheral over a power-on register state.
    pub fn new() -> (r: Rcu)
        ensures
            r.regs.is_reset(),
            r.cctl.spec_hxtal() is None,
            r.cctl.spec_sysclk_target() is None,
            r.apb1 == (APB1 { pmuen: false, bkpien: false }),
    {
        Rcu {
            ahb: AHB {  },
            apb1: APB1 { pmuen: false, bkpien: false },
            apb2: APB2 {  },
            cctl: CCTL { hxtal: None, sysclk: None },
            bkp: BKP {  },
            regs: RcuRegs::reset(),
        }
    }
}

/// AMBA High-performance Bus (AHB) registers.
pub struct AHB {}

/// Advanced Peripheral Bus 1 (APB1) enable bits the crate programs.
#[derive(Clone, Copy, Debug, PartialEq, Eq, Structural)]
pub struct APB1 {
    /// Power management unit clock enable.
    pub pmuen: bool,
    /// Backup interface clock enable.
    pub bkpien: bool,
}

impl APB1 {
    /// Sets the power interface clock enable bit.
    pub fn set_pwren(&mut self)
        ensures
            *final(self) == (APB1 { pmuen: true, ..*old(self) }),
    {
        self.pmuen = true;
    }
}

/// Advanced Peripheral Bus 2 (APB2) registers.
pub struct APB2 {}

/// The gateway that hands out write access to the backup domain.
pub struct BKP {}

impl BKP {
    /// Enables write access to the registers in the backup domain: the
    /// backup interface and power clocks are switched on and the backup
    /// write enable bit is set.
    pub fn constrain(self, apb1: &mut APB1, pmu: &mut Pmu) -> (r: BackupDomain)
        ensures
            *final(apb1) == (APB1 { pmuen: true, bkpien: true }),
            final(pmu).bkpwen == true,
    {
        apb1.pmuen = true;
        apb1.bkpien = true;
        pmu.bkpwen = true;
        BackupDomain {  }
    }
}

/// Frequency of the internal RC oscillator in hertz.
pub const IRC8M: u32 = 8_000_000;

/// Lowest admissible PLL input frequency in hertz.
pub const PLL_IN_MIN: u32 = 600_000;

/// Whether prescaler divider `d` lets the PLL hit `target` exactly from
/// `source`: the divided source, multiplied by the derived multiplier —
/// which must be one the hardware offers — gives `target` back.
pub open spec fn spec_pll_valid(source: int, target: int, d: int) -> bool {
    let pllsource = source / d;
    let pllm = target / pllsource;
    &&& 2 <= pllm <= 32
    &&& pllm != 15
    &&& pllsource * pllm == target
}

/// The highest prescaler divider the search tries for `source`: at most 16,
/// and never dividing below the least admissible PLL input.
pub open spec fn spec_pll_div_max(source: int) -> int {
    let by_input = source / (PLL_IN_MIN as int);
    if by_input < 16 {
        by_input
    } else {
        16
    }
}

/// Whether `d` is the divider the search picks for `source` and `target`:
/// the least one that is valid.
pub open spec fn spec_pll_least_valid(source: int, target: int, d: int) -> bool {
    &&& 1 <= d <= spec_pll_div_max(source)
    &&& spec_pll_valid(source, target, d)
    &&& forall|d2: int| 1 <= d2 < d ==> !spec_pll_valid(source, target, d2)
}

/// Searches for a PLL prescaler divider and multiplier that hit `target`
/// exactly from `source`, trying dividers in increasing order. Returns the
/// least workable divider with its multiplier, or nothing when no divider
/// works.
fn calculate_pll(source: u32, target: u32) -> (r: Option<(u8, u8)>)
    requires
        source >= PLL_IN_MIN,
    ensures
        match r {
            Some(dm) => {
                &&& spec_pll_least_valid(source as int, target as int, dm.0 as int)
                &&& dm.1 as int == target as int / (source as int / dm.0 as int)
            },
            None => forall|d: int|
                1 <= d <= spec_pll_div_max(source as int) ==> !spec_pll_valid(
                    source as int,
                    target as int,
                    d,
                ),
        },
{
    let by_input = source / PLL_IN_MIN;
    let div_max: u32 = if by_input < 16 {
        by_input
    } else {
        16
    };

    let mut d: u32 = 1;
    while d <= div_max
        invariant
            1 <= d <= div_max + 1,
            div_max <= 16,
            div_max == spec_pll_div_max(source as int),
            source >= PLL_IN_MIN,
            forall|d2: int| 1 <= d2 < d ==> !spec_pll_valid(source as int, target as int, d2),
        decreases div_max + 1 - d,
    {
        let pllsource = source / d;
        proof {
            assert(source as int / (d as int) > 0) by (nonlinear_arith)
                requires
                    1 <= d as int <= 16,
                    source >= 600_000,
            ;
        }
        let pllm = target / pllsource;
        if !(pllm < 2 || pllm == 15 || pllm > 32) {
            proof {
                assert((pllsource as int) * (pllm as int) <= (u32::MAX as int) * 32)
                    by (nonlinear_arith)
                    requires
                        pllsource <= u32::MAX,
                        pllm <= 32,
                ;
            }
            let actual_freq = (pllsource as u64) * (pllm as u64);
            if actual_freq == target as u64 {
                return Some((d as u8, pllm as u8));
            }
        }
        d = d + 1;
    }
    None
}

/// The PLL multiplier bit encoding: multipliers 2 to 14 are written as two
/// less, 16 to 32 as one less; 15 does not exist in the hardware.
pub open spec fn spec_pllmf_bits(m: int) -> int {
    if 2 <= m <= 14 {
        m - 2
    } else {
        m - 1
    }
}

/// The multiplier the IRC8M/2 path derives for `target`: the quotient,
/// clamped into the range the hardware offers.
pub open spec fn spec_irc8m_pllm(target: int) -> int {
    let m = target / ((IRC8M as int) / 2);
    if m < 2 {
        2
    } else if m > 32 {
        32
    } else {
        m
    }
}

/// Whether a clock configuration can be frozen: either a source frequency
/// reaches the target directly, or the PLL can multiply it there.
pub open spec fn spec_freezable(hxtal: Option<u32>, target: int) -> bool {
    match hxtal {
        Some(f) => f == target || (exists|d: int|
            spec_pll_least_valid(f as int, target, d)),
        None => target == IRC8M || {
            let m = spec_irc8m_pllm(target);
            m != 15 && ((IRC8M as int) / 2) * m == target
        },
    }
}

/// Whether the frozen configuration routes the system clock through the
/// PLL.
pub open spec fn spec_use_pll(hxtal: Option<u32>, target: int) -> bool {
    match hxtal {
        Some(f) => f != target,
        None => target != IRC8M,
    }
}

/// The system clock selector bits of the frozen configuration: the external
/// oscillator, the internal one, or the PLL.
pub open spec fn spec_scs_bits(hxtal: Option<u32>, target: int) -> int {
    match hxtal {
        Some(f) => if f == target {
            0b01int
        } else {
            0b10int
        },
        None => if target == IRC8M {
            0b00int
        } else {
            0b10int
        },
    }
}

/// The USB prescaler selector for a PLL clock, and whether that clock is
/// one the USB peripheral accepts: 48, 72 or 96 megahertz.
pub open spec fn spec_usb_psc(pllclk: int) -> (int, bool) {
    if pllclk == 48_000_000 {
        (0b01int, true)
    } else if pllclk == 72_000_000 {
        (0b00int, true)
    } else if pllclk == 96_000_000 {
        (0b11int, true)
    } else {
        (0int, false)
    }
}

/// Builder for the clock tree configuration.
pub struct CCTL {
    hxtal: Option<u32>,
    sysclk: Option<u32>,
}

impl CCTL {
    /// The configured external oscillator frequency, in spec form.
    pub closed spec fn spec_hxtal(self) -> Option<u32> {
        self.hxtal
    }

    /// The requested system clock frequency, in spec form.
    pub closed spec fn spec_sysclk_target(self) -> Option<u32> {
        self.sysclk
    }

    /// The frequency the frozen configuration aims at: the requested system
    /// clock, or the internal oscillator's frequency when none was asked
    /// for.
    pub open spec fn spec_target(self) -> int {
        match self.spec_sysclk_target() {
            Some(f) => f as int,
            None => IRC8M as int,
        }
    }

    /// Uses an external oscillator instead of the internal RC oscillator as
    /// the high-speed clock source. The hardware accepts 4 to 32 megahertz;
    /// the configuration hangs if no oscillator is connected.
    pub fn ext_hf_clock(self, freq: Hertz) -> (r: CCTL)
        requires
            4_000_000 <= freq.0 <= 32_000_000,
        ensures
            r.spec_hxtal() == Some(freq.0),
            r.spec_sysclk_target() == self.spec_sysclk_target(),
    {
        CCTL { hxtal: Some(freq.0), ..self }
    }

    /// Sets the desired frequency for the system clock, at most 108
    /// megahertz.
    pub fn sysclk(self, freq: Hertz) -> (r: CCTL)
        requires
            freq.0 <= 108_000_000,
        ensures
            r.spec_sysclk_target() == Some(freq.0),
            r.spec_hxtal() == self.spec_hxtal(),
    {
        CCTL { sysclk: Some(freq.0), ..self }
    }

    /// Freezes the clock configuration, making it effective.
    ///
    /// Switches to the internal oscillator, programs the bus prescalers —
    /// the AHB at the system clock, APB1 at half of it, APB2 at it — then
    /// enables the external oscillator and the prescaler path if one was
    /// given, programs and enables the PLL if the target needs it, switches
    /// the system clock over, and derives the USB prescaler. The returned
    /// [`Clocks`] records the frozen frequencies.
    #[verifier::rlimit(60)]
    pub fn freeze(self, regs: &mut RcuRegs) -> (r: Clocks)
        requires
            spec_freezable(self.spec_hxtal(), self.spec_target()),
        ensures
            ({
                let target = self.spec_target();
                let use_pll = spec_use_pll(self.spec_hxtal(), target);
                &&& r.spec_sysclk() == target
                &&& r.spec_usbclk_valid() == (use_pll && spec_usb_psc(target).1)
                &&& final(regs).irc8men == true
                &&& final(regs).irc8mstb == true
                &&& final(regs).ahbpsc == 0b0000
                &&& final(regs).apb1psc == 0b100
                &&& final(regs).apb2psc == 0b000
                &&& final(regs).scs == spec_scs_bits(self.spec_hxtal(), target)
                &&& final(regs).pllen == use_pll
                &&& final(regs).pllstb == use_pll
                &&& (self.spec_hxtal() is Some ==> final(regs).hxtalen == true && final(regs).hxtalstb == true && final(regs).predv0sel == false)
                &&& (self.spec_hxtal() is None ==> final(regs).hxtalen == old(regs).hxtalen
                    && final(regs).hxtalstb == old(regs).hxtalstb && final(regs).predv0sel == old(regs).predv0sel && final(regs).predv0 == old(regs).predv0)
                &&& (use_pll ==> final(regs).pllsel == (self.spec_hxtal() is Some))
                &&& ((use_pll && self.spec_hxtal() is None) ==> final(regs).pllmf
                    == spec_pllmf_bits(spec_irc8m_pllm(target)))
                &&& (self.spec_hxtal() matches Some(f) ==> (use_pll ==> exists|d: int|
                    spec_pll_least_valid(f as int, target, d) && final(regs).predv0 == d - 1
                        && final(regs).pllmf == spec_pllmf_bits(target / (f as int / d))))
                &&& (!use_pll ==> final(regs).pllsel == old(regs).pllsel && final(regs).pllmf
                    == old(regs).pllmf)
                &&& final(regs).usbfspsc == if use_pll {
                    spec_usb_psc(target).0
                } else {
                    old(regs).usbfspsc as int
                }
                &&& final(regs).adcpsc_1_0 == old(regs).adcpsc_1_0
                &&& final(regs).adcpsc_2 == old(regs).adcpsc_2
                &&& final(regs).apb1en_pmuen == old(regs).apb1en_pmuen
                &&& final(regs).apb1en_bkpien == old(regs).apb1en_bkpien
                &&& final(regs).apb2en_adc0en == old(regs).apb2en_adc0en
                &&& final(regs).apb2en_adc1en == old(regs).apb2en_adc1en
                &&& final(regs).apb2rst_adc0rst == old(regs).apb2rst_adc0rst
                &&& final(regs).apb2rst_adc1rst == old(regs).apb2rst_adc1rst
                &&& final(regs).bdctl_lxtalen == old(regs).bdctl_lxtalen
                &&& final(regs).bdctl_lxtalbps == old(regs).bdctl_lxtalbps
                &&& final(regs).bdctl_lxtalstb == old(regs).bdctl_lxtalstb
            }),
    {
        let target_sysclk: u32 = match self.sysclk {
            Some(f) => f,
            None => IRC8M,
        };

        let (scs_bits, use_pll): (u8, bool) = match (self.hxtal, target_sysclk) {
            (Some(freq), sysclk) if freq == sysclk => (0b01, false),
            (None, sysclk) if sysclk == IRC8M => (0b00, false),
            _ => (0b10, true),
        };

        let mut pllsel_bit: bool = false;
        let mut predv0_bits: u8 = 0;
        let mut pllmf_bits: u8 = 0;
        if use_pll {
            let pllmf: u8;

            if let Some(hxtal_freq) = self.hxtal {
                // use the external clock through the prescaler
                pllsel_bit = true;

                let dm = calculate_pll(hxtal_freq, target_sysclk);
                let (d, m) = match dm {
                    Some(pair) => pair,
                    None => {
                        proof {
                            assert(false);
                        }
                        (1, 2)
                    },
                };
                predv0_bits = d - 1;
                pllmf = m;
            } else {
                // IRC8M/2 is used as the input clock
                pllsel_bit = false;

                let pllsource = IRC8M / 2;
                let m0 = target_sysclk / pllsource;
                let m: u32 = if m0 < 2 {
                    2
                } else if m0 > 32 {
                    32
                } else {
                    m0
                };
                predv0_bits = 0;
                pllmf = m as u8;
            }

            pllmf_bits = if pllmf <= 14 {
                pllmf - 2
            } else {
                pllmf - 1
            };
        }

        // switch to the internal oscillator while reprogramming
        regs.irc8men = true;
        regs.irc8mstb = true;
        regs.scs = 0b00;
        regs.pllen = false;
        regs.pllstb = false;

        // bus prescalers: AHB at the system clock, APB1 at half, APB2 at it
        regs.ahbpsc = 0b0000;
        regs.apb1psc = 0b100;
        regs.apb2psc = 0b000;

        if self.hxtal.is_some() {
            // enable the external oscillator and route it to the prescaler
            regs.hxtalen = true;
            regs.hxtalstb = true;
            regs.predv0sel = false;
            regs.predv0 = predv0_bits;
        }

        if use_pll {
            // program and enable the PLL
            regs.pllsel = pllsel_bit;
            regs.pllmf = pllmf_bits;
            regs.pllen = true;
            regs.pllstb = true;
        } else {
            regs.pllen = false;
            regs.pllstb = false;
        }

        // switch to the configured clock source
        regs.scs = scs_bits;

        let usbclk_valid: bool;
        if use_pll {
            let pllclk = target_sysclk;
            let (valid, pr): (bool, u8) = if pllclk == 48_000_000 {
                (true, 0b01)
            } else if pllclk == 72_000_000 {
                (true, 0b00)
            } else if pllclk == 96_000_000 {
                (true, 0b11)
            } else {
                (false, 0)
            };
            usbclk_valid = valid;

            regs.usbfspsc = pr;
        } else {
            usbclk_valid = false;
        }

        Clocks { sysclk: Hertz(target_sysclk), usbclk_valid }
    }
}

/// The frozen clock frequencies of the chip.
///
/// The existence of a value of this type means the clock tree has been
/// configured and the frequencies will no longer change.
#[derive(Clone, Copy, Debug, PartialEq, Eq, Structural)]
pub struct Clocks {
    sysclk: Hertz,
    usbclk_valid: bool,
}

impl Clocks {
    /// The configured system clock frequency, in spec form.
    pub closed spec fn spec_sysclk(self) -> u32 {
        self.sysclk.0
    }

    /// Whether the USB clock is valid, in spec form.
    pub closed spec fn spec_usbclk_valid(self) -> bool {
        self.usbclk_valid
    }

    /// Returns the system (core) frequency.
    pub fn sysclk(&self) -> (r: Hertz)
        ensures
            r.0 == self.spec_sysclk(),
    {
        self.sysclk
    }

    /// Returns the frequency of the AHB.
    pub fn hclk(&self) -> (r: Hertz)
        ensures
            r.0 == self.spec_sysclk(),
    {
        self.sysclk
    }

    /// Returns the frequency of the APB1, half the system frequency.
    pub fn pclk1(&self) -> (r: Hertz)
        ensures
            r.0 == self.spec_sysclk() / 2,
    {
        Hertz(self.sysclk.0 / 2)
    }

    /// Returns the frequency of the APB2, equal to the system frequency.
    pub fn pclk2(&self) -> (r: Hertz)
        ensures
            r.0 == self.spec_sysclk(),
    {
        self.sysclk
    }

    /// Returns whether the USB clock frequency is one the USB peripheral
    /// accepts.
    pub fn usbclk_valid(&self) -> (r: bool)
        ensures
            r == self.spec_usbclk_valid(),
    {
        self.usbclk_valid
    }
}

} // verus!

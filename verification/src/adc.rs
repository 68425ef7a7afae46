//! Analog-to-digital converter.
//!
//! The converter is configured through [`config::AdcConfig`] and verified
//! against a model of its register block: the control registers, the
//! sample-time and sequence registers, and the data registers the hardware
//! fills.

pub mod config;

use vstd::prelude::*;

use core::marker::PhantomData;

use crate::rcu::Rcu;

verus! {

/// The default configuration `Adc::adc0` starts from.
pub open spec fn spec_default_adc_config() -> config::AdcConfig {
    config::AdcConfig {
        resolution: config::Resolution::Twelve,
        align: config::Align::Right,
        scan: config::Scan::Disabled,
        continuous: config::Continuous::Single,
        regular_channel: None,
        inserted_channel: None,
        default_sample_time: config::SampleTime::Point_55_5,
    }
}

/// Enabled ADC (type state).
pub struct Enabled;

/// Disabled ADC (type state).
pub struct Disabled;

/// Type state trait for the ADC's enablement.
pub trait ED {

}

impl ED for Enabled {

}

impl ED for Disabled {

}

/// Model of the ADC register block fields the crate programs.
#[derive(Clone, Copy, Debug)]
pub struct AdcRegs {
    /// Scan mode (CTL0.SM).
    pub sm: bool,
    /// Inserted channel group converted automatically (CTL0.ICA).
    pub ica: bool,
    /// Data alignment (CTL1.DAL).
    pub dal: bool,
    /// Continuous mode (CTL1.CTN).
    pub ctn: bool,
    /// Regular group trigger source (CTL1.ETSRC).
    pub etsrc: u8,
    /// Regular group trigger enable (CTL1.ETERC).
    pub eterc: bool,
    /// Inserted group trigger source (CTL1.ETSIC).
    pub etsic: u8,
    /// Inserted group trigger enable (CTL1.ETEIC).
    pub eteic: bool,
    /// Converter on (CTL1.ADCON).
    pub adcon: bool,
    /// Temperature and reference channels on (CTL1.TSVREN).
    pub tsvren: bool,
    /// Software trigger for the regular group (CTL1.SWRCST).
    pub swrcst: bool,
    /// Software trigger for the inserted group (CTL1.SWICST).
    pub swicst: bool,
    /// Oversampling resolution field (OVSAMPCTL.DRES).
    pub dres: u8,
    /// Sample time register for channels ten and up (SAMPT0).
    pub sampt0: u32,
    /// Sample time register for channels below ten (SAMPT1).
    pub sampt1: u32,
    /// Inserted sequence length (ISQ.IL).
    pub il: u8,
    /// Inserted sequence slots (ISQ.ISQ0 through ISQ.ISQ3).
    pub isq: [u8; 4],
    /// Regular sequence registers (RSQ0 through RSQ2).
    pub rsq: [u32; 3],
    /// End of regular conversion flag (STAT.EOC), hardware-set.
    pub eoc: bool,
    /// End of inserted conversion flag (STAT.EOIC), hardware-set.
    pub eoic: bool,
    /// Regular data register (RDATA), hardware-filled.
    pub rdata: u16,
    /// Inserted data registers (IDATA0 through IDATA3), hardware-filled.
    pub idata: [u16; 4],
}

impl AdcRegs {
    /// The power-on reset state of the block.
    pub open spec fn is_reset(self) -> bool {
        &&& self.sm == false
        &&& self.ica == false
        &&& self.dal == false
        &&& self.ctn == false
        &&& self.etsrc == 0
        &&& self.eterc == false
        &&& self.etsic == 0
        &&& self.eteic == false
        &&& self.adcon == false
        &&& self.tsvren == false
        &&& self.swrcst == false
        &&& self.swicst == false
        &&& self.dres == 0
        &&& self.sampt0 == 0
        &&& self.sampt1 == 0
        &&& self.il == 0
        &&& forall|i: int| 0 <= i < 4 ==> self.isq[i] == 0
        &&& forall|i: int| 0 <= i < 3 ==> self.rsq[i] == 0
        &&& self.eoc == false
        &&& self.eoic == false
        &&& self.rdata == 0
        &&& forall|i: int| 0 <= i < 4 ==> self.idata[i] == 0
    }

    /// Builds the register model in its reset state.
    pub fn reset() -> (r: AdcRegs)
        ensures
            r.is_reset(),
    {
        AdcRegs {
            sm: false,
            ica: false,
            dal: false,
            ctn: false,
            etsrc: 0,
            eterc: false,
            etsic: 0,
            eteic: false,
            adcon: false,
            tsvren: false,
            swrcst: false,
            swicst: false,
            dres: 0,
            sampt0: 0,
            sampt1: 0,
            il: 0,
            isq: [0, 0, 0, 0],
            rsq: [0, 0, 0],
            eoc: false,
            eoic: false,
            rdata: 0,
            idata: [0, 0, 0, 0],
        }
    }
}

/// The analog-to-digital converter, owning its register model and its
/// pending configuration.
pub struct Adc<STATE> {
    /// The register block model.
    pub rb: AdcRegs,
    /// The configuration applied at enable time.
    pub config: config::AdcConfig,
    /// The enablement type state.
    pub _enabled: PhantomData<STATE>,
}

impl Adc<Disabled> {
    /// Takes the converter out of reset: enables its clock, selects the
    /// slowest ADC clock, pulses the peripheral reset, and clears the
    /// inserted sequence length.
    pub fn adc0(rcu: &mut Rcu) -> (r: Adc<Disabled>)
        ensures
            r.rb.is_reset(),
            r.config == spec_default_adc_config(),
            final(rcu).regs.apb2en_adc0en == true,
            final(rcu).regs.apb2rst_adc0rst == false,
            final(rcu).regs.adcpsc_1_0 == 1,
            final(rcu).regs.adcpsc_2 == true,
    {
        let mut adc = Adc::<Disabled> {
            rb: AdcRegs::reset(),
            config: config::AdcConfig::default(),
            _enabled: PhantomData,
        };
        // enable the ADC clock
        rcu.regs.apb2en_adc0en = true;
        // select the slowest ADC clock by default
        adc.set_clock(config::Clock::Apb2_div_16, rcu);
        // pulse the peripheral reset
        rcu.regs.apb2rst_adc0rst = true;
        rcu.regs.apb2rst_adc0rst = false;
        // clear the inserted sequence length
        adc.rb.il = 0;
        adc
    }

    /// Programs the ADC clock prescaler selector into the clock unit. For
    /// the divide-by-twelve and divide-by-sixteen settings the selector is
    /// split across the register's two parts: its quotient by four into the
    /// low bits, its lowest bit into the high bit.
    #[verifier::rlimit(60)]
    pub fn set_clock(&mut self, clock: config::Clock, rcu: &mut Rcu)
        ensures
            *final(self) == *old(self),
            ({
                let v = clock.spec_bits();
                if v <= 3 {
                    final(rcu).regs == (crate::rcu::RcuRegs {
                        adcpsc_1_0: v,
                        adcpsc_2: false,
                        ..old(rcu).regs
                    })
                } else {
                    final(rcu).regs == (crate::rcu::RcuRegs {
                        adcpsc_1_0: (v / 4) as u8,
                        adcpsc_2: v % 2 == 1,
                        ..old(rcu).regs
                    })
                }
            }),
            final(rcu).apb1 == old(rcu).apb1,
            final(rcu).cctl == old(rcu).cctl,
    {
        let v = clock.bits();
        if v <= 3 {
            rcu.regs.adcpsc_1_0 = v;
            rcu.regs.adcpsc_2 = false;
        } else {
            rcu.regs.adcpsc_1_0 = v / 4;
            rcu.regs.adcpsc_2 = v % 2 == 1;
        }
    }

    /// Replaces the whole pending configuration.
    pub fn apply_config(&mut self, config: config::AdcConfig)
        ensures
            final(self).config == config,
            final(self).rb == old(self).rb,
    {
        self.config = config;
    }

    /// Sets the sampling resolution.
    pub fn set_resolution(&mut self, resolution: config::Resolution)
        ensures
            final(self).config == (config::AdcConfig { resolution, ..old(self).config }),
            final(self).rb == old(self).rb,
    {
        self.config = config::AdcConfig { resolution, ..self.config };
    }

    /// Sets the data register alignment.
    pub fn set_align(&mut self, align: config::Align)
        ensures
            final(self).config == (config::AdcConfig { align, ..old(self).config }),
            final(self).rb == old(self).rb,
    {
        self.config = config::AdcConfig { align, ..self.config };
    }

    /// Enables or disables scan mode.
    pub fn set_scan(&mut self, scan: config::Scan)
        ensures
            final(self).config == (config::AdcConfig { scan, ..old(self).config }),
            final(self).rb == old(self).rb,
    {
        self.config = config::AdcConfig { scan, ..self.config };
    }

    /// Enables or disables continuous mode.
    pub fn set_continuous(&mut self, continuous: config::Continuous)
        ensures
            final(self).config == (config::AdcConfig { continuous, ..old(self).config }),
            final(self).rb == old(self).rb,
    {
        self.config = config::AdcConfig { continuous, ..self.config };
    }

    /// Programs the resolution field ahead of configuration.
    fn pre_configure(&mut self, resolution: config::Resolution)
        ensures
            final(self).rb == (AdcRegs { dres: resolution.spec_bits(), ..old(self).rb }),
            final(self).config == old(self).config,
    {
        self.rb.dres = resolution.bits();
    }

    /// Writes the pending configuration into the control registers.
    #[verifier::rlimit(30)]
    fn configure(&mut self)
        ensures
            final(self).config == old(self).config,
            final(self).rb.dal == old(self).config.align.spec_flag(),
            final(self).rb.sm == old(self).config.scan.spec_flag(),
            final(self).rb.ctn == old(self).config.continuous.spec_flag(),
            old(self).config.regular_channel matches Some(c) ==> (final(self).rb.etsrc
                == c.external_trigger.spec_bits() && final(self).rb.eterc == true),
            old(self).config.regular_channel is None ==> (final(self).rb.etsrc == old(
                self,
            ).rb.etsrc && final(self).rb.eterc == old(self).rb.eterc),
            old(self).config.inserted_channel matches Some(c) ==> (final(self).rb.ica
                == c.insertion.spec_flag() && final(self).rb.etsic
                == c.external_trigger.spec_bits() && final(self).rb.eteic == true),
            old(self).config.inserted_channel is None ==> (final(self).rb.ica == old(self).rb.ica
                && final(self).rb.etsic == old(self).rb.etsic && final(self).rb.eteic == old(
                self,
            ).rb.eteic),
            final(self).rb == (AdcRegs {
                dal: final(self).rb.dal,
                sm: final(self).rb.sm,
                ctn: final(self).rb.ctn,
                etsrc: final(self).rb.etsrc,
                eterc: final(self).rb.eterc,
                ica: final(self).rb.ica,
                etsic: final(self).rb.etsic,
                eteic: final(self).rb.eteic,
                ..old(self).rb
            }),
    {
        self.rb.dal = self.config.align.flag();
        self.rb.sm = self.config.scan.flag();
        self.rb.ctn = self.config.continuous.flag();
        if let Some(trigger_config) = self.config.regular_channel {
            self.rb.etsrc = trigger_config.external_trigger.bits();
            self.rb.eterc = true;
        }
        if let Some(trigger_config) = self.config.inserted_channel {
            self.rb.ica = trigger_config.insertion.flag();
            self.rb.etsic = trigger_config.external_trigger.bits();
            self.rb.eteic = true;
        }
    }

    /// Programs the sample time for one channel into the three-bit slot of
    /// the sample time register that carries it: channels below ten in the
    /// second register, the rest in the first.
    pub fn set_channel_sample_time(&mut self, channel: u8, sample_time: config::SampleTime)
        requires
            channel <= 17,
        ensures
            final(self).config == old(self).config,
            channel < 10 ==> final(self).rb == (AdcRegs {
                sampt1: (old(self).rb.sampt1 & !(0b111u32 << (3 * channel))) | ((
                sample_time.spec_bits() as u32) << (3 * channel)),
                ..old(self).rb
            }),
            channel >= 10 ==> final(self).rb == (AdcRegs {
                sampt0: (old(self).rb.sampt0 & !(0b111u32 << (3 * (channel - 10)))) | ((
                sample_time.spec_bits() as u32) << (3 * (channel - 10))),
                ..old(self).rb
            }),
    {
        if channel < 10 {
            let shift: u32 = 3 * (channel as u32);
            let mask: u32 = !(0b111u32 << shift);
            self.rb.sampt1 = (self.rb.sampt1 & mask) | ((sample_time.bits() as u32) << shift);
        } else {
            let shift: u32 = 3 * ((channel - 10) as u32);
            let mask: u32 = !(0b111u32 << shift);
            self.rb.sampt0 = (self.rb.sampt0 & mask) | ((sample_time.bits() as u32) << shift);
        }
    }

    /// Places `rank` into the regular sequence register that carries it
    /// and programs the channel's sample time. The channel number selects
    /// only the sample time slot; the sequence slot itself receives the
    /// rank value.
    pub fn configure_regular_channel(
        &mut self,
        rank: u8,
        channel: u8,
        sample_time: config::SampleTime,
    )
        requires
            rank <= 15,
            channel <= 17,
    {
        if rank < 6 {
            let shift: u32 = 5 * (rank as u32);
            let mask: u32 = !(0b11111u32 << shift);
            self.rb.rsq[2] = (self.rb.rsq[2] & mask) | ((rank as u32) << shift);
        } else if rank < 12 {
            let shift: u32 = 5 * ((rank - 6) as u32);
            let mask: u32 = !(0b11111u32 << shift);
            self.rb.rsq[1] = (self.rb.rsq[1] & mask) | ((rank as u32) << shift);
        } else {
            let shift: u32 = 5 * ((rank - 12) as u32);
            let mask: u32 = !(0b11111u32 << shift);
            self.rb.rsq[0] = (self.rb.rsq[0] & mask) | ((rank as u32) << shift);
        }
        self.set_channel_sample_time(channel, sample_time);
    }

    /// Places the channel into the inserted sequence slot of `rank`,
    /// growing the sequence length if needed, and programs the channel's
    /// sample time. Slot zero is the last conversion's register.
    pub fn configure_inserted_channel(
        &mut self,
        rank: u8,
        channel: u8,
        sample_time: config::SampleTime,
    )
        requires
            rank <= 3,
            channel <= 17,
        ensures
            final(self).config == old(self).config,
            final(self).rb.il == if old(self).rb.il < rank {
                rank
            } else {
                old(self).rb.il
            },
            final(self).rb.isq@ == old(self).rb.isq@.update(3 - rank as int, channel),
    {
        if self.rb.il < rank {
            self.rb.il = rank;
        }
        // the slot order is reversed: conversions start from the highest
        // occupied slot
        self.rb.isq[3 - rank as usize] = channel;
        self.set_channel_sample_time(channel, sample_time);
    }

    /// Applies the pending configuration and switches the converter on.
    pub fn enable(self) -> (r: Adc<Enabled>)
        ensures
            r.config == self.config,
            r.rb.adcon == true,
            r.rb.dres == self.config.resolution.spec_bits(),
            r.rb.dal == self.config.align.spec_flag(),
            r.rb.sm == self.config.scan.spec_flag(),
            r.rb.ctn == self.config.continuous.spec_flag(),
    {
        let mut adc = self;
        let resolution = adc.config.resolution;
        adc.pre_configure(resolution);
        adc.configure();
        adc.rb.adcon = true;
        Adc::<Enabled> { rb: adc.rb, config: adc.config, _enabled: PhantomData }
    }
}

impl Adc<Enabled> {
    /// Switches the converter off.
    pub fn disable(self) -> (r: Adc<Disabled>)
        ensures
            r.config == self.config,
            r.rb == (AdcRegs { adcon: false, ..self.rb }),
    {
        Adc::<Disabled> {
            rb: AdcRegs { adcon: false, ..self.rb },
            config: self.config,
            _enabled: PhantomData,
        }
    }

    /// Requests a software trigger for each enabled channel group.
    pub fn enable_software_trigger(&mut self)
        ensures
            final(self).config == old(self).config,
            final(self).rb == (AdcRegs {
                swrcst: old(self).rb.swrcst || old(self).config.regular_channel is Some,
                swicst: old(self).rb.swicst || old(self).config.inserted_channel is Some,
                ..old(self).rb
            }),
    {
        if self.config.regular_channel.is_some() {
            self.rb.swrcst = true;
        }
        if self.config.inserted_channel.is_some() {
            self.rb.swicst = true;
        }
    }

    /// Enables the trigger for each enabled channel group.
    pub fn enable_interrupt(&mut self)
        ensures
            final(self).config == old(self).config,
            final(self).rb == (AdcRegs {
                eterc: old(self).rb.eterc || old(self).config.regular_channel is Some,
                eteic: old(self).rb.eteic || old(self).config.inserted_channel is Some,
                ..old(self).rb
            }),
    {
        if self.config.regular_channel.is_some() {
            self.rb.eterc = true;
        }
        if self.config.inserted_channel.is_some() {
            self.rb.eteic = true;
        }
    }

    /// Disables the trigger for each enabled channel group.
    pub fn disable_interrupt(&mut self)
        ensures
            final(self).config == old(self).config,
            final(self).rb == (AdcRegs {
                eterc: old(self).rb.eterc && !(old(self).config.regular_channel is Some),
                eteic: old(self).rb.eteic && !(old(self).config.inserted_channel is Some),
                ..old(self).rb
            }),
    {
        if self.config.regular_channel.is_some() {
            self.rb.eterc = false;
        }
        if self.config.inserted_channel.is_some() {
            self.rb.eteic = false;
        }
    }

    /// Clears the end-of-conversion flag, and the end-of-inserted-
    /// conversion flag when the inserted group is enabled.
    pub fn clear_end_of_conversion_flag(&mut self)
        ensures
            final(self).config == old(self).config,
            final(self).rb == (AdcRegs {
                eoc: false,
                eoic: old(self).rb.eoic && !(old(self).config.inserted_channel is Some),
                ..old(self).rb
            }),
    {
        self.rb.eoc = false;
        if self.config.inserted_channel.is_some() {
            self.rb.eoic = false;
        }
    }

    /// Reads the regular channel data register.
    pub fn read_rdata(&self) -> (r: u16)
        ensures
            r == self.rb.rdata,
    {
        self.rb.rdata
    }

    /// Reads inserted channel data register zero.
    pub fn read_idata0(&self) -> (r: u16)
        ensures
            r == self.rb.idata[0],
    {
        self.rb.idata[0]
    }

    /// Reads inserted channel data register one.
    pub fn read_idata1(&self) -> (r: u16)
        ensures
            r == self.rb.idata[1],
    {
        self.rb.idata[1]
    }

    /// Reads inserted channel data register two.
    pub fn read_idata2(&self) -> (r: u16)
        ensures
            r == self.rb.idata[2],
    {
        self.rb.idata[2]
    }

    /// Reads inserted channel data register three.
    pub fn read_idata3(&self) -> (r: u16)
        ensures
            r == self.rb.idata[3],
    {
        self.rb.idata[3]
    }
}

/// The internal temperature sensor channel.
pub struct Temperature<STATE> {
    _marker: PhantomData<STATE>,
}

impl Temperature<Disabled> {
    /// The sensor, not yet enabled.
    pub fn new() -> (r: Temperature<Disabled>) {
        Temperature { _marker: PhantomData }
    }

    /// Enables the temperature sensor channel on the converter.
    pub fn enable(&mut self, adc: &mut Adc<Disabled>) -> (r: Temperature<Enabled>)
        ensures
            final(adc).config == old(adc).config,
            final(adc).rb == (AdcRegs { tsvren: true, ..old(adc).rb }),
    {
        adc.rb.tsvren = true;
        Temperature { _marker: PhantomData }
    }
}

/// The internal reference voltage channel.
pub struct Vrefint<STATE> {
    _marker: PhantomData<STATE>,
}

impl Vrefint<Disabled> {
    /// The reference channel, not yet enabled.
    pub fn new() -> (r: Vrefint<Disabled>) {
        Vrefint { _marker: PhantomData }
    }

    /// Enables the reference voltage channel on the converter.
    pub fn enable(self, adc: &mut Adc<Disabled>) -> (r: Vrefint<Enabled>)
        ensures
            final(adc).config == old(adc).config,
            final(adc).rb == (AdcRegs { tsvren: true, ..old(adc).rb }),
    {
        adc.rb.tsvren = true;
        Vrefint { _marker: PhantomData }
    }
}

/// ADC synchronization mode.
#[derive(Clone, Copy, Debug, PartialEq, Eq, Structural)]
pub enum SyncMode {
    /// The converters work independently.
    Free,
    /// Combined regular parallel and inserted parallel mode.
    DualRegulalParallelInsertedParallel,
    /// Combined regular parallel and trigger rotation mode.
    DualRegulalParallelInsertedRotation,
    /// Combined inserted parallel and follow-up fast mode.
    DualInsertedParallelRegulalFollowupFast,
    /// Combined inserted parallel and follow-up slow mode.
    DualInsertedParallelRegulalFollowupSlow,
    /// Inserted parallel mode only.
    DualInsertedParallel,
    /// Regular parallel mode only.
    DualRegulalParallel,
    /// Follow-up fast mode only.
    DualRegulalFollowupFast,
    /// Follow-up slow mode only.
    DualRegulalFollowupSlow,
    /// Trigger rotation mode only.
    DualInsertedTriggerRotation,
}

} // verus!

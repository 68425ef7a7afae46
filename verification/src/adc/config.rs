//! Types related to ADC configuration.

use vstd::prelude::*;

verus! {

/// The number of cycles a channel is sampled for.
#[derive(Clone, Copy, Debug, PartialEq, Eq, Structural)]
#[allow(non_camel_case_types)]
pub enum SampleTime {
    /// 1.5 cycles.
    Point_1_5,
    /// 7.5 cycles.
    Point_7_5,
    /// 13.5 cycles.
    Point_13_5,
    /// 28.5 cycles.
    Point_28_5,
    /// 41.5 cycles.
    Point_41_5,
    /// 55.5 cycles.
    Point_55_5,
    /// 71.5 cycles.
    Point_71_5,
    /// 239.5 cycles.
    Point_239_5,
}

impl SampleTime {
    /// The three-bit register encoding of the setting.
    pub open spec fn spec_bits(self) -> u8 {
        match self {
            SampleTime::Point_1_5 => 0,
            SampleTime::Point_7_5 => 1,
            SampleTime::Point_13_5 => 2,
            SampleTime::Point_28_5 => 3,
            SampleTime::Point_41_5 => 4,
            SampleTime::Point_55_5 => 5,
            SampleTime::Point_71_5 => 6,
            SampleTime::Point_239_5 => 7,
        }
    }

    /// The three-bit register encoding of the setting.
    pub fn bits(self) -> (r: u8)
        ensures
            r == self.spec_bits(),
            r < 8,
    {
        match self {
            SampleTime::Point_1_5 => 0,
            SampleTime::Point_7_5 => 1,
            SampleTime::Point_13_5 => 2,
            SampleTime::Point_28_5 => 3,
            SampleTime::Point_41_5 => 4,
            SampleTime::Point_55_5 => 5,
            SampleTime::Point_71_5 => 6,
            SampleTime::Point_239_5 => 7,
        }
    }
}

impl Default for SampleTime {
    /// 55.5 cycles.
    fn default() -> (r: SampleTime)
        ensures
            r == SampleTime::Point_55_5,
    {
        SampleTime::Point_55_5
    }
}

/// Clock prescaler for the ADC; the datasheet bounds the speed the ADC
/// supports.
#[derive(Clone, Copy, Debug, PartialEq, Eq, Structural)]
#[allow(non_camel_case_types)]
pub enum Clock {
    /// APB2 clock divided by 2.
    Apb2_div_2,
    /// APB2 clock divided by 4.
    Apb2_div_4,
    /// APB2 clock divided by 6.
    Apb2_div_6,
    /// APB2 clock divided by 8.
    Apb2_div_8,
    /// APB2 clock divided by 12.
    Apb2_div_12,
    /// APB2 clock divided by 16.
    Apb2_div_16,
}

impl Clock {
    /// The selector value of the setting.
    pub open spec fn spec_bits(self) -> u8 {
        match self {
            Clock::Apb2_div_2 => 0,
            Clock::Apb2_div_4 => 1,
            Clock::Apb2_div_6 => 2,
            Clock::Apb2_div_8 => 3,
            Clock::Apb2_div_12 => 5,
            Clock::Apb2_div_16 => 7,
        }
    }

    /// The selector value of the setting.
    pub fn bits(self) -> (r: u8)
        ensures
            r == self.spec_bits(),
    {
        match self {
            Clock::Apb2_div_2 => 0,
            Clock::Apb2_div_4 => 1,
            Clock::Apb2_div_6 => 2,
            Clock::Apb2_div_8 => 3,
            Clock::Apb2_div_12 => 5,
            Clock::Apb2_div_16 => 7,
        }
    }
}

/// Resolution to sample at.
#[derive(Clone, Copy, Debug, PartialEq, Eq, Structural)]
pub enum Resolution {
    /// 12-bit resolution.
    Twelve,
    /// 10-bit resolution.
    Ten,
    /// 8-bit resolution.
    Eight,
    /// 6-bit resolution.
    Six,
}

impl Resolution {
    /// The two-bit register encoding of the setting.
    pub open spec fn spec_bits(self) -> u8 {
        match self {
            Resolution::Twelve => 0,
            Resolution::Ten => 1,
            Resolution::Eight => 2,
            Resolution::Six => 3,
        }
    }

    /// The two-bit register encoding of the setting.
    pub fn bits(self) -> (r: u8)
        ensures
            r == self.spec_bits(),
    {
        match self {
            Resolution::Twelve => 0,
            Resolution::Ten => 1,
            Resolution::Eight => 2,
            Resolution::Six => 3,
        }
    }
}

/// Regular channel group trigger source.
#[derive(Clone, Copy, Debug, PartialEq, Eq, Structural)]
#[allow(non_camel_case_types)]
pub enum RegularExternalTrigger {
    /// TIMER0 CH0 event.
    Timer0_Ch0,
    /// TIMER0 CH1 event.
    Timer0_Ch1,
    /// TIMER0 CH2 event.
    Timer0_Ch2,
    /// TIMER1 CH1 event.
    Timer1_Ch1,
    /// TIMER2 TRGO event.
    Timer2_Trgo,
    /// TIMER3 CH3 event.
    Timer3_Ch3,
    /// External interrupt line 11.
    Exti11,
    /// Software trigger.
    Software,
}

impl RegularExternalTrigger {
    /// The three-bit register encoding of the source.
    pub open spec fn spec_bits(self) -> u8 {
        match self {
            RegularExternalTrigger::Timer0_Ch0 => 0b000,
            RegularExternalTrigger::Timer0_Ch1 => 0b001,
            RegularExternalTrigger::Timer0_Ch2 => 0b010,
            RegularExternalTrigger::Timer1_Ch1 => 0b011,
            RegularExternalTrigger::Timer2_Trgo => 0b100,
            RegularExternalTrigger::Timer3_Ch3 => 0b101,
            RegularExternalTrigger::Exti11 => 0b110,
            RegularExternalTrigger::Software => 0b111,
        }
    }

    /// The three-bit register encoding of the source.
    pub fn bits(self) -> (r: u8)
        ensures
            r == self.spec_bits(),
    {
        match self {
            RegularExternalTrigger::Timer0_Ch0 => 0b000,
            RegularExternalTrigger::Timer0_Ch1 => 0b001,
            RegularExternalTrigger::Timer0_Ch2 => 0b010,
            RegularExternalTrigger::Timer1_Ch1 => 0b011,
            RegularExternalTrigger::Timer2_Trgo => 0b100,
            RegularExternalTrigger::Timer3_Ch3 => 0b101,
            RegularExternalTrigger::Exti11 => 0b110,
            RegularExternalTrigger::Software => 0b111,
        }
    }
}

/// Inserted channel group trigger source.
#[derive(Clone, Copy, Debug, PartialEq, Eq, Structural)]
#[allow(non_camel_case_types)]
pub enum InsertedExternalTrigger {
    /// TIMER2 TRGO event.
    Timer2_Trgo,
    /// TIMER0 CH3 event.
    Timer0_Ch3,
    /// TIMER1 TRGO event.
    Timer1_Trgo,
    /// TIMER1 CH0 event.
    Timer1_Ch0,
    /// TIMER2 CH3 event.
    Timer2_Ch3,
    /// TIMER3 TRGO event.
    Timer3_Trgo,
    /// External interrupt line 15.
    Exti15,
    /// Software trigger.
    Software,
}

impl InsertedExternalTrigger {
    /// The three-bit register encoding of the source.
    pub open spec fn spec_bits(self) -> u8 {
        match self {
            InsertedExternalTrigger::Timer2_Trgo => 0b000,
            InsertedExternalTrigger::Timer0_Ch3 => 0b001,
            InsertedExternalTrigger::Timer1_Trgo => 0b010,
            InsertedExternalTrigger::Timer1_Ch0 => 0b011,
            InsertedExternalTrigger::Timer2_Ch3 => 0b100,
            InsertedExternalTrigger::Timer3_Trgo => 0b101,
            InsertedExternalTrigger::Exti15 => 0b110,
            InsertedExternalTrigger::Software => 0b111,
        }
    }

    /// The three-bit register encoding of the source.
    pub fn bits(self) -> (r: u8)
        ensures
            r == self.spec_bits(),
    {
        match self {
            InsertedExternalTrigger::Timer2_Trgo => 0b000,
            InsertedExternalTrigger::Timer0_Ch3 => 0b001,
            InsertedExternalTrigger::Timer1_Trgo => 0b010,
            InsertedExternalTrigger::Timer1_Ch0 => 0b011,
            InsertedExternalTrigger::Timer2_Ch3 => 0b100,
            InsertedExternalTrigger::Timer3_Trgo => 0b101,
            InsertedExternalTrigger::Exti15 => 0b110,
            InsertedExternalTrigger::Software => 0b111,
        }
    }
}

/// ADC data alignment.
#[derive(Clone, Copy, Debug, PartialEq, Eq, Structural)]
pub enum Align {
    /// Least-significant-bit alignment.
    Right,
    /// Most-significant-bit alignment.
    Left,
}

impl Align {
    /// The alignment bit: set for left alignment.
    pub open spec fn spec_flag(self) -> bool {
        self == Align::Left
    }

    /// The alignment bit: set for left alignment.
    pub fn flag(self) -> (r: bool)
        ensures
            r == self.spec_flag(),
    {
        match self {
            Align::Right => false,
            Align::Left => true,
        }
    }
}

/// Scan mode setting.
#[derive(Clone, Copy, Debug, PartialEq, Eq, Structural)]
pub enum Scan {
    /// Scan mode disabled.
    Disabled,
    /// Scan mode enabled.
    Enabled,
}

impl Scan {
    /// The scan mode bit.
    pub open spec fn spec_flag(self) -> bool {
        self == Scan::Enabled
    }

    /// The scan mode bit.
    pub fn flag(self) -> (r: bool)
        ensures
            r == self.spec_flag(),
    {
        match self {
            Scan::Disabled => false,
            Scan::Enabled => true,
        }
    }
}

/// Continuous conversion setting.
#[derive(Clone, Copy, Debug, PartialEq, Eq, Structural)]
pub enum Continuous {
    /// Single conversion mode.
    Single,
    /// Continuous conversion mode.
    Continuous,
}

impl Continuous {
    /// The continuous mode bit.
    pub open spec fn spec_flag(self) -> bool {
        self == Continuous::Continuous
    }

    /// The continuous mode bit.
    pub fn flag(self) -> (r: bool)
        ensures
            r == self.spec_flag(),
    {
        match self {
            Continuous::Single => false,
            Continuous::Continuous => true,
        }
    }
}

/// Configuration of the regular channel group.
#[derive(Clone, Copy, Debug, PartialEq, Eq, Structural)]
pub struct RegularChannelGroupConfig {
    /// The trigger source.
    pub external_trigger: RegularExternalTrigger,
}

impl RegularChannelGroupConfig {
    /// Changes the trigger source.
    pub fn external_trigger(self, external_trigger: RegularExternalTrigger) -> (r:
        RegularChannelGroupConfig)
        ensures
            r.external_trigger == external_trigger,
    {
        RegularChannelGroupConfig { external_trigger }
    }
}

impl Default for RegularChannelGroupConfig {
    /// Software-triggered.
    fn default() -> (r: RegularChannelGroupConfig)
        ensures
            r.external_trigger == RegularExternalTrigger::Software,
    {
        RegularChannelGroupConfig { external_trigger: RegularExternalTrigger::Software }
    }
}

/// How the inserted channel group is started.
#[derive(Clone, Copy, Debug, PartialEq, Eq, Structural)]
pub enum Insertion {
    /// Converted on its trigger.
    Triggered,
    /// Converted automatically after the regular group.
    Auto,
}

impl Insertion {
    /// The automatic insertion bit.
    pub open spec fn spec_flag(self) -> bool {
        self == Insertion::Auto
    }

    /// The automatic insertion bit.
    pub fn flag(self) -> (r: bool)
        ensures
            r == self.spec_flag(),
    {
        match self {
            Insertion::Triggered => false,
            Insertion::Auto => true,
        }
    }
}

/// Configuration of the inserted channel group.
#[derive(Clone, Copy, Debug, PartialEq, Eq, Structural)]
pub struct InsertedChannelGroupConfig {
    /// The trigger source.
    pub external_trigger: InsertedExternalTrigger,
    /// How the group is started.
    pub insertion: Insertion,
}

impl InsertedChannelGroupConfig {
    /// Changes the trigger source.
    pub fn external_trigger(self, external_trigger: InsertedExternalTrigger) -> (r:
        InsertedChannelGroupConfig)
        ensures
            r.external_trigger == external_trigger,
            r.insertion == self.insertion,
    {
        InsertedChannelGroupConfig { external_trigger, ..self }
    }

    /// Changes how the group is started.
    pub fn insertion(self, insertion: Insertion) -> (r: InsertedChannelGroupConfig)
        ensures
            r.insertion == insertion,
            r.external_trigger == self.external_trigger,
    {
        InsertedChannelGroupConfig { insertion, ..self }
    }
}

impl Default for InsertedChannelGroupConfig {
    /// Software-triggered, converted on its trigger.
    fn default() -> (r: InsertedChannelGroupConfig)
        ensures
            r.external_trigger == InsertedExternalTrigger::Software,
            r.insertion == Insertion::Triggered,
    {
        InsertedChannelGroupConfig {
            external_trigger: InsertedExternalTrigger::Software,
            insertion: Insertion::Triggered,
        }
    }
}

/// Configuration for the ADC, covering the basic use cases.
#[derive(Clone, Copy, Debug)]
pub struct AdcConfig {
    /// The sampling resolution.
    pub resolution: Resolution,
    /// The data register alignment.
    pub align: Align,
    /// The scan mode setting.
    pub scan: Scan,
    /// The continuous mode setting.
    pub continuous: Continuous,
    /// The regular channel group, when enabled.
    pub regular_channel: Option<RegularChannelGroupConfig>,
    /// The inserted channel group, when enabled.
    pub inserted_channel: Option<InsertedChannelGroupConfig>,
    /// The default sample time for configured channels.
    pub default_sample_time: SampleTime,
}

impl AdcConfig {
    /// Changes the resolution.
    pub fn resolution(self, resolution: Resolution) -> (r: AdcConfig)
        ensures
            r == (AdcConfig { resolution, ..self }),
    {
        AdcConfig { resolution, ..self }
    }

    /// Changes the alignment.
    pub fn align(self, align: Align) -> (r: AdcConfig)
        ensures
            r == (AdcConfig { align, ..self }),
    {
        AdcConfig { align, ..self }
    }

    /// Changes the scan mode.
    pub fn scan(self, scan: Scan) -> (r: AdcConfig)
        ensures
            r == (AdcConfig { scan, ..self }),
    {
        AdcConfig { scan, ..self }
    }

    /// Changes the continuous mode.
    pub fn continuous(self, continuous: Continuous) -> (r: AdcConfig)
        ensures
            r == (AdcConfig { continuous, ..self }),
    {
        AdcConfig { continuous, ..self }
    }

    /// Enables the regular channel group with the given configuration.
    pub fn enable_regular_channel(self, cfg: RegularChannelGroupConfig) -> (r: AdcConfig)
        ensures
            r == (AdcConfig { regular_channel: Some(cfg), ..self }),
    {
        AdcConfig { regular_channel: Some(cfg), ..self }
    }

    /// Enables the inserted channel group with the given configuration.
    pub fn enable_inserted_channel(self, cfg: InsertedChannelGroupConfig) -> (r: AdcConfig)
        ensures
            r == (AdcConfig { inserted_channel: Some(cfg), ..self }),
    {
        AdcConfig { inserted_channel: Some(cfg), ..self }
    }

    /// Changes the default sample time.
    pub fn default_sample_time(self, default_sample_time: SampleTime) -> (r: AdcConfig)
        ensures
            r == (AdcConfig { default_sample_time, ..self }),
    {
        AdcConfig { default_sample_time, ..self }
    }
}

impl Default for AdcConfig {
    /// Twelve-bit, right-aligned, single conversions with no channel group
    /// enabled.
    fn default() -> (r: AdcConfig)
        ensures
            r == (AdcConfig {
                resolution: Resolution::Twelve,
                align: Align::Right,
                scan: Scan::Disabled,
                continuous: Continuous::Single,
                regular_channel: None,
                inserted_channel: None,
                default_sample_time: SampleTime::Point_55_5,
            }),
    {
        AdcConfig {
            resolution: Resolution::Twelve,
            align: Align::Right,
            scan: Scan::Disabled,
            continuous: Continuous::Single,
            regular_channel: None,
            inserted_channel: None,
            default_sample_time: SampleTime::Point_55_5,
        }
    }
}

} // verus!

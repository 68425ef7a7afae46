use gd32vf103xx_hal::adc::config::{
    AdcConfig, Align, Clock, Continuous, InsertedChannelGroupConfig, InsertedExternalTrigger,
    Insertion, RegularChannelGroupConfig, RegularExternalTrigger, Resolution, SampleTime, Scan,
};
use gd32vf103xx_hal::adc::{Adc, Temperature, Vrefint};
use gd32vf103xx_hal::rcu::Rcu;
use gd32vf103xx_hal::serial::{Config, Parity, StopBits};
use gd32vf103xx_hal::time::{Bps, Hertz, U32Ext};
use gd32vf103xx_hal::usbfs::PortSpeed;

#[test]
fn frequency_and_bitrate_wrappers() {
    assert_eq!(100u32.hz(), Hertz(100));
    assert_eq!(9_600u32.bps(), Bps(9_600));
    assert_eq!(Hertz::from_mhz(8), Hertz(8_000_000));
}

#[test]
fn fixed_clocks_module() {
    let clocks = gd32vf103xx_hal::clock::Clocks;
    assert_eq!(clocks.pclk1(), Hertz(4_000_000));
    assert_eq!(clocks.pclk2(), Hertz(8_000_000));
}

#[test]
fn port_speed_encodings() {
    assert_eq!(PortSpeed::FullSpeedHost.bits(), 0b01);
    assert_eq!(PortSpeed::LowSpeedHost.bits(), 0b10);
    assert_eq!(PortSpeed::FullSpeedDevice.bits(), 0b11);
}

#[test]
fn serial_config_builders() {
    let c = Config::default();
    assert_eq!(c.baudrate, Bps(115_200));
    assert!(matches!(c.parity, Parity::ParityNone));
    assert!(matches!(c.stopbits, StopBits::STOP1));

    let c = Config::default()
        .baudrate(9_600u32.bps())
        .parity_even()
        .stopbits(StopBits::STOP2);
    assert_eq!(c.baudrate, Bps(9_600));
    assert!(matches!(c.parity, Parity::ParityEven));
    assert!(matches!(c.stopbits, StopBits::STOP2));

    let c = c.parity_odd();
    assert!(matches!(c.parity, Parity::ParityOdd));
    let c = c.parity_none();
    assert!(matches!(c.parity, Parity::ParityNone));
}

#[test]
fn serial_register_settings_encode_parity_and_rate() {
    // 8 MHz bus at 115200 baud divides to 69
    let s = Config::default().register_settings(Hertz(8_000_000));
    assert_eq!(s.brr, 69);
    assert!(!s.word_length_9 && !s.parity_control && !s.parity_odd);
    assert_eq!(s.stop_bits, 0b00);

    // parity costs a bit, widening the word to nine bits
    let s = Config::default()
        .parity_odd()
        .stopbits(StopBits::STOP1P5)
        .register_settings(Hertz(8_000_000));
    assert!(s.word_length_9 && s.parity_control && s.parity_odd);
    assert_eq!(s.stop_bits, 0b11);
}

#[test]
fn adc_config_builders() {
    let c = AdcConfig::default()
        .resolution(Resolution::Ten)
        .align(Align::Left)
        .scan(Scan::Enabled)
        .continuous(Continuous::Continuous)
        .default_sample_time(SampleTime::Point_239_5)
        .enable_regular_channel(
            RegularChannelGroupConfig::default().external_trigger(RegularExternalTrigger::Exti11),
        )
        .enable_inserted_channel(
            InsertedChannelGroupConfig::default()
                .external_trigger(InsertedExternalTrigger::Exti15)
                .insertion(Insertion::Auto),
        );
    assert!(matches!(c.resolution, Resolution::Ten));
    assert!(matches!(c.align, Align::Left));
    assert!(matches!(c.scan, Scan::Enabled));
    assert!(matches!(c.continuous, Continuous::Continuous));
    assert!(matches!(c.default_sample_time, SampleTime::Point_239_5));
    let reg = c.regular_channel.unwrap();
    assert!(matches!(reg.external_trigger, RegularExternalTrigger::Exti11));
    let ins = c.inserted_channel.unwrap();
    assert!(matches!(ins.external_trigger, InsertedExternalTrigger::Exti15));
    assert!(matches!(ins.insertion, Insertion::Auto));
}

#[test]
fn adc_clock_selector_splits_its_field() {
    let mut rcu = Rcu::new();
    let mut adc = Adc::adc0(&mut rcu);
    // the constructor selects divide-by-sixteen
    assert_eq!(rcu.regs.adcpsc_1_0, 1);
    assert!(rcu.regs.adcpsc_2);
    assert!(rcu.regs.apb2en_adc0en);

    adc.set_clock(Clock::Apb2_div_6, &mut rcu);
    assert_eq!(rcu.regs.adcpsc_1_0, 2);
    assert!(!rcu.regs.adcpsc_2);

    adc.set_clock(Clock::Apb2_div_12, &mut rcu);
    assert_eq!(rcu.regs.adcpsc_1_0, 1);
    assert!(rcu.regs.adcpsc_2);
}

#[test]
fn adc_setters_update_the_pending_configuration() {
    let mut rcu = Rcu::new();
    let mut adc = Adc::adc0(&mut rcu);
    adc.set_resolution(Resolution::Six);
    adc.set_align(Align::Left);
    adc.set_scan(Scan::Enabled);
    adc.set_continuous(Continuous::Continuous);
    assert!(matches!(adc.config.resolution, Resolution::Six));
    assert!(matches!(adc.config.align, Align::Left));
    assert!(matches!(adc.config.scan, Scan::Enabled));
    assert!(matches!(adc.config.continuous, Continuous::Continuous));

    adc.apply_config(AdcConfig::default());
    assert!(matches!(adc.config.resolution, Resolution::Twelve));
}

#[test]
fn adc_enable_applies_the_configuration() {
    let mut rcu = Rcu::new();
    let mut adc = Adc::adc0(&mut rcu);
    adc.apply_config(
        AdcConfig::default()
            .resolution(Resolution::Eight)
            .align(Align::Left)
            .scan(Scan::Enabled),
    );
    let adc = adc.enable();
    assert!(adc.rb.adcon);
    assert_eq!(adc.rb.dres, 2);
    assert!(adc.rb.dal);
    assert!(adc.rb.sm);
    assert!(!adc.rb.ctn);

    let adc = adc.disable();
    assert!(!adc.rb.adcon);
}

#[test]
fn adc_sample_time_lands_in_its_slot() {
    let mut rcu = Rcu::new();
    let mut adc = Adc::adc0(&mut rcu);
    // channel two sits in the low register, three bits per channel
    adc.set_channel_sample_time(2, SampleTime::Point_28_5);
    assert_eq!(adc.rb.sampt1, 0b011 << 6);
    // channel twelve sits in the high register
    adc.set_channel_sample_time(12, SampleTime::Point_239_5);
    assert_eq!(adc.rb.sampt0, 0b111 << 6);
}

#[test]
fn adc_inserted_sequence_grows_and_fills_backwards() {
    let mut rcu = Rcu::new();
    let mut adc = Adc::adc0(&mut rcu);
    adc.configure_inserted_channel(1, 5, SampleTime::Point_55_5);
    assert_eq!(adc.rb.il, 1);
    // slot order is reversed: rank one lands in the third slot
    assert_eq!(adc.rb.isq[2], 5);
    adc.configure_inserted_channel(0, 7, SampleTime::Point_55_5);
    // the sequence length never shrinks
    assert_eq!(adc.rb.il, 1);
    assert_eq!(adc.rb.isq[3], 7);
}

#[test]
fn adc_auxiliary_channels_enable_the_sensor() {
    let mut rcu = Rcu::new();
    let mut adc = Adc::adc0(&mut rcu);
    let mut temp = Temperature::new();
    let _temp = temp.enable(&mut adc);
    assert!(adc.rb.tsvren);

    let mut rcu = Rcu::new();
    let mut adc = Adc::adc0(&mut rcu);
    let vref = Vrefint::new();
    let _vref = vref.enable(&mut adc);
    assert!(adc.rb.tsvren);
}

#[test]
fn adc_data_registers_read_back() {
    let mut rcu = Rcu::new();
    let mut adc = Adc::adc0(&mut rcu).enable();
    adc.rb.rdata = 0x0ABC;
    adc.rb.idata = [1, 2, 3, 4];
    assert_eq!(adc.read_rdata(), 0x0ABC);
    assert_eq!(adc.read_idata0(), 1);
    assert_eq!(adc.read_idata1(), 2);
    assert_eq!(adc.read_idata2(), 3);
    assert_eq!(adc.read_idata3(), 4);

    adc.rb.eoc = true;
    adc.rb.eoic = true;
    adc.clear_end_of_conversion_flag();
    assert!(!adc.rb.eoc);
}

#[test]
fn can_config_default_is_125_kbps() {
    let c = gd32vf103xx_hal::can::Config::default();
    assert_eq!(c.prescaler, 48);
    assert!(c.auto_retransmission);
    assert!(c.receive_fifo_overwrite);
    assert!(!c.loopback_communication);
    assert_eq!(c.resync_jump_width.0, 0);
    assert_eq!(c.time_segment_1.0, 4);
    assert_eq!(c.time_segment_2.0, 2);
}

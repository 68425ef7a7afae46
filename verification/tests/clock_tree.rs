use gd32vf103xx_hal::backup_domain::{Lxtal, Pmu};
use gd32vf103xx_hal::delay::McycleDelay;
use gd32vf103xx_hal::rcu::Rcu;
use gd32vf103xx_hal::time::Hertz;

#[test]
fn freeze_external_oscillator_to_96_mhz() {
    let mut rcu = Rcu::new();
    let clocks = rcu
        .cctl
        .ext_hf_clock(Hertz(8_000_000))
        .sysclk(Hertz(96_000_000))
        .freeze(&mut rcu.regs);

    assert_eq!(clocks.sysclk(), Hertz(96_000_000));
    assert_eq!(clocks.hclk(), Hertz(96_000_000));
    assert_eq!(clocks.pclk1(), Hertz(48_000_000));
    assert_eq!(clocks.pclk2(), Hertz(96_000_000));
    assert!(clocks.usbclk_valid());

    // 8 MHz undivided, multiplied by twelve: the first divider works
    assert_eq!(rcu.regs.predv0, 0);
    // multiplier 12 is encoded as two less
    assert_eq!(rcu.regs.pllmf, 10);
    assert!(rcu.regs.pllsel);
    assert!(rcu.regs.pllen && rcu.regs.pllstb);
    // system clock runs from the PLL
    assert_eq!(rcu.regs.scs, 0b10);
    // 96 MHz reaches the USB peripheral divided by two
    assert_eq!(rcu.regs.usbfspsc, 0b11);
    // bus prescalers: AHB as-is, APB1 halved, APB2 as-is
    assert_eq!(rcu.regs.ahbpsc, 0b0000);
    assert_eq!(rcu.regs.apb1psc, 0b100);
    assert_eq!(rcu.regs.apb2psc, 0b000);
}

#[test]
fn freeze_external_oscillator_to_72_mhz() {
    let mut rcu = Rcu::new();
    let clocks = rcu
        .cctl
        .ext_hf_clock(Hertz(8_000_000))
        .sysclk(Hertz(72_000_000))
        .freeze(&mut rcu.regs);
    assert!(clocks.usbclk_valid());
    // multiplier 9 is encoded as two less
    assert_eq!(rcu.regs.pllmf, 7);
    assert_eq!(rcu.regs.usbfspsc, 0b00);
}

#[test]
fn freeze_external_oscillator_passthrough() {
    let mut rcu = Rcu::new();
    let clocks = rcu
        .cctl
        .ext_hf_clock(Hertz(8_000_000))
        .sysclk(Hertz(8_000_000))
        .freeze(&mut rcu.regs);
    assert_eq!(clocks.sysclk(), Hertz(8_000_000));
    assert!(!clocks.usbclk_valid());
    // the external oscillator feeds the system clock directly
    assert_eq!(rcu.regs.scs, 0b01);
    assert!(!rcu.regs.pllen);
}

#[test]
fn freeze_internal_oscillator_default() {
    let mut rcu = Rcu::new();
    let clocks = rcu.cctl.freeze(&mut rcu.regs);
    assert_eq!(clocks.sysclk(), Hertz(8_000_000));
    assert!(!clocks.usbclk_valid());
    assert_eq!(rcu.regs.scs, 0b00);
}

#[test]
fn freeze_internal_oscillator_through_pll() {
    let mut rcu = Rcu::new();
    // IRC8M/2 = 4 MHz, multiplied by sixteen
    let clocks = rcu.cctl.sysclk(Hertz(64_000_000)).freeze(&mut rcu.regs);
    assert_eq!(clocks.sysclk(), Hertz(64_000_000));
    // 64 MHz is no USB rate
    assert!(!clocks.usbclk_valid());
    assert!(!rcu.regs.pllsel);
    // multiplier 16 is encoded as one less
    assert_eq!(rcu.regs.pllmf, 15);
    assert_eq!(rcu.regs.scs, 0b10);
}

#[test]
fn freeze_uses_a_larger_divider_when_needed() {
    let mut rcu = Rcu::new();
    // 25 MHz cannot hit 100 MHz undivided; 25/5 * 20 works, but the
    // smaller divider 25/1 * 4 does so first
    let clocks = rcu
        .cctl
        .ext_hf_clock(Hertz(25_000_000))
        .sysclk(Hertz(100_000_000))
        .freeze(&mut rcu.regs);
    assert_eq!(clocks.sysclk(), Hertz(100_000_000));
    assert_eq!(rcu.regs.predv0, 0);
    // multiplier 4 is encoded as two less
    assert_eq!(rcu.regs.pllmf, 2);
}

#[test]
fn set_pwren_turns_the_power_clock_on() {
    let mut rcu = Rcu::new();
    assert!(!rcu.apb1.pmuen);
    rcu.apb1.set_pwren();
    assert!(rcu.apb1.pmuen);
}

#[test]
fn mcycle_delay_counts_cycles_from_the_core_clock() {
    let mut rcu = Rcu::new();
    let clocks = rcu
        .cctl
        .ext_hf_clock(Hertz(8_000_000))
        .sysclk(Hertz(96_000_000))
        .freeze(&mut rcu.regs);
    let delay = McycleDelay::new(&clocks);
    // one microsecond at 96 MHz spans 96 cycles
    assert_eq!(delay.cycles_for_ns(1_000), 96);
    assert_eq!(delay.cycles_for_ns(0), 0);
    assert_eq!(delay.cycles_for_ns(1_000_000_000), 96_000_000);
}

#[test]
fn backup_domain_gateway_enables_writes() {
    let mut rcu = Rcu::new();
    let _lxtal = Lxtal::enable_block(&mut rcu);
    assert!(rcu.regs.bdctl_lxtalen);
    assert!(!rcu.regs.bdctl_lxtalbps);
    assert!(rcu.regs.bdctl_lxtalstb);

    let mut pmu = Pmu { bkpwen: false };
    let bkp = rcu.bkp;
    let mut apb1 = rcu.apb1;
    let _domain = bkp.constrain(&mut apb1, &mut pmu);
    assert!(apb1.pmuen && apb1.bkpien);
    assert!(pmu.bkpwen);
}

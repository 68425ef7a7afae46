use gd32vf103xx_hal::eclic::{Eclic, Level, LevelPriorityBits, Priority, TriggerType};

#[test]
fn threshold_level_round_trips() {
    let mut e = Eclic::new(4);
    e.set_threshold_level(Level::L11);
    assert_eq!(e.get_threshold_level(), Level::L11);
}

#[test]
fn level_priority_split_round_trips() {
    let mut e = Eclic::new(4);
    assert_eq!(e.get_level_priority_bits(), Some(LevelPriorityBits::L0P4));
    e.set_level_priority_bits(LevelPriorityBits::L3P1);
    assert_eq!(e.get_level_priority_bits(), Some(LevelPriorityBits::L3P1));
    assert_eq!(e.get_level_bits(), 3);
    assert_eq!(e.get_priority_bits(), 1);
}

#[test]
fn enable_and_pending_bits() {
    let mut e = Eclic::new(8);
    assert!(!e.is_enabled(5));
    e.unmask(5);
    assert!(e.is_enabled(5));
    e.mask(5);
    assert!(!e.is_enabled(5));

    assert!(!e.is_pending(5));
    e.pend(5);
    assert!(e.is_pending(5));
    e.unpend(5);
    assert!(!e.is_pending(5));
}

#[test]
fn trigger_type_round_trips() {
    let mut e = Eclic::new(2);
    e.set_trigger_type(1, TriggerType::FallingEdge);
    assert_eq!(e.get_trigger_type(1), Some(TriggerType::FallingEdge));
    e.set_trigger_type(1, TriggerType::RisingEdge);
    assert_eq!(e.get_trigger_type(1), Some(TriggerType::RisingEdge));
}

#[test]
fn level_lives_in_the_top_bits_and_is_capped() {
    let mut e = Eclic::new(2);
    e.set_level_priority_bits(LevelPriorityBits::L2P2);
    // two level bits hold at most three: five is capped
    e.set_level(0, Level::L5);
    assert_eq!(e.ints[0].ctl, 0b1100_0000);
    assert_eq!(e.get_level(0), Level::L3);
    // a level that fits round-trips
    e.set_level(0, Level::L2);
    assert_eq!(e.get_level(0), Level::L2);
}

#[test]
fn priority_lives_below_the_level_bits() {
    let mut e = Eclic::new(2);
    e.set_level_priority_bits(LevelPriorityBits::L2P2);
    e.set_level(0, Level::L3);
    e.set_priority(0, Priority::P1);
    // level three in the top two bits, priority one just below
    assert_eq!(e.ints[0].ctl, 0b1101_0000);
    assert_eq!(e.get_level(0), Level::L3);
    assert_eq!(e.get_priority(0), Priority::P1);
    // setting the priority keeps the level and the other way round
    e.set_priority(0, Priority::P2);
    assert_eq!(e.get_level(0), Level::L3);
    assert_eq!(e.get_priority(0), Priority::P2);
}

#[test]
fn priority_is_capped_by_the_remaining_bits() {
    let mut e = Eclic::new(1);
    e.set_level_priority_bits(LevelPriorityBits::L3P1);
    e.set_priority(0, Priority::P9);
    // one priority bit holds at most one
    assert_eq!(e.get_priority(0), Priority::P1);
}

#[test]
fn setup_configures_and_quiesces_the_interrupt() {
    let mut e = Eclic::new(20);
    e.pend(17);
    e.unmask(17);
    e.setup(17, TriggerType::Level, Level::L1, Priority::P0);
    assert!(!e.is_enabled(17));
    assert!(!e.is_pending(17));
    assert_eq!(e.get_trigger_type(17), Some(TriggerType::Level));
}

#[test]
fn reset_zeroes_every_register() {
    let mut e = Eclic::new(3);
    e.set_level_priority_bits(LevelPriorityBits::L4P0);
    e.set_threshold_level(Level::L7);
    e.unmask(2);
    e.pend(1);
    e.reset();
    assert_eq!(e.nlbits, 0);
    assert_eq!(e.mth, 0);
    for i in 0..3 {
        assert!(!e.is_enabled(i) && !e.is_pending(i));
        assert_eq!(e.ints[i].ctl, 0);
    }
}

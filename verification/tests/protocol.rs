// Chip-level protocol behavior, observed through a scripted bus.

use pcf8591::{
    BusStep, Config, PCFADCNum, ScriptedBus, PCF8591, PCF8591_DEFAULT_ADDRESS,
};

fn reclaim(d: PCF8591<ScriptedBus>) -> ScriptedBus {
    match d.into_inner() {
        Ok(bus) => bus,
        Err(_) => panic!("driver was still shared"),
    }
}

#[test]
fn channel_indexes() {
    assert_eq!(PCFADCNum::A0.index(), 0);
    assert_eq!(PCFADCNum::A1.index(), 1);
    assert_eq!(PCFADCNum::A2.index(), 2);
    assert_eq!(PCFADCNum::A3.index(), 3);
}

#[test]
fn out_pin_alias_names_the_pin() {
    assert_eq!(pcf8591::OutPin::Default, pcf8591::Pin::Default);
}

#[test]
fn default_config_values() {
    let c = Config::default();
    assert_eq!(c.address, PCF8591_DEFAULT_ADDRESS);
    assert_eq!(c.address, 0x48);
    assert_eq!(c.reference_voltage, 3300);
}

#[test]
fn construction_accepts_whole_supported_range() {
    for rv in [2500u16, 3300, 6000] {
        let bus = ScriptedBus::new(vec![]);
        let d = PCF8591::with_config(bus, Config { address: 0x48, reference_voltage: rv });
        assert_eq!(d.reference_voltage(), rv);
    }
}

#[test]
fn new_uses_default_config() {
    let d = PCF8591::new(ScriptedBus::new(vec![]));
    assert_eq!(d.reference_voltage(), 3300);
    assert!(!d.dac_enabled());
}

#[test]
fn read_issues_two_identical_transactions_and_returns_second_reply() {
    let bus = ScriptedBus::new(vec![BusStep::Reply(0, 0xAA), BusStep::Reply(0, 0x42)]);
    let d = PCF8591::new(bus);
    assert_eq!(d.read(PCFADCNum::A2), Ok(0x42));
    let bus = reclaim(d);
    let log = bus.recorded();
    assert_eq!(log.len(), 2);
    for t in log.iter() {
        assert_eq!(t.address, 0x48);
        assert_eq!(t.control, 0x02);
        assert_eq!(t.data, 0);
    }
    assert_eq!(log[0].reply1, 0xAA);
    assert_eq!(log[1].reply1, 0x42);
}

#[test]
fn command_byte_carries_channel_and_enable_bit() {
    let channels = [
        (PCFADCNum::A0, 0u8),
        (PCFADCNum::A1, 1),
        (PCFADCNum::A2, 2),
        (PCFADCNum::A3, 3),
    ];
    for (adc, index) in channels {
        for enabled in [false, true] {
            let mut script = vec![BusStep::Reply(0, 0), BusStep::Reply(0, 0)];
            if enabled {
                script.insert(0, BusStep::Reply(0, 0));
            }
            let d = PCF8591::new(ScriptedBus::new(script));
            if enabled {
                assert_eq!(d.set_dac_enabled(true), Ok(()));
            }
            assert_eq!(d.read(adc), Ok(0));
            let bus = reclaim(d);
            let log = bus.recorded();
            let read_txns = &log[log.len() - 2..];
            for t in read_txns {
                assert_eq!(t.control & 0x03, index);
                assert_eq!(t.control & 0x40, if enabled { 0x40 } else { 0 });
                assert_eq!(t.control & 0xbc, 0);
            }
        }
    }
}

#[test]
fn write_value_replayed_in_every_later_transaction() {
    let d = PCF8591::new(ScriptedBus::new(vec![
        BusStep::Reply(0, 0), // enable
        BusStep::Reply(0, 0), // write 0x7f
        BusStep::Reply(0, 0), // read, phase 1
        BusStep::Reply(0, 9), // read, phase 2
        BusStep::Reply(0, 0), // write 0x12
        BusStep::Reply(0, 0), // read, phase 1
        BusStep::Reply(0, 3), // read, phase 2
    ]));
    assert_eq!(d.set_dac_enabled(true), Ok(()));
    assert_eq!(d.write(0x7f), Ok(()));
    assert_eq!(d.read(PCFADCNum::A1), Ok(9));
    assert_eq!(d.write(0x12), Ok(()));
    assert_eq!(d.read(PCFADCNum::A0), Ok(3));
    let bus = reclaim(d);
    let log = bus.recorded();
    assert_eq!(log.len(), 7);
    assert_eq!(log[1].data, 0x7f);
    assert_eq!(log[2].data, 0x7f);
    assert_eq!(log[3].data, 0x7f);
    assert_eq!(log[4].data, 0x12);
    assert_eq!(log[5].data, 0x12);
    assert_eq!(log[6].data, 0x12);
}

#[test]
fn failed_write_leaves_output_value_unchanged() {
    let d = PCF8591::new(ScriptedBus::new(vec![
        BusStep::Reply(0, 0), // write 0x55
        BusStep::Fail,        // write 0x99 fails
        BusStep::Reply(0, 0), // read, phase 1
        BusStep::Reply(0, 0), // read, phase 2
    ]));
    assert_eq!(d.write(0x55), Ok(()));
    assert!(d.write(0x99).is_err());
    assert_eq!(d.read(PCFADCNum::A0), Ok(0));
    let bus = reclaim(d);
    let log = bus.recorded();
    assert_eq!(log.len(), 3);
    // the failed write left the register value at 0x55
    assert_eq!(log[1].data, 0x55);
    assert_eq!(log[2].data, 0x55);
}

#[test]
fn redundant_enable_and_disable_each_issue_one_transaction() {
    let d = PCF8591::new(ScriptedBus::new(vec![
        BusStep::Reply(0, 0),
        BusStep::Reply(0, 0),
        BusStep::Reply(0, 0),
        BusStep::Reply(0, 0),
    ]));
    assert_eq!(d.set_dac_enabled(true), Ok(()));
    assert_eq!(d.set_dac_enabled(true), Ok(()));
    assert_eq!(d.set_dac_enabled(false), Ok(()));
    assert_eq!(d.set_dac_enabled(false), Ok(()));
    let bus = reclaim(d);
    let log = bus.recorded();
    assert_eq!(log.len(), 4);
    assert_eq!(log[0].control, 0x40);
    assert_eq!(log[1].control, 0x40);
    assert_eq!(log[2].control, 0x00);
    assert_eq!(log[3].control, 0x00);
}

#[test]
fn read_fails_when_first_phase_fails() {
    let d = PCF8591::new(ScriptedBus::new(vec![BusStep::Fail]));
    assert!(d.read(PCFADCNum::A0).is_err());
    let bus = reclaim(d);
    assert_eq!(bus.recorded().len(), 0);
}

#[test]
fn read_fails_when_second_phase_fails() {
    let d = PCF8591::new(ScriptedBus::new(vec![BusStep::Reply(0, 5), BusStep::Fail]));
    assert!(d.read(PCFADCNum::A3).is_err());
    let bus = reclaim(d);
    assert_eq!(bus.recorded().len(), 1);
}

#[test]
fn unscripted_transaction_fails() {
    let d = PCF8591::new(ScriptedBus::new(vec![]));
    assert!(d.write(1).is_err());
}

#[test]
fn cloned_handles_share_one_chip() {
    let d = PCF8591::new(ScriptedBus::new(vec![
        BusStep::Reply(0, 0), // write via the clone
        BusStep::Reply(0, 0), // read via the original, phase 1
        BusStep::Reply(0, 7), // read via the original, phase 2
    ]));
    let d2 = d.clone();
    assert_eq!(d2.write(0x33), Ok(()));
    assert_eq!(d.read(PCFADCNum::A0), Ok(7));

    // still shared: the transport cannot be reclaimed yet
    let d = match d.into_inner() {
        Ok(_) => panic!("reclaim succeeded while a clone was alive"),
        Err(d) => d,
    };
    drop(d2);
    let bus = reclaim(d);
    let log = bus.recorded();
    assert_eq!(log.len(), 3);
    // the clone's write is visible in the original's later transactions
    assert_eq!(log[1].data, 0x33);
    assert_eq!(log[2].data, 0x33);
}

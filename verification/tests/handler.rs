use sensor_relay::address::SensorAddress;
use sensor_relay::clock::Timestamp;
use sensor_relay::element::Element;
use sensor_relay::handler::{Action, SensorHandler, SinkMode, Step};
use sensor_relay::record::{Battery, InfluxPoint, Sample};
use sensor_relay::sample::{BtHomeV2Sample, MeteoSample, VoltageSample};

fn address() -> SensorAddress {
    SensorAddress::new([0xA4, 0xC1, 0x38, 0x00, 0x0F, 0x2B])
}

fn handler(sink: SinkMode) -> SensorHandler {
    SensorHandler::new(address(), String::from("kitchen"), sink, String::from("weather"), false)
}

fn voltage(millivolts: u16) -> Vec<Element> {
    vec![Element::VoltageSmall(millivolts)]
}

fn meteo(temperature: i16, humidity: u16, battery_level: u8) -> Vec<Element> {
    vec![
        Element::TemperatureSmall(temperature),
        Element::Humidity(humidity),
        Element::Battery(battery_level),
    ]
}

fn records(actions: &[Action]) -> Vec<Sample> {
    let mut found = Vec::new();
    for action in actions {
        match action {
            Action::Send { sample, .. } => found.push(sample.clone()),
            Action::DryRun { sample } => found.push(sample.clone()),
            _ => {}
        }
    }
    found
}

#[test]
fn new_handler_has_no_voltage() {
    let h = SensorHandler::new(
        address(),
        String::from("attic"),
        SinkMode::Live,
        String::from("series"),
        true,
    );
    assert_eq!(h.last_voltage(), None);
    assert_eq!(h.sensor_addr(), address());
    assert_eq!(h.room(), "attic");
    assert_eq!(h.sink(), SinkMode::Live);
    assert_eq!(h.influx_measurement(), "series");
    assert!(h.be_verbose());
}

#[test]
fn meteo_without_voltage_is_dropped() {
    let mut h = handler(SinkMode::Live);
    let messages = vec![meteo(2000, 5500, 90), meteo(2010, 5400, 90), vec![Element::Other]];
    let actions = h.run(&messages);
    assert_eq!(
        actions,
        vec![
            Action::Dropped(MeteoSample { temperature: 2000, humidity: 5500, battery_level: 90 }),
            Action::Dropped(MeteoSample { temperature: 2010, humidity: 5400, battery_level: 90 }),
            Action::Unrecognized,
        ]
    );
    assert!(records(&actions).is_empty());
    assert_eq!(h.last_voltage(), None);
}

#[test]
fn voltage_then_meteo_gives_one_record() {
    let mut h = handler(SinkMode::DryRun);
    let actions = h.run(&vec![voltage(3000), meteo(2000, 5500, 90)]);
    assert_eq!(actions.len(), 2);
    assert_eq!(actions[0], Action::Latched(VoltageSample { battery_voltage: 3000 }));
    let found = records(&actions);
    assert_eq!(found.len(), 1);
    assert_eq!(found[0].temperature, 2000);
    assert_eq!(found[0].humidity, 5500);
    assert_eq!(found[0].battery, Battery { voltage: 3000, level: 90 });
    assert_eq!(found[0].sensor_addr, address());
    assert_eq!(found[0].room, "kitchen");
    assert!(matches!(actions[1], Action::DryRun { .. }));
}

#[test]
fn meteo_voltage_meteo_gives_one_record_from_the_second() {
    let mut h = handler(SinkMode::DryRun);
    let actions = h.run(&vec![meteo(1900, 6000, 91), voltage(3000), meteo(2100, 5000, 89)]);
    assert_eq!(
        actions[0],
        Action::Dropped(MeteoSample { temperature: 1900, humidity: 6000, battery_level: 91 })
    );
    assert_eq!(actions[1], Action::Latched(VoltageSample { battery_voltage: 3000 }));
    let found = records(&actions);
    assert_eq!(found.len(), 1);
    assert_eq!(found[0].temperature, 2100);
    assert_eq!(found[0].humidity, 5000);
    assert_eq!(found[0].battery, Battery { voltage: 3000, level: 89 });
}

#[test]
fn latest_voltage_wins() {
    let mut h = handler(SinkMode::DryRun);
    let actions = h.run(&vec![voltage(3000), voltage(2900), meteo(2000, 5500, 90)]);
    let found = records(&actions);
    assert_eq!(found.len(), 1);
    assert_eq!(found[0].battery.voltage, 2900);
    assert_eq!(h.last_voltage(), Some(VoltageSample { battery_voltage: 2900 }));
}

#[test]
fn voltage_stays_for_every_later_meteo() {
    let mut h = handler(SinkMode::DryRun);
    let actions = h.run(&vec![
        voltage(3100),
        meteo(2000, 5500, 90),
        vec![Element::Humidity(1)],
        meteo(2001, 5501, 91),
    ]);
    let found = records(&actions);
    assert_eq!(found.len(), 2);
    assert_eq!(found[0].battery, Battery { voltage: 3100, level: 90 });
    assert_eq!(found[1].battery, Battery { voltage: 3100, level: 91 });
    assert_eq!(actions[2], Action::Unrecognized);
}

#[test]
fn messages_are_handled_in_the_order_given() {
    let mut h = handler(SinkMode::DryRun);
    let actions = h.run(&vec![
        voltage(3000),
        meteo(2000, 5500, 90),
        voltage(2900),
        meteo(2100, 5400, 89),
        voltage(2800),
    ]);
    assert_eq!(actions.len(), 5);
    let found = records(&actions);
    assert_eq!(found.len(), 2);
    assert_eq!((found[0].temperature, found[0].battery.voltage), (2000, 3000));
    assert_eq!((found[1].temperature, found[1].battery.voltage), (2100, 2900));
    assert!(matches!(actions[1], Action::DryRun { .. }));
    assert!(matches!(actions[3], Action::DryRun { .. }));
    assert_eq!(h.last_voltage(), Some(VoltageSample { battery_voltage: 2800 }));
}

#[test]
fn handling_one_by_one_is_handling_the_batch() {
    let messages = vec![meteo(1, 2, 3), voltage(3000), meteo(2100, 5000, 89), vec![]];
    let mut batch = handler(SinkMode::DryRun);
    let together = batch.run(&messages);
    let mut single = handler(SinkMode::DryRun);
    for (message, expected) in messages.iter().zip(&together) {
        match (single.handle(message), expected) {
            (Action::DryRun { sample: a }, Action::DryRun { sample: b }) => {
                assert_eq!(a.temperature, b.temperature);
                assert_eq!(a.humidity, b.humidity);
                assert_eq!(a.battery, b.battery);
            }
            (a, b) => assert_eq!(&a, b),
        }
    }
    assert_eq!(single.last_voltage(), batch.last_voltage());
}

#[test]
fn run_of_nothing_does_nothing() {
    let mut h = handler(SinkMode::Live);
    assert!(h.run(&vec![]).is_empty());
    assert_eq!(h.last_voltage(), None);
}

#[test]
fn batches_follow_one_another() {
    let mut h = handler(SinkMode::DryRun);
    assert!(records(&h.run(&vec![meteo(1, 2, 3), voltage(3000)])).is_empty());
    let found = records(&h.run(&vec![meteo(2100, 5000, 89)]));
    assert_eq!(found.len(), 1);
    assert_eq!(found[0].battery, Battery { voltage: 3000, level: 89 });
}

#[test]
fn live_sink_gets_a_point() {
    let mut h = handler(SinkMode::Live);
    assert_eq!(h.handle(&voltage(3000)), Action::Latched(VoltageSample { battery_voltage: 3000 }));
    match h.handle(&meteo(2000, 5500, 90)) {
        Action::Send { sample, point, measurement } => {
            assert_eq!(measurement, "weather");
            assert_eq!(point, InfluxPoint::from(&sample));
            assert_eq!(point.sensor, "A4:C1:38:00:0F:2B");
            assert_eq!(point.room, "kitchen");
            assert_eq!(point.temperature, 2000);
            assert_eq!(point.humidity, 5500);
            assert_eq!(point.battery_voltage, 3000);
            assert_eq!(point.battery_level, 90);
            assert_eq!(point.time, sample.timestamp);
            // The clock is read at pairing: some time after the year 2020.
            assert!(sample.timestamp.secs > 1_577_836_800);
        }
        other => panic!("no point: {:?}", other),
    }
}

#[test]
fn absorb_latches_and_pairs() {
    let mut h = handler(SinkMode::Live);
    let m = MeteoSample { temperature: 2000, humidity: 5500, battery_level: 90 };
    let v = VoltageSample { battery_voltage: 3000 };
    assert_eq!(h.absorb(BtHomeV2Sample::Meteo(m)), Step::Dropped(m));
    assert_eq!(h.absorb(BtHomeV2Sample::Unrecognized), Step::Unrecognized);
    assert_eq!(h.last_voltage(), None);
    assert_eq!(h.absorb(BtHomeV2Sample::Voltage(v)), Step::Latched(v));
    assert_eq!(h.last_voltage(), Some(v));
    assert_eq!(h.absorb(BtHomeV2Sample::Meteo(m)), Step::Paired(m, v));
    assert_eq!(h.absorb(BtHomeV2Sample::Unrecognized), Step::Unrecognized);
    assert_eq!(h.last_voltage(), Some(v));
}

#[test]
fn emit_stamps_the_record() {
    let m = MeteoSample { temperature: -505, humidity: 9999, battery_level: 100 };
    let v = VoltageSample { battery_voltage: 2750 };
    let now = Timestamp { secs: 1_700_000_000, nanos: 123_456_789 };
    let expected = Sample {
        timestamp: now,
        sensor_addr: address(),
        room: String::from("kitchen"),
        temperature: -505,
        humidity: 9999,
        battery: Battery { voltage: 2750, level: 100 },
    };
    assert_eq!(
        handler(SinkMode::DryRun).emit(m, v, now),
        Action::DryRun { sample: expected.clone() }
    );
    assert_eq!(
        handler(SinkMode::Live).emit(m, v, now),
        Action::Send {
            sample: expected,
            point: InfluxPoint {
                time: now,
                sensor: String::from("A4:C1:38:00:0F:2B"),
                room: String::from("kitchen"),
                temperature: -505,
                humidity: 9999,
                battery_voltage: 2750,
                battery_level: 100,
            },
            measurement: String::from("weather"),
        }
    );
}

#[test]
fn sample_from_takes_every_value_over() {
    let sample = Sample::from(
        MeteoSample { temperature: 2050, humidity: 4321, battery_level: 12 },
        VoltageSample { battery_voltage: 3150 },
        Timestamp { secs: 7, nanos: 8 },
        SensorAddress::new([1, 2, 3, 4, 5, 6]),
        String::from("cellar"),
    );
    assert_eq!(
        sample,
        Sample {
            timestamp: Timestamp { secs: 7, nanos: 8 },
            sensor_addr: SensorAddress::new([1, 2, 3, 4, 5, 6]),
            room: String::from("cellar"),
            temperature: 2050,
            humidity: 4321,
            battery: Battery { voltage: 3150, level: 12 },
        }
    );
}

#[test]
fn address_text_is_colon_hexadecimal() {
    assert_eq!(SensorAddress::new([0, 1, 0x0a, 0xab, 0xf0, 0xff]).to_text(), "00:01:0A:AB:F0:FF");
    assert_eq!(SensorAddress::new([0; 6]).to_text(), "00:00:00:00:00:00");
}

#[test]
fn address_same_compares_every_octet() {
    let a = SensorAddress::new([1, 2, 3, 4, 5, 6]);
    assert!(a.same(&SensorAddress::new([1, 2, 3, 4, 5, 6])));
    for i in 0..6 {
        let mut octets = [1, 2, 3, 4, 5, 6];
        octets[i] = 0;
        assert!(!a.same(&SensorAddress::new(octets)));
    }
}

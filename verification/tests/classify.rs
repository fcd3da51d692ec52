use sensor_relay::element::{decode, DecodeFailure, Element};
use sensor_relay::sample::{BtHomeV2Sample, MeteoSample, VoltageSample};

#[test]
fn meteo_elements_give_a_meteo_sample() {
    let elements = vec![
        Element::TemperatureSmall(2050),
        Element::Humidity(5500),
        Element::Battery(90),
    ];
    assert_eq!(
        BtHomeV2Sample::try_from(&elements),
        BtHomeV2Sample::Meteo(MeteoSample { temperature: 2050, humidity: 5500, battery_level: 90 })
    );
}

#[test]
fn meteo_values_are_hundredths() {
    let elements = vec![
        Element::Battery(77),
        Element::Humidity(4390),
        Element::TemperatureSmall(2507),
    ];
    match BtHomeV2Sample::try_from(&elements) {
        BtHomeV2Sample::Meteo(meteo) => {
            assert_eq!((meteo.temperature / 100, meteo.temperature % 100), (25, 7));
            assert_eq!((meteo.humidity / 100, meteo.humidity % 100), (43, 90));
            assert_eq!(meteo.battery_level, 77);
        }
        other => panic!("not a meteo sample: {:?}", other),
    }
}

#[test]
fn negative_temperature_is_kept() {
    let elements = vec![
        Element::TemperatureSmall(-1234),
        Element::Humidity(0),
        Element::Battery(0),
    ];
    assert_eq!(
        BtHomeV2Sample::try_from(&elements),
        BtHomeV2Sample::Meteo(MeteoSample { temperature: -1234, humidity: 0, battery_level: 0 })
    );
}

#[test]
fn voltage_element_gives_a_voltage_sample() {
    let elements = vec![Element::VoltageSmall(3150)];
    assert_eq!(
        BtHomeV2Sample::try_from(&elements),
        BtHomeV2Sample::Voltage(VoltageSample { battery_voltage: 3150 })
    );
}

#[test]
fn voltage_with_partial_meteo_is_a_voltage_sample() {
    let elements = vec![
        Element::TemperatureSmall(2050),
        Element::VoltageSmall(2999),
        Element::Battery(50),
    ];
    assert_eq!(
        BtHomeV2Sample::try_from(&elements),
        BtHomeV2Sample::Voltage(VoltageSample { battery_voltage: 2999 })
    );
}

#[test]
fn meteo_takes_priority_over_voltage() {
    let elements = vec![
        Element::VoltageSmall(3000),
        Element::TemperatureSmall(2000),
        Element::Humidity(5500),
        Element::Battery(90),
    ];
    assert_eq!(
        BtHomeV2Sample::try_from(&elements),
        BtHomeV2Sample::Meteo(MeteoSample { temperature: 2000, humidity: 5500, battery_level: 90 })
    );
}

#[test]
fn partial_meteo_is_unrecognized() {
    assert_eq!(
        BtHomeV2Sample::try_from(&[Element::TemperatureSmall(2050)]),
        BtHomeV2Sample::Unrecognized
    );
    assert_eq!(
        BtHomeV2Sample::try_from(&[Element::TemperatureSmall(2050), Element::Humidity(5000)]),
        BtHomeV2Sample::Unrecognized
    );
    assert_eq!(
        BtHomeV2Sample::try_from(&[Element::Humidity(5000), Element::Battery(3), Element::Other]),
        BtHomeV2Sample::Unrecognized
    );
}

#[test]
fn empty_list_is_unrecognized() {
    assert_eq!(BtHomeV2Sample::try_from(&[]), BtHomeV2Sample::Unrecognized);
    assert_eq!(BtHomeV2Sample::try_from(&[Element::Other]), BtHomeV2Sample::Unrecognized);
}

#[test]
fn last_element_of_a_kind_wins() {
    let elements = vec![
        Element::TemperatureSmall(100),
        Element::Humidity(200),
        Element::Battery(1),
        Element::TemperatureSmall(300),
        Element::Other,
        Element::Battery(2),
        Element::Humidity(400),
    ];
    assert_eq!(
        BtHomeV2Sample::try_from(&elements),
        BtHomeV2Sample::Meteo(MeteoSample { temperature: 300, humidity: 400, battery_level: 2 })
    );
    assert_eq!(
        BtHomeV2Sample::try_from(&[Element::VoltageSmall(1), Element::VoltageSmall(2)]),
        BtHomeV2Sample::Voltage(VoltageSample { battery_voltage: 2 })
    );
}

#[test]
fn classifying_twice_gives_the_same() {
    let elements = vec![
        Element::TemperatureSmall(2050),
        Element::Humidity(5500),
        Element::Battery(90),
        Element::VoltageSmall(3150),
    ];
    let first = BtHomeV2Sample::try_from(&elements);
    let second = BtHomeV2Sample::try_from(&elements);
    assert_eq!(first, second);
    let copy = elements.clone();
    assert_eq!(BtHomeV2Sample::try_from(&copy), first);
}

#[test]
fn decode_reads_a_temperature() {
    assert_eq!(decode(&[0x40, 0x02, 0xc4, 0x09]), Ok(vec![Element::TemperatureSmall(2500)]));
}

#[test]
fn decode_reads_a_meteo_advertisement() {
    let elements = decode(&[64, 0, 168, 1, 100, 2, 203, 9, 3, 38, 17]).unwrap();
    assert_eq!(
        elements,
        vec![
            Element::Other,
            Element::Battery(100),
            Element::TemperatureSmall(2507),
            Element::Humidity(4390),
        ]
    );
    assert_eq!(
        BtHomeV2Sample::try_from(&elements),
        BtHomeV2Sample::Meteo(MeteoSample { temperature: 2507, humidity: 4390, battery_level: 100 })
    );
}

#[test]
fn decode_reads_a_voltage_advertisement() {
    let elements = decode(&[0x40, 0x00, 0x07, 0x0c, 0x4e, 0x0c]).unwrap();
    assert_eq!(elements, vec![Element::Other, Element::VoltageSmall(3150)]);
    assert_eq!(
        BtHomeV2Sample::try_from(&elements),
        BtHomeV2Sample::Voltage(VoltageSample { battery_voltage: 3150 })
    );
}

#[test]
fn decode_keeps_other_kinds_of_temperature_and_voltage_apart() {
    // 0x45 is a temperature in tenths, 0x4a a voltage in tenths, 0x2e a humidity in percent.
    let elements = decode(&[0x40, 0x45, 0x11, 0x01, 0x4a, 0x1e, 0x00, 0x2e, 0x23]).unwrap();
    assert_eq!(elements, vec![Element::Other, Element::Other, Element::Other]);
}

#[test]
fn decode_with_no_elements() {
    assert_eq!(decode(&[0x40]), Ok(vec![]));
}

#[test]
fn decode_refuses_an_empty_payload() {
    assert_eq!(decode(&[]), Err(DecodeFailure::Empty));
}

#[test]
fn decode_refuses_another_version() {
    assert_eq!(
        decode(&[0x20, 0x02, 0xc4, 0x09]),
        Err(DecodeFailure::Malformed(btsensor::bthome::DecodeError::UnsupportedVersion(1)))
    );
}

#[test]
fn decode_refuses_a_cut_payload() {
    assert_eq!(
        decode(&[0x40, 0x02, 0xc4]),
        Err(DecodeFailure::Malformed(btsensor::bthome::DecodeError::PrematureEnd))
    );
}

#[test]
fn decode_refuses_an_unknown_property() {
    assert_eq!(
        decode(&[0x40, 0xff, 0x00]),
        Err(DecodeFailure::Malformed(btsensor::bthome::DecodeError::InvalidProperty(0xff)))
    );
}

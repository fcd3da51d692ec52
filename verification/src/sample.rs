//! Classification of a decoded advertisement.

use vstd::prelude::*;
use crate::element::Element;

verus! {

/// A meteorological reading: all three values came in one advertisement.
#[derive(Clone, Copy, Debug, PartialEq, Eq, Structural)]
pub struct MeteoSample {
    /// Temperature in hundredths of a degree Celsius.
    pub temperature: i16,
    /// Relative humidity in hundredths of a percent.
    pub humidity: u16,
    /// Battery charge in percent.
    pub battery_level: u8,
}

/// A battery-voltage reading.
#[derive(Clone, Copy, Debug, PartialEq, Eq, Structural)]
pub struct VoltageSample {
    /// Battery voltage in millivolts.
    pub battery_voltage: u16,
}

/// What one decoded advertisement amounts to.
#[derive(Clone, Copy, Debug, PartialEq, Eq, Structural)]
pub enum BtHomeV2Sample {
    Meteo(MeteoSample),
    Voltage(VoltageSample),
    /// Neither a full meteorological reading nor a voltage reading.
    Unrecognized,
}

/// The kinds of element that a classification rests on.
#[derive(Clone, Copy, Debug, PartialEq, Eq, Structural)]
pub enum Kind {
    Temperature,
    Humidity,
    Battery,
    Voltage,
}

/// The kind of an element, if it is of a kind that counts.
pub open spec fn kind_of(element: Element) -> Option<Kind> {
    match element {
        Element::TemperatureSmall(_) => Some(Kind::Temperature),
        Element::Humidity(_) => Some(Kind::Humidity),
        Element::Battery(_) => Some(Kind::Battery),
        Element::VoltageSmall(_) => Some(Kind::Voltage),
        Element::Other => None,
    }
}

/// The last element of a kind, if the list holds one of that kind.
pub open spec fn latest(elements: Seq<Element>, kind: Kind) -> Option<Element>
    decreases elements.len(),
{
    if elements.len() == 0 {
        None
    } else if kind_of(elements.last()) == Some(kind) {
        Some(elements.last())
    } else {
        latest(elements.drop_last(), kind)
    }
}

/// The classification of an element list: a meteorological reading where
/// temperature, humidity and battery level are all there, else a voltage
/// reading where a voltage is there, else nothing of interest. Of several
/// elements of one kind the last counts.
pub open spec fn classification(elements: Seq<Element>) -> BtHomeV2Sample {
    if let (
        Some(Element::TemperatureSmall(temperature)),
        Some(Element::Humidity(humidity)),
        Some(Element::Battery(battery_level)),
    ) = (
        latest(elements, Kind::Temperature),
        latest(elements, Kind::Humidity),
        latest(elements, Kind::Battery),
    ) {
        BtHomeV2Sample::Meteo(MeteoSample { temperature, humidity, battery_level })
    } else if let Some(Element::VoltageSmall(battery_voltage)) = latest(elements, Kind::Voltage) {
        BtHomeV2Sample::Voltage(VoltageSample { battery_voltage })
    } else {
        BtHomeV2Sample::Unrecognized
    }
}

/// Whether the list holds an element of a kind.
pub open spec fn holds(elements: Seq<Element>, kind: Kind) -> bool {
    exists|i: int| 0 <= i < elements.len() && kind_of(#[trigger] elements[i]) == Some(kind)
}

/// Whether `element` stands in the list with no element of its kind behind it.
pub open spec fn is_last_of_its_kind(elements: Seq<Element>, element: Element) -> bool {
    exists|i: int|
        0 <= i < elements.len() && #[trigger] elements[i] == element && forall|j: int|
            i < j < elements.len() ==> kind_of(#[trigger] elements[j]) != kind_of(element)
}

/// `latest` finds an element exactly where the list holds one of the kind,
/// and the one it finds is of that kind and the last of it.
pub proof fn lemma_latest(elements: Seq<Element>, kind: Kind)
    ensures
        latest(elements, kind) is Some <==> holds(elements, kind),
        latest(elements, kind) matches Some(element) ==> kind_of(element) == Some(kind)
            && is_last_of_its_kind(elements, element),
    decreases elements.len(),
{
    if elements.len() > 0 {
        let front = elements.drop_last();
        lemma_latest(front, kind);
        if kind_of(elements.last()) != Some(kind) {
            if holds(elements, kind) {
                let i = choose|i: int|
                    0 <= i < elements.len() && kind_of(#[trigger] elements[i]) == Some(kind);
                assert(kind_of(front[i]) == Some(kind));
            }
            if let Some(element) = latest(front, kind) {
                let i = choose|i: int|
                    0 <= i < front.len() && #[trigger] front[i] == element && forall|j: int|
                        i < j < front.len() ==> kind_of(#[trigger] front[j]) != kind_of(element);
                assert(elements[i] == element);
                assert forall|j: int| i < j < elements.len() implies kind_of(
                    #[trigger] elements[j],
                ) != kind_of(element) by {
                    if j < front.len() {
                        assert(front[j] == elements[j]);
                    }
                }
            }
        }
    }
}

/// A list that holds a temperature, a humidity and a battery level is a
/// meteorological reading, whatever else it holds, and the reading has the
/// values that the sensor sent: of each kind the last one, unchanged.
pub proof fn lemma_meteo_classification(elements: Seq<Element>)
    requires
        holds(elements, Kind::Temperature),
        holds(elements, Kind::Humidity),
        holds(elements, Kind::Battery),
    ensures
        classification(elements) matches BtHomeV2Sample::Meteo(meteo) && is_last_of_its_kind(
            elements,
            Element::TemperatureSmall(meteo.temperature),
        ) && is_last_of_its_kind(elements, Element::Humidity(meteo.humidity))
            && is_last_of_its_kind(elements, Element::Battery(meteo.battery_level)),
{
    lemma_latest(elements, Kind::Temperature);
    lemma_latest(elements, Kind::Humidity);
    lemma_latest(elements, Kind::Battery);
}

/// A list that holds a voltage, and lacks one of the three values of a
/// meteorological reading, is a voltage reading of the last voltage sent,
/// unchanged.
pub proof fn lemma_voltage_classification(elements: Seq<Element>)
    requires
        holds(elements, Kind::Voltage),
        !holds(elements, Kind::Temperature) || !holds(elements, Kind::Humidity) || !holds(
            elements,
            Kind::Battery,
        ),
    ensures
        classification(elements) matches BtHomeV2Sample::Voltage(voltage) && is_last_of_its_kind(
            elements,
            Element::VoltageSmall(voltage.battery_voltage),
        ),
{
    lemma_latest(elements, Kind::Temperature);
    lemma_latest(elements, Kind::Humidity);
    lemma_latest(elements, Kind::Battery);
    lemma_latest(elements, Kind::Voltage);
}

/// A list without a voltage that lacks one of the three values of a
/// meteorological reading is of no interest.
pub proof fn lemma_partial_classification(elements: Seq<Element>)
    requires
        !holds(elements, Kind::Voltage),
        !holds(elements, Kind::Temperature) || !holds(elements, Kind::Humidity) || !holds(
            elements,
            Kind::Battery,
        ),
    ensures
        classification(elements) is Unrecognized,
{
    lemma_latest(elements, Kind::Temperature);
    lemma_latest(elements, Kind::Humidity);
    lemma_latest(elements, Kind::Battery);
    lemma_latest(elements, Kind::Voltage);
}

/// The classification rests on the elements alone: lists that hold the same
/// elements in the same order are classified alike.
pub proof fn lemma_classification_is_repeatable(first: Seq<Element>, second: Seq<Element>)
    requires
        first.len() == second.len(),
        forall|i: int| 0 <= i < first.len() ==> first[i] == second[i],
    ensures
        classification(first) == classification(second),
{
    assert(first =~= second);
}

/// The value of an optional temperature element.
spec fn held_temperature(temperature: Option<i16>) -> Option<Element> {
    match temperature {
        Some(v) => Some(Element::TemperatureSmall(v)),
        None => None,
    }
}

/// The value of an optional humidity element.
spec fn held_humidity(humidity: Option<u16>) -> Option<Element> {
    match humidity {
        Some(v) => Some(Element::Humidity(v)),
        None => None,
    }
}

/// The value of an optional battery-level element.
spec fn held_battery(battery_level: Option<u8>) -> Option<Element> {
    match battery_level {
        Some(v) => Some(Element::Battery(v)),
        None => None,
    }
}

/// The value of an optional voltage element.
spec fn held_voltage(battery_voltage: Option<u16>) -> Option<Element> {
    match battery_voltage {
        Some(v) => Some(Element::VoltageSmall(v)),
        None => None,
    }
}

impl BtHomeV2Sample {
    /// Classifies a decoded advertisement.
    pub fn try_from(elements: &[Element]) -> (sample: BtHomeV2Sample)
        ensures
            sample == classification(elements@),
    {
        let mut temperature: Option<i16> = None;
        let mut humidity: Option<u16> = None;
        let mut battery_level: Option<u8> = None;
        let mut battery_voltage: Option<u16> = None;
        let mut i: usize = 0;
        while i < elements.len()
            invariant
                i <= elements@.len(),
                held_temperature(temperature) == latest(elements@.take(i as int), Kind::Temperature),
                held_humidity(humidity) == latest(elements@.take(i as int), Kind::Humidity),
                held_battery(battery_level) == latest(elements@.take(i as int), Kind::Battery),
                held_voltage(battery_voltage) == latest(elements@.take(i as int), Kind::Voltage),
            decreases elements@.len() - i,
        {
            proof {
                let next = elements@.take(i + 1);
                assert(next.drop_last() =~= elements@.take(i as int));
            }
            match elements[i] {
                Element::TemperatureSmall(v) => {
                    temperature = Some(v);
                },
                Element::Humidity(v) => {
                    humidity = Some(v);
                },
                Element::Battery(v) => {
                    battery_level = Some(v);
                },
                Element::VoltageSmall(v) => {
                    battery_voltage = Some(v);
                },
                Element::Other => {},
            }
            i += 1;
        }
        assert(elements@.take(i as int) =~= elements@);
        if let (Some(temperature), Some(humidity), Some(battery_level)) = (
            temperature,
            humidity,
            battery_level,
        ) {
            return BtHomeV2Sample::Meteo(MeteoSample { temperature, humidity, battery_level });
        }
        if let Some(battery_voltage) = battery_voltage {
            return BtHomeV2Sample::Voltage(VoltageSample { battery_voltage });
        }
        proof {
            lemma_latest(elements@, Kind::Temperature);
            lemma_latest(elements@, Kind::Humidity);
            lemma_latest(elements@, Kind::Battery);
            lemma_latest(elements@, Kind::Voltage);
        }
        BtHomeV2Sample::Unrecognized
    }
}

} // verus!

//! Filtering of device property changes down to weather advertisements.

use vstd::prelude::*;
use crate::element::{decode, decoded, DecodeFailure, Element};

verus! {

/// The leading 32 bits of the service identifier under which the sensors
/// advertise weather data.
pub const WEATHER_SAMPLE_UUID_HEADER: u32 = 0x0000fcd2;

/// One entry of an advertisement's service data: the 128-bit service
/// identifier and the payload advertised under it.
#[derive(Clone, Debug, PartialEq, Eq)]
pub struct ServiceDataEntry {
    pub uuid: u128,
    pub data: Vec<u8>,
}

/// A changed property of a device.
#[derive(Clone, Debug, PartialEq, Eq)]
pub enum DeviceProperty {
    /// The service data of the latest advertisement, in the order in which
    /// the entries are to be looked at.
    ServiceData(Vec<ServiceDataEntry>),
    /// Any other property.
    Other,
}

/// What became of one weather entry.
#[derive(Debug, PartialEq, Eq)]
pub enum Delivery {
    /// The decoded advertisement, to be handed to the sensor's worker.
    Forward(Vec<Element>),
    /// The payload could not be decoded; the entry is passed over.
    Rejected(DecodeFailure),
}

/// The mathematical content of a [`Delivery`]: the elements handed on, or
/// whether the payload passed over was empty.
pub enum Outcome {
    Forward(Seq<Element>),
    Rejected { empty: bool },
}

impl View for Delivery {
    type V = Outcome;

    open spec fn view(&self) -> Outcome {
        match self {
            Delivery::Forward(elements) => Outcome::Forward(elements@),
            Delivery::Rejected(failure) => Outcome::Rejected { empty: failure is Empty },
        }
    }
}

/// What becomes of the payload of a weather entry: it is handed on where it
/// decodes, and passed over where it does not.
pub open spec fn outcome(data: Seq<u8>) -> Outcome {
    match decoded(data) {
        Some(elements) => Outcome::Forward(elements),
        None => Outcome::Rejected { empty: data.len() == 0 },
    }
}

/// The leading 32 bits of a service identifier.
pub open spec fn uuid_header(uuid: u128) -> u32 {
    (uuid >> 96) as u32
}

/// Whether a service identifier is the one of weather data.
pub open spec fn is_weather(uuid: u128) -> bool {
    uuid_header(uuid) == WEATHER_SAMPLE_UUID_HEADER
}

/// Service data as plain values.
pub open spec fn plain(entries: Seq<ServiceDataEntry>) -> Seq<(u128, Seq<u8>)> {
    entries.map_values(|entry: ServiceDataEntry| (entry.uuid, entry.data@))
}

/// What the service data of one advertisement leads to: for each weather
/// entry, in order, what becomes of its payload. Other entries leave no
/// trace, and a payload that does not decode takes nothing from the entries
/// around it.
pub open spec fn outcomes(entries: Seq<(u128, Seq<u8>)>) -> Seq<Outcome>
    decreases entries.len(),
{
    if entries.len() == 0 {
        Seq::empty()
    } else if is_weather(entries.last().0) {
        outcomes(entries.drop_last()).push(outcome(entries.last().1))
    } else {
        outcomes(entries.drop_last())
    }
}

/// What a changed property leads to: service data to the outcomes of its
/// weather entries, any other property to nothing.
pub open spec fn property_outcomes(property: DeviceProperty) -> Seq<Outcome> {
    match property {
        DeviceProperty::ServiceData(entries) => outcomes(plain(entries@)),
        DeviceProperty::Other => Seq::empty(),
    }
}

/// The views of a list of deliveries.
pub open spec fn delivered(deliveries: Seq<Delivery>) -> Seq<Outcome> {
    deliveries.map_values(|delivery: Delivery| delivery@)
}

/// Whether a service identifier is the one of weather data.
pub fn has_weather_header(uuid: u128) -> (r: bool)
    ensures
        r == is_weather(uuid),
{
    assert((uuid >> 96) <= 0xffff_ffff) by (bit_vector);
    (uuid >> 96) as u32 == WEATHER_SAMPLE_UUID_HEADER
}

/// Handles a changed property of a device: of service data, every weather
/// entry is decoded, in order; any other property leads to nothing.
pub fn handle_dev_changed_prop_evt(changed_property: &DeviceProperty) -> (deliveries: Vec<
    Delivery,
>)
    ensures
        delivered(deliveries@) == property_outcomes(*changed_property),
{
    let mut deliveries: Vec<Delivery> = Vec::new();
    match changed_property {
        DeviceProperty::ServiceData(service_data) => {
            let mut i: usize = 0;
            while i < service_data.len()
                invariant
                    i <= service_data@.len(),
                    delivered(deliveries@) == outcomes(plain(service_data@).take(i as int)),
                decreases service_data@.len() - i,
            {
                proof {
                    let next = plain(service_data@).take(i + 1);
                    assert(next.drop_last() =~= plain(service_data@).take(i as int));
                }
                let entry = &service_data[i];
                if has_weather_header(entry.uuid) {
                    let delivery = match decode(entry.data.as_slice()) {
                        Ok(elements) => Delivery::Forward(elements),
                        Err(failure) => Delivery::Rejected(failure),
                    };
                    deliveries.push(delivery);
                }
                i += 1;
            }
            assert(plain(service_data@).take(i as int) =~= plain(service_data@));
        },
        DeviceProperty::Other => {},
    }
    deliveries
}

/// Every weather entry has an outcome of its own, at the place that the
/// weather entries before it leave, and that outcome rests on its own payload
/// alone: whether another entry decodes or not changes nothing of it.
pub proof fn lemma_entries_are_independent(entries: Seq<(u128, Seq<u8>)>, k: int)
    requires
        0 <= k < entries.len(),
        is_weather(entries[k].0),
    ensures
        outcomes(entries.take(k)).len() < outcomes(entries).len(),
        outcomes(entries)[outcomes(entries.take(k)).len() as int] == outcome(entries[k].1),
    decreases entries.len(),
{
    if k < entries.len() - 1 {
        let front = entries.drop_last();
        lemma_entries_are_independent(front, k);
        assert(front.take(k) =~= entries.take(k));
    }
}

} // verus!

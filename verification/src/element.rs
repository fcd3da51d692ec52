//! Decoded advertisement elements and the decoder behind them.

use vstd::prelude::*;
use btsensor::bthome::v2;

verus! {

/// One element of a decoded advertisement, reduced to what the relay reads.
#[derive(Clone, Copy, Debug, PartialEq, Eq, Structural)]
pub enum Element {
    /// Temperature in hundredths of a degree Celsius.
    TemperatureSmall(i16),
    /// Relative humidity in hundredths of a percent.
    Humidity(u16),
    /// Battery charge in percent.
    Battery(u8),
    /// Battery voltage in millivolts.
    VoltageSmall(u16),
    /// Any element that the relay has no use for.
    Other,
}

#[verifier::external_type_specification]
#[verifier::external_body]
pub struct ExDecodeError(btsensor::bthome::DecodeError);

/// Why a service-data payload gave no elements.
#[derive(Debug, PartialEq, Eq)]
pub enum DecodeFailure {
    /// The payload holds no byte at all, so not even the device information.
    Empty,
    /// The decoder refused the payload.
    Malformed(btsensor::bthome::DecodeError),
}

/// The elements that the BTHome v2 decoder reads from a non-empty payload,
/// or `None` where it refuses the payload.
pub uninterp spec fn bthome_decoded(data: Seq<u8>) -> Option<Seq<Element>>;

/// What a payload decodes to: nothing where it is empty, else what the
/// BTHome v2 decoder makes of it.
pub open spec fn decoded(data: Seq<u8>) -> Option<Seq<Element>> {
    if data.len() == 0 {
        None
    } else {
        bthome_decoded(data)
    }
}

/// Calls `btsensor::bthome::v2::BtHomeV2::decode` and hands out its elements
/// in order, each as an [`Element`].
///
/// Trusted: the decoder is deterministic, so its outcome on a payload is named
/// `bthome_decoded`; on success the elements returned are that outcome, on
/// failure the outcome is `None`. The decoder indexes the first byte without a
/// test, hence the `requires`.
#[verifier::external_body]
fn decode_bthome(data: &[u8]) -> (r: Result<Vec<Element>, btsensor::bthome::DecodeError>)
    requires
        data@.len() > 0,
    ensures
        r matches Ok(elements) ==> bthome_decoded(data@) == Some(elements@),
        r is Err ==> bthome_decoded(data@) is None,
{
    let packet = v2::BtHomeV2::decode(data)?;
    let mut elements = Vec::new();
    for element in packet.elements {
        elements.push(match element {
            v2::Element::TemperatureSmall(v) => Element::TemperatureSmall(v),
            v2::Element::Humidity(v) => Element::Humidity(v),
            v2::Element::Battery(v) => Element::Battery(v),
            v2::Element::VoltageSmall(v) => Element::VoltageSmall(v),
            _ => Element::Other,
        });
    }
    Ok(elements)
}

/// Decodes one service-data payload.
pub fn decode(data: &[u8]) -> (r: Result<Vec<Element>, DecodeFailure>)
    ensures
        r matches Ok(elements) ==> decoded(data@) == Some(elements@),
        r is Err ==> decoded(data@) is None,
        r matches Err(failure) ==> (failure is Empty <==> data@.len() == 0),
{
    if data.len() == 0 {
        return Err(DecodeFailure::Empty);
    }
    match decode_bthome(data) {
        Ok(elements) => Ok(elements),
        Err(error) => Err(DecodeFailure::Malformed(error)),
    }
}

} // verus!

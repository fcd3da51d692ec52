//! Hardware addresses of sensors.

use vstd::prelude::*;

verus! {

/// The hardware address of a sensor: six octets, most significant first.
#[derive(Clone, Copy, Debug, PartialEq, Eq, Hash)]
pub struct SensorAddress {
    pub octets: [u8; 6],
}

/// The sixteen digits of upper-case hexadecimal notation.
pub open spec fn upper_hex() -> Seq<char> {
    seq!['0', '1', '2', '3', '4', '5', '6', '7', '8', '9', 'A', 'B', 'C', 'D', 'E', 'F']
}

/// One octet as two upper-case hexadecimal digits.
pub open spec fn octet_text(octet: u8) -> Seq<char> {
    seq![upper_hex()[octet as int / 16], upper_hex()[octet as int % 16]]
}

/// Six octets in colon-hexadecimal notation, such as `A4:C1:38:00:0F:2B`.
pub open spec fn colon_hex(octets: Seq<u8>) -> Seq<char>
    recommends
        octets.len() == 6,
{
    octet_text(octets[0]) + seq![':'] + octet_text(octets[1]) + seq![':'] + octet_text(octets[2])
        + seq![':'] + octet_text(octets[3]) + seq![':'] + octet_text(octets[4]) + seq![':']
        + octet_text(octets[5])
}

/// Formats the address with the `Display` impl of `bluer::Address`.
///
/// Trusted: that impl writes each octet as two upper-case hexadecimal digits,
/// in order, with a colon between neighbours.
#[verifier::external_body]
fn bluer_address_text(octets: [u8; 6]) -> (text: String)
    ensures
        text@ == colon_hex(octets@),
{
    bluer::Address::new(octets).to_string()
}

impl SensorAddress {
    pub fn new(octets: [u8; 6]) -> (addr: SensorAddress)
        ensures
            addr.octets == octets,
    {
        SensorAddress { octets }
    }

    /// Whether two addresses are the same.
    pub fn same(&self, other: &SensorAddress) -> (r: bool)
        ensures
            r == (*self == *other),
    {
        let r = self.octets[0] == other.octets[0] && self.octets[1] == other.octets[1]
            && self.octets[2] == other.octets[2] && self.octets[3] == other.octets[3]
            && self.octets[4] == other.octets[4] && self.octets[5] == other.octets[5];
        proof {
            if r {
                assert(self.octets =~= other.octets);
            }
        }
        r
    }

    /// The address in colon-hexadecimal notation.
    pub fn to_text(&self) -> (text: String)
        ensures
            text@ == colon_hex(self.octets@),
    {
        bluer_address_text(self.octets)
    }
}

} // verus!

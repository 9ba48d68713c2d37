//! Decoded telemetry samples and the identifiers they are known by.

use vstd::prelude::*;

verus! {

/// A measured quantity, held as the 32 bits of an IEEE 754 single precision
/// number. No range is asked of it.
#[derive(Clone, Copy, Debug, PartialEq, Eq, Structural)]
pub struct Reading {
    pub bits: u32,
}

impl Reading {
    pub fn from_bits(bits: u32) -> (r: Reading)
        ensures
            r.bits == bits,
    {
        Reading { bits }
    }

    pub fn to_bits(&self) -> (bits: u32)
        ensures
            bits == self.bits,
    {
        self.bits
    }
}

/// One decoded sample.
#[derive(Debug)]
pub struct TelemetryRecord {
    pub id: String,
    /// Seconds since the start of 1970.
    pub timestamp: i64,
    pub temperature: Reading,
    pub voltage: Reading,
    pub current: Reading,
    pub battery_level: i32,
}

/// A digit of lower case hexadecimal.
pub open spec fn is_lower_hex_digit(c: char) -> bool {
    ('0' <= c <= '9') || ('a' <= c <= 'f')
}

/// The text of a random identifier: five groups of lower case hexadecimal
/// digits, of 8, 4, 4, 4 and 12, with hyphens between them; the third group
/// begins with the version, 4, and the fourth with one of the four digits
/// that mark the variant.
pub open spec fn is_random_id_text(s: Seq<char>) -> bool {
    &&& s.len() == 36
    &&& forall|i: int|
        0 <= i < 36 ==> if i == 8 || i == 13 || i == 18 || i == 23 {
            #[trigger] s[i] == '-'
        } else {
            is_lower_hex_digit(s[i])
        }
    &&& s[14] == '4'
    &&& (s[19] == '8' || s[19] == '9' || s[19] == 'a' || s[19] == 'b')
}

/// Draws a random identifier with `uuid::Uuid::new_v4` and writes it out
/// with `to_string`. Nothing is claimed about which identifier comes back,
/// only its shape: `new_v4` fixes the version and variant bits, and the
/// text form is the hyphenated one in lower case. `new_v4` panics where the
/// operating system cannot supply random bytes.
#[verifier::external_body]
fn random_id_text() -> (id: String)
    ensures
        is_random_id_text(id@),
{
    uuid::Uuid::new_v4().to_string()
}

impl TelemetryRecord {
    /// The record that holds exactly the values given.
    pub open spec fn holding(
        id: String,
        timestamp: i64,
        temperature: Reading,
        voltage: Reading,
        current: Reading,
        battery_level: i32,
    ) -> TelemetryRecord {
        TelemetryRecord { id, timestamp, temperature, voltage, current, battery_level }
    }

    /// Makes a record under a fresh random identifier. The identifier is
    /// the one thing that the values given do not decide.
    pub fn new(
        timestamp: i64,
        temperature: Reading,
        voltage: Reading,
        current: Reading,
        battery_level: i32,
    ) -> (r: TelemetryRecord)
        ensures
            is_random_id_text(r.id@),
            r == TelemetryRecord::holding(
                r.id,
                timestamp,
                temperature,
                voltage,
                current,
                battery_level,
            ),
    {
        TelemetryRecord::with_id(
            random_id_text(),
            timestamp,
            temperature,
            voltage,
            current,
            battery_level,
        )
    }

    /// Makes a record under the identifier given, which is kept as it is.
    pub fn with_id(
        id: String,
        timestamp: i64,
        temperature: Reading,
        voltage: Reading,
        current: Reading,
        battery_level: i32,
    ) -> (r: TelemetryRecord)
        ensures
            r == TelemetryRecord::holding(
                id,
                timestamp,
                temperature,
                voltage,
                current,
                battery_level,
            ),
    {
        TelemetryRecord { id, timestamp, temperature, voltage, current, battery_level }
    }
}

/// Two records made under one identifier carry that identifier, whatever
/// else they hold.
pub proof fn lemma_given_id_is_kept(
    id: String,
    first: (i64, Reading, Reading, Reading, i32),
    second: (i64, Reading, Reading, Reading, i32),
)
    ensures
        TelemetryRecord::holding(id, first.0, first.1, first.2, first.3, first.4).id == id,
        TelemetryRecord::holding(id, first.0, first.1, first.2, first.3, first.4).id
            == TelemetryRecord::holding(id, second.0, second.1, second.2, second.3, second.4).id,
{
}

} // verus!

//! Environmental payloads: the decoded reading and its wire decoder.
//!
//! The wire payload is text of five whitespace-separated tokens, in order:
//! sensor name, temperature in Celsius, pressure in kPa, relative humidity
//! as a percentage, and illuminance in lux. The four measured quantities are
//! base-10 floating-point text and are kept as their validated tokens; what
//! consumes them (the store, unit conversions) parses the text at the edge.

use vstd::prelude::*;

use crate::numeric::{is_numeric_text, is_numeric_token, lemma_first_idx2_at, strip_sign};
use crate::text::{tokenize, tokens_of};

verus! {

/// A sensor, identified by its unique name in the store.
#[derive(Debug)]
pub struct EnvSensor {
    pub name: String,
}

/// One decoded telemetry reading. `timestamp` is the receipt time in seconds
/// since the Unix epoch; the four measured quantities are the numeric tokens
/// of the payload, each valid base-10 floating-point text when well-formed.
#[derive(Debug)]
pub struct EnvSensorReading {
    pub sensor: EnvSensor,
    pub timestamp: i64,
    pub temperature: String,
    pub pressure: String,
    pub rel_humid: String,
    pub lux: String,
}

/// Why a payload failed to decode.
#[derive(Debug, Clone, Copy, PartialEq, Eq, Structural)]
pub enum DecodeError {
    /// Fewer than five whitespace-separated tokens.
    MissingField,
    /// A numeric token is not base-10 floating-point text.
    MalformedNumber,
}

/// Whether the four numeric tokens of a payload's token list are all
/// base-10 floating-point text.
pub open spec fn numeric_fields_ok(toks: Seq<Seq<char>>) -> bool
    recommends
        toks.len() >= 5,
{
    is_numeric_text(toks[1]) && is_numeric_text(toks[2]) && is_numeric_text(toks[3])
        && is_numeric_text(toks[4])
}

/// Relies on chrono's `Utc::now` and `DateTime::timestamp` for the receipt
/// timestamp, seconds since the Unix epoch. The value depends on the system
/// clock, so nothing is promised of it.
#[verifier::external_body]
fn now_epoch_seconds() -> i64 {
    chrono::Utc::now().timestamp()
}

impl EnvSensorReading {
    /// The four measured quantities hold base-10 floating-point text.
    pub open spec fn wf(self) -> bool {
        is_numeric_text(self.temperature@) && is_numeric_text(self.pressure@)
            && is_numeric_text(self.rel_humid@) && is_numeric_text(self.lux@)
    }

    /// The reading's fields are exactly the first five tokens of a payload.
    pub open spec fn matches_tokens(self, toks: Seq<Seq<char>>) -> bool {
        &&& toks.len() >= 5
        &&& self.sensor.name@ == toks[0]
        &&& self.temperature@ == toks[1]
        &&& self.pressure@ == toks[2]
        &&& self.rel_humid@ == toks[3]
        &&& self.lux@ == toks[4]
    }

    /// An empty reading: unnamed sensor, all quantities zero, stamped with
    /// the time of the call.
    pub fn new() -> (r: EnvSensorReading)
        ensures
            r.sensor.name@ == Seq::<char>::empty(),
            r.temperature@ == "0"@,
            r.pressure@ == "0"@,
            r.rel_humid@ == "0"@,
            r.lux@ == "0"@,
            r.wf(),
    {
        proof {
            lemma_zero_token_numeric();
        }
        EnvSensorReading {
            sensor: EnvSensor { name: String::new() },
            timestamp: now_epoch_seconds(),
            temperature: zero_token(),
            pressure: zero_token(),
            rel_humid: zero_token(),
            lux: zero_token(),
        }
    }

    /// Decode a wire payload. Returns the reading made of the payload's
    /// first five tokens, stamped with the time of the call; tokens beyond
    /// the fifth are ignored. Fails with `MissingField` when fewer than five
    /// tokens are present, and with `MalformedNumber` when all five are but
    /// some numeric token is not base-10 floating-point text.
    pub fn from_string(reading: String) -> (r: Result<EnvSensorReading, DecodeError>)
        ensures
            r is Ok <==> tokens_of(reading@).len() >= 5 && numeric_fields_ok(tokens_of(reading@)),
            r matches Ok(rd) ==> rd.matches_tokens(tokens_of(reading@)) && rd.wf(),
            r matches Err(e) ==> (e == DecodeError::MissingField <==> tokens_of(
                reading@,
            ).len() < 5),
    {
        let toks = tokenize(reading.as_str());
        if toks.len() < 5 {
            return Err(DecodeError::MissingField);
        }
        let ok_t = is_numeric_token(toks[1].as_str());
        let ok_p = is_numeric_token(toks[2].as_str());
        let ok_h = is_numeric_token(toks[3].as_str());
        let ok_l = is_numeric_token(toks[4].as_str());
        if !(ok_t && ok_p && ok_h && ok_l) {
            return Err(DecodeError::MalformedNumber);
        }
        Ok(
            EnvSensorReading {
                sensor: EnvSensor { name: toks[0].clone() },
                timestamp: now_epoch_seconds(),
                temperature: toks[1].clone(),
                pressure: toks[2].clone(),
                rel_humid: toks[3].clone(),
                lux: toks[4].clone(),
            },
        )
    }
}

/// The token `"0"` is base-10 floating-point text.
proof fn lemma_zero_token_numeric()
    ensures
        is_numeric_text("0"@),
{
    reveal_strlit("0");
    let z = "0"@;
    assert(z.len() == 1 && z[0] == '0');
    lemma_first_idx2_at(z, 'e', 'E', 1);
    lemma_first_idx2_at(z, '.', '.', 1);
    assert(strip_sign(z) == z);
}

/// The owned token `"0"`.
fn zero_token() -> (t: String)
    ensures
        t@ == "0"@,
{
    String::from_str("0")
}

} // verus!

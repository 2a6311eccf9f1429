use vstd::prelude::*;

use crate::timestamp::{parse_rfc3339, rfc3339_instant, Timestamp};

verus! {

/// The only `dataschema` that is accepted.
pub const SCHEMA: &'static str = "urn:drogue:iot:temperature";

/// What the payload holds under `data.temp`.
pub enum TempField<V> {
    /// No such field.
    Missing,
    /// A number.
    Number(V),
    /// A string that reads as a decimal number.
    NumericText(V),
    /// A number, or a string reading as one, that is NaN or infinite.
    NonFinite,
    /// A string that is no number, or a value of another type.
    Other,
}

/// The fields of one inbound message that extraction looks at.
pub struct Payload<V> {
    pub schema: Option<String>,
    pub device: Option<String>,
    pub time: Option<String>,
    pub temp: TempField<V>,
}

/// A validated reading.
pub struct TelemetryRecord<V> {
    pub schema: String,
    pub device: String,
    pub timestamp: Timestamp,
    pub value: V,
}

#[derive(Clone, Copy, Debug, PartialEq, Eq, Structural)]
pub enum RejectReason {
    SchemaMismatch,
    MissingField,
    TimestampParseError,
    ValueTypeError,
    NonFiniteValue,
}

pub open spec fn schema_matches<V>(p: &Payload<V>) -> bool {
    match p.schema {
        Some(s) => s@ == SCHEMA@,
        None => false,
    }
}

/// The outcome of extraction, as device, instant and value, or the reason for rejecting:
/// first the schema, then the presence of the fields, then the time, then the value.
pub open spec fn extraction<V>(p: &Payload<V>) -> Result<(Seq<char>, Timestamp, V), RejectReason> {
    if !schema_matches(p) {
        Err(RejectReason::SchemaMismatch)
    } else if p.device is None || p.time is None || p.temp is Missing {
        Err(RejectReason::MissingField)
    } else if rfc3339_instant(p.time->Some_0@) is None {
        Err(RejectReason::TimestampParseError)
    } else {
        let t = rfc3339_instant(p.time->Some_0@)->Some_0;
        let d = p.device->Some_0@;
        match p.temp {
            TempField::Number(v) => Ok((d, t, v)),
            TempField::NumericText(v) => Ok((d, t, v)),
            TempField::NonFinite => Err(RejectReason::NonFiniteValue),
            _ => Err(RejectReason::ValueTypeError),
        }
    }
}

/// Validates one payload into a record, or says why it is dropped.
pub fn extract<V: Copy>(p: &Payload<V>) -> (r: Result<TelemetryRecord<V>, RejectReason>)
    ensures
        match r {
            Ok(rec) => rec.schema@ == SCHEMA@ && extraction(p) == Ok::<
                (Seq<char>, Timestamp, V),
                RejectReason,
            >((rec.device@, rec.timestamp, rec.value)),
            Err(e) => extraction(p) == Err::<(Seq<char>, Timestamp, V), RejectReason>(e),
        },
{
    let expected = SCHEMA.to_owned();
    let schema = match &p.schema {
        Some(s) => s,
        None => {
            return Err(RejectReason::SchemaMismatch);
        },
    };
    if !(*schema == expected) {
        return Err(RejectReason::SchemaMismatch);
    }
    let (device, time) = match (&p.device, &p.time) {
        (Some(d), Some(t)) => (d, t),
        _ => {
            return Err(RejectReason::MissingField);
        },
    };
    if let TempField::Missing = p.temp {
        return Err(RejectReason::MissingField);
    }
    let timestamp = match parse_rfc3339(time.as_str()) {
        Some(t) => t,
        None => {
            return Err(RejectReason::TimestampParseError);
        },
    };
    let value = match p.temp {
        TempField::Number(v) => v,
        TempField::NumericText(v) => v,
        TempField::NonFinite => {
            return Err(RejectReason::NonFiniteValue);
        },
        _ => {
            return Err(RejectReason::ValueTypeError);
        },
    };
    Ok(TelemetryRecord { schema: expected, device: device.clone(), timestamp, value })
}

} // verus!

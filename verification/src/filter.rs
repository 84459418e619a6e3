//! The threshold rule: which readings are kept, and the evaluation of one
//! message from its envelope to the decision.

use vstd::prelude::*;
use crate::config::{Bound, Config, ConfigView};
use crate::decode::{decode, decoded_document, DecodeError};
use crate::json::json_document;
use crate::measurement::{Measurement, MeasurementTemperatureUnit, MeasurementView};
use crate::number::Double;

verus! {

/// The rule. A reading is kept exactly when it is a temperature, in Celsius,
/// with a value, and that value lies strictly between the two bounds.
pub open spec fn accepts(m: MeasurementView, lower: Double, upper: Double) -> bool {
    match m {
        MeasurementView::Temperature(t) => {
            &&& t.unit == MeasurementTemperatureUnit::Celsius
            &&& t.value matches Some(v) && lower.spec_lt(v) && v.spec_lt(upper)
        },
        _ => false,
    }
}

/// Decides whether a reading is kept. An absent value is looked at before any
/// comparison and means that the reading is dropped.
pub fn decide(measurement: &Measurement, lower: Double, upper: Double) -> (keep: bool)
    ensures
        keep == accepts(measurement@, lower, upper),
{
    match measurement {
        Measurement::Temperature(t) => match t.unit {
            MeasurementTemperatureUnit::Celsius => match t.value {
                Some(v) => lower.lt(&v) && v.lt(&upper),
                None => false,
            },
            MeasurementTemperatureUnit::Fahrenheit => false,
        },
        _ => false,
    }
}

/// A Celsius temperature with a value is kept exactly when the value lies in
/// the open interval between the bounds.
pub proof fn lemma_celsius_kept_iff_inside(m: MeasurementView, v: Double, lower: Double, upper: Double)
    requires
        m matches MeasurementView::Temperature(t) && t.unit == MeasurementTemperatureUnit::Celsius
            && t.value == Some(v),
    ensures
        accepts(m, lower, upper) <==> (lower.spec_lt(v) && v.spec_lt(upper)),
{
}

/// A value equal to either bound is dropped: the interval is open.
pub proof fn lemma_bounds_excluded(m: MeasurementView, lower: Double, upper: Double)
    requires
        m matches MeasurementView::Temperature(t) && (t.value == Some(lower) || t.value == Some(
            upper,
        )),
    ensures
        !accepts(m, lower, upper),
{
}

/// A Fahrenheit reading is dropped whatever its value: nothing is converted.
pub proof fn lemma_fahrenheit_dropped(m: MeasurementView, lower: Double, upper: Double)
    requires
        m matches MeasurementView::Temperature(t) && t.unit
            == MeasurementTemperatureUnit::Fahrenheit,
    ensures
        !accepts(m, lower, upper),
{
}

/// A temperature without a value is dropped.
pub proof fn lemma_absent_value_dropped(m: MeasurementView, lower: Double, upper: Double)
    requires
        m matches MeasurementView::Temperature(t) && t.value is None,
    ensures
        !accepts(m, lower, upper),
{
}

/// Humidity readings, object results and batches are dropped whatever the
/// bounds.
pub proof fn lemma_other_shapes_dropped(m: MeasurementView, lower: Double, upper: Double)
    requires
        !(m is Temperature),
    ensures
        !accepts(m, lower, upper),
{
}

/// How a message carries its payload.
#[derive(Debug, PartialEq)]
pub enum Envelope {
    /// The contents of a buffered stream, read to its end.
    Buffer(Vec<u8>),
    /// Bytes that the message held as they are.
    Bytes(Vec<u8>),
    /// Any other payload.
    Other,
}

/// Why a message got no decision.
#[derive(Clone, Copy, Debug, PartialEq, Eq, Structural)]
pub enum FilterError {
    /// The named bound was never written.
    MissingConfiguration(Bound),
    /// The payload is neither a buffer nor bytes.
    UnexpectedPayload,
    /// The payload is not a measurement.
    Decode(DecodeError),
}

/// The bytes that an envelope carries, if it carries any.
pub open spec fn payload_of(envelope: Envelope) -> Option<Seq<u8>> {
    match envelope {
        Envelope::Buffer(bytes) => Some(bytes@),
        Envelope::Bytes(bytes) => Some(bytes@),
        Envelope::Other => None,
    }
}

/// The decision on a decoded measurement under a configuration: the lower
/// bound is asked for first, then the upper one, then the rule applies.
pub open spec fn judged(config: ConfigView, m: MeasurementView) -> Result<bool, FilterError> {
    match (config.lower, config.upper) {
        (None, _) => Err(FilterError::MissingConfiguration(Bound::Lower)),
        (Some(_), None) => Err(FilterError::MissingConfiguration(Bound::Upper)),
        (Some(lower), Some(upper)) => Ok(accepts(m, lower, upper)),
    }
}

/// The outcome of one message, given what its payload decodes to. A missing
/// bound is reported whatever the message holds; then an unexpected payload;
/// then a payload that does not decode.
pub open spec fn evaluated(
    config: ConfigView,
    payload: Option<Result<MeasurementView, DecodeError>>,
) -> Result<bool, FilterError> {
    if config.lower is None {
        Err(FilterError::MissingConfiguration(Bound::Lower))
    } else if config.upper is None {
        Err(FilterError::MissingConfiguration(Bound::Upper))
    } else {
        match payload {
            None => Err(FilterError::UnexpectedPayload),
            Some(Err(e)) => Err(FilterError::Decode(e)),
            Some(Ok(m)) => judged(config, m),
        }
    }
}

/// What the payload of an envelope decodes to, if the envelope carries one.
pub open spec fn payload_decoded(envelope: Envelope) -> Option<
    Result<MeasurementView, DecodeError>,
> {
    match payload_of(envelope) {
        Some(bytes) => Some(decoded_document(json_document(bytes))),
        None => None,
    }
}

/// Takes the payload out of an envelope.
pub fn extract(envelope: Envelope) -> (r: Result<Vec<u8>, FilterError>)
    ensures
        match r {
            Ok(bytes) => payload_of(envelope) == Some(bytes@),
            Err(e) => payload_of(envelope) is None && e == FilterError::UnexpectedPayload,
        },
{
    match envelope {
        Envelope::Buffer(bytes) => Ok(bytes),
        Envelope::Bytes(bytes) => Ok(bytes),
        Envelope::Other => Err(FilterError::UnexpectedPayload),
    }
}

/// Decides on a decoded measurement with the bounds of a configuration.
pub fn judge(config: &Config, measurement: &Measurement) -> (r: Result<bool, FilterError>)
    ensures
        r == judged(config@, measurement@),
{
    let lower = match config.lower_bound() {
        Some(v) => v,
        None => { return Err(FilterError::MissingConfiguration(Bound::Lower)); },
    };
    let upper = match config.upper_bound() {
        Some(v) => v,
        None => { return Err(FilterError::MissingConfiguration(Bound::Upper)); },
    };
    Ok(decide(measurement, lower, upper))
}

/// Evaluates one message: checks that both bounds are there, takes the
/// payload, decodes it and decides. A failure concerns this message alone;
/// the configuration is only read.
pub fn evaluate(config: &Config, envelope: Envelope) -> (r: Result<bool, FilterError>)
    ensures
        r == evaluated(config@, payload_decoded(envelope)),
{
    if config.lower_bound().is_none() {
        return Err(FilterError::MissingConfiguration(Bound::Lower));
    }
    if config.upper_bound().is_none() {
        return Err(FilterError::MissingConfiguration(Bound::Upper));
    }
    let bytes = match extract(envelope) {
        Ok(bytes) => bytes,
        Err(e) => { return Err(e); },
    };
    match decode(bytes.as_slice()) {
        Ok(measurement) => judge(config, &measurement),
        Err(e) => Err(FilterError::Decode(e)),
    }
}

/// Without a lower bound no message gets a decision, whatever it holds and
/// whatever the upper bound is.
pub proof fn lemma_missing_lower_bound_fails(
    config: ConfigView,
    payload: Option<Result<MeasurementView, DecodeError>>,
)
    requires
        config.lower is None,
    ensures
        evaluated(config, payload) == Err::<bool, FilterError>(
            FilterError::MissingConfiguration(Bound::Lower),
        ),
{
}

/// A decision is given exactly when both bounds are there and the payload
/// decodes; it is then the rule's.
pub proof fn lemma_decision_iff_configured_and_decoded(
    config: ConfigView,
    payload: Option<Result<MeasurementView, DecodeError>>,
)
    ensures
        evaluated(config, payload) is Ok <==> (config.lower is Some && config.upper is Some
            && payload matches Some(Ok(_))),
        evaluated(config, payload) is Ok ==> evaluated(config, payload) == Ok::<bool, FilterError>(
            accepts(payload->Some_0->Ok_0, config.lower->Some_0, config.upper->Some_0),
        ),
{
}

} // verus!

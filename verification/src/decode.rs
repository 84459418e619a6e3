//! The decoder: from a JSON record with a `type` member to a measurement.

use vstd::prelude::*;
use crate::json::{
    items_view,
    json_document,
    lemma_view_unfolds,
    lookup,
    member,
    members_view,
    parse,
    Json,
    JsonMember,
    JsonView,
    MemberView,
};
use crate::measurement::{
    Measurement,
    MeasurementHumidity,
    MeasurementObject,
    MeasurementSensorData,
    MeasurementTemperature,
    MeasurementTemperatureUnit,
    MeasurementView,
    objects_view,
    ObjectView,
    SensorDataView,
};
use crate::number::Double;

verus! {

/// Why a document is not a measurement.
#[derive(Clone, Copy, Debug, PartialEq, Eq, Structural)]
pub enum DecodeError {
    /// The bytes are not one JSON document, the document or a batch entry is
    /// not a record, or a member holds a value of the wrong shape.
    Malformed,
    /// The `type` member names none of the four shapes.
    UnknownDiscriminator,
    /// A member without a default is absent: `type`, `unit` or `result`.
    MissingField,
}

/// A member that may be absent or null: then there is no number.
pub open spec fn optional_real(members: Seq<MemberView>, name: Seq<char>) -> Result<
    Option<Double>,
    DecodeError,
> {
    match lookup(members, name) {
        None => Ok(None),
        Some(JsonView::Null) => Ok(None),
        Some(JsonView::Number(n)) => match n.real {
            Some(d) => Ok(Some(d)),
            None => Err(DecodeError::Malformed),
        },
        Some(_) => Err(DecodeError::Malformed),
    }
}

/// A number that is zero when its member is absent.
pub open spec fn real_or_zero(members: Seq<MemberView>, name: Seq<char>) -> Result<
    Double,
    DecodeError,
> {
    match lookup(members, name) {
        None => Ok(Double { bits: 0 }),
        Some(JsonView::Number(n)) => match n.real {
            Some(d) => Ok(d),
            None => Err(DecodeError::Malformed),
        },
        Some(_) => Err(DecodeError::Malformed),
    }
}

/// A count that is zero when its member is absent. A number that is not a
/// non-negative integer is refused.
pub open spec fn count_or_zero(members: Seq<MemberView>, name: Seq<char>) -> Result<
    u64,
    DecodeError,
> {
    match lookup(members, name) {
        None => Ok(0),
        Some(JsonView::Number(n)) => match n.unsigned {
            Some(c) => Ok(c),
            None => Err(DecodeError::Malformed),
        },
        Some(_) => Err(DecodeError::Malformed),
    }
}

/// A flag that is false when its member is absent.
pub open spec fn flag_or_false(members: Seq<MemberView>, name: Seq<char>) -> Result<
    bool,
    DecodeError,
> {
    match lookup(members, name) {
        None => Ok(false),
        Some(JsonView::Bool(b)) => Ok(b),
        Some(_) => Err(DecodeError::Malformed),
    }
}

/// A text that has to be there.
pub open spec fn required_text(members: Seq<MemberView>, name: Seq<char>) -> Result<
    Seq<char>,
    DecodeError,
> {
    match lookup(members, name) {
        None => Err(DecodeError::MissingField),
        Some(JsonView::Text(s)) => Ok(s),
        Some(_) => Err(DecodeError::Malformed),
    }
}

/// The unit that a text names.
pub open spec fn unit_named(text: Seq<char>) -> Result<MeasurementTemperatureUnit, DecodeError> {
    if text == "C"@ {
        Ok(MeasurementTemperatureUnit::Celsius)
    } else if text == "F"@ {
        Ok(MeasurementTemperatureUnit::Fahrenheit)
    } else {
        Err(DecodeError::Malformed)
    }
}

/// The `unit` member, which has to be there and to read `C` or `F`.
pub open spec fn required_unit(members: Seq<MemberView>) -> Result<
    MeasurementTemperatureUnit,
    DecodeError,
> {
    match required_text(members, "unit"@) {
        Ok(text) => unit_named(text),
        Err(e) => Err(e),
    }
}

fn read_optional_real(members: &Vec<JsonMember>, name: &str) -> (r: Result<
    Option<Double>,
    DecodeError,
>)
    ensures
        r == optional_real(members_view(members@), name@),
{
    match member(members, name) {
        None => Ok(None),
        Some(Json::Null) => Ok(None),
        Some(Json::Number(n)) => match n.real {
            Some(d) => Ok(Some(d)),
            None => Err(DecodeError::Malformed),
        },
        Some(_) => Err(DecodeError::Malformed),
    }
}

fn read_real(members: &Vec<JsonMember>, name: &str) -> (r: Result<Double, DecodeError>)
    ensures
        r == real_or_zero(members_view(members@), name@),
{
    match member(members, name) {
        None => Ok(Double::zero()),
        Some(Json::Number(n)) => match n.real {
            Some(d) => Ok(d),
            None => Err(DecodeError::Malformed),
        },
        Some(_) => Err(DecodeError::Malformed),
    }
}

fn read_count(members: &Vec<JsonMember>, name: &str) -> (r: Result<u64, DecodeError>)
    ensures
        r == count_or_zero(members_view(members@), name@),
{
    match member(members, name) {
        None => Ok(0),
        Some(Json::Number(n)) => match n.unsigned {
            Some(c) => Ok(c),
            None => Err(DecodeError::Malformed),
        },
        Some(_) => Err(DecodeError::Malformed),
    }
}

fn read_flag(members: &Vec<JsonMember>, name: &str) -> (r: Result<bool, DecodeError>)
    ensures
        r == flag_or_false(members_view(members@), name@),
{
    match member(members, name) {
        None => Ok(false),
        Some(Json::Bool(b)) => Ok(*b),
        Some(_) => Err(DecodeError::Malformed),
    }
}

fn read_text<'a>(members: &'a Vec<JsonMember>, name: &str) -> (r: Result<&'a String, DecodeError>)
    ensures
        match r {
            Ok(text) => required_text(members_view(members@), name@) == Ok::<
                Seq<char>,
                DecodeError,
            >(text@),
            Err(e) => required_text(members_view(members@), name@) == Err::<
                Seq<char>,
                DecodeError,
            >(e),
        },
{
    match member(members, name) {
        None => Err(DecodeError::MissingField),
        Some(Json::Text(s)) => Ok(s),
        Some(_) => Err(DecodeError::Malformed),
    }
}

fn text_is(text: &String, word: &str) -> (r: bool)
    ensures
        r == (text@ == word@),
{
    let wanted = word.to_owned();
    *text == wanted
}

fn read_unit(members: &Vec<JsonMember>) -> (r: Result<MeasurementTemperatureUnit, DecodeError>)
    ensures
        r == required_unit(members_view(members@)),
{
    match read_text(members, "unit") {
        Ok(text) => {
            if text_is(text, "C") {
                Ok(MeasurementTemperatureUnit::Celsius)
            } else if text_is(text, "F") {
                Ok(MeasurementTemperatureUnit::Fahrenheit)
            } else {
                Err(DecodeError::Malformed)
            }
        },
        Err(e) => Err(e),
    }
}

/// The temperature reading that the members of a record spell. Members are
/// read in the order of the fields; the first one that cannot be read decides
/// the error. Members of other names are passed over.
pub open spec fn temperature_of(members: Seq<MemberView>) -> Result<
    MeasurementTemperature,
    DecodeError,
> {
    let value = optional_real(members, "value"@);
    let count = count_or_zero(members, "count"@);
    let max = real_or_zero(members, "max"@);
    let min = real_or_zero(members, "min"@);
    let average = real_or_zero(members, "average"@);
    let last = real_or_zero(members, "last"@);
    let unit = required_unit(members);
    let overtemp = flag_or_false(members, "overtemp"@);
    if value is Err {
        Err(value->Err_0)
    } else if count is Err {
        Err(count->Err_0)
    } else if max is Err {
        Err(max->Err_0)
    } else if min is Err {
        Err(min->Err_0)
    } else if average is Err {
        Err(average->Err_0)
    } else if last is Err {
        Err(last->Err_0)
    } else if unit is Err {
        Err(unit->Err_0)
    } else if overtemp is Err {
        Err(overtemp->Err_0)
    } else {
        Ok(
            MeasurementTemperature {
                value: value->Ok_0,
                count: count->Ok_0,
                max: max->Ok_0,
                min: min->Ok_0,
                average: average->Ok_0,
                last: last->Ok_0,
                unit: unit->Ok_0,
                overtemp: overtemp->Ok_0,
            },
        )
    }
}

/// The humidity reading that the members of a record spell.
pub open spec fn humidity_of(members: Seq<MemberView>) -> Result<MeasurementHumidity, DecodeError> {
    let value = optional_real(members, "value"@);
    let count = count_or_zero(members, "count"@);
    let max = real_or_zero(members, "max"@);
    let min = real_or_zero(members, "min"@);
    let average = real_or_zero(members, "average"@);
    let last = real_or_zero(members, "last"@);
    if value is Err {
        Err(value->Err_0)
    } else if count is Err {
        Err(count->Err_0)
    } else if max is Err {
        Err(max->Err_0)
    } else if min is Err {
        Err(min->Err_0)
    } else if average is Err {
        Err(average->Err_0)
    } else if last is Err {
        Err(last->Err_0)
    } else {
        Ok(
            MeasurementHumidity {
                value: value->Ok_0,
                count: count->Ok_0,
                max: max->Ok_0,
                min: min->Ok_0,
                average: average->Ok_0,
                last: last->Ok_0,
            },
        )
    }
}

/// The object result that the members of a record spell.
pub open spec fn object_of(members: Seq<MemberView>) -> Result<ObjectView, DecodeError> {
    match required_text(members, "result"@) {
        Ok(text) => Ok(ObjectView { result: text }),
        Err(e) => Err(e),
    }
}

fn read_temperature(members: &Vec<JsonMember>) -> (r: Result<MeasurementTemperature, DecodeError>)
    ensures
        r == temperature_of(members_view(members@)),
{
    let value = match read_optional_real(members, "value") {
        Ok(v) => v,
        Err(e) => { return Err(e); },
    };
    let count = match read_count(members, "count") {
        Ok(v) => v,
        Err(e) => { return Err(e); },
    };
    let max = match read_real(members, "max") {
        Ok(v) => v,
        Err(e) => { return Err(e); },
    };
    let min = match read_real(members, "min") {
        Ok(v) => v,
        Err(e) => { return Err(e); },
    };
    let average = match read_real(members, "average") {
        Ok(v) => v,
        Err(e) => { return Err(e); },
    };
    let last = match read_real(members, "last") {
        Ok(v) => v,
        Err(e) => { return Err(e); },
    };
    let unit = match read_unit(members) {
        Ok(v) => v,
        Err(e) => { return Err(e); },
    };
    let overtemp = match read_flag(members, "overtemp") {
        Ok(v) => v,
        Err(e) => { return Err(e); },
    };
    Ok(MeasurementTemperature { value, count, max, min, average, last, unit, overtemp })
}

fn read_humidity(members: &Vec<JsonMember>) -> (r: Result<MeasurementHumidity, DecodeError>)
    ensures
        r == humidity_of(members_view(members@)),
{
    let value = match read_optional_real(members, "value") {
        Ok(v) => v,
        Err(e) => { return Err(e); },
    };
    let count = match read_count(members, "count") {
        Ok(v) => v,
        Err(e) => { return Err(e); },
    };
    let max = match read_real(members, "max") {
        Ok(v) => v,
        Err(e) => { return Err(e); },
    };
    let min = match read_real(members, "min") {
        Ok(v) => v,
        Err(e) => { return Err(e); },
    };
    let average = match read_real(members, "average") {
        Ok(v) => v,
        Err(e) => { return Err(e); },
    };
    let last = match read_real(members, "last") {
        Ok(v) => v,
        Err(e) => { return Err(e); },
    };
    Ok(MeasurementHumidity { value, count, max, min, average, last })
}

fn read_object(members: &Vec<JsonMember>) -> (r: Result<MeasurementObject, DecodeError>)
    ensures
        match r {
            Ok(o) => object_of(members_view(members@)) == Ok::<ObjectView, DecodeError>(o@),
            Err(e) => object_of(members_view(members@)) == Err::<ObjectView, DecodeError>(e),
        },
{
    match read_text(members, "result") {
        Ok(text) => Ok(MeasurementObject { result: text.clone() }),
        Err(e) => Err(e),
    }
}


/// A batch entry read as temperature: it has to be a record.
pub open spec fn temperature_entry(j: JsonView) -> Result<MeasurementTemperature, DecodeError> {
    match j {
        JsonView::Record(members) => temperature_of(members),
        _ => Err(DecodeError::Malformed),
    }
}

/// The entries of a list, each read as temperature, in the order of the list.
/// The first entry that cannot be read decides the error.
pub open spec fn temperature_entries(items: Seq<JsonView>) -> Result<Seq<MeasurementTemperature>, DecodeError>
    decreases items.len(),
{
    if items.len() == 0 {
        Ok(Seq::empty())
    } else {
        match temperature_entries(items.drop_last()) {
            Err(e) => Err(e),
            Ok(front) => match temperature_entry(items.last()) {
                Err(e) => Err(e),
                Ok(entry) => Ok(front.push(entry)),
            },
        }
    }
}

/// The member `temperature` of a batch: absent it is the empty sequence, and
/// present it has to be a list.
pub open spec fn temperature_list(members: Seq<MemberView>) -> Result<Seq<MeasurementTemperature>, DecodeError> {
    match lookup(members, "temperature"@) {
        None => Ok(Seq::empty()),
        Some(JsonView::List(items)) => temperature_entries(items),
        Some(_) => Err(DecodeError::Malformed),
    }
}

proof fn lemma_temperature_prefix_fails(items: Seq<JsonView>, k: int)
    requires
        0 <= k <= items.len(),
        temperature_entries(items.take(k)) is Err,
    ensures
        temperature_entries(items) == temperature_entries(items.take(k)),
    decreases items.len() - k,
{
    if k < items.len() {
        assert(items.take(k + 1).drop_last() =~= items.take(k));
        lemma_temperature_prefix_fails(items, k + 1);
    } else {
        assert(items.take(k) =~= items);
    }
}

/// A batch entry read as humidity: it has to be a record.
pub open spec fn humidity_entry(j: JsonView) -> Result<MeasurementHumidity, DecodeError> {
    match j {
        JsonView::Record(members) => humidity_of(members),
        _ => Err(DecodeError::Malformed),
    }
}

/// The entries of a list, each read as humidity, in the order of the list.
/// The first entry that cannot be read decides the error.
pub open spec fn humidity_entries(items: Seq<JsonView>) -> Result<Seq<MeasurementHumidity>, DecodeError>
    decreases items.len(),
{
    if items.len() == 0 {
        Ok(Seq::empty())
    } else {
        match humidity_entries(items.drop_last()) {
            Err(e) => Err(e),
            Ok(front) => match humidity_entry(items.last()) {
                Err(e) => Err(e),
                Ok(entry) => Ok(front.push(entry)),
            },
        }
    }
}

/// The member `humidity` of a batch: absent it is the empty sequence, and
/// present it has to be a list.
pub open spec fn humidity_list(members: Seq<MemberView>) -> Result<Seq<MeasurementHumidity>, DecodeError> {
    match lookup(members, "humidity"@) {
        None => Ok(Seq::empty()),
        Some(JsonView::List(items)) => humidity_entries(items),
        Some(_) => Err(DecodeError::Malformed),
    }
}

proof fn lemma_humidity_prefix_fails(items: Seq<JsonView>, k: int)
    requires
        0 <= k <= items.len(),
        humidity_entries(items.take(k)) is Err,
    ensures
        humidity_entries(items) == humidity_entries(items.take(k)),
    decreases items.len() - k,
{
    if k < items.len() {
        assert(items.take(k + 1).drop_last() =~= items.take(k));
        lemma_humidity_prefix_fails(items, k + 1);
    } else {
        assert(items.take(k) =~= items);
    }
}

/// A batch entry read as object: it has to be a record.
pub open spec fn object_entry(j: JsonView) -> Result<ObjectView, DecodeError> {
    match j {
        JsonView::Record(members) => object_of(members),
        _ => Err(DecodeError::Malformed),
    }
}

/// The entries of a list, each read as object, in the order of the list.
/// The first entry that cannot be read decides the error.
pub open spec fn object_entries(items: Seq<JsonView>) -> Result<Seq<ObjectView>, DecodeError>
    decreases items.len(),
{
    if items.len() == 0 {
        Ok(Seq::empty())
    } else {
        match object_entries(items.drop_last()) {
            Err(e) => Err(e),
            Ok(front) => match object_entry(items.last()) {
                Err(e) => Err(e),
                Ok(entry) => Ok(front.push(entry)),
            },
        }
    }
}

/// The member `object` of a batch: absent it is the empty sequence, and
/// present it has to be a list.
pub open spec fn object_list(members: Seq<MemberView>) -> Result<Seq<ObjectView>, DecodeError> {
    match lookup(members, "object"@) {
        None => Ok(Seq::empty()),
        Some(JsonView::List(items)) => object_entries(items),
        Some(_) => Err(DecodeError::Malformed),
    }
}

proof fn lemma_object_prefix_fails(items: Seq<JsonView>, k: int)
    requires
        0 <= k <= items.len(),
        object_entries(items.take(k)) is Err,
    ensures
        object_entries(items) == object_entries(items.take(k)),
    decreases items.len() - k,
{
    if k < items.len() {
        assert(items.take(k + 1).drop_last() =~= items.take(k));
        lemma_object_prefix_fails(items, k + 1);
    } else {
        assert(items.take(k) =~= items);
    }
}

fn read_temperature_list(members: &Vec<JsonMember>) -> (r: Result<Vec<MeasurementTemperature>, DecodeError>)
    ensures
        match r {
            Ok(out) => temperature_list(members_view(members@)) == Ok::<Seq<MeasurementTemperature>, DecodeError>(
                out@,
            ),
            Err(e) => temperature_list(members_view(members@)) == Err::<Seq<MeasurementTemperature>, DecodeError>(e),
        },
{
    let found = member(members, "temperature");
    let items = match found {
        None => { return Ok(Vec::new()); },
        Some(Json::List(items)) => items,
        Some(_) => { return Err(DecodeError::Malformed); },
    };
    proof {
        lemma_view_unfolds(*found.unwrap());
    }
    let ghost all = items_view(items@);
    let mut out: Vec<MeasurementTemperature> = Vec::new();
    let mut i: usize = 0;
    while i < items.len()
        invariant
            i <= items.len(),
            all == items_view(items@),
            temperature_list(members_view(members@)) == temperature_entries(all),
            temperature_entries(all.take(i as int)) == Ok::<Seq<MeasurementTemperature>, DecodeError>(out@),
        decreases items.len() - i,
    {
        proof {
            lemma_view_unfolds(items[i as int]);
            assert(all.take(i as int + 1).drop_last() =~= all.take(i as int));
            assert(all.take(i as int + 1).last() == all[i as int]);
        }
        let entry = match &items[i] {
            Json::Record(entry_members) => read_temperature(entry_members),
            _ => Err(DecodeError::Malformed),
        };
        match entry {
            Ok(e) => {
                out.push(e);
            },
            Err(e) => {
                proof {
                    lemma_temperature_prefix_fails(all, i as int + 1);
                }
                return Err(e);
            },
        }
        i += 1;
    }
    proof {
        assert(all.take(i as int) =~= all);
    }
    Ok(out)
}

fn read_humidity_list(members: &Vec<JsonMember>) -> (r: Result<Vec<MeasurementHumidity>, DecodeError>)
    ensures
        match r {
            Ok(out) => humidity_list(members_view(members@)) == Ok::<Seq<MeasurementHumidity>, DecodeError>(
                out@,
            ),
            Err(e) => humidity_list(members_view(members@)) == Err::<Seq<MeasurementHumidity>, DecodeError>(e),
        },
{
    let found = member(members, "humidity");
    let items = match found {
        None => { return Ok(Vec::new()); },
        Some(Json::List(items)) => items,
        Some(_) => { return Err(DecodeError::Malformed); },
    };
    proof {
        lemma_view_unfolds(*found.unwrap());
    }
    let ghost all = items_view(items@);
    let mut out: Vec<MeasurementHumidity> = Vec::new();
    let mut i: usize = 0;
    while i < items.len()
        invariant
            i <= items.len(),
            all == items_view(items@),
            humidity_list(members_view(members@)) == humidity_entries(all),
            humidity_entries(all.take(i as int)) == Ok::<Seq<MeasurementHumidity>, DecodeError>(out@),
        decreases items.len() - i,
    {
        proof {
            lemma_view_unfolds(items[i as int]);
            assert(all.take(i as int + 1).drop_last() =~= all.take(i as int));
            assert(all.take(i as int + 1).last() == all[i as int]);
        }
        let entry = match &items[i] {
            Json::Record(entry_members) => read_humidity(entry_members),
            _ => Err(DecodeError::Malformed),
        };
        match entry {
            Ok(e) => {
                out.push(e);
            },
            Err(e) => {
                proof {
                    lemma_humidity_prefix_fails(all, i as int + 1);
                }
                return Err(e);
            },
        }
        i += 1;
    }
    proof {
        assert(all.take(i as int) =~= all);
    }
    Ok(out)
}

fn read_object_list(members: &Vec<JsonMember>) -> (r: Result<Vec<MeasurementObject>, DecodeError>)
    ensures
        match r {
            Ok(out) => object_list(members_view(members@)) == Ok::<Seq<ObjectView>, DecodeError>(
                objects_view(out@),
            ),
            Err(e) => object_list(members_view(members@)) == Err::<Seq<ObjectView>, DecodeError>(e),
        },
{
    let found = member(members, "object");
    proof {
        assert(objects_view(Seq::empty()) =~= Seq::empty());
    }
    let items = match found {
        None => { return Ok(Vec::new()); },
        Some(Json::List(items)) => items,
        Some(_) => { return Err(DecodeError::Malformed); },
    };
    proof {
        lemma_view_unfolds(*found.unwrap());
    }
    let ghost all = items_view(items@);
    let mut out: Vec<MeasurementObject> = Vec::new();
    let mut i: usize = 0;
    while i < items.len()
        invariant
            i <= items.len(),
            all == items_view(items@),
            object_list(members_view(members@)) == object_entries(all),
            object_entries(all.take(i as int)) == Ok::<Seq<ObjectView>, DecodeError>(objects_view(out@)),
        decreases items.len() - i,
    {
        proof {
            lemma_view_unfolds(items[i as int]);
            assert(all.take(i as int + 1).drop_last() =~= all.take(i as int));
            assert(all.take(i as int + 1).last() == all[i as int]);
        }
        let entry = match &items[i] {
            Json::Record(entry_members) => read_object(entry_members),
            _ => Err(DecodeError::Malformed),
        };
        match entry {
            Ok(e) => {
                proof {
                    assert(objects_view(out@.push(e)) =~= objects_view(out@).push(e@));
                }
                out.push(e);
            },
            Err(e) => {
                proof {
                    lemma_object_prefix_fails(all, i as int + 1);
                }
                return Err(e);
            },
        }
        i += 1;
    }
    proof {
        assert(all.take(i as int) =~= all);
    }
    Ok(out)
}

/// The batch that the members of a record spell: its three lists, read in
/// the order temperature, humidity, object.
pub open spec fn sensor_data_of(members: Seq<MemberView>) -> Result<SensorDataView, DecodeError> {
    let temperature = temperature_list(members);
    let humidity = humidity_list(members);
    let object = object_list(members);
    if temperature is Err {
        Err(temperature->Err_0)
    } else if humidity is Err {
        Err(humidity->Err_0)
    } else if object is Err {
        Err(object->Err_0)
    } else {
        Ok(
            SensorDataView {
                temperature: temperature->Ok_0,
                humidity: humidity->Ok_0,
                object: object->Ok_0,
            },
        )
    }
}

/// The measurement that the members of a record spell. The text of the
/// member `type` selects the shape; the other members are read as that shape.
pub open spec fn measurement_of(members: Seq<MemberView>) -> Result<MeasurementView, DecodeError> {
    match required_text(members, "type"@) {
        Err(e) => Err(e),
        Ok(tag) => {
            if tag == "temperature"@ {
                match temperature_of(members) {
                    Ok(t) => Ok(MeasurementView::Temperature(t)),
                    Err(e) => Err(e),
                }
            } else if tag == "humidity"@ {
                match humidity_of(members) {
                    Ok(h) => Ok(MeasurementView::Humidity(h)),
                    Err(e) => Err(e),
                }
            } else if tag == "object"@ {
                match object_of(members) {
                    Ok(o) => Ok(MeasurementView::Object(o)),
                    Err(e) => Err(e),
                }
            } else if tag == "sensor_data"@ {
                match sensor_data_of(members) {
                    Ok(s) => Ok(MeasurementView::SensorData(s)),
                    Err(e) => Err(e),
                }
            } else {
                Err(DecodeError::UnknownDiscriminator)
            }
        },
    }
}

/// The measurement that a document spells: it has to be a record.
pub open spec fn decoded(document: JsonView) -> Result<MeasurementView, DecodeError> {
    match document {
        JsonView::Record(members) => measurement_of(members),
        _ => Err(DecodeError::Malformed),
    }
}

/// The measurement that parsed bytes spell: bytes that are no document are
/// malformed.
pub open spec fn decoded_document(document: Option<JsonView>) -> Result<
    MeasurementView,
    DecodeError,
> {
    match document {
        Some(j) => decoded(j),
        None => Err(DecodeError::Malformed),
    }
}

/// The outcome of a decoding, with the measurement taken by what it holds.
pub open spec fn outcome_view(r: Result<Measurement, DecodeError>) -> Result<
    MeasurementView,
    DecodeError,
> {
    match r {
        Ok(m) => Ok(m@),
        Err(e) => Err(e),
    }
}

fn read_sensor_data(members: &Vec<JsonMember>) -> (r: Result<MeasurementSensorData, DecodeError>)
    ensures
        match r {
            Ok(s) => sensor_data_of(members_view(members@)) == Ok::<SensorDataView, DecodeError>(
                s@,
            ),
            Err(e) => sensor_data_of(members_view(members@)) == Err::<SensorDataView, DecodeError>(
                e,
            ),
        },
{
    let temperature = match read_temperature_list(members) {
        Ok(v) => v,
        Err(e) => { return Err(e); },
    };
    let humidity = match read_humidity_list(members) {
        Ok(v) => v,
        Err(e) => { return Err(e); },
    };
    let object = match read_object_list(members) {
        Ok(v) => v,
        Err(e) => { return Err(e); },
    };
    Ok(MeasurementSensorData { temperature, humidity, object })
}

/// Decodes a document into a measurement. Omitted members with a default
/// take it: a count of zero, numbers of zero, no alarm, no value, empty
/// lists.
pub fn decode_json(document: &Json) -> (r: Result<Measurement, DecodeError>)
    ensures
        outcome_view(r) == decoded(document@),
{
    proof {
        lemma_view_unfolds(*document);
    }
    let members = match document {
        Json::Record(members) => members,
        _ => { return Err(DecodeError::Malformed); },
    };
    let tag = match read_text(members, "type") {
        Ok(tag) => tag,
        Err(e) => { return Err(e); },
    };
    if text_is(tag, "temperature") {
        match read_temperature(members) {
            Ok(t) => Ok(Measurement::Temperature(t)),
            Err(e) => Err(e),
        }
    } else if text_is(tag, "humidity") {
        match read_humidity(members) {
            Ok(h) => Ok(Measurement::Humidity(h)),
            Err(e) => Err(e),
        }
    } else if text_is(tag, "object") {
        match read_object(members) {
            Ok(o) => Ok(Measurement::Object(o)),
            Err(e) => Err(e),
        }
    } else if text_is(tag, "sensor_data") {
        match read_sensor_data(members) {
            Ok(s) => Ok(Measurement::SensorData(s)),
            Err(e) => Err(e),
        }
    } else {
        Err(DecodeError::UnknownDiscriminator)
    }
}

/// Decodes the bytes of one JSON document into a measurement.
pub fn decode(bytes: &[u8]) -> (r: Result<Measurement, DecodeError>)
    ensures
        outcome_view(r) == decoded_document(json_document(bytes@)),
{
    match parse(bytes) {
        Some(document) => decode_json(&document),
        None => Err(DecodeError::Malformed),
    }
}

/// A record whose member `type` is a text other than the four known ones
/// is refused as an unknown discriminator, whatever else it holds.
pub proof fn lemma_unknown_discriminator_fails(members: Seq<MemberView>, tag: Seq<char>)
    requires
        lookup(members, "type"@) == Some(JsonView::Text(tag)),
        tag != "temperature"@,
        tag != "humidity"@,
        tag != "object"@,
        tag != "sensor_data"@,
    ensures
        decoded(JsonView::Record(members)) == Err::<MeasurementView, DecodeError>(
            DecodeError::UnknownDiscriminator,
        ),
{
}

/// A temperature record that leaves out a mandatory member is refused: the
/// unit has no default.
pub proof fn lemma_missing_unit_fails(members: Seq<MemberView>)
    requires
        lookup(members, "unit"@) is None,
    ensures
        temperature_of(members) is Err,
{
}

/// A record that holds nothing but a unit is a temperature reading with
/// every other field at its default: no value, a count of zero, numbers of
/// zero, no alarm.
pub proof fn lemma_omitted_members_take_defaults(
    members: Seq<MemberView>,
    unit: MeasurementTemperatureUnit,
)
    requires
        lookup(members, "value"@) is None,
        lookup(members, "count"@) is None,
        lookup(members, "max"@) is None,
        lookup(members, "min"@) is None,
        lookup(members, "average"@) is None,
        lookup(members, "last"@) is None,
        lookup(members, "overtemp"@) is None,
        required_unit(members) == Ok::<MeasurementTemperatureUnit, DecodeError>(unit),
    ensures
        temperature_of(members) == Ok::<MeasurementTemperature, DecodeError>(
            MeasurementTemperature {
                value: None,
                count: 0,
                max: Double { bits: 0 },
                min: Double { bits: 0 },
                average: Double { bits: 0 },
                last: Double { bits: 0 },
                unit,
                overtemp: false,
            },
        ),
{
}

} // verus!

//! What it means for a document to spell a measurement, and the proof that
//! decoding gives back every measurement that a document spells.

use vstd::prelude::*;
use crate::decode::{
    decoded,
    humidity_entries,
    humidity_entry,
    humidity_of,
    object_entries,
    object_entry,
    object_of,
    sensor_data_of,
    temperature_entries,
    temperature_entry,
    temperature_of,
    DecodeError,
};
use crate::json::{lookup, JsonNumber, JsonView, MemberView};
use crate::measurement::{
    MeasurementHumidity,
    MeasurementTemperature,
    MeasurementTemperatureUnit,
    MeasurementView,
    ObjectView,
    SensorDataView,
};
use crate::number::Double;

verus! {

/// A value that may be absent: a number spells it when it is there; when it
/// is not, the member is left out or null.
pub open spec fn spells_optional_real(
    members: Seq<MemberView>,
    name: Seq<char>,
    value: Option<Double>,
) -> bool {
    match value {
        Some(v) => lookup(members, name) matches Some(JsonView::Number(n)) && n.real == Some(v),
        None => lookup(members, name) is None || lookup(members, name) == Some(JsonView::Null),
    }
}

/// A number: a member spells it, or it is zero and the member is left out.
pub open spec fn spells_real(members: Seq<MemberView>, name: Seq<char>, value: Double) -> bool {
    ||| lookup(members, name) matches Some(JsonView::Number(n)) && n.real == Some(value)
    ||| lookup(members, name) is None && value == (Double { bits: 0 })
}

/// A count: a member spells it, or it is zero and the member is left out.
pub open spec fn spells_count(members: Seq<MemberView>, name: Seq<char>, value: u64) -> bool {
    ||| lookup(members, name) matches Some(JsonView::Number(n)) && n.unsigned == Some(value)
    ||| lookup(members, name) is None && value == 0
}

/// A flag: a member spells it, or it is false and the member is left out.
pub open spec fn spells_flag(members: Seq<MemberView>, name: Seq<char>, value: bool) -> bool {
    ||| lookup(members, name) == Some(JsonView::Bool(value))
    ||| lookup(members, name) is None && !value
}

/// The text that stands for a unit.
pub open spec fn unit_text(unit: MeasurementTemperatureUnit) -> Seq<char> {
    match unit {
        MeasurementTemperatureUnit::Celsius => "C"@,
        MeasurementTemperatureUnit::Fahrenheit => "F"@,
    }
}

/// The text of the member `type` that stands for a measurement's shape.
pub open spec fn tag_of(m: MeasurementView) -> Seq<char> {
    match m {
        MeasurementView::Temperature(_) => "temperature"@,
        MeasurementView::Humidity(_) => "humidity"@,
        MeasurementView::Object(_) => "object"@,
        MeasurementView::SensorData(_) => "sensor_data"@,
    }
}

/// Whether the members of a record spell a temperature reading. The unit is
/// always written out; every other member may be left out where the field
/// has its default.
pub open spec fn spells_temperature(members: Seq<MemberView>, t: MeasurementTemperature) -> bool {
    &&& spells_optional_real(members, "value"@, t.value)
    &&& spells_count(members, "count"@, t.count)
    &&& spells_real(members, "max"@, t.max)
    &&& spells_real(members, "min"@, t.min)
    &&& spells_real(members, "average"@, t.average)
    &&& spells_real(members, "last"@, t.last)
    &&& lookup(members, "unit"@) == Some(JsonView::Text(unit_text(t.unit)))
    &&& spells_flag(members, "overtemp"@, t.overtemp)
}

/// Whether the members of a record spell a humidity reading.
pub open spec fn spells_humidity(members: Seq<MemberView>, h: MeasurementHumidity) -> bool {
    &&& spells_optional_real(members, "value"@, h.value)
    &&& spells_count(members, "count"@, h.count)
    &&& spells_real(members, "max"@, h.max)
    &&& spells_real(members, "min"@, h.min)
    &&& spells_real(members, "average"@, h.average)
    &&& spells_real(members, "last"@, h.last)
}

/// Whether the members of a record spell an object result.
pub open spec fn spells_object(members: Seq<MemberView>, o: ObjectView) -> bool {
    lookup(members, "result"@) == Some(JsonView::Text(o.result))
}

/// Whether a list spells a sequence of temperature readings, entry by entry.
pub open spec fn spells_temperatures(items: Seq<JsonView>, readings: Seq<MeasurementTemperature>) -> bool {
    &&& items.len() == readings.len()
    &&& forall|i: int|
        0 <= i < items.len() ==> (#[trigger] items[i] matches JsonView::Record(members)
            && spells_temperature(members, readings[i]))
}

/// Whether a list spells a sequence of humidity readings, entry by entry.
pub open spec fn spells_humidities(items: Seq<JsonView>, readings: Seq<MeasurementHumidity>) -> bool {
    &&& items.len() == readings.len()
    &&& forall|i: int|
        0 <= i < items.len() ==> (#[trigger] items[i] matches JsonView::Record(members)
            && spells_humidity(members, readings[i]))
}

/// Whether a list spells a sequence of object results, entry by entry.
pub open spec fn spells_objects(items: Seq<JsonView>, results: Seq<ObjectView>) -> bool {
    &&& items.len() == results.len()
    &&& forall|i: int|
        0 <= i < items.len() ==> (#[trigger] items[i] matches JsonView::Record(members)
            && spells_object(members, results[i]))
}

/// Whether the members of a record spell a batch. A list may be left out
/// where its sequence is empty.
pub open spec fn spells_sensor_data(members: Seq<MemberView>, s: SensorDataView) -> bool {
    &&& {
        ||| lookup(members, "temperature"@) matches Some(JsonView::List(items))
            && spells_temperatures(items, s.temperature)
        ||| lookup(members, "temperature"@) is None && s.temperature.len() == 0
    }
    &&& {
        ||| lookup(members, "humidity"@) matches Some(JsonView::List(items)) && spells_humidities(
            items,
            s.humidity,
        )
        ||| lookup(members, "humidity"@) is None && s.humidity.len() == 0
    }
    &&& {
        ||| lookup(members, "object"@) matches Some(JsonView::List(items)) && spells_objects(
            items,
            s.object,
        )
        ||| lookup(members, "object"@) is None && s.object.len() == 0
    }
}

/// Whether a document is an encoding of a measurement: a record whose member
/// `type` names the shape and whose other members spell the fields.
pub open spec fn encodes(document: JsonView, m: MeasurementView) -> bool {
    &&& document matches JsonView::Record(members) && lookup(members, "type"@) == Some(
        JsonView::Text(tag_of(m)),
    ) && match m {
        MeasurementView::Temperature(t) => spells_temperature(members, t),
        MeasurementView::Humidity(h) => spells_humidity(members, h),
        MeasurementView::Object(o) => spells_object(members, o),
        MeasurementView::SensorData(s) => spells_sensor_data(members, s),
    }
}

/// The members that spell a temperature reading decode to it.
pub proof fn lemma_temperature_read_back(members: Seq<MemberView>, t: MeasurementTemperature)
    requires
        spells_temperature(members, t),
    ensures
        temperature_of(members) == Ok::<MeasurementTemperature, DecodeError>(t),
{
    reveal_strlit("C");
    reveal_strlit("F");
    assert("C"@[0] != "F"@[0]);
}

/// The members that spell a humidity reading decode to it.
pub proof fn lemma_humidity_read_back(members: Seq<MemberView>, h: MeasurementHumidity)
    requires
        spells_humidity(members, h),
    ensures
        humidity_of(members) == Ok::<MeasurementHumidity, DecodeError>(h),
{
}

/// The members that spell an object result decode to it.
pub proof fn lemma_object_read_back(members: Seq<MemberView>, o: ObjectView)
    requires
        spells_object(members, o),
    ensures
        object_of(members) == Ok::<ObjectView, DecodeError>(o),
{
}

proof fn lemma_temperatures_read_back(items: Seq<JsonView>, readings: Seq<MeasurementTemperature>)
    requires
        spells_temperatures(items, readings),
    ensures
        temperature_entries(items) == Ok::<Seq<MeasurementTemperature>, DecodeError>(readings),
    decreases items.len(),
{
    if items.len() == 0 {
        assert(readings =~= Seq::empty());
    } else {
        lemma_temperatures_read_back(items.drop_last(), readings.drop_last());
        lemma_temperature_read_back(items.last()->Record_0, readings.last());
        assert(readings.drop_last().push(readings.last()) =~= readings);
    }
}

proof fn lemma_humidities_read_back(items: Seq<JsonView>, readings: Seq<MeasurementHumidity>)
    requires
        spells_humidities(items, readings),
    ensures
        humidity_entries(items) == Ok::<Seq<MeasurementHumidity>, DecodeError>(readings),
    decreases items.len(),
{
    if items.len() == 0 {
        assert(readings =~= Seq::empty());
    } else {
        lemma_humidities_read_back(items.drop_last(), readings.drop_last());
        lemma_humidity_read_back(items.last()->Record_0, readings.last());
        assert(readings.drop_last().push(readings.last()) =~= readings);
    }
}

proof fn lemma_objects_read_back(items: Seq<JsonView>, results: Seq<ObjectView>)
    requires
        spells_objects(items, results),
    ensures
        object_entries(items) == Ok::<Seq<ObjectView>, DecodeError>(results),
    decreases items.len(),
{
    if items.len() == 0 {
        assert(results =~= Seq::empty());
    } else {
        lemma_objects_read_back(items.drop_last(), results.drop_last());
        lemma_object_read_back(items.last()->Record_0, results.last());
        assert(results.drop_last().push(results.last()) =~= results);
    }
}

/// The members that spell a batch decode to it, each sequence in its order.
pub proof fn lemma_sensor_data_read_back(members: Seq<MemberView>, s: SensorDataView)
    requires
        spells_sensor_data(members, s),
    ensures
        sensor_data_of(members) == Ok::<SensorDataView, DecodeError>(s),
{
    if let Some(JsonView::List(items)) = lookup(members, "temperature"@) {
        lemma_temperatures_read_back(items, s.temperature);
    } else {
        assert(s.temperature =~= Seq::empty());
    }
    if let Some(JsonView::List(items)) = lookup(members, "humidity"@) {
        lemma_humidities_read_back(items, s.humidity);
    } else {
        assert(s.humidity =~= Seq::empty());
    }
    if let Some(JsonView::List(items)) = lookup(members, "object"@) {
        lemma_objects_read_back(items, s.object);
    } else {
        assert(s.object =~= Seq::empty());
    }
}

/// The four texts that name a shape are four different texts.
pub proof fn lemma_tags_differ()
    ensures
        "temperature"@ != "humidity"@,
        "temperature"@ != "object"@,
        "temperature"@ != "sensor_data"@,
        "humidity"@ != "object"@,
        "humidity"@ != "sensor_data"@,
        "object"@ != "sensor_data"@,
{
    reveal_strlit("temperature");
    reveal_strlit("humidity");
    reveal_strlit("object");
    reveal_strlit("sensor_data");
    assert("temperature"@.len() == 11);
    assert("humidity"@.len() == 8);
    assert("object"@.len() == 6);
    assert("sensor_data"@.len() == 11);
    assert("temperature"@[0] != "sensor_data"@[0]);
}

/// Decoding undoes encoding: a document that encodes a measurement decodes
/// to that measurement, with every member that was left out read as its
/// default.
pub proof fn lemma_decode_inverts_encoding(document: JsonView, m: MeasurementView)
    requires
        encodes(document, m),
    ensures
        decoded(document) == Ok::<MeasurementView, DecodeError>(m),
{
    lemma_tags_differ();
    let members = document->Record_0;
    match m {
        MeasurementView::Temperature(t) => {
            lemma_temperature_read_back(members, t);
        },
        MeasurementView::Humidity(h) => {
            lemma_humidity_read_back(members, h);
        },
        MeasurementView::Object(o) => {
            lemma_object_read_back(members, o);
        },
        MeasurementView::SensorData(s) => {
            lemma_sensor_data_read_back(members, s);
        },
    }
}

spec fn number_written(value: Double) -> JsonView {
    JsonView::Number(JsonNumber { real: Some(value), unsigned: None })
}

spec fn optional_written(value: Option<Double>) -> JsonView {
    match value {
        Some(v) => number_written(v),
        None => JsonView::Null,
    }
}

spec fn count_written(value: u64) -> JsonView {
    JsonView::Number(JsonNumber { real: None, unsigned: Some(value) })
}

spec fn temperature_written(tag: Seq<char>, t: MeasurementTemperature) -> Seq<MemberView> {
    seq![
        MemberView { name: "type"@, value: JsonView::Text(tag) },
        MemberView { name: "value"@, value: optional_written(t.value) },
        MemberView { name: "count"@, value: count_written(t.count) },
        MemberView { name: "max"@, value: number_written(t.max) },
        MemberView { name: "min"@, value: number_written(t.min) },
        MemberView { name: "average"@, value: number_written(t.average) },
        MemberView { name: "last"@, value: number_written(t.last) },
        MemberView { name: "unit"@, value: JsonView::Text(unit_text(t.unit)) },
        MemberView { name: "overtemp"@, value: JsonView::Bool(t.overtemp) },
    ]
}

spec fn humidity_written(tag: Seq<char>, h: MeasurementHumidity) -> Seq<MemberView> {
    seq![
        MemberView { name: "type"@, value: JsonView::Text(tag) },
        MemberView { name: "value"@, value: optional_written(h.value) },
        MemberView { name: "count"@, value: count_written(h.count) },
        MemberView { name: "max"@, value: number_written(h.max) },
        MemberView { name: "min"@, value: number_written(h.min) },
        MemberView { name: "average"@, value: number_written(h.average) },
        MemberView { name: "last"@, value: number_written(h.last) },
    ]
}

spec fn object_written(tag: Seq<char>, o: ObjectView) -> Seq<MemberView> {
    seq![
        MemberView { name: "type"@, value: JsonView::Text(tag) },
        MemberView { name: "result"@, value: JsonView::Text(o.result) },
    ]
}

spec fn sensor_data_written(s: SensorDataView) -> Seq<MemberView> {
    seq![
        MemberView { name: "type"@, value: JsonView::Text("sensor_data"@) },
        MemberView {
            name: "temperature"@,
            value: JsonView::List(
                Seq::new(
                    s.temperature.len(),
                    |i: int| JsonView::Record(temperature_written("temperature"@, s.temperature[i])),
                ),
            ),
        },
        MemberView {
            name: "humidity"@,
            value: JsonView::List(
                Seq::new(
                    s.humidity.len(),
                    |i: int| JsonView::Record(humidity_written("humidity"@, s.humidity[i])),
                ),
            ),
        },
        MemberView {
            name: "object"@,
            value: JsonView::List(
                Seq::new(
                    s.object.len(),
                    |i: int| JsonView::Record(object_written("object"@, s.object[i])),
                ),
            ),
        },
    ]
}

proof fn lemma_lookup_finds(members: Seq<MemberView>, i: int)
    requires
        0 <= i < members.len(),
        forall|j: int| 0 <= j < i ==> (#[trigger] members[j]).name != members[i].name,
    ensures
        lookup(members, members[i].name) == Some(members[i].value),
    decreases i,
{
    if i > 0 {
        let rest = members.drop_first();
        assert(members[0].name != members[i].name);
        assert forall|j: int| 0 <= j < i - 1 implies (#[trigger] rest[j]).name != rest[i - 1].name by {
            assert(rest[j] == members[j + 1]);
        }
        lemma_lookup_finds(rest, i - 1);
    }
}

proof fn lemma_member_names_differ()
    ensures
        "type"@ != "value"@,
        "type"@ != "count"@,
        "type"@ != "max"@,
        "type"@ != "min"@,
        "type"@ != "average"@,
        "type"@ != "last"@,
        "type"@ != "unit"@,
        "type"@ != "overtemp"@,
        "type"@ != "result"@,
        "type"@ != "temperature"@,
        "type"@ != "humidity"@,
        "type"@ != "object"@,
        "value"@ != "count"@,
        "value"@ != "max"@,
        "value"@ != "min"@,
        "value"@ != "average"@,
        "value"@ != "last"@,
        "value"@ != "unit"@,
        "value"@ != "overtemp"@,
        "count"@ != "max"@,
        "count"@ != "min"@,
        "count"@ != "average"@,
        "count"@ != "last"@,
        "count"@ != "unit"@,
        "count"@ != "overtemp"@,
        "max"@ != "min"@,
        "max"@ != "average"@,
        "max"@ != "last"@,
        "max"@ != "unit"@,
        "max"@ != "overtemp"@,
        "min"@ != "average"@,
        "min"@ != "last"@,
        "min"@ != "unit"@,
        "min"@ != "overtemp"@,
        "average"@ != "last"@,
        "average"@ != "unit"@,
        "average"@ != "overtemp"@,
        "last"@ != "unit"@,
        "last"@ != "overtemp"@,
        "unit"@ != "overtemp"@,
{
    reveal_strlit("type");
    reveal_strlit("value");
    reveal_strlit("count");
    reveal_strlit("max");
    reveal_strlit("min");
    reveal_strlit("average");
    reveal_strlit("last");
    reveal_strlit("unit");
    reveal_strlit("overtemp");
    reveal_strlit("result");
    reveal_strlit("temperature");
    reveal_strlit("humidity");
    reveal_strlit("object");
    assert("type"@.len() == 4 && "type"@[0] == 't');
    assert("value"@.len() == 5 && "value"@[0] == 'v');
    assert("count"@.len() == 5 && "count"@[0] == 'c');
    assert("max"@.len() == 3 && "max"@[1] == 'a');
    assert("min"@.len() == 3 && "min"@[1] == 'i');
    assert("average"@.len() == 7);
    assert("last"@.len() == 4 && "last"@[0] == 'l');
    assert("unit"@.len() == 4 && "unit"@[0] == 'u');
    assert("overtemp"@.len() == 8 && "overtemp"@[0] == 'o');
    assert("result"@.len() == 6 && "result"@[0] == 'r');
    assert("temperature"@.len() == 11);
    assert("humidity"@.len() == 8 && "humidity"@[0] == 'h');
    assert("object"@.len() == 6 && "object"@[0] == 'o');
}

proof fn lemma_temperature_written_spells(tag: Seq<char>, t: MeasurementTemperature)
    ensures
        spells_temperature(temperature_written(tag, t), t),
        lookup(temperature_written(tag, t), "type"@) == Some(JsonView::Text(tag)),
{
    lemma_member_names_differ();
    let members = temperature_written(tag, t);
    lemma_lookup_finds(members, 0);
    lemma_lookup_finds(members, 1);
    lemma_lookup_finds(members, 2);
    lemma_lookup_finds(members, 3);
    lemma_lookup_finds(members, 4);
    lemma_lookup_finds(members, 5);
    lemma_lookup_finds(members, 6);
    lemma_lookup_finds(members, 7);
    lemma_lookup_finds(members, 8);
}

proof fn lemma_humidity_written_spells(tag: Seq<char>, h: MeasurementHumidity)
    ensures
        spells_humidity(humidity_written(tag, h), h),
        lookup(humidity_written(tag, h), "type"@) == Some(JsonView::Text(tag)),
{
    lemma_member_names_differ();
    let members = humidity_written(tag, h);
    lemma_lookup_finds(members, 0);
    lemma_lookup_finds(members, 1);
    lemma_lookup_finds(members, 2);
    lemma_lookup_finds(members, 3);
    lemma_lookup_finds(members, 4);
    lemma_lookup_finds(members, 5);
    lemma_lookup_finds(members, 6);
}

proof fn lemma_object_written_spells(tag: Seq<char>, o: ObjectView)
    ensures
        spells_object(object_written(tag, o), o),
        lookup(object_written(tag, o), "type"@) == Some(JsonView::Text(tag)),
{
    lemma_member_names_differ();
    let members = object_written(tag, o);
    lemma_lookup_finds(members, 0);
    lemma_lookup_finds(members, 1);
}

proof fn lemma_sensor_data_written_spells(s: SensorDataView)
    ensures
        spells_sensor_data(sensor_data_written(s), s),
        lookup(sensor_data_written(s), "type"@) == Some(JsonView::Text("sensor_data"@)),
{
    lemma_member_names_differ();
    lemma_tags_differ();
    let members = sensor_data_written(s);
    lemma_lookup_finds(members, 0);
    lemma_lookup_finds(members, 1);
    lemma_lookup_finds(members, 2);
    lemma_lookup_finds(members, 3);
    let temperature = members[1].value->List_0;
    assert forall|i: int| 0 <= i < temperature.len() implies (#[trigger] temperature[i]
        matches JsonView::Record(entry) && spells_temperature(entry, s.temperature[i])) by {
        lemma_temperature_written_spells("temperature"@, s.temperature[i]);
    }
    let humidity = members[2].value->List_0;
    assert forall|i: int| 0 <= i < humidity.len() implies (#[trigger] humidity[i]
        matches JsonView::Record(entry) && spells_humidity(entry, s.humidity[i])) by {
        lemma_humidity_written_spells("humidity"@, s.humidity[i]);
    }
    let object = members[3].value->List_0;
    assert forall|i: int| 0 <= i < object.len() implies (#[trigger] object[i]
        matches JsonView::Record(entry) && spells_object(entry, s.object[i])) by {
        lemma_object_written_spells("object"@, s.object[i]);
    }
}

/// Every measurement has an encoding, and so every measurement is what some
/// document decodes to.
pub proof fn lemma_encoding_exists(m: MeasurementView)
    ensures
        exists|document: JsonView| encodes(document, m),
        exists|document: JsonView| decoded(document) == Ok::<MeasurementView, DecodeError>(m),
{
    let members = match m {
        MeasurementView::Temperature(t) => temperature_written(tag_of(m), t),
        MeasurementView::Humidity(h) => humidity_written(tag_of(m), h),
        MeasurementView::Object(o) => object_written(tag_of(m), o),
        MeasurementView::SensorData(s) => sensor_data_written(s),
    };
    match m {
        MeasurementView::Temperature(t) => {
            lemma_temperature_written_spells(tag_of(m), t);
        },
        MeasurementView::Humidity(h) => {
            lemma_humidity_written_spells(tag_of(m), h);
        },
        MeasurementView::Object(o) => {
            lemma_object_written_spells(tag_of(m), o);
        },
        MeasurementView::SensorData(s) => {
            lemma_sensor_data_written_spells(s);
        },
    }
    let document = JsonView::Record(members);
    assert(encodes(document, m));
    lemma_decode_inverts_encoding(document, m);
}

} // verus!

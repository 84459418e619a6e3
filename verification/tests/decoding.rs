use temperature_filter::decode::{decode, decode_json, DecodeError};
use temperature_filter::json::{member, parse, Json, JsonMember, JsonNumber};
use temperature_filter::measurement::{
    Measurement, MeasurementHumidity, MeasurementObject, MeasurementSensorData,
    MeasurementTemperature, MeasurementTemperatureUnit,
};
use temperature_filter::number::Double;

fn num(x: f64) -> Double {
    Double::from_bits(x.to_bits())
}

fn plain_temperature(unit: MeasurementTemperatureUnit) -> MeasurementTemperature {
    MeasurementTemperature {
        value: None,
        count: 0,
        max: num(0.0),
        min: num(0.0),
        average: num(0.0),
        last: num(0.0),
        unit,
        overtemp: false,
    }
}

fn plain_humidity() -> MeasurementHumidity {
    MeasurementHumidity {
        value: None,
        count: 0,
        max: num(0.0),
        min: num(0.0),
        average: num(0.0),
        last: num(0.0),
    }
}

fn full_temperature() -> MeasurementTemperature {
    MeasurementTemperature {
        value: Some(num(25.3)),
        count: 12,
        max: num(31.5),
        min: num(-4.25),
        average: num(18.75),
        last: num(24.0),
        unit: MeasurementTemperatureUnit::Fahrenheit,
        overtemp: true,
    }
}

fn full_humidity() -> MeasurementHumidity {
    MeasurementHumidity {
        value: Some(num(40.0)),
        count: u64::MAX,
        max: num(99.5),
        min: num(0.1),
        average: num(45.0),
        last: num(-0.0),
    }
}

fn text_member(name: &str, text: &str) -> JsonMember {
    JsonMember { name: name.to_string(), value: Json::Text(text.to_string()) }
}

fn real_member(name: &str, x: f64) -> JsonMember {
    JsonMember {
        name: name.to_string(),
        value: Json::Number(JsonNumber { real: Some(num(x)), unsigned: None }),
    }
}

fn count_member(name: &str, c: u64) -> JsonMember {
    JsonMember {
        name: name.to_string(),
        value: Json::Number(JsonNumber { real: Some(num(c as f64)), unsigned: Some(c) }),
    }
}

fn put_temperature(map: &mut serde_json::Map<String, serde_json::Value>, t: &MeasurementTemperature) {
    if let Some(v) = t.value {
        map.insert("value".to_string(), serde_json::Value::from(f64::from_bits(v.to_bits())));
    }
    map.insert("count".to_string(), serde_json::Value::from(t.count));
    map.insert("max".to_string(), serde_json::Value::from(f64::from_bits(t.max.to_bits())));
    map.insert("min".to_string(), serde_json::Value::from(f64::from_bits(t.min.to_bits())));
    map.insert("average".to_string(), serde_json::Value::from(f64::from_bits(t.average.to_bits())));
    map.insert("last".to_string(), serde_json::Value::from(f64::from_bits(t.last.to_bits())));
    let unit = match t.unit {
        MeasurementTemperatureUnit::Celsius => "C",
        MeasurementTemperatureUnit::Fahrenheit => "F",
    };
    map.insert("unit".to_string(), serde_json::Value::from(unit));
    map.insert("overtemp".to_string(), serde_json::Value::from(t.overtemp));
}

fn put_humidity(map: &mut serde_json::Map<String, serde_json::Value>, h: &MeasurementHumidity) {
    if let Some(v) = h.value {
        map.insert("value".to_string(), serde_json::Value::from(f64::from_bits(v.to_bits())));
    }
    map.insert("count".to_string(), serde_json::Value::from(h.count));
    map.insert("max".to_string(), serde_json::Value::from(f64::from_bits(h.max.to_bits())));
    map.insert("min".to_string(), serde_json::Value::from(f64::from_bits(h.min.to_bits())));
    map.insert("average".to_string(), serde_json::Value::from(f64::from_bits(h.average.to_bits())));
    map.insert("last".to_string(), serde_json::Value::from(f64::from_bits(h.last.to_bits())));
}

fn put_object(map: &mut serde_json::Map<String, serde_json::Value>, o: &MeasurementObject) {
    map.insert("result".to_string(), serde_json::Value::from(o.result.clone()));
}

fn encode(m: &Measurement) -> Vec<u8> {
    let mut map = serde_json::Map::new();
    match m {
        Measurement::Temperature(t) => {
            map.insert("type".to_string(), serde_json::Value::from("temperature"));
            put_temperature(&mut map, t);
        }
        Measurement::Humidity(h) => {
            map.insert("type".to_string(), serde_json::Value::from("humidity"));
            put_humidity(&mut map, h);
        }
        Measurement::Object(o) => {
            map.insert("type".to_string(), serde_json::Value::from("object"));
            put_object(&mut map, o);
        }
        Measurement::SensorData(s) => {
            map.insert("type".to_string(), serde_json::Value::from("sensor_data"));
            let mut temperature = Vec::new();
            for t in &s.temperature {
                let mut entry = serde_json::Map::new();
                put_temperature(&mut entry, t);
                temperature.push(serde_json::Value::Object(entry));
            }
            let mut humidity = Vec::new();
            for h in &s.humidity {
                let mut entry = serde_json::Map::new();
                put_humidity(&mut entry, h);
                humidity.push(serde_json::Value::Object(entry));
            }
            let mut object = Vec::new();
            for o in &s.object {
                let mut entry = serde_json::Map::new();
                put_object(&mut entry, o);
                object.push(serde_json::Value::Object(entry));
            }
            map.insert("temperature".to_string(), serde_json::Value::Array(temperature));
            map.insert("humidity".to_string(), serde_json::Value::Array(humidity));
            map.insert("object".to_string(), serde_json::Value::Array(object));
        }
    }
    serde_json::to_vec(&serde_json::Value::Object(map)).unwrap()
}

#[test]
fn temperature_with_value_and_unit_decodes_with_defaults() {
    let decoded = decode(br#"{"type":"temperature","value":25.3,"unit":"C"}"#);
    let mut expected = plain_temperature(MeasurementTemperatureUnit::Celsius);
    expected.value = Some(num(25.3));
    assert_eq!(decoded, Ok(Measurement::Temperature(expected)));
}

#[test]
fn temperature_without_value_decodes_to_absent_value() {
    let decoded = decode(br#"{"type":"temperature","unit":"C"}"#);
    assert_eq!(
        decoded,
        Ok(Measurement::Temperature(plain_temperature(MeasurementTemperatureUnit::Celsius)))
    );
}

#[test]
fn null_value_decodes_to_absent_value() {
    let decoded = decode(br#"{"type":"temperature","value":null,"unit":"F"}"#);
    assert_eq!(
        decoded,
        Ok(Measurement::Temperature(plain_temperature(MeasurementTemperatureUnit::Fahrenheit)))
    );
}

#[test]
fn integer_value_decodes_to_the_same_number() {
    let decoded = decode(br#"{"type":"temperature","value":150,"unit":"C"}"#);
    let mut expected = plain_temperature(MeasurementTemperatureUnit::Celsius);
    expected.value = Some(num(150.0));
    assert_eq!(decoded, Ok(Measurement::Temperature(expected)));
}

#[test]
fn negative_integer_value_decodes_to_the_same_number() {
    let decoded = decode(br#"{"type":"temperature","value":-10,"unit":"C"}"#);
    let mut expected = plain_temperature(MeasurementTemperatureUnit::Celsius);
    expected.value = Some(num(-10.0));
    assert_eq!(decoded, Ok(Measurement::Temperature(expected)));
}

#[test]
fn every_temperature_member_is_read() {
    let decoded = decode(
        br#"{"overtemp":true,"unit":"F","last":24.0,"average":18.75,"min":-4.25,"max":31.5,"count":12,"value":25.3,"type":"temperature"}"#,
    );
    assert_eq!(decoded, Ok(Measurement::Temperature(full_temperature())));
}

#[test]
fn humidity_decodes_with_defaults() {
    let decoded = decode(br#"{"type":"humidity","value":40}"#);
    let mut expected = plain_humidity();
    expected.value = Some(num(40.0));
    assert_eq!(decoded, Ok(Measurement::Humidity(expected)));
}

#[test]
fn humidity_passes_over_members_it_does_not_know() {
    let decoded = decode(br#"{"type":"humidity","unit":"K","overtemp":7,"note":[1,2]}"#);
    assert_eq!(decoded, Ok(Measurement::Humidity(plain_humidity())));
}

#[test]
fn object_decodes_its_result() {
    let decoded = decode(br#"{"type":"object","result":"forklift"}"#);
    assert_eq!(decoded, Ok(Measurement::Object(MeasurementObject { result: "forklift".to_string() })));
}

#[test]
fn empty_batch_decodes_to_three_empty_sequences() {
    let decoded = decode(br#"{"type":"sensor_data"}"#);
    assert_eq!(decoded, Ok(Measurement::SensorData(MeasurementSensorData::new())));
}

#[test]
fn batch_keeps_the_order_of_its_entries() {
    let decoded = decode(
        br#"{"type":"sensor_data",
             "temperature":[{"unit":"C","value":1.5},{"unit":"F"},{"unit":"C","value":3}],
             "humidity":[{"value":40},{}],
             "object":[{"result":"a"},{"result":"b"}]}"#,
    );
    let mut first = plain_temperature(MeasurementTemperatureUnit::Celsius);
    first.value = Some(num(1.5));
    let second = plain_temperature(MeasurementTemperatureUnit::Fahrenheit);
    let mut third = plain_temperature(MeasurementTemperatureUnit::Celsius);
    third.value = Some(num(3.0));
    let mut wet = plain_humidity();
    wet.value = Some(num(40.0));
    let expected = MeasurementSensorData {
        temperature: vec![first, second, third],
        humidity: vec![wet, plain_humidity()],
        object: vec![
            MeasurementObject { result: "a".to_string() },
            MeasurementObject { result: "b".to_string() },
        ],
    };
    assert_eq!(decoded, Ok(Measurement::SensorData(expected)));
}

#[test]
fn unknown_discriminator_fails() {
    assert_eq!(
        decode(br#"{"type":"pressure","value":1}"#),
        Err(DecodeError::UnknownDiscriminator)
    );
    assert_eq!(decode(br#"{"type":"Temperature","unit":"C"}"#), Err(DecodeError::UnknownDiscriminator));
    assert_eq!(decode(br#"{"type":"","unit":"C"}"#), Err(DecodeError::UnknownDiscriminator));
}

#[test]
fn unknown_discriminator_fails_the_same_way_every_time() {
    let bytes = br#"{"type":"pressure","value":1}"#;
    let first = decode(bytes);
    for _ in 0..10 {
        assert_eq!(decode(bytes), first);
    }
}

#[test]
fn missing_discriminator_is_a_missing_field() {
    assert_eq!(decode(br#"{"value":25.3,"unit":"C"}"#), Err(DecodeError::MissingField));
    assert_eq!(decode(br#"{}"#), Err(DecodeError::MissingField));
}

#[test]
fn missing_unit_is_a_missing_field() {
    assert_eq!(decode(br#"{"type":"temperature","value":25.3}"#), Err(DecodeError::MissingField));
}

#[test]
fn missing_result_is_a_missing_field() {
    assert_eq!(decode(br#"{"type":"object"}"#), Err(DecodeError::MissingField));
}

#[test]
fn bytes_that_are_no_document_are_malformed() {
    assert_eq!(decode(b""), Err(DecodeError::Malformed));
    assert_eq!(decode(b"{"), Err(DecodeError::Malformed));
    assert_eq!(decode(br#"{"type":"humidity"} trailing"#), Err(DecodeError::Malformed));
    assert_eq!(decode(&[0xff, 0xfe]), Err(DecodeError::Malformed));
}

#[test]
fn documents_that_are_no_record_are_malformed() {
    assert_eq!(decode(b"null"), Err(DecodeError::Malformed));
    assert_eq!(decode(b"25.3"), Err(DecodeError::Malformed));
    assert_eq!(decode(br#""temperature""#), Err(DecodeError::Malformed));
    assert_eq!(decode(br#"[{"type":"humidity"}]"#), Err(DecodeError::Malformed));
}

#[test]
fn members_of_the_wrong_shape_are_malformed() {
    assert_eq!(decode(br#"{"type":7}"#), Err(DecodeError::Malformed));
    assert_eq!(decode(br#"{"type":"temperature","unit":"K"}"#), Err(DecodeError::Malformed));
    assert_eq!(decode(br#"{"type":"temperature","unit":1}"#), Err(DecodeError::Malformed));
    assert_eq!(
        decode(br#"{"type":"temperature","unit":"C","value":"25.3"}"#),
        Err(DecodeError::Malformed)
    );
    assert_eq!(decode(br#"{"type":"humidity","max":null}"#), Err(DecodeError::Malformed));
    assert_eq!(decode(br#"{"type":"humidity","count":-1}"#), Err(DecodeError::Malformed));
    assert_eq!(decode(br#"{"type":"humidity","count":1.5}"#), Err(DecodeError::Malformed));
    assert_eq!(
        decode(br#"{"type":"temperature","unit":"C","overtemp":"yes"}"#),
        Err(DecodeError::Malformed)
    );
    assert_eq!(decode(br#"{"type":"object","result":5}"#), Err(DecodeError::Malformed));
    assert_eq!(decode(br#"{"type":"sensor_data","humidity":{}}"#), Err(DecodeError::Malformed));
    assert_eq!(decode(br#"{"type":"sensor_data","object":[7]}"#), Err(DecodeError::Malformed));
}

#[test]
fn first_member_that_cannot_be_read_decides_the_error() {
    assert_eq!(
        decode(br#"{"type":"temperature","count":"many"}"#),
        Err(DecodeError::Malformed)
    );
    assert_eq!(
        decode(br#"{"type":"temperature","overtemp":"yes"}"#),
        Err(DecodeError::MissingField)
    );
    assert_eq!(
        decode(br#"{"type":"sensor_data","temperature":[{"unit":"C"},{}],"humidity":[3]}"#),
        Err(DecodeError::MissingField)
    );
    assert_eq!(
        decode(br#"{"type":"sensor_data","temperature":[{"unit":"C"},3,{}]}"#),
        Err(DecodeError::Malformed)
    );
}

#[test]
fn count_takes_the_whole_unsigned_range() {
    let decoded = decode(br#"{"type":"humidity","count":18446744073709551615}"#);
    let mut expected = plain_humidity();
    expected.count = u64::MAX;
    assert_eq!(decoded, Ok(Measurement::Humidity(expected)));
    assert_eq!(
        decode(br#"{"type":"humidity","count":18446744073709551616}"#),
        Err(DecodeError::Malformed)
    );
}

#[test]
fn encoded_measurements_decode_to_themselves() {
    let batch = MeasurementSensorData {
        temperature: vec![full_temperature(), plain_temperature(MeasurementTemperatureUnit::Celsius)],
        humidity: vec![full_humidity()],
        object: vec![MeasurementObject { result: "pallet \"7\"\n".to_string() }],
    };
    let measurements = vec![
        Measurement::Temperature(full_temperature()),
        Measurement::Temperature(plain_temperature(MeasurementTemperatureUnit::Celsius)),
        Measurement::Humidity(full_humidity()),
        Measurement::Humidity(plain_humidity()),
        Measurement::Object(MeasurementObject { result: String::new() }),
        Measurement::Object(MeasurementObject { result: "f\u{00f6}rklift".to_string() }),
        Measurement::SensorData(MeasurementSensorData::new()),
        Measurement::SensorData(batch),
    ];
    for m in measurements {
        assert_eq!(decode(&encode(&m)), Ok(m));
    }
}

#[test]
fn parse_hands_out_the_document_not_the_bytes() {
    let document = parse(br#"{"b":[true,null,"x",-2,1.5],"a":1}"#).unwrap();
    let members = match &document {
        Json::Record(members) => members,
        other => panic!("not a record: {other:?}"),
    };
    assert_eq!(members.len(), 2);
    assert_eq!(
        member(members, "a"),
        Some(&Json::Number(JsonNumber { real: Some(num(1.0)), unsigned: Some(1) }))
    );
    assert_eq!(
        member(members, "b"),
        Some(&Json::List(vec![
            Json::Bool(true),
            Json::Null,
            Json::Text("x".to_string()),
            Json::Number(JsonNumber { real: Some(num(-2.0)), unsigned: None }),
            Json::Number(JsonNumber { real: Some(num(1.5)), unsigned: None }),
        ]))
    );
    assert_eq!(member(members, "c"), None);
}

#[test]
fn parse_refuses_what_is_no_document() {
    assert_eq!(parse(b""), None);
    assert_eq!(parse(b"{\"a\":}"), None);
    assert_eq!(parse(b"1 2"), None);
    assert_eq!(parse(b"1e999"), None);
    assert_eq!(parse(b" 7 "), Some(Json::Number(JsonNumber { real: Some(num(7.0)), unsigned: Some(7) })));
}

#[test]
fn member_finds_the_first_of_a_name() {
    let members = vec![
        text_member("unit", "C"),
        text_member("type", "humidity"),
        text_member("type", "temperature"),
    ];
    assert_eq!(member(&members, "type"), Some(&Json::Text("humidity".to_string())));
    assert_eq!(member(&members, "unit"), Some(&Json::Text("C".to_string())));
    assert_eq!(member(&members, "typ"), None);
    assert_eq!(member(&Vec::new(), "type"), None);
}

#[test]
fn decode_json_reads_a_document_built_by_hand() {
    let document = Json::Record(vec![
        text_member("type", "temperature"),
        real_member("value", 25.3),
        count_member("count", 3),
        text_member("unit", "C"),
        JsonMember { name: "overtemp".to_string(), value: Json::Bool(true) },
    ]);
    let mut expected = plain_temperature(MeasurementTemperatureUnit::Celsius);
    expected.value = Some(num(25.3));
    expected.count = 3;
    expected.overtemp = true;
    assert_eq!(decode_json(&document), Ok(Measurement::Temperature(expected)));
}

#[test]
fn decode_json_refuses_a_number_without_a_reading() {
    let unreadable = JsonMember {
        name: "max".to_string(),
        value: Json::Number(JsonNumber { real: None, unsigned: Some(1) }),
    };
    let document = Json::Record(vec![text_member("type", "humidity"), unreadable]);
    assert_eq!(decode_json(&document), Err(DecodeError::Malformed));
    let document = Json::Record(vec![text_member("type", "humidity"), real_member("count", 1.0)]);
    assert_eq!(decode_json(&document), Err(DecodeError::Malformed));
}

#[test]
fn decode_json_refuses_what_is_no_record() {
    assert_eq!(decode_json(&Json::Null), Err(DecodeError::Malformed));
    assert_eq!(decode_json(&Json::List(Vec::new())), Err(DecodeError::Malformed));
    assert_eq!(decode_json(&Json::Text("temperature".to_string())), Err(DecodeError::Malformed));
}

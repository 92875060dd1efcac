use processor::json::{JsonNumber, JsonValue};
use processor::normalisation::{
    defaults_applied, normalise_at, normalise_reading, normalise_with, numeric_text,
    read_timestamp, Defaulted, IotFieldType, IotUnit, ONE_BITS, ZERO_BITS,
};
use processor::time::Timestamp;

fn text(s: &str) -> JsonValue {
    JsonValue::String(s.to_string())
}

fn number(x: f64) -> JsonValue {
    JsonValue::Number(JsonNumber {
        literal: serde_json::Number::from_f64(x).unwrap().to_string(),
        bits: x.to_bits(),
    })
}

fn object(members: Vec<(&str, JsonValue)>) -> JsonValue {
    JsonValue::Object(members.into_iter().map(|(k, v)| (k.to_string(), v)).collect())
}

fn decimal(doc: &JsonValue) -> Option<u64> {
    numeric_text(doc).and_then(|s| s.parse::<f64>().ok()).map(f64::to_bits)
}

const NOON: Timestamp = Timestamp { seconds: 1_700_000_000, nanos: 250 };

#[test]
fn missing_names_get_the_sentinels() {
    let doc = object(vec![("value", number(1.0))]);
    let r = normalise_with(&doc, None, None, NOON);
    assert_eq!(r.identifier, "unknown_sensor");
    assert_eq!(r.measuring, "unknown");
    assert!(!r.identifier.is_empty());
    assert!(!r.measuring.is_empty());
}

#[test]
fn names_that_are_no_strings_get_the_sentinels() {
    let doc = object(vec![("identifier", number(7.0)), ("measuring", JsonValue::Null)]);
    let r = normalise_with(&doc, None, None, NOON);
    assert_eq!(r.identifier, "unknown_sensor");
    assert_eq!(r.measuring, "unknown");
}

#[test]
fn names_that_are_given_are_kept() {
    let doc = object(vec![("identifier", text("S1")), ("measuring", text("temperature"))]);
    let r = normalise_with(&doc, None, None, NOON);
    assert_eq!(r.identifier, "S1");
    assert_eq!(r.measuring, "temperature");
}

#[test]
fn an_empty_name_gets_the_sentinel() {
    let doc = object(vec![("identifier", text(""))]);
    let r = normalise_with(&doc, None, None, NOON);
    assert_eq!(r.identifier, "unknown_sensor");
    assert_eq!(r.measuring, "unknown");

    let doc = object(vec![("identifier", text("S1")), ("measuring", text(""))]);
    let r = normalise_with(&doc, None, None, NOON);
    assert_eq!(r.identifier, "S1");
    assert_eq!(r.measuring, "unknown");
    let live = normalise_reading(&doc, None).unwrap();
    assert_eq!(live.identifier, "S1");
    assert_eq!(live.measuring, "unknown");
}

#[test]
fn names_are_never_empty() {
    for identifier in [None, Some(text("")), Some(text(" ")), Some(text("S1")), Some(number(1.0))] {
        for measuring in [None, Some(text("")), Some(text("m")), Some(JsonValue::Null)] {
            let mut members = Vec::new();
            if let Some(v) = &identifier {
                members.push(("identifier", v.duplicate()));
            }
            if let Some(v) = &measuring {
                members.push(("measuring", v.duplicate()));
            }
            let r = normalise_with(&object(members), None, None, NOON);
            assert!(!r.identifier.is_empty());
            assert!(!r.measuring.is_empty());
        }
    }
}

#[test]
fn an_empty_name_is_told_as_filled_by_default() {
    let doc = object(vec![("identifier", text("")), ("measuring", text("temperature"))]);
    let defaults = defaults_applied(&doc, Some(NOON));
    assert!(defaults.identifier);
    assert!(!defaults.measuring);
}

#[test]
fn a_present_value_always_has_a_raw_text() {
    for value in [
        JsonValue::Null,
        JsonValue::Bool(false),
        number(0.0),
        text(""),
        JsonValue::Array(vec![]),
        object(vec![]),
    ] {
        let doc = object(vec![("value", value)]);
        assert!(doc.is_well_formed());
        assert!(!normalise_with(&doc, None, None, NOON).raw_value.is_empty());
    }
    let doc = object(vec![("identifier", text("S1"))]);
    assert!(doc.is_well_formed());
    assert!(normalise_with(&doc, None, None, NOON).raw_value.is_empty());
}

#[test]
fn the_timestamp_of_a_document_is_read_as_a_date() {
    let doc = object(vec![("timestamp", text("2024-01-01T00:00:00Z"))]);
    assert_eq!(read_timestamp(&doc), Some(Timestamp { seconds: 1_704_067_200, nanos: 0 }));
    assert_eq!(read_timestamp(&object(vec![("timestamp", text("soon"))])), None);
    assert_eq!(read_timestamp(&object(vec![("timestamp", number(5.0))])), None);
    assert_eq!(read_timestamp(&object(vec![])), None);
    assert_eq!(read_timestamp(&JsonValue::Null), None);
}

#[test]
fn a_document_that_is_no_object_gets_every_default() {
    let doc = JsonValue::Array(vec![number(1.0)]);
    let r = normalise_with(&doc, None, None, NOON);
    assert_eq!(r.identifier, "unknown_sensor");
    assert_eq!(r.measuring, "unknown");
    assert_eq!(r.value, None);
    assert_eq!(r.raw_value, "");
    assert_eq!(r.value_type, IotFieldType::Number);
    assert_eq!(r.unit, IotUnit::Unknown);
    assert_eq!(r.timestamp, NOON);
    assert!(r.metadata.is_none());
}

#[test]
fn true_reads_as_one() {
    let doc = object(vec![("value", JsonValue::Bool(true))]);
    let r = normalise_with(&doc, None, None, NOON);
    assert_eq!(r.value, Some(ONE_BITS));
    assert_eq!(f64::from_bits(r.value.unwrap()), 1.0);
    assert_eq!(r.raw_value, "true");
}

#[test]
fn false_reads_as_zero() {
    let doc = object(vec![("value", JsonValue::Bool(false))]);
    let r = normalise_with(&doc, None, None, NOON);
    assert_eq!(r.value, Some(ZERO_BITS));
    assert_eq!(f64::from_bits(r.value.unwrap()), 0.0);
    assert_eq!(r.raw_value, "false");
}

#[test]
fn the_bit_patterns_are_those_of_one_and_zero() {
    assert_eq!(ONE_BITS, 1.0f64.to_bits());
    assert_eq!(ZERO_BITS, 0.0f64.to_bits());
}

#[test]
fn a_number_reads_as_itself() {
    let doc = object(vec![("value", number(22.5))]);
    let r = normalise_with(&doc, None, None, NOON);
    assert_eq!(r.value.map(f64::from_bits), Some(22.5));
    assert_eq!(r.raw_value, "22.5");
}

#[test]
fn a_number_ignores_the_outcome_for_strings() {
    let doc = object(vec![("value", number(-3.0))]);
    let r = normalise_with(&doc, Some(99.0f64.to_bits()), None, NOON);
    assert_eq!(r.value.map(f64::from_bits), Some(-3.0));
}

#[test]
fn a_numeric_string_round_trips() {
    for literal in ["22.5", "-0.125", "1e3", "0", "6.02214076e23", "4.9e-324"] {
        let doc = object(vec![("value", text(literal))]);
        let expected: f64 = literal.parse().unwrap();
        let r = normalise_with(&doc, decimal(&doc), None, NOON);
        assert_eq!(r.value, Some(expected.to_bits()));
        assert_eq!(r.raw_value, format!("\"{}\"", literal));
    }
}

#[test]
fn a_string_that_is_no_number_reads_as_nothing() {
    let doc = object(vec![("value", text("not-a-number"))]);
    assert_eq!(numeric_text(&doc), Some("not-a-number"));
    let r = normalise_with(&doc, decimal(&doc), None, NOON);
    assert_eq!(r.value, None);
    assert_eq!(r.raw_value, "\"not-a-number\"");
}

#[test]
fn only_a_string_value_is_to_be_read_as_a_decimal() {
    assert_eq!(numeric_text(&object(vec![("value", number(1.0))])), None);
    assert_eq!(numeric_text(&object(vec![("value", JsonValue::Bool(true))])), None);
    assert_eq!(numeric_text(&object(vec![])), None);
    assert_eq!(numeric_text(&JsonValue::Null), None);
    assert_eq!(numeric_text(&object(vec![("value", text("7"))])), Some("7"));
}

#[test]
fn other_shapes_read_as_nothing_and_keep_their_text() {
    let doc = object(vec![("value", JsonValue::Null)]);
    let r = normalise_with(&doc, Some(1), None, NOON);
    assert_eq!(r.value, None);
    assert_eq!(r.raw_value, "null");

    let doc = object(vec![("value", JsonValue::Array(vec![number(1.0), text("a")]))]);
    let r = normalise_with(&doc, Some(1), None, NOON);
    assert_eq!(r.value, None);
    assert_eq!(r.raw_value, "[1.0,\"a\"]");

    let doc = object(vec![("value", object(vec![("k", JsonValue::Bool(true))]))]);
    let r = normalise_with(&doc, Some(1), None, NOON);
    assert_eq!(r.value, None);
    assert_eq!(r.raw_value, "{\"k\":true}");
}

#[test]
fn a_missing_value_has_an_empty_raw_text() {
    let doc = object(vec![("identifier", text("S1"))]);
    let r = normalise_with(&doc, Some(1), None, NOON);
    assert_eq!(r.value, None);
    assert_eq!(r.raw_value, "");
}

#[test]
fn type_tags_are_read_whatever_their_case() {
    for (tag, expected) in [
        ("Number", IotFieldType::Number),
        ("NUMBER", IotFieldType::Number),
        ("Boolean", IotFieldType::Boolean),
        ("BOOLEAN", IotFieldType::Boolean),
        ("boolean", IotFieldType::Boolean),
        ("String", IotFieldType::String),
        ("STRING", IotFieldType::String),
        ("sTrInG", IotFieldType::String),
    ] {
        assert_eq!(IotFieldType::parse(tag), Some(expected));
        assert_eq!(IotFieldType::from_tag(Some(tag)), expected);
        let doc = object(vec![("value_type", text(tag))]);
        assert_eq!(normalise_with(&doc, None, None, NOON).value_type, expected);
    }
}

#[test]
fn unknown_type_tags_mean_a_number() {
    assert_eq!(IotFieldType::parse("Float"), None);
    assert_eq!(IotFieldType::parse(""), None);
    assert_eq!(IotFieldType::parse("Strin"), None);
    assert_eq!(IotFieldType::parse("Strings"), None);
    assert_eq!(IotFieldType::from_tag(Some("Float")), IotFieldType::Number);
    assert_eq!(IotFieldType::from_tag(None), IotFieldType::Number);
    let doc = object(vec![("value_type", number(1.0))]);
    assert_eq!(normalise_with(&doc, None, None, NOON).value_type, IotFieldType::Number);
}

#[test]
fn unit_tags_are_read_whatever_their_case() {
    for (tag, expected) in [
        ("DegreesCelsius", IotUnit::DegreesCelsius),
        ("degreescelsius", IotUnit::DegreesCelsius),
        ("DEGREES_CELCIUS", IotUnit::DegreesCelsius),
        ("degrees_celcius", IotUnit::DegreesCelsius),
        ("Fahrenheit", IotUnit::Fahrenheit),
        ("FAHRENHEIT", IotUnit::Fahrenheit),
    ] {
        assert_eq!(IotUnit::parse(tag), Some(expected));
        assert_eq!(IotUnit::from_tag(Some(tag)), expected);
        let doc = object(vec![("unit", text(tag))]);
        assert_eq!(normalise_with(&doc, None, None, NOON).unit, expected);
    }
}

#[test]
fn unknown_unit_tags_mean_no_unit() {
    assert_eq!(IotUnit::parse("Kelvin"), None);
    assert_eq!(IotUnit::parse("DEGREES_CELSIUS"), None);
    assert_eq!(IotUnit::parse("Unknown"), None);
    assert_eq!(IotUnit::from_tag(Some("Kelvin")), IotUnit::Unknown);
    assert_eq!(IotUnit::from_tag(None), IotUnit::Unknown);
    let doc = object(vec![("unit", JsonValue::Bool(true))]);
    assert_eq!(normalise_with(&doc, None, None, NOON).unit, IotUnit::Unknown);
}

#[test]
fn a_given_instant_is_the_timestamp() {
    let doc = object(vec![("timestamp", text("whatever"))]);
    let stamp = Timestamp { seconds: 12, nanos: 34 };
    assert_eq!(normalise_with(&doc, None, Some(stamp), NOON).timestamp, stamp);
    assert_eq!(normalise_with(&doc, None, None, NOON).timestamp, NOON);
}

#[test]
fn a_valid_timestamp_is_read_exactly() {
    let doc = object(vec![("timestamp", text("2024-01-01T00:00:00Z"))]);
    let (r, defaults) = normalise_at(&doc, None, NOON);
    assert_eq!(r.timestamp, Timestamp { seconds: 1_704_067_200, nanos: 0 });
    assert!(!defaults.timestamp);
    let live = normalise_reading(&doc, None).unwrap();
    assert_eq!(live.timestamp, Timestamp { seconds: 1_704_067_200, nanos: 0 });
}

#[test]
fn a_timestamp_with_an_offset_and_a_fraction_is_read_in_utc() {
    let doc = object(vec![("timestamp", text("1996-12-19T16:39:57.5-08:00"))]);
    let (r, _) = normalise_at(&doc, None, NOON);
    assert_eq!(r.timestamp, Timestamp { seconds: 851_042_397, nanos: 500_000_000 });
    let expected = chrono::DateTime::parse_from_rfc3339("1996-12-19T16:39:57.5-08:00").unwrap();
    assert_eq!(r.timestamp.seconds, expected.timestamp());
    assert_eq!(r.timestamp.nanos, expected.timestamp_subsec_nanos());
}

#[test]
fn an_invalid_timestamp_is_replaced_by_the_given_instant() {
    for bad in ["", "yesterday", "2024-01-01", "2024-13-01T00:00:00Z", "2024-01-01T00:00:00"] {
        let doc = object(vec![("timestamp", text(bad))]);
        let (r, defaults) = normalise_at(&doc, None, NOON);
        assert_eq!(r.timestamp, NOON);
        assert!(defaults.timestamp);
    }
    let doc = object(vec![("timestamp", number(1704067200.0))]);
    assert_eq!(normalise_at(&doc, None, NOON).0.timestamp, NOON);
    let doc = object(vec![]);
    assert_eq!(normalise_at(&doc, None, NOON).0.timestamp, NOON);
}

#[test]
fn a_missing_timestamp_is_replaced_by_the_clock() {
    let doc = object(vec![("identifier", text("S1"))]);
    let before = chrono::Utc::now().timestamp();
    let r = normalise_reading(&doc, None).unwrap();
    let after = chrono::Utc::now().timestamp();
    assert!(before <= r.timestamp.seconds && r.timestamp.seconds <= after);
    assert!(r.timestamp.nanos < 2_000_000_000);
}

#[test]
fn metadata_is_passed_through_when_it_is_an_object() {
    let inner = vec![
        ("site".to_string(), text("north")),
        ("tags".to_string(), JsonValue::Array(vec![text("a"), JsonValue::Null])),
        ("nested".to_string(), object(vec![("depth", number(2.0))])),
    ];
    let expected = vec![
        ("site".to_string(), text("north")),
        ("tags".to_string(), JsonValue::Array(vec![text("a"), JsonValue::Null])),
        ("nested".to_string(), object(vec![("depth", number(2.0))])),
    ];
    let doc = object(vec![("metadata", JsonValue::Object(inner))]);
    let r = normalise_with(&doc, None, None, NOON);
    assert_eq!(r.metadata, Some(expected));
}

#[test]
fn metadata_of_another_shape_is_left_out() {
    for other in [text("x"), number(1.0), JsonValue::Null, JsonValue::Array(vec![])] {
        let doc = object(vec![("metadata", other)]);
        assert!(normalise_with(&doc, None, None, NOON).metadata.is_none());
    }
    assert!(normalise_with(&object(vec![]), None, None, NOON).metadata.is_none());
    let doc = object(vec![("metadata", object(vec![]))]);
    assert_eq!(normalise_with(&doc, None, None, NOON).metadata, Some(vec![]));
}

#[test]
fn defaults_are_reported_field_by_field() {
    let doc = object(vec![
        ("identifier", text("S1")),
        ("value_type", text("number")),
        ("unit", text("Kelvin")),
    ]);
    assert_eq!(
        defaults_applied(&doc, None),
        Defaulted {
            identifier: false,
            measuring: true,
            value_type: false,
            unit: true,
            timestamp: true
        }
    );
    assert_eq!(
        defaults_applied(&object(vec![]), Some(NOON)),
        Defaulted {
            identifier: true,
            measuring: true,
            value_type: true,
            unit: true,
            timestamp: false
        }
    );
}

#[test]
fn normalising_never_fails() {
    for doc in [
        JsonValue::Null,
        JsonValue::Bool(true),
        number(1.0),
        text("x"),
        JsonValue::Array(vec![]),
        object(vec![]),
    ] {
        assert!(normalise_reading(&doc, None).is_ok());
    }
}

#[test]
fn normalising_twice_gives_the_same_reading() {
    let doc = object(vec![
        ("identifier", text("S1")),
        ("measuring", text("temperature")),
        ("value", text("21.5")),
        ("unit", text("fahrenheit")),
        ("timestamp", text("2024-01-01T00:00:00Z")),
    ]);
    let a = normalise_reading(&doc, decimal(&doc)).unwrap();
    let b = normalise_reading(&doc, decimal(&doc)).unwrap();
    assert_eq!(a.identifier, b.identifier);
    assert_eq!(a.measuring, b.measuring);
    assert_eq!(a.value, b.value);
    assert_eq!(a.raw_value, b.raw_value);
    assert_eq!(a.value_type, b.value_type);
    assert_eq!(a.unit, b.unit);
    assert_eq!(a.timestamp, b.timestamp);
    assert_eq!(a.metadata, b.metadata);
    assert_eq!(a.value.map(f64::from_bits), Some(21.5));
    assert_eq!(a.unit, IotUnit::Fahrenheit);
}

//! Turns a loosely structured sensor document into a reading with a fixed
//! shape. Every rule degrades to a default; no document is rejected.

use crate::json::{
    duplicate_members, lemma_member_is_well_formed, lemma_rendered_is_not_empty, members_model,
    quoted, rendered, JsonModel, JsonValue,
};
use crate::text::{
    eq_ignoring_case, lemma_same_ignoring_case_is_an_equivalence, same_ignoring_case,
};
use crate::time::{instant_of, read_clock, read_rfc3339, Timestamp};
use vstd::prelude::*;

verus! {

/// The binary64 pattern of the number one, the value of a `true` reading.
pub const ONE_BITS: u64 = 0x3FF0_0000_0000_0000;

/// The binary64 pattern of the number zero, the value of a `false` reading.
pub const ZERO_BITS: u64 = 0;

/// The declared type of a reading's value.
#[derive(Debug, Clone, Copy, PartialEq, Eq, Structural)]
pub enum IotFieldType {
    Number,
    Boolean,
    String,
}

/// The declared unit of a reading's value.
#[derive(Debug, Clone, Copy, PartialEq, Eq, Structural)]
pub enum IotUnit {
    DegreesCelsius,
    Fahrenheit,
    Unknown,
}

/// A reading in its fixed shape.
///
/// `value` holds the binary64 pattern of the number read from the document,
/// `raw_value` the text the document gave for it. A reading that comes from
/// normalisation is [`named`](ReadingModel::named): neither `identifier` nor
/// `measuring` is empty.
#[derive(Debug)]
pub struct NormalisedReading {
    pub identifier: String,
    pub measuring: String,
    pub value: Option<u64>,
    pub raw_value: String,
    pub value_type: IotFieldType,
    pub unit: IotUnit,
    pub timestamp: Timestamp,
    pub metadata: Option<Vec<(String, JsonValue)>>,
}

/// The mathematical value of a [`NormalisedReading`].
pub struct ReadingModel {
    pub identifier: Seq<char>,
    pub measuring: Seq<char>,
    pub value: Option<u64>,
    pub raw_value: Seq<char>,
    pub value_type: IotFieldType,
    pub unit: IotUnit,
    pub timestamp: Timestamp,
    pub metadata: Option<Seq<(Seq<char>, JsonModel)>>,
}

impl ReadingModel {
    /// Whether the reading says what it is a reading of: neither of its names
    /// is empty.
    pub open spec fn named(self) -> bool {
        self.identifier.len() > 0 && self.measuring.len() > 0
    }
}

impl View for NormalisedReading {
    type V = ReadingModel;

    open spec fn view(&self) -> ReadingModel {
        ReadingModel {
            identifier: self.identifier@,
            measuring: self.measuring@,
            value: self.value,
            raw_value: self.raw_value@,
            value_type: self.value_type,
            unit: self.unit,
            timestamp: self.timestamp,
            metadata: match self.metadata {
                Some(members) => Some(members_model(members)),
                None => None,
            },
        }
    }
}

/// The characters of an optional text.
pub open spec fn text_of(found: Option<&str>) -> Option<Seq<char>> {
    match found {
        Some(s) => Some(s@),
        None => None,
    }
}

/// The text that was found, or the fallback where none was.
pub open spec fn text_or(found: Option<Seq<char>>, fallback: Seq<char>) -> Seq<char> {
    match found {
        Some(s) => s,
        None => fallback,
    }
}

impl IotFieldType {
    /// The type that a tag names, whatever the case of its letters.
    pub open spec fn declared(tag: Seq<char>) -> Option<IotFieldType> {
        if same_ignoring_case(tag, "number"@) {
            Some(IotFieldType::Number)
        } else if same_ignoring_case(tag, "boolean"@) {
            Some(IotFieldType::Boolean)
        } else if same_ignoring_case(tag, "string"@) {
            Some(IotFieldType::String)
        } else {
            None
        }
    }

    /// The type of a value with the given tag: the one that the tag names, and
    /// a number where the tag is missing or names none.
    pub open spec fn of_tag(tag: Option<Seq<char>>) -> IotFieldType {
        match tag {
            Some(t) => match IotFieldType::declared(t) {
                Some(found) => found,
                None => IotFieldType::Number,
            },
            None => IotFieldType::Number,
        }
    }

    /// Reads a type tag.
    pub fn parse(tag: &str) -> (r: Option<IotFieldType>)
        ensures
            r == IotFieldType::declared(tag@),
    {
        if eq_ignoring_case(tag, "number") {
            Some(IotFieldType::Number)
        } else if eq_ignoring_case(tag, "boolean") {
            Some(IotFieldType::Boolean)
        } else if eq_ignoring_case(tag, "string") {
            Some(IotFieldType::String)
        } else {
            None
        }
    }

    /// The type of a value with the given tag.
    pub fn from_tag(tag: Option<&str>) -> (r: IotFieldType)
        ensures
            r == IotFieldType::of_tag(text_of(tag)),
    {
        match tag {
            Some(t) => match IotFieldType::parse(t) {
                Some(found) => found,
                None => IotFieldType::Number,
            },
            None => IotFieldType::Number,
        }
    }
}

impl IotUnit {
    /// The unit that a tag names, whatever the case of its letters. Degrees
    /// Celsius are also known under the misspelt tag `DEGREES_CELCIUS`.
    pub open spec fn declared(tag: Seq<char>) -> Option<IotUnit> {
        if same_ignoring_case(tag, "degreescelsius"@) || same_ignoring_case(
            tag,
            "degrees_celcius"@,
        ) {
            Some(IotUnit::DegreesCelsius)
        } else if same_ignoring_case(tag, "fahrenheit"@) {
            Some(IotUnit::Fahrenheit)
        } else {
            None
        }
    }

    /// The unit of a value with the given tag: the one that the tag names, and
    /// none where the tag is missing or names none.
    pub open spec fn of_tag(tag: Option<Seq<char>>) -> IotUnit {
        match tag {
            Some(t) => match IotUnit::declared(t) {
                Some(found) => found,
                None => IotUnit::Unknown,
            },
            None => IotUnit::Unknown,
        }
    }

    /// Reads a unit tag.
    pub fn parse(tag: &str) -> (r: Option<IotUnit>)
        ensures
            r == IotUnit::declared(tag@),
    {
        if eq_ignoring_case(tag, "degreescelsius") || eq_ignoring_case(tag, "degrees_celcius") {
            Some(IotUnit::DegreesCelsius)
        } else if eq_ignoring_case(tag, "fahrenheit") {
            Some(IotUnit::Fahrenheit)
        } else {
            None
        }
    }

    /// The unit of a value with the given tag.
    pub fn from_tag(tag: Option<&str>) -> (r: IotUnit)
        ensures
            r == IotUnit::of_tag(text_of(tag)),
    {
        match tag {
            Some(t) => match IotUnit::parse(t) {
                Some(found) => found,
                None => IotUnit::Unknown,
            },
            None => IotUnit::Unknown,
        }
    }
}

/// The number that a value stands for. A number stands for itself, a boolean
/// for one or zero. A string stands for `numeric`, the outcome of reading it as
/// a decimal number. Any other shape, and a missing value, stand for nothing.
pub open spec fn coerced(value: Option<JsonModel>, numeric: Option<u64>) -> Option<u64> {
    match value {
        Some(JsonModel::Number { literal, bits }) => Some(bits),
        Some(JsonModel::String(s)) => numeric,
        Some(JsonModel::Bool(b)) => Some(
            if b {
                ONE_BITS
            } else {
                ZERO_BITS
            },
        ),
        _ => None,
    }
}

/// The text of a value as the document gave it; empty where there is none.
pub open spec fn raw_text(value: Option<JsonModel>) -> Seq<char> {
    match value {
        Some(v) => rendered(v),
        None => Seq::empty(),
    }
}

/// The name that a document gives under `key`: the string it has there, unless
/// that string is empty. An empty name counts as none.
pub open spec fn name_given(doc: JsonModel, key: Seq<char>) -> Option<Seq<char>> {
    match doc.text_member(key) {
        Some(s) => if s.len() > 0 {
            Some(s)
        } else {
            None
        },
        None => None,
    }
}

/// The text under `timestamp`; empty where there is none.
pub open spec fn timestamp_text(doc: JsonModel) -> Seq<char> {
    text_or(doc.text_member("timestamp"@), ""@)
}

/// The members under `metadata`, where that is an object.
pub open spec fn metadata_of(doc: JsonModel) -> Option<Seq<(Seq<char>, JsonModel)>> {
    match doc.member("metadata"@) {
        Some(v) => v.members(),
        None => None,
    }
}

/// The reading that a document gives, where `numeric` is the outcome of
/// reading its string value as a decimal number, `stamp` the outcome of reading
/// its timestamp, and `now` the instant at which it is normalised.
pub open spec fn normalised(
    doc: JsonModel,
    numeric: Option<u64>,
    stamp: Option<Timestamp>,
    now: Timestamp,
) -> ReadingModel {
    ReadingModel {
        identifier: text_or(name_given(doc, "identifier"@), "unknown_sensor"@),
        measuring: text_or(name_given(doc, "measuring"@), "unknown"@),
        value: coerced(doc.member("value"@), numeric),
        raw_value: raw_text(doc.member("value"@)),
        value_type: IotFieldType::of_tag(doc.text_member("value_type"@)),
        unit: IotUnit::of_tag(doc.text_member("unit"@)),
        timestamp: match stamp {
            Some(t) => t,
            None => now,
        },
        metadata: metadata_of(doc),
    }
}

/// Which fields of a reading hold a default because the document gave nothing
/// usable for them.
#[derive(Debug, Clone, Copy, PartialEq, Eq, Structural)]
pub struct Defaulted {
    pub identifier: bool,
    pub measuring: bool,
    pub value_type: bool,
    pub unit: bool,
    pub timestamp: bool,
}

/// The fields that [`normalised`] fills with a default for this document.
pub open spec fn defaulted(doc: JsonModel, stamp: Option<Timestamp>) -> Defaulted {
    Defaulted {
        identifier: name_given(doc, "identifier"@) is None,
        measuring: name_given(doc, "measuring"@) is None,
        value_type: match doc.text_member("value_type"@) {
            Some(t) => IotFieldType::declared(t) is None,
            None => true,
        },
        unit: match doc.text_member("unit"@) {
            Some(t) => IotUnit::declared(t) is None,
            None => true,
        },
        timestamp: stamp is None,
    }
}

/// The string under `value`, which has to be read as a decimal number before
/// the document can be normalised; nothing where the value is no string.
pub fn numeric_text(raw: &JsonValue) -> (r: Option<&str>)
    ensures
        text_of(r) == raw@.text_member("value"@),
{
    raw.get_str("value")
}

/// The name that a document gives under `key`.
fn given_name<'a>(raw: &'a JsonValue, key: &str) -> (r: Option<&'a str>)
    ensures
        text_of(r) == name_given(raw@, key@),
{
    match raw.get_str(key) {
        Some(s) => if s.is_empty() {
            None
        } else {
            Some(s)
        },
        None => None,
    }
}

/// Normalises a document from the outcomes of everything that is read outside:
/// `numeric` for its string value, `stamp` for its timestamp, `now` for the clock.
///
/// Every document is taken, also one that is not
/// [`well_formed`](JsonModel::well_formed). A number written with no text at
/// all then has an empty raw text, and of two members with one key the first
/// is read.
pub fn normalise_with(
    raw: &JsonValue,
    numeric: Option<u64>,
    stamp: Option<Timestamp>,
    now: Timestamp,
) -> (r: NormalisedReading)
    ensures
        r@ == normalised(raw@, numeric, stamp, now),
        r@.named(),
{
    proof {
        lemma_names_are_not_empty(raw@, numeric, stamp, now);
    }
    let identifier = match given_name(raw, "identifier") {
        Some(s) => s.to_owned(),
        None => "unknown_sensor".to_owned(),
    };
    let measuring = match given_name(raw, "measuring") {
        Some(s) => s.to_owned(),
        None => "unknown".to_owned(),
    };
    let value_type = IotFieldType::from_tag(raw.get_str("value_type"));
    let unit = IotUnit::from_tag(raw.get_str("unit"));
    let found = raw.get("value");
    let raw_value = match found {
        Some(v) => v.render(),
        None => String::new(),
    };
    let value = match found {
        Some(v) => match v {
            JsonValue::Number(n) => Some(n.bits),
            JsonValue::String(_) => numeric,
            JsonValue::Bool(b) => Some(
                if *b {
                    ONE_BITS
                } else {
                    ZERO_BITS
                },
            ),
            _ => None,
        },
        None => None,
    };
    let timestamp = match stamp {
        Some(t) => t,
        None => now,
    };
    let metadata = match raw.get("metadata") {
        Some(v) => match v {
            JsonValue::Object(members) => Some(duplicate_members(members)),
            _ => None,
        },
        None => None,
    };
    NormalisedReading {
        identifier,
        measuring,
        value,
        raw_value,
        value_type,
        unit,
        timestamp,
        metadata,
    }
}

/// Tells which fields of the reading [`normalise_with`] fills with a default.
pub fn defaults_applied(raw: &JsonValue, stamp: Option<Timestamp>) -> (r: Defaulted)
    ensures
        r == defaulted(raw@, stamp),
{
    Defaulted {
        identifier: given_name(raw, "identifier").is_none(),
        measuring: given_name(raw, "measuring").is_none(),
        value_type: match raw.get_str("value_type") {
            Some(t) => IotFieldType::parse(t).is_none(),
            None => true,
        },
        unit: match raw.get_str("unit") {
            Some(t) => IotUnit::parse(t).is_none(),
            None => true,
        },
        timestamp: stamp.is_none(),
    }
}

/// The instant that a document's timestamp denotes as an RFC 3339 date;
/// nothing where it has no timestamp or one that is no such date.
pub fn read_timestamp(raw: &JsonValue) -> (r: Option<Timestamp>)
    ensures
        r == instant_of(timestamp_text(raw@)),
{
    let text = match raw.get_str("timestamp") {
        Some(s) => s,
        None => "",
    };
    read_rfc3339(text)
}

/// Normalises a document as of the instant `now`: its timestamp is read as an
/// RFC 3339 date, and `now` stands in where that fails. Also tells which
/// fields were filled with a default.
pub fn normalise_at(raw: &JsonValue, numeric: Option<u64>, now: Timestamp) -> (r: (
    NormalisedReading,
    Defaulted,
))
    ensures
        r.0@ == normalised(raw@, numeric, instant_of(timestamp_text(raw@)), now),
        r.0@.named(),
        r.1 == defaulted(raw@, instant_of(timestamp_text(raw@))),
{
    let stamp = read_timestamp(raw);
    (normalise_with(raw, numeric, stamp, now), defaults_applied(raw, stamp))
}

/// Normalises a document. Its timestamp is read as an RFC 3339 date; where
/// that fails, the clock is read instead. `numeric` is the outcome of reading
/// the text that [`numeric_text`] gives as a decimal number.
///
/// Every document is accepted: the result is always `Ok`, and the reading is
/// named.
pub fn normalise_reading(raw: &JsonValue, numeric: Option<u64>) -> (r: Result<
    NormalisedReading,
    String,
>)
    ensures
        r matches Ok(reading) && reading@ == normalised(
            raw@,
            numeric,
            instant_of(timestamp_text(raw@)),
            reading.timestamp,
        ) && reading@.named(),
{
    let stamp = read_timestamp(raw);
    let now = match stamp {
        Some(t) => t,
        None => read_clock(),
    };
    Ok(normalise_with(raw, numeric, stamp, now))
}

/// Tags are read without regard to case: two tags that differ only in the
/// case of their letters name the same type and the same unit.
pub proof fn lemma_tags_ignore_case(a: Seq<char>, b: Seq<char>)
    requires
        same_ignoring_case(a, b),
    ensures
        IotFieldType::declared(a) == IotFieldType::declared(b),
        IotUnit::declared(a) == IotUnit::declared(b),
{
    lemma_same_tag(a, b, "number"@);
    lemma_same_tag(a, b, "boolean"@);
    lemma_same_tag(a, b, "string"@);
    lemma_same_tag(a, b, "degreescelsius"@);
    lemma_same_tag(a, b, "degrees_celcius"@);
    lemma_same_tag(a, b, "fahrenheit"@);
}

proof fn lemma_same_tag(a: Seq<char>, b: Seq<char>, tag: Seq<char>)
    requires
        same_ignoring_case(a, b),
    ensures
        same_ignoring_case(a, tag) == same_ignoring_case(b, tag),
{
    lemma_same_ignoring_case_is_an_equivalence(a, b, tag);
    lemma_same_ignoring_case_is_an_equivalence(b, a, tag);
}

/// A document that has no string under `identifier`, or an empty one, is named
/// `unknown_sensor`, and one that has no string under `measuring`, or an empty
/// one, measures `unknown`. Both fields are then told as filled by default.
pub proof fn lemma_missing_names_get_sentinels(
    doc: JsonModel,
    numeric: Option<u64>,
    stamp: Option<Timestamp>,
    now: Timestamp,
)
    ensures
        doc.text_member("identifier"@) is None || doc.text_member("identifier"@) == Some(
            Seq::<char>::empty(),
        ) ==> normalised(doc, numeric, stamp, now).identifier == "unknown_sensor"@ && defaulted(
            doc,
            stamp,
        ).identifier,
        doc.text_member("measuring"@) is None || doc.text_member("measuring"@) == Some(
            Seq::<char>::empty(),
        ) ==> normalised(doc, numeric, stamp, now).measuring == "unknown"@ && defaulted(
            doc,
            stamp,
        ).measuring,
{
}

/// The names of a reading are never empty, whatever the document.
pub proof fn lemma_names_are_not_empty(
    doc: JsonModel,
    numeric: Option<u64>,
    stamp: Option<Timestamp>,
    now: Timestamp,
)
    ensures
        normalised(doc, numeric, stamp, now).named(),
        normalised(doc, numeric, stamp, now).identifier.len() > 0,
        normalised(doc, numeric, stamp, now).measuring.len() > 0,
{
    reveal_strlit("unknown_sensor");
    reveal_strlit("unknown");
}

/// A name that the document gives and that is not empty is kept as it is.
pub proof fn lemma_given_names_are_kept(
    doc: JsonModel,
    name: Seq<char>,
    numeric: Option<u64>,
    stamp: Option<Timestamp>,
    now: Timestamp,
)
    requires
        name.len() > 0,
    ensures
        doc.text_member("identifier"@) == Some(name) ==> normalised(
            doc,
            numeric,
            stamp,
            now,
        ).identifier == name && !defaulted(doc, stamp).identifier,
        doc.text_member("measuring"@) == Some(name) ==> normalised(
            doc,
            numeric,
            stamp,
            now,
        ).measuring == name && !defaulted(doc, stamp).measuring,
{
}

/// Whatever a well-formed document gives as its value, the reading keeps its
/// text: the raw text is empty only where the document has no value.
pub proof fn lemma_present_value_has_raw_text(
    doc: JsonModel,
    numeric: Option<u64>,
    stamp: Option<Timestamp>,
    now: Timestamp,
)
    requires
        doc.well_formed(),
    ensures
        doc.member("value"@) is Some <==> normalised(doc, numeric, stamp, now).raw_value.len() > 0,
{
    lemma_member_is_well_formed(doc, "value"@);
    match doc.member("value"@) {
        Some(v) => lemma_rendered_is_not_empty(v),
        None => {},
    }
}

/// A boolean value reads as exactly one where it is `true` and exactly zero
/// where it is `false`, and its raw text is the boolean's own word.
pub proof fn lemma_boolean_value_is_one_or_zero(
    doc: JsonModel,
    flag: bool,
    numeric: Option<u64>,
    stamp: Option<Timestamp>,
    now: Timestamp,
)
    requires
        doc.member("value"@) == Some(JsonModel::Bool(flag)),
    ensures
        flag ==> normalised(doc, numeric, stamp, now).value == Some(ONE_BITS),
        !flag ==> normalised(doc, numeric, stamp, now).value == Some(ZERO_BITS),
        flag ==> normalised(doc, numeric, stamp, now).raw_value == "true"@,
        !flag ==> normalised(doc, numeric, stamp, now).raw_value == "false"@,
{
}

/// A string value reads as whatever number its text was read as, and as
/// nothing where the text is no number. Either way the raw text keeps the
/// string, written as a JSON string literal.
pub proof fn lemma_string_value_keeps_its_text(
    doc: JsonModel,
    text: Seq<char>,
    numeric: Option<u64>,
    stamp: Option<Timestamp>,
    now: Timestamp,
)
    requires
        doc.member("value"@) == Some(JsonModel::String(text)),
    ensures
        normalised(doc, numeric, stamp, now).value == numeric,
        normalised(doc, numeric, stamp, now).raw_value == quoted(text),
        normalised(doc, numeric, stamp, now).raw_value.len() >= 2,
{
}

/// A number reads as itself, and its raw text is the text it was written with.
pub proof fn lemma_number_value_is_itself(
    doc: JsonModel,
    literal: Seq<char>,
    bits: u64,
    numeric: Option<u64>,
    stamp: Option<Timestamp>,
    now: Timestamp,
)
    requires
        doc.member("value"@) == Some(JsonModel::Number { literal, bits }),
    ensures
        normalised(doc, numeric, stamp, now).value == Some(bits),
        normalised(doc, numeric, stamp, now).raw_value == literal,
{
}

/// The timestamp of a reading is the instant that its document's timestamp
/// denotes, and the instant of normalisation where it denotes none.
pub proof fn lemma_timestamp_is_parsed_or_now(
    doc: JsonModel,
    numeric: Option<u64>,
    stamp: Option<Timestamp>,
    now: Timestamp,
)
    ensures
        stamp matches Some(t) ==> normalised(doc, numeric, stamp, now).timestamp == t,
        stamp is None ==> normalised(doc, numeric, stamp, now).timestamp == now,
{
}

} // verus!

//! JSON documents as a tagged variant, with the operations the pipeline needs:
//! member lookup, shape tests, compact rendering and copying.

use vstd::prelude::*;
use vstd::string::StringExecFns;

verus! {

/// A JSON number: the text it is written with and the IEEE-754 binary64
/// pattern of the value it denotes.
#[derive(Debug, PartialEq, Eq)]
pub struct JsonNumber {
    pub literal: String,
    pub bits: u64,
}

/// A JSON document as a tagged variant.
///
/// An object keeps its members in order. Where a key occurs more than once,
/// the first occurrence is the one that lookups see. The type admits values
/// that no JSON text gives, a number without text and an object that repeats
/// a key; [`JsonModel::well_formed`] tells the others, and
/// [`JsonValue::is_well_formed`] tests for them.
#[derive(Debug, PartialEq, Eq)]
pub enum JsonValue {
    Null,
    Bool(bool),
    Number(JsonNumber),
    String(String),
    Array(Vec<JsonValue>),
    Object(Vec<(String, JsonValue)>),
}

/// The mathematical value of a [`JsonValue`].
pub enum JsonModel {
    Null,
    Bool(bool),
    Number { literal: Seq<char>, bits: u64 },
    String(Seq<char>),
    Array(Seq<JsonModel>),
    Object(Seq<(Seq<char>, JsonModel)>),
}

impl View for JsonValue {
    type V = JsonModel;

    open spec fn view(&self) -> JsonModel
        decreases self,
    {
        match self {
            JsonValue::Null => JsonModel::Null,
            JsonValue::Bool(b) => JsonModel::Bool(*b),
            JsonValue::Number(n) => JsonModel::Number { literal: n.literal@, bits: n.bits },
            JsonValue::String(s) => JsonModel::String(s@),
            JsonValue::Array(items) => JsonModel::Array(items_model(*items)),
            JsonValue::Object(members) => JsonModel::Object(members_model(*members)),
        }
    }
}

/// The items of an array, each with its value.
pub open spec fn items_model(items: Vec<JsonValue>) -> Seq<JsonModel>
    decreases items,
{
    Seq::new(
        items@.len(),
        |i: int|
            if 0 <= i < items@.len() {
                items@[i].view()
            } else {
                JsonModel::Null
            },
    )
}

/// The members of an object, each with the value of its key and of its content.
pub open spec fn members_model(members: Vec<(String, JsonValue)>) -> Seq<(Seq<char>, JsonModel)>
    decreases members,
{
    Seq::new(
        members@.len(),
        |i: int|
            if 0 <= i < members@.len() {
                (members@[i].0@, members@[i].1.view())
            } else {
                (Seq::empty(), JsonModel::Null)
            },
    )
}

/// The content of the first of `members`, from position `from` on, whose key is `key`.
pub open spec fn lookup(members: Seq<(Seq<char>, JsonModel)>, key: Seq<char>, from: int) -> Option<
    JsonModel,
>
    decreases members.len() - from,
{
    if from < 0 || from >= members.len() {
        None
    } else if members[from].0 == key {
        Some(members[from].1)
    } else {
        lookup(members, key, from + 1)
    }
}

impl JsonModel {
    /// The member of an object under `key`; nothing for any other shape.
    pub open spec fn member(self, key: Seq<char>) -> Option<JsonModel> {
        match self {
            JsonModel::Object(members) => lookup(members, key, 0),
            _ => None,
        }
    }

    /// The characters of a string; nothing for any other shape.
    pub open spec fn text(self) -> Option<Seq<char>> {
        match self {
            JsonModel::String(s) => Some(s),
            _ => None,
        }
    }

    /// The members of an object; nothing for any other shape.
    pub open spec fn members(self) -> Option<Seq<(Seq<char>, JsonModel)>> {
        match self {
            JsonModel::Object(members) => Some(members),
            _ => None,
        }
    }

    /// The string member under `key`: present only if the member exists and is a string.
    pub open spec fn text_member(self, key: Seq<char>) -> Option<Seq<char>> {
        match self.member(key) {
            Some(v) => v.text(),
            None => None,
        }
    }
}

/// No two members have the same key.
pub open spec fn distinct_keys(members: Seq<(Seq<char>, JsonModel)>) -> bool {
    forall|i: int, j: int|
        0 <= i < j < members.len() ==> (#[trigger] members[i]).0 != (#[trigger] members[j]).0
}

impl JsonModel {
    /// Whether the value is one that a JSON text can give: every number in it
    /// is written with some text, and no object in it has two members with the
    /// same key.
    ///
    /// Nothing in this module depends on it, and every operation is defined on
    /// every value. On a well-formed value the operations agree with what a
    /// JSON parser's own value would give: the compact text is never empty, and
    /// a lookup finds the one member with the key.
    pub open spec fn well_formed(self) -> bool
        decreases self,
    {
        match self {
            JsonModel::Number { literal, bits } => literal.len() > 0,
            JsonModel::Array(items) => forall|i: int|
                0 <= i < items.len() ==> (#[trigger] items[i]).well_formed(),
            JsonModel::Object(members) => distinct_keys(members) && forall|i: int|
                0 <= i < members.len() ==> (#[trigger] members[i]).1.well_formed(),
            _ => true,
        }
    }
}

/// The lower-case hexadecimal digit for `n`, where `0 <= n < 16`.
pub open spec fn hex_digit(n: int) -> char {
    if n < 10 {
        ((48 + n) as u8) as char
    } else {
        ((87 + n) as u8) as char
    }
}

/// How one character stands inside a JSON string literal: the quote, the
/// backslash and the control characters below U+0020 are escaped, every other
/// character stands for itself.
pub open spec fn escaped_char(c: char) -> Seq<char> {
    if c == '"' {
        seq!['\\', '"']
    } else if c == '\\' {
        seq!['\\', '\\']
    } else if c == '\u{08}' {
        seq!['\\', 'b']
    } else if c == '\u{0c}' {
        seq!['\\', 'f']
    } else if c == '\n' {
        seq!['\\', 'n']
    } else if c == '\r' {
        seq!['\\', 'r']
    } else if c == '\t' {
        seq!['\\', 't']
    } else if (c as u32) < 0x20 {
        seq![
            '\\',
            'u',
            '0',
            '0',
            hex_digit((c as u32) as int / 16),
            hex_digit((c as u32) as int % 16),
        ]
    } else {
        seq![c]
    }
}

/// The characters of `s`, each escaped, in order.
pub open spec fn escaped(s: Seq<char>) -> Seq<char>
    decreases s.len(),
{
    if s.len() == 0 {
        Seq::empty()
    } else {
        escaped(s.drop_last()) + escaped_char(s.last())
    }
}

/// The JSON string literal for `s`: its escaped characters between two quotes.
pub open spec fn quoted(s: Seq<char>) -> Seq<char> {
    seq!['"'] + escaped(s) + seq!['"']
}

/// The compact JSON text of a value: no white space, members and items in order.
pub open spec fn rendered(v: JsonModel) -> Seq<char>
    decreases v, 0nat,
{
    match v {
        JsonModel::Null => "null"@,
        JsonModel::Bool(b) => if b {
            "true"@
        } else {
            "false"@
        },
        JsonModel::Number { literal, bits } => literal,
        JsonModel::String(s) => quoted(s),
        JsonModel::Array(items) => "["@ + rendered_items(items, items.len()) + "]"@,
        JsonModel::Object(members) => "{"@ + rendered_members(members, members.len()) + "}"@,
    }
}

/// The first `n` items of an array, rendered and separated by commas.
pub open spec fn rendered_items(items: Seq<JsonModel>, n: nat) -> Seq<char>
    decreases items, n,
{
    if n == 0 || n > items.len() {
        Seq::empty()
    } else if n == 1 {
        rendered(items[0])
    } else {
        rendered_items(items, (n - 1) as nat) + ","@ + rendered(items[n - 1])
    }
}

/// The first `n` members of an object, rendered and separated by commas.
pub open spec fn rendered_members(members: Seq<(Seq<char>, JsonModel)>, n: nat) -> Seq<char>
    decreases members, n,
{
    if n == 0 || n > members.len() {
        Seq::empty()
    } else if n == 1 {
        rendered_member(members, 0)
    } else {
        rendered_members(members, (n - 1) as nat) + ","@ + rendered_member(members, n - 1)
    }
}

/// One member of an object: its quoted key, a colon, its rendered content.
pub open spec fn rendered_member(members: Seq<(Seq<char>, JsonModel)>, i: int) -> Seq<char>
    recommends
        0 <= i < members.len(),
    decreases members, 0nat, 0nat,
{
    if 0 <= i < members.len() {
        quoted(members[i].0) + ":"@ + rendered(members[i].1)
    } else {
        Seq::empty()
    }
}

/// Writes `text` as a JSON string literal with `serde_json`, through the
/// `Display` impl of `serde_json::Value` on its `String` variant. The contract
/// states the serializer's escape table: a quote on each side, and between them
/// each character as [`escaped_char`] gives it.
#[verifier::external_body]
fn quote(text: &str) -> (r: String)
    ensures
        r@ == quoted(text@),
{
    serde_json::Value::String(text.to_owned()).to_string()
}

impl JsonValue {
    /// The member of an object under `key`.
    pub fn get(&self, key: &str) -> (r: Option<&JsonValue>)
        ensures
            match r {
                Some(v) => self@.member(key@) == Some(v@),
                None => self@.member(key@) is None,
            },
    {
        match self {
            JsonValue::Object(members) => {
                let wanted = key.to_owned();
                let mut i: usize = 0;
                while i < members.len()
                    invariant
                        i <= members.len(),
                        wanted@ == key@,
                        self@.member(key@) == lookup(members_model(*members), key@, i as int),
                    decreases members.len() - i,
                {
                    proof {
                        let model = members_model(*members);
                        assert(model[i as int] == (members@[i as int].0@, members@[i as int].1@));
                    }
                    if members[i].0 == wanted {
                        return Some(&members[i].1);
                    }
                    i += 1;
                }
                None
            },
            _ => None,
        }
    }

    /// The characters of a string value.
    pub fn as_str(&self) -> (r: Option<&str>)
        ensures
            match r {
                Some(s) => self@.text() == Some(s@),
                None => self@.text() is None,
            },
    {
        match self {
            JsonValue::String(s) => Some(s.as_str()),
            _ => None,
        }
    }

    /// The compact JSON text of the value. A number is written with its own
    /// text, so the result is empty only for a number whose text is: never for
    /// a value that is [`well_formed`](JsonModel::well_formed).
    #[verifier::loop_isolation(false)]
    pub fn render(&self) -> (r: String)
        ensures
            r@ == rendered(self@),
        decreases self,
    {
        match self {
            JsonValue::Null => "null".to_owned(),
            JsonValue::Bool(b) => if *b {
                "true".to_owned()
            } else {
                "false".to_owned()
            },
            JsonValue::Number(n) => n.literal.clone(),
            JsonValue::String(s) => quote(s.as_str()),
            JsonValue::Array(items) => {
                let ghost model = items_model(*items);
                let mut out = "[".to_owned();
                let mut i: usize = 0;
                while i < items.len()
                    invariant
                        i <= items.len(),
                        out@ == "["@ + rendered_items(model, i as nat),
                    decreases items.len() - i,
                {
                    if i > 0 {
                        out.append(",");
                    }
                    let piece = items[i].render();
                    out.append(piece.as_str());
                    assert(model[i as int] == items@[i as int]@);
                    i += 1;
                }
                out.append("]");
                out
            },
            JsonValue::Object(members) => {
                let ghost model = members_model(*members);
                let mut out = "{".to_owned();
                let mut i: usize = 0;
                while i < members.len()
                    invariant
                        i <= members.len(),
                        out@ == "{"@ + rendered_members(model, i as nat),
                    decreases members.len() - i,
                {
                    if i > 0 {
                        out.append(",");
                    }
                    let key = quote(members[i].0.as_str());
                    out.append(key.as_str());
                    out.append(":");
                    let piece = members[i].1.render();
                    out.append(piece.as_str());
                    proof {
                        assert(model[i as int] == (members@[i as int].0@, members@[i as int].1@));
                        assert(rendered_member(model, i as int) == quoted(members@[i as int].0@)
                            + ":"@ + rendered(members@[i as int].1@));
                        assert(out@ =~= "{"@ + rendered_members(model, (i + 1) as nat));
                    }
                    i += 1;
                }
                out.append("}");
                out
            },
        }
    }

    /// Whether the value is [`well_formed`](JsonModel::well_formed).
    #[verifier::loop_isolation(false)]
    pub fn is_well_formed(&self) -> (r: bool)
        ensures
            r == self@.well_formed(),
        decreases self,
    {
        match self {
            JsonValue::Number(n) => !n.literal.as_str().is_empty(),
            JsonValue::Array(items) => {
                let ghost model = items_model(*items);
                let mut i: usize = 0;
                while i < items.len()
                    invariant
                        i <= items.len(),
                        forall|k: int| 0 <= k < i ==> (#[trigger] model[k]).well_formed(),
                    decreases items.len() - i,
                {
                    assert(model[i as int] == items@[i as int]@);
                    if !items[i].is_well_formed() {
                        assert(!self@.well_formed()) by {
                            if JsonModel::Array(model).well_formed() {
                                lemma_items_are_well_formed(model, i as int);
                            }
                        }
                        return false;
                    }
                    i += 1;
                }
                true
            },
            JsonValue::Object(members) => {
                let ghost model = members_model(*members);
                let mut i: usize = 0;
                while i < members.len()
                    invariant
                        i <= members.len(),
                        forall|k: int| 0 <= k < i ==> (#[trigger] model[k]).1.well_formed(),
                        forall|a: int, b: int|
                            0 <= a < b < i ==> (#[trigger] model[a]).0 != (#[trigger] model[b]).0,
                    decreases members.len() - i,
                {
                    assert(model[i as int] == (members@[i as int].0@, members@[i as int].1@));
                    if !members[i].1.is_well_formed() {
                        assert(!model[i as int].1.well_formed());
                        return false;
                    }
                    let mut j: usize = 0;
                    while j < i
                        invariant
                            j <= i,
                            i < members.len(),
                            forall|a: int|
                                0 <= a < j ==> (#[trigger] model[a]).0 != model[i as int].0,
                        decreases i - j,
                    {
                        assert(model[j as int] == (members@[j as int].0@, members@[j as int].1@));
                        if members[j].0 == members[i].0 {
                            assert(model[j as int].0 == model[i as int].0);
                            return false;
                        }
                        j += 1;
                    }
                    i += 1;
                }
                true
            },
            _ => true,
        }
    }

    /// A copy of the value, equal to it member by member.
    #[verifier::loop_isolation(false)]
    pub fn duplicate(&self) -> (r: JsonValue)
        ensures
            r@ == self@,
        decreases self,
    {
        match self {
            JsonValue::Null => JsonValue::Null,
            JsonValue::Bool(b) => JsonValue::Bool(*b),
            JsonValue::Number(n) => JsonValue::Number(
                JsonNumber { literal: n.literal.clone(), bits: n.bits },
            ),
            JsonValue::String(s) => JsonValue::String(s.clone()),
            JsonValue::Array(items) => {
                let mut out: Vec<JsonValue> = Vec::new();
                let mut i: usize = 0;
                while i < items.len()
                    invariant
                        i <= items.len(),
                        out.len() == i,
                        forall|j: int| 0 <= j < i ==> out@[j]@ == items@[j]@,
                    decreases items.len() - i,
                {
                    out.push(items[i].duplicate());
                    i += 1;
                }
                assert(items_model(out) =~= items_model(*items));
                JsonValue::Array(out)
            },
            JsonValue::Object(members) => JsonValue::Object(duplicate_members(members)),
        }
    }

    /// The string member under `key`, if there is one.
    pub fn get_str(&self, key: &str) -> (r: Option<&str>)
        ensures
            match r {
                Some(s) => self@.text_member(key@) == Some(s@),
                None => self@.text_member(key@) is None,
            },
    {
        match self.get(key) {
            Some(v) => v.as_str(),
            None => None,
        }
    }
}

/// The items of a well-formed array are well-formed.
pub proof fn lemma_items_are_well_formed(items: Seq<JsonModel>, i: int)
    requires
        JsonModel::Array(items).well_formed(),
        0 <= i < items.len(),
    ensures
        items[i].well_formed(),
{
    let whole = JsonModel::Array(items);
    assert(whole matches JsonModel::Array(inner) && inner == items);
}

/// The compact text of a well-formed value is never empty.
pub proof fn lemma_rendered_is_not_empty(v: JsonModel)
    requires
        v.well_formed(),
    ensures
        rendered(v).len() > 0,
{
    reveal_strlit("null");
    reveal_strlit("true");
    reveal_strlit("false");
    reveal_strlit("[");
    reveal_strlit("{");
}

/// In an object whose keys are distinct, a lookup finds the one member with
/// the key, wherever it stands.
pub proof fn lemma_lookup_finds_the_member(
    members: Seq<(Seq<char>, JsonModel)>,
    key: Seq<char>,
    at: int,
)
    requires
        distinct_keys(members),
        0 <= at < members.len(),
        members[at].0 == key,
    ensures
        lookup(members, key, 0) == Some(members[at].1),
{
    lemma_lookup_from(members, key, at, 0);
}

proof fn lemma_lookup_from(
    members: Seq<(Seq<char>, JsonModel)>,
    key: Seq<char>,
    at: int,
    from: int,
)
    requires
        distinct_keys(members),
        0 <= from <= at < members.len(),
        members[at].0 == key,
    ensures
        lookup(members, key, from) == Some(members[at].1),
    decreases at - from,
{
    if from < at {
        assert(members[from].0 != members[at].0);
        lemma_lookup_from(members, key, at, from + 1);
    }
}

/// What a lookup finds is the content of a member with the key.
pub proof fn lemma_lookup_is_a_member(
    members: Seq<(Seq<char>, JsonModel)>,
    key: Seq<char>,
    from: int,
)
    requires
        0 <= from,
    ensures
        lookup(members, key, from) matches Some(found) ==> exists|i: int|
            from <= i < members.len() && (#[trigger] members[i]) == (key, found),
    decreases members.len() - from,
{
    if from < members.len() {
        if members[from].0 == key {
            assert(members[from] == (key, members[from].1));
        } else {
            lemma_lookup_is_a_member(members, key, from + 1);
        }
    }
}

/// The members of a well-formed value are well-formed.
pub proof fn lemma_member_is_well_formed(doc: JsonModel, key: Seq<char>)
    requires
        doc.well_formed(),
    ensures
        doc.member(key) matches Some(found) ==> found.well_formed(),
{
    match doc {
        JsonModel::Object(members) => {
            lemma_lookup_is_a_member(members, key, 0);
            match lookup(members, key, 0) {
                Some(found) => {
                    let i = choose|i: int|
                        0 <= i < members.len() && (#[trigger] members[i]) == (key, found);
                    assert(members[i].1.well_formed());
                },
                None => {},
            }
        },
        _ => {},
    }
}

/// A copy of the members of an object, in order.
#[verifier::loop_isolation(false)]
pub fn duplicate_members(members: &Vec<(String, JsonValue)>) -> (r: Vec<(String, JsonValue)>)
    ensures
        members_model(r) == members_model(*members),
    decreases members,
{
    let mut out: Vec<(String, JsonValue)> = Vec::new();
    let mut i: usize = 0;
    while i < members.len()
        invariant
            i <= members.len(),
            out.len() == i,
            forall|j: int|
                0 <= j < i ==> out@[j].0@ == members@[j].0@ && out@[j].1@ == members@[j].1@,
        decreases members.len() - i,
    {
        out.push((members[i].0.clone(), members[i].1.duplicate()));
        i += 1;
    }
    assert(members_model(out) =~= members_model(*members));
    out
}

} // verus!

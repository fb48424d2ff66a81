use vstd::prelude::*;

verus! {

/// `serde_json::Number`, carried through as an opaque value: this library
/// reads no number that is not an integer.
#[verifier::external_type_specification]
#[verifier::external_body]
pub struct ExJsonNumber(serde_json::Number);

/// `Clone` of `serde_json::Number`: its derived clone copies the number it
/// holds, so the copy is the same value.
#[verifier::external_body]
fn number_copy(n: &serde_json::Number) -> (r: serde_json::Number)
    ensures
        r == *n,
{
    n.clone()
}

/// A JSON number, in the three shapes that a JSON parser tells apart: a
/// non-negative integer, a negative integer, and any other number, which is
/// kept as serde_json holds it.
#[derive(Debug, PartialEq, Eq)]
pub enum JsonNumber {
    PosInt(u64),
    NegInt(i64),
    Float(serde_json::Number),
}

/// A JSON value. An object keeps its members in order.
#[derive(Debug, PartialEq, Eq)]
pub enum Json {
    Null,
    Bool(bool),
    Number(JsonNumber),
    String(String),
    Array(Vec<Json>),
    Object(Vec<(String, Json)>),
}

/// The mathematical model of a JSON number.
pub enum NumberModel {
    PosInt(u64),
    NegInt(i64),
    Float(serde_json::Number),
}

/// The mathematical model of a JSON value.
pub enum JsonModel {
    Null,
    Bool(bool),
    Number(NumberModel),
    Str(Seq<char>),
    Array(Seq<JsonModel>),
    Object(Seq<(Seq<char>, JsonModel)>),
}

/// The value of the first member named `key`, if any.
pub open spec fn member(entries: Seq<(Seq<char>, JsonModel)>, key: Seq<char>) -> Option<JsonModel>
    decreases entries.len(),
{
    if entries.len() == 0 {
        None
    } else if entries[0].0 == key {
        Some(entries[0].1)
    } else {
        member(entries.drop_first(), key)
    }
}

/// Looking a member up finds the first member of that name, and nothing
/// only when no member has that name.
pub proof fn lemma_member_is_first_match(entries: Seq<(Seq<char>, JsonModel)>, key: Seq<char>)
    ensures
        match member(entries, key) {
            Some(v) => exists|i: int|
                0 <= i < entries.len() && entries[i] == (key, v) && forall|j: int|
                    0 <= j < i ==> (#[trigger] entries[j]).0 != key,
            None => forall|i: int| 0 <= i < entries.len() ==> (#[trigger] entries[i]).0 != key,
        },
    decreases entries.len(),
{
    if entries.len() > 0 {
        let rest = entries.drop_first();
        lemma_member_is_first_match(rest, key);
        if entries[0].0 == key {
            assert(entries[0] == (key, entries[0].1));
        } else {
            match member(rest, key) {
                Some(v) => {
                    let i = choose|i: int|
                        0 <= i < rest.len() && rest[i] == (key, v) && forall|j: int|
                            0 <= j < i ==> (#[trigger] rest[j]).0 != key;
                    assert(entries[i + 1] == rest[i]);
                    assert forall|j: int| 0 <= j < i + 1 implies (#[trigger] entries[j]).0 != key by {
                        if j > 0 {
                            assert(entries[j] == rest[j - 1]);
                        }
                    }
                },
                None => {
                    assert forall|i: int| 0 <= i < entries.len() implies (#[trigger] entries[i]).0
                        != key by {
                        if i > 0 {
                            assert(entries[i] == rest[i - 1]);
                        }
                    }
                },
            }
        }
    }
}

/// The number that a JSON parser builds from an `i64`.
pub open spec fn number_of_i64(i: i64) -> NumberModel {
    if i < 0 {
        NumberModel::NegInt(i)
    } else {
        NumberModel::PosInt(i as u64)
    }
}

impl NumberModel {
    /// The number as an `i64`, where it is an integer that fits.
    pub open spec fn as_i64(self) -> Option<i64> {
        match self {
            NumberModel::PosInt(u) => if u <= i64::MAX {
                Some(u as i64)
            } else {
                None
            },
            NumberModel::NegInt(i) => Some(i),
            NumberModel::Float(_) => None,
        }
    }
}

impl JsonModel {
    /// The member `key` of an object; `None` for any other value.
    pub open spec fn get(self, key: Seq<char>) -> Option<JsonModel> {
        match self {
            JsonModel::Object(entries) => member(entries, key),
            _ => None,
        }
    }

    pub open spec fn as_i64(self) -> Option<i64> {
        match self {
            JsonModel::Number(n) => n.as_i64(),
            _ => None,
        }
    }

    pub open spec fn is_null(self) -> bool {
        self is Null
    }
}

impl JsonNumber {
    pub open spec fn model(&self) -> NumberModel {
        match self {
            JsonNumber::PosInt(u) => NumberModel::PosInt(*u),
            JsonNumber::NegInt(i) => NumberModel::NegInt(*i),
            JsonNumber::Float(n) => NumberModel::Float(*n),
        }
    }

    /// The number built from an `i64`: negative values are `NegInt`, the
    /// others `PosInt`.
    pub fn from_i64(i: i64) -> (n: JsonNumber)
        ensures
            n.model() == number_of_i64(i),
    {
        if i < 0 {
            JsonNumber::NegInt(i)
        } else {
            JsonNumber::PosInt(i as u64)
        }
    }

    pub fn as_i64(&self) -> (r: Option<i64>)
        ensures
            r == self.model().as_i64(),
    {
        match self {
            JsonNumber::PosInt(u) => if *u <= i64::MAX as u64 {
                Some(*u as i64)
            } else {
                None
            },
            JsonNumber::NegInt(i) => Some(*i),
            JsonNumber::Float(_) => None,
        }
    }

    pub fn copy(&self) -> (r: JsonNumber)
        ensures
            r.model() == self.model(),
    {
        match self {
            JsonNumber::PosInt(u) => JsonNumber::PosInt(*u),
            JsonNumber::NegInt(i) => JsonNumber::NegInt(*i),
            JsonNumber::Float(n) => JsonNumber::Float(number_copy(n)),
        }
    }
}

/// The model of a list of values.
pub open spec fn items_model(items: Seq<Json>) -> Seq<JsonModel>
    decreases items,
{
    Seq::new(
        items.len(),
        |i: int|
            if 0 <= i < items.len() {
                items[i].model()
            } else {
                JsonModel::Null
            },
    )
}

/// The model of a list of object members.
pub open spec fn entries_model(entries: Seq<(String, Json)>) -> Seq<(Seq<char>, JsonModel)>
    decreases entries,
{
    Seq::new(
        entries.len(),
        |i: int|
            if 0 <= i < entries.len() {
                (entries[i].0@, entries[i].1.model())
            } else {
                (Seq::empty(), JsonModel::Null)
            },
    )
}

impl Json {
    pub open spec fn model(&self) -> JsonModel
        decreases self,
    {
        match self {
            Json::Null => JsonModel::Null,
            Json::Bool(b) => JsonModel::Bool(*b),
            Json::Number(n) => JsonModel::Number(n.model()),
            Json::String(s) => JsonModel::Str(s@),
            Json::Array(items) => JsonModel::Array(items_model(items@)),
            Json::Object(entries) => JsonModel::Object(entries_model(entries@)),
        }
    }

    /// A copy of the value, member for member.
    pub fn copy(&self) -> (r: Json)
        ensures
            r.model() == self.model(),
        decreases self,
    {
        match self {
            Json::Null => Json::Null,
            Json::Bool(b) => Json::Bool(*b),
            Json::Number(n) => Json::Number(n.copy()),
            Json::String(s) => Json::String(s.clone()),
            Json::Array(items) => {
                let mut out: Vec<Json> = Vec::new();
                let mut i: usize = 0;
                while i < items.len()
                    invariant
                        *self == Json::Array(*items),
                        i <= items@.len(),
                        out@.len() == i,
                        forall|j: int| 0 <= j < i ==> (#[trigger] out@[j]).model() == items@[j].model(),
                    decreases items@.len() - i,
                {
                    assert(decreases_to!(*self => self->Array_0));
                    assert(decreases_to!(*items => items@));
                    assert(decreases_to!(items@ => items@[i as int]));
                    out.push(items[i].copy());
                    i = i + 1;
                }
                assert(items_model(out@) =~= items_model(items@));
                let r = Json::Array(out);
                r
            },
            Json::Object(entries) => {
                let mut out: Vec<(String, Json)> = Vec::new();
                let mut i: usize = 0;
                while i < entries.len()
                    invariant
                        *self == Json::Object(*entries),
                        i <= entries@.len(),
                        out@.len() == i,
                        forall|j: int|
                            0 <= j < i ==> (#[trigger] out@[j]).0@ == entries@[j].0@ && out@[j].1.model()
                                == entries@[j].1.model(),
                    decreases entries@.len() - i,
                {
                    assert(decreases_to!(*self => self->Object_0));
                    assert(decreases_to!(*entries => entries@));
                    assert(decreases_to!(entries@ => entries@[i as int]));
                    assert(decreases_to!(entries@[i as int] => entries@[i as int].1));
                    let v = entries[i].1.copy();
                    out.push((entries[i].0.clone(), v));
                    i = i + 1;
                }
                assert(entries_model(out@) =~= entries_model(entries@));
                let r = Json::Object(out);
                r
            },
        }
    }
}


/// An owned copy of a string slice.
pub fn text(s: &str) -> (r: String)
    ensures
        r@ == s@,
{
    broadcast use vstd::string::group_string_axioms;

    s.to_string()
}

impl Clone for Json {
    fn clone(&self) -> (r: Self)
        ensures
            r.model() == self.model(),
    {
        self.copy()
    }
}

impl Json {
    /// The member `key` of an object; `None` for any other value, and for an
    /// object without that member.
    pub fn get(&self, key: &str) -> (r: Option<&Json>)
        ensures
            match r {
                Some(v) => self.model().get(key@) == Some(v.model()),
                None => self.model().get(key@) is None,
            },
    {
        match self {
            Json::Object(entries) => {
                let k = text(key);
                let ghost m = entries_model(entries@);
                assert(m.subrange(0, m.len() as int) =~= m);
                let mut i: usize = 0;
                while i < entries.len()
                    invariant
                        i <= entries@.len(),
                        m == entries_model(entries@),
                        self.model().get(key@) == member(m, key@),
                        k@ == key@,
                        member(m, key@) == member(m.subrange(i as int, m.len() as int), key@),
                    decreases entries@.len() - i,
                {
                    assert(m.subrange(i as int, m.len() as int).drop_first() =~= m.subrange(
                        i + 1,
                        m.len() as int,
                    ));
                    assert(m[i as int] == (entries@[i as int].0@, entries@[i as int].1.model()));
                    if entries[i].0 == k {
                        return Some(&entries[i].1);
                    }
                    i = i + 1;
                }
                None
            },
            _ => None,
        }
    }

    pub fn is_null(&self) -> (r: bool)
        ensures
            r == self.model().is_null(),
    {
        match self {
            Json::Null => true,
            _ => false,
        }
    }

    /// The value as an `i64`, where it is an integer number that fits.
    pub fn as_i64(&self) -> (r: Option<i64>)
        ensures
            r == self.model().as_i64(),
    {
        match self {
            Json::Number(n) => n.as_i64(),
            _ => None,
        }
    }
}

// ---------------------------------------------------------------------------
// Reading and writing JSON text, with serde_json
// ---------------------------------------------------------------------------

/// `serde_json::Value`, the value that serde_json reads JSON text into and
/// writes JSON text from.
#[verifier::external_type_specification]
#[verifier::external_body]
pub struct ExJsonValue(serde_json::Value);

/// What serde_json reads from a text, as a JSON value of this library:
/// `None` where the text is not JSON.
pub uninterp spec fn json_of_text(text: Seq<char>) -> Option<JsonModel>;

/// The compact JSON text that serde_json writes for a JSON value.
pub uninterp spec fn text_of_json(value: JsonModel) -> Seq<char>;

/// A `serde_json::Value` as a JSON value of this library, shape for shape:
/// each number keeps the shape serde_json holds it in (a non-negative
/// integer, a negative integer, or any other number, kept as serde_json's
/// own `Number`), and an object keeps serde_json's order of members. It is
/// the conversion of the result of [`parse_json`]; nothing is stated of it on
/// its own.
#[verifier::external_body]
fn json_from_value(v: serde_json::Value) -> Json {
    match v {
        serde_json::Value::Null => Json::Null,
        serde_json::Value::Bool(b) => Json::Bool(b),
        serde_json::Value::Number(n) => Json::Number(match (n.as_u64(), n.as_i64()) {
            (Some(u), _) => JsonNumber::PosInt(u),
            (None, Some(i)) => JsonNumber::NegInt(i),
            (None, None) => JsonNumber::Float(n),
        }),
        serde_json::Value::String(s) => Json::String(s),
        serde_json::Value::Array(a) => Json::Array(a.into_iter().map(json_from_value).collect()),
        serde_json::Value::Object(m) => Json::Object(
            m.into_iter().map(|(k, v)| (k, json_from_value(v))).collect(),
        ),
    }
}

/// A JSON value of this library as a `serde_json::Value`, shape for shape. It is the conversion of the
/// argument of [`json_text`]; nothing is stated of it on its own.
#[verifier::external_body]
fn value_from_json(j: &Json) -> serde_json::Value {
    match j {
        Json::Null => serde_json::Value::Null,
        Json::Bool(b) => serde_json::Value::Bool(*b),
        Json::Number(JsonNumber::PosInt(u)) => serde_json::Value::from(*u),
        Json::Number(JsonNumber::NegInt(i)) => serde_json::Value::from(*i),
        Json::Number(JsonNumber::Float(n)) => serde_json::Value::Number(n.clone()),
        Json::String(s) => serde_json::Value::String(s.clone()),
        Json::Array(a) => serde_json::Value::Array(a.iter().map(value_from_json).collect()),
        Json::Object(m) => serde_json::Value::Object(
            m.iter().map(|(k, v)| (k.clone(), value_from_json(v))).collect(),
        ),
    }
}

/// `serde_json::from_str::<serde_json::Value>`, converted. Claims that the
/// result depends on the text alone (serde_json's reading of JSON text is
/// deterministic); what it reads is not stated beyond that name.
#[verifier::external_body]
pub(crate) fn parse_json(text: &str) -> (r: Option<Json>)
    ensures
        match r {
            Some(j) => json_of_text(text@) == Some(j.model()),
            None => json_of_text(text@) is None,
        },
{
    serde_json::from_str::<serde_json::Value>(text).ok().map(json_from_value)
}

/// `serde_json::Value`'s `Display` (compact JSON text), of the converted
/// value. Claims that the text depends on the value's model alone; its
/// content is not stated beyond that name.
#[verifier::external_body]
pub(crate) fn json_text(j: &Json) -> (r: String)
    ensures
        r@ == text_of_json(j.model()),
{
    value_from_json(j).to_string()
}

impl Json {
    /// The compact JSON text of the value, as serde_json writes it.
    pub fn to_text(&self) -> (r: String)
        ensures
            r@ == text_of_json(self.model()),
    {
        json_text(self)
    }
}

} // verus!

//! JSON documents as the rules read them.

use vstd::prelude::*;

use crate::scalar::Scalar;
use crate::text::same_text;

verus! {

/// A JSON number, by the three readings that callers ask for.
#[derive(Debug, Clone, Copy, PartialEq, Eq, Structural)]
pub struct JsonNumber {
    /// The number as a signed integer, where it is one.
    pub signed: Option<i64>,
    /// The number as an unsigned integer, where it is one.
    pub unsigned: Option<u64>,
    /// The number as a double, where that was worked out.
    pub double: Option<Scalar>,
}

impl JsonNumber {
    /// An unsigned integer, whose double is not worked out.
    pub open spec fn of_unsigned(n: u64) -> JsonNumber {
        JsonNumber {
            signed: if n <= i64::MAX {
                Some(n as i64)
            } else {
                None
            },
            unsigned: Some(n),
            double: None,
        }
    }

    /// An unsigned integer, whose double is not worked out.
    pub fn natural(n: u64) -> (r: JsonNumber)
        ensures
            r == JsonNumber::of_unsigned(n),
    {
        JsonNumber {
            signed: if n <= i64::MAX as u64 {
                Some(n as i64)
            } else {
                None
            },
            unsigned: Some(n),
            double: None,
        }
    }

    /// A number that is written as a double.
    pub open spec fn of_double(x: Scalar) -> JsonNumber {
        JsonNumber { signed: None, unsigned: None, double: Some(x) }
    }

    /// A number that is written as a double.
    pub fn fraction(x: Scalar) -> (r: JsonNumber)
        ensures
            r == JsonNumber::of_double(x),
    {
        JsonNumber { signed: None, unsigned: None, double: Some(x) }
    }

    /// An integer, whose double is not worked out.
    pub open spec fn of(i: i64) -> JsonNumber {
        JsonNumber {
            signed: Some(i),
            unsigned: if i >= 0 {
                Some(i as u64)
            } else {
                None
            },
            double: None,
        }
    }

    /// An integer, whose double is not worked out.
    pub fn integer(i: i64) -> (r: JsonNumber)
        ensures
            r == JsonNumber::of(i),
    {
        JsonNumber {
            signed: Some(i),
            unsigned: if i >= 0 {
                Some(i as u64)
            } else {
                None
            },
            double: None,
        }
    }
}

/// A JSON document.
#[derive(Debug)]
pub enum Json {
    Null,
    Bool(bool),
    Number(JsonNumber),
    Text(String),
    Array(Vec<Json>),
    Object(Vec<(String, Json)>),
}

/// What a JSON document says.
pub enum JsonView {
    Null,
    Bool(bool),
    Number(JsonNumber),
    Text(Seq<char>),
    Array(Seq<JsonView>),
    Object(Seq<(Seq<char>, JsonView)>),
}

impl JsonView {
    /// The first index at or after `from` that holds the key; the length where none does.
    pub open spec fn key_index(fields: Seq<(Seq<char>, JsonView)>, key: Seq<char>, from: int) -> int
        decreases fields.len() - from,
    {
        if from < 0 || from >= fields.len() {
            fields.len() as int
        } else if fields[from].0 == key {
            from
        } else {
            JsonView::key_index(fields, key, from + 1)
        }
    }

    /// The value of a field; nothing where the document is no object or lacks it.
    pub open spec fn field(self, key: Seq<char>) -> Option<JsonView> {
        match self {
            JsonView::Object(fields) => {
                let i = JsonView::key_index(fields, key, 0);
                if i < fields.len() {
                    Some(fields[i].1)
                } else {
                    None
                }
            },
            _ => None,
        }
    }

    /// The document has a field of this name.
    pub open spec fn has(self, key: Seq<char>) -> bool {
        self.field(key) is Some
    }

    /// The document as a signed integer.
    pub open spec fn signed(self) -> Option<i64> {
        match self {
            JsonView::Number(n) => n.signed,
            _ => None,
        }
    }

    /// The document as an unsigned integer.
    pub open spec fn unsigned(self) -> Option<u64> {
        match self {
            JsonView::Number(n) => n.unsigned,
            _ => None,
        }
    }

    /// The document as a double.
    pub open spec fn double(self) -> Option<Scalar> {
        match self {
            JsonView::Number(n) => n.double,
            _ => None,
        }
    }

    /// The document as a text.
    pub open spec fn string(self) -> Option<Seq<char>> {
        match self {
            JsonView::Text(s) => Some(s),
            _ => None,
        }
    }

    /// The named field as a signed integer.
    pub open spec fn signed_at(self, key: Seq<char>) -> Option<i64> {
        match self.field(key) {
            Some(v) => v.signed(),
            None => None,
        }
    }

    /// The named field as a text.
    pub open spec fn string_at(self, key: Seq<char>) -> Option<Seq<char>> {
        match self.field(key) {
            Some(v) => v.string(),
            None => None,
        }
    }
}

impl Json {
    /// What the document says.
    pub open spec fn model(self) -> JsonView
        decreases self,
    {
        match self {
            Json::Null => JsonView::Null,
            Json::Bool(b) => JsonView::Bool(b),
            Json::Number(n) => JsonView::Number(n),
            Json::Text(s) => JsonView::Text(s@),
            Json::Array(items) => JsonView::Array(
                Seq::new(
                    items@.len(),
                    |i: int|
                        if 0 <= i < items@.len() {
                            items@[i].model()
                        } else {
                            JsonView::Null
                        },
                ),
            ),
            Json::Object(fields) => JsonView::Object(
                Seq::new(
                    fields@.len(),
                    |i: int|
                        if 0 <= i < fields@.len() {
                            (fields@[i].0@, fields@[i].1.model())
                        } else {
                            (Seq::empty(), JsonView::Null)
                        },
                ),
            ),
        }
    }

    /// The value of a field; nothing where the document is no object or lacks it.
    pub fn get(&self, key: &str) -> (r: Option<&Json>)
        ensures
            match (r, self.model().field(key@)) {
                (Some(v), Some(w)) => v.model() == w,
                (None, None) => true,
                _ => false,
            },
    {
        match self {
            Json::Object(fields) => {
                let ghost view = self.model()->Object_0;
                let mut i: usize = 0;
                while i < fields.len()
                    invariant
                        i <= fields@.len() == view.len(),
                        self.model() == JsonView::Object(view),
                        forall|j: int|
                            0 <= j < view.len() ==> #[trigger] view[j] == (
                                fields@[j].0@,
                                fields@[j].1.model(),
                            ),
                        JsonView::key_index(view, key@, i as int) == JsonView::key_index(
                            view,
                            key@,
                            0,
                        ),
                    decreases fields@.len() - i,
                {
                    assert(view[i as int] == (fields@[i as int].0@, fields@[i as int].1.model()));
                    if same_text(fields[i].0.as_str(), key) {
                        return Some(&fields[i].1);
                    }
                    i += 1;
                }
                None
            },
            _ => None,
        }
    }

    /// Tells whether the document has a field of this name.
    pub fn has_key(&self, key: &str) -> (r: bool)
        ensures
            r == self.model().has(key@),
    {
        self.get(key).is_some()
    }

    /// Tells whether the document is an object.
    pub fn is_object(&self) -> (r: bool)
        ensures
            r == (self.model() is Object),
    {
        match self {
            Json::Object(_) => true,
            _ => false,
        }
    }

    /// Tells whether the document is `null`.
    pub fn is_null(&self) -> (r: bool)
        ensures
            r == (self.model() is Null),
    {
        match self {
            Json::Null => true,
            _ => false,
        }
    }

    /// The document as a signed integer.
    pub fn as_i64(&self) -> (r: Option<i64>)
        ensures
            r == self.model().signed(),
    {
        match self {
            Json::Number(n) => n.signed,
            _ => None,
        }
    }

    /// The document as an unsigned integer.
    pub fn as_u64(&self) -> (r: Option<u64>)
        ensures
            r == self.model().unsigned(),
    {
        match self {
            Json::Number(n) => n.unsigned,
            _ => None,
        }
    }

    /// The document as a double.
    pub fn as_double(&self) -> (r: Option<Scalar>)
        ensures
            r == self.model().double(),
    {
        match self {
            Json::Number(n) => n.double,
            _ => None,
        }
    }

    /// The document as a text.
    pub fn as_text(&self) -> (r: Option<&String>)
        ensures
            match (r, self.model().string()) {
                (Some(s), Some(t)) => s@ == t,
                (None, None) => true,
                _ => false,
            },
    {
        match self {
            Json::Text(s) => Some(s),
            _ => None,
        }
    }

    /// The items of an array.
    pub fn as_array(&self) -> (r: Option<&Vec<Json>>)
        ensures
            match (r, self.model()) {
                (Some(v), JsonView::Array(items)) => items.len() == v@.len() && forall|i: int|
                    0 <= i < items.len() ==> #[trigger] items[i] == v@[i].model(),
                (Some(_), _) => false,
                (None, view) => !(view is Array),
            },
    {
        match self {
            Json::Array(v) => Some(v),
            _ => None,
        }
    }

    /// The named field as a signed integer.
    pub fn i64_at(&self, key: &str) -> (r: Option<i64>)
        ensures
            r == self.model().signed_at(key@),
    {
        match self.get(key) {
            Some(v) => v.as_i64(),
            None => None,
        }
    }

    /// The named field as a text.
    pub fn text_at(&self, key: &str) -> (r: Option<&String>)
        ensures
            match (r, self.model().string_at(key@)) {
                (Some(s), Some(t)) => s@ == t,
                (None, None) => true,
                _ => false,
            },
    {
        match self.get(key) {
            Some(v) => v.as_text(),
            None => None,
        }
    }

    /// A document that says the same.
    pub fn duplicate(&self) -> (r: Json)
        ensures
            r.model() == self.model(),
        decreases self,
    {
        match self {
            Json::Null => Json::Null,
            Json::Bool(b) => Json::Bool(*b),
            Json::Number(n) => Json::Number(*n),
            Json::Text(s) => Json::Text(s.clone()),
            Json::Array(items) => {
                let mut out: Vec<Json> = Vec::new();
                let mut i: usize = 0;
                while i < items.len()
                    invariant
                        i <= items@.len(),
                        out@.len() == i,
                        *self == Json::Array(*items),
                        forall|j: int| 0 <= j < i ==> (#[trigger] out@[j]).model() == items@[j].model(),
                    decreases items@.len() - i,
                {
                    proof {
                        assert(decreases_to!(self => self->Array_0));
                        assert(decreases_to!(self->Array_0 => self->Array_0@));
                        assert(decreases_to!(self->Array_0@ => self->Array_0@[i as int]));
                    }
                    out.push(items[i].duplicate());
                    i += 1;
                }
                let r = Json::Array(out);
                assert(r.model()->Array_0 =~= self.model()->Array_0);
                r
            },
            Json::Object(fields) => {
                let mut out: Vec<(String, Json)> = Vec::new();
                let mut i: usize = 0;
                while i < fields.len()
                    invariant
                        i <= fields@.len(),
                        out@.len() == i,
                        *self == Json::Object(*fields),
                        forall|j: int|
                            0 <= j < i ==> (#[trigger] out@[j]).0@ == fields@[j].0@
                                && out@[j].1.model() == fields@[j].1.model(),
                    decreases fields@.len() - i,
                {
                    proof {
                        assert(decreases_to!(self => self->Object_0));
                        assert(decreases_to!(self->Object_0 => self->Object_0@));
                        assert(decreases_to!(self->Object_0@ => self->Object_0@[i as int]));
                        assert(decreases_to!(self->Object_0@[i as int] => self->Object_0@[i as int].1));
                    }
                    let name = fields[i].0.clone();
                    let value = fields[i].1.duplicate();
                    out.push((name, value));
                    i += 1;
                }
                let r = Json::Object(out);
                assert(r.model()->Object_0 =~= self.model()->Object_0);
                r
            },
        }
    }

    /// An object of two fields.
    pub fn pair(first: (String, Json), second: (String, Json)) -> (r: Json)
        ensures
            r.model() == JsonView::Object(
                seq![(first.0@, first.1.model()), (second.0@, second.1.model())],
            ),
    {
        let ghost fields = seq![(first.0@, first.1.model()), (second.0@, second.1.model())];
        let mut v: Vec<(String, Json)> = Vec::new();
        v.push(first);
        v.push(second);
        let r = Json::Object(v);
        assert(r.model()->Object_0 =~= fields);
        r
    }

    /// An object of three fields.
    pub fn triple(first: (String, Json), second: (String, Json), third: (String, Json)) -> (r: Json)
        ensures
            r.model() == JsonView::Object(
                seq![
                    (first.0@, first.1.model()),
                    (second.0@, second.1.model()),
                    (third.0@, third.1.model()),
                ],
            ),
    {
        let ghost fields = seq![
            (first.0@, first.1.model()),
            (second.0@, second.1.model()),
            (third.0@, third.1.model()),
        ];
        let mut v: Vec<(String, Json)> = Vec::new();
        v.push(first);
        v.push(second);
        v.push(third);
        let r = Json::Object(v);
        assert(r.model()->Object_0 =~= fields);
        r
    }

    /// An object without fields.
    pub fn empty_object() -> (r: Json)
        ensures
            r.model() == JsonView::Object(Seq::empty()),
    {
        let r = Json::Object(Vec::new());
        assert(r.model()->Object_0 =~= Seq::empty());
        r
    }
}

/// `serde_json::Value`, of which nothing is known.
#[verifier::external_type_specification]
#[verifier::external_body]
pub struct ExValue(serde_json::Value);

/// A value of `serde_json` laid open one level deep.
enum Opened<'a> {
    Null,
    Bool(bool),
    Number(JsonNumber),
    Text(&'a String),
    Array(&'a Vec<serde_json::Value>),
    Object(Vec<(&'a String, &'a serde_json::Value)>),
}

/// What `serde_json` reads from bytes: a document, or the text of its error.
pub uninterp spec fn json_reading(bytes: Seq<u8>) -> Result<JsonView, Seq<char>>;

/// What a `serde_json::Value` holds.
pub uninterp spec fn value_model(value: serde_json::Value) -> JsonView;

/// What the items of an array hold.
pub open spec fn value_models(items: Seq<serde_json::Value>) -> Seq<JsonView> {
    items.map_values(|v: serde_json::Value| value_model(v))
}

/// What the fields of an object hold.
pub open spec fn field_models(fields: Seq<(&String, &serde_json::Value)>) -> Seq<
    (Seq<char>, JsonView),
> {
    fields.map_values(|f: (&String, &serde_json::Value)| (f.0@, value_model(*f.1)))
}

/// `serde_json::from_slice`, asked for a `Value`. Claimed: what comes back, a
/// document or an error, is a function of the bytes.
#[verifier::external_body]
fn read_value(bytes: &[u8]) -> (r: Result<serde_json::Value, String>)
    ensures
        match r {
            Ok(value) => json_reading(bytes@) == Ok::<JsonView, Seq<char>>(value_model(value)),
            Err(e) => json_reading(bytes@) == Err::<JsonView, Seq<char>>(e@),
        },
{
    serde_json::from_slice(bytes).map_err(|e| e.to_string())
}

/// The variants of `serde_json::Value`, with a number by its three readings
/// (`Number::as_i64`, `as_u64`, `as_f64`) and the fields of an object in the order
/// of `Map::iter`. Claimed: what the value holds is its variant with what the
/// parts hold.
#[verifier::external_body]
fn open_value(value: &serde_json::Value) -> (r: Opened)
    ensures
        value_model(*value) == match r {
            Opened::Null => JsonView::Null,
            Opened::Bool(b) => JsonView::Bool(b),
            Opened::Number(n) => JsonView::Number(n),
            Opened::Text(s) => JsonView::Text(s@),
            Opened::Array(items) => JsonView::Array(value_models(items@)),
            Opened::Object(fields) => JsonView::Object(field_models(fields@)),
        },
{
    match value {
        serde_json::Value::Null => Opened::Null,
        serde_json::Value::Bool(b) => Opened::Bool(*b),
        serde_json::Value::Number(n) => Opened::Number(JsonNumber {
            signed: n.as_i64(),
            unsigned: n.as_u64(),
            double: n.as_f64().map(|x| Scalar { bits: x.to_bits() }),
        }),
        serde_json::Value::String(s) => Opened::Text(s),
        serde_json::Value::Array(items) => Opened::Array(items),
        serde_json::Value::Object(fields) => Opened::Object(fields.iter().collect()),
    }
}

/// Takes a value over, part by part.
fn take_over(value: &serde_json::Value) -> (r: Json)
    ensures
        r.model() == value_model(*value),
    decreases value_model(*value),
{
    let ghost whole = value_model(*value);
    match open_value(value) {
        Opened::Null => Json::Null,
        Opened::Bool(b) => Json::Bool(b),
        Opened::Number(n) => Json::Number(n),
        Opened::Text(s) => Json::Text(s.clone()),
        Opened::Array(items) => {
            let mut out: Vec<Json> = Vec::new();
            let mut i: usize = 0;
            while i < items.len()
                invariant
                    i <= items@.len(),
                    out@.len() == i,
                    whole == value_model(*value),
                    whole == JsonView::Array(value_models(items@)),
                    forall|j: int|
                        0 <= j < i ==> (#[trigger] out@[j]).model() == value_model(items@[j]),
                decreases items@.len() - i,
            {
                proof {
                    assert(decreases_to!(whole => whole->Array_0));
                    assert(decreases_to!(whole->Array_0 => whole->Array_0[i as int]));
                }
                out.push(take_over(&items[i]));
                i += 1;
            }
            let r = Json::Array(out);
            assert(r.model()->Array_0 =~= value_models(items@));
            r
        },
        Opened::Object(fields) => {
            let mut out: Vec<(String, Json)> = Vec::new();
            let mut i: usize = 0;
            while i < fields.len()
                invariant
                    i <= fields@.len(),
                    out@.len() == i,
                    whole == value_model(*value),
                    whole == JsonView::Object(field_models(fields@)),
                    forall|j: int|
                        0 <= j < i ==> (#[trigger] out@[j]).0@ == fields@[j].0@ && out@[j].1.model()
                            == value_model(*fields@[j].1),
                decreases fields@.len() - i,
            {
                proof {
                    assert(decreases_to!(whole => whole->Object_0));
                    assert(decreases_to!(whole->Object_0 => whole->Object_0[i as int]));
                    assert(decreases_to!(whole->Object_0[i as int] => whole->Object_0[i as int].1));
                }
                let name = fields[i].0.clone();
                let part = take_over(fields[i].1);
                out.push((name, part));
                i += 1;
            }
            let r = Json::Object(out);
            assert(r.model()->Object_0 =~= field_models(fields@));
            r
        },
    }
}

/// Reads a JSON document from bytes.
pub fn parse_json(bytes: Vec<u8>) -> (r: Result<Json, String>)
    ensures
        match r {
            Ok(doc) => json_reading(bytes@) == Ok::<JsonView, Seq<char>>(doc.model()),
            Err(e) => json_reading(bytes@) == Err::<JsonView, Seq<char>>(e@),
        },
{
    match read_value(bytes.as_slice()) {
        Ok(value) => Ok(take_over(&value)),
        Err(e) => Err(e),
    }
}

/// A field is the first entry of an object under its name; where none has it, or
/// the document is no object, there is none.
pub proof fn a_field_is_the_first_of_its_name(doc: JsonView, key: Seq<char>)
    ensures
        match (doc, doc.field(key)) {
            (JsonView::Object(fields), Some(v)) => exists|i: int|
                0 <= i < fields.len() && #[trigger] fields[i] == (key, v) && forall|j: int|
                    0 <= j < i ==> (#[trigger] fields[j]).0 != key,
            (JsonView::Object(fields), None) => forall|j: int|
                0 <= j < fields.len() ==> (#[trigger] fields[j]).0 != key,
            (_, Some(_)) => false,
            (_, None) => true,
        },
{
    if let JsonView::Object(fields) = doc {
        lemma_key_index(fields, key, 0);
        let i = JsonView::key_index(fields, key, 0);
        if i < fields.len() {
            assert(fields[i] == (key, doc.field(key)->0));
        }
    }
}

proof fn lemma_key_index(fields: Seq<(Seq<char>, JsonView)>, key: Seq<char>, from: int)
    requires
        0 <= from <= fields.len(),
    ensures
        from <= JsonView::key_index(fields, key, from) <= fields.len(),
        forall|j: int|
            from <= j < JsonView::key_index(fields, key, from) ==> (#[trigger] fields[j]).0 != key,
        JsonView::key_index(fields, key, from) < fields.len() ==> fields[JsonView::key_index(
            fields,
            key,
            from,
        )].0 == key,
    decreases fields.len() - from,
{
    if from < fields.len() && fields[from].0 != key {
        lemma_key_index(fields, key, from + 1);
    }
}

/// Each reading of a document is there for its kind alone, and says what the
/// document says.
pub proof fn readings_fit_their_kind(doc: JsonView, key: Seq<char>)
    ensures
        doc.string() is Some <==> doc is Text,
        doc.string() matches Some(s) ==> doc == JsonView::Text(s),
        doc.signed() matches Some(i) ==> doc is Number && doc->Number_0.signed == Some(i),
        doc.unsigned() matches Some(n) ==> doc is Number && doc->Number_0.unsigned == Some(n),
        doc.double() matches Some(x) ==> doc is Number && doc->Number_0.double == Some(x),
        doc matches JsonView::Number(n) ==> doc.signed() == n.signed && doc.unsigned()
            == n.unsigned && doc.double() == n.double,
        doc.string_at(key) matches Some(s) ==> doc.field(key) == Some(JsonView::Text(s)),
        doc.field(key) matches Some(JsonView::Text(s)) ==> doc.string_at(key) == Some(s),
        doc.signed_at(key) matches Some(i) ==> doc.field(key) matches Some(v) && v.signed() == Some(
            i,
        ),
        doc.field(key) matches Some(v) ==> doc.signed_at(key) == v.signed(),
        doc.has(key) <==> doc.field(key) is Some,
{
}

/// An integer reads back as itself, signed and, where it is not negative, unsigned.
pub proof fn integers_read_back(i: i64, n: u64)
    ensures
        JsonView::Number(JsonNumber::of(i)).signed() == Some(i),
        i >= 0 ==> JsonView::Number(JsonNumber::of(i)).unsigned() == Some(i as u64),
        i < 0 ==> JsonView::Number(JsonNumber::of(i)).unsigned() is None,
        JsonView::Number(JsonNumber::of_unsigned(n)).unsigned() == Some(n),
        n <= 0x7FFF_FFFF_FFFF_FFFF ==> JsonView::Number(JsonNumber::of_unsigned(n)).signed() == Some(
            n as i64,
        ),
        n > 0x7FFF_FFFF_FFFF_FFFF ==> JsonView::Number(JsonNumber::of_unsigned(n)).signed() is None,
{
}

} // verus!

//! JSON values.
//!
//! A `Json` is a tree that this crate can read and build. Parsing and writing
//! JSON text is left to `serde_json`, whose values are taken apart and put
//! together level by level.

use vstd::prelude::*;

verus! {

/// A JSON number of `serde_json`.
#[verifier::external_type_specification]
#[verifier::external_body]
pub struct ExNumber(serde_json::Number);

/// A JSON value of `serde_json`.
#[verifier::external_type_specification]
#[verifier::external_body]
pub struct ExValue(serde_json::Value);

/// A JSON value. Where an object names a field twice, the last one counts.
#[derive(Debug)]
pub enum Json {
    Null,
    Bool(bool),
    Number(serde_json::Number),
    Str(String),
    Array(Vec<Json>),
    Object(Vec<(String, Json)>),
}

/// What a JSON value says: numbers by their text, objects by their fields.
pub enum JsonView {
    Null,
    Bool(bool),
    Number(Seq<char>),
    Str(Seq<char>),
    Array(Seq<JsonView>),
    Object(Map<Seq<char>, JsonView>),
}

/// The text of a number.
pub uninterp spec fn number_text(n: serde_json::Number) -> Seq<char>;

/// What a JSON value of `serde_json` holds.
pub uninterp spec fn value_view(v: serde_json::Value) -> JsonView;

impl View for Json {
    type V = JsonView;

    open spec fn view(&self) -> JsonView
        decreases *self,
    {
        match *self {
            Json::Null => JsonView::Null,
            Json::Bool(b) => JsonView::Bool(b),
            Json::Number(n) => JsonView::Number(number_text(n)),
            Json::Str(s) => JsonView::Str(s@),
            Json::Array(items) => JsonView::Array(array_view(items@)),
            Json::Object(fields) => JsonView::Object(fields_view(fields@)),
        }
    }
}

/// What the items of an array say.
pub open spec fn array_view(items: Seq<Json>) -> Seq<JsonView>
    decreases items,
{
    Seq::new(
        items.len(),
        |i: int|
            if 0 <= i < items.len() {
                items[i].view()
            } else {
                JsonView::Null
            },
    )
}

/// What the fields of an object say.
pub open spec fn fields_view(fields: Seq<(String, Json)>) -> Map<Seq<char>, JsonView>
    decreases fields,
{
    if fields.len() == 0 {
        Map::empty()
    } else {
        fields_view(fields.drop_last()).insert(
            fields[fields.len() - 1].0@,
            fields[fields.len() - 1].1.view(),
        )
    }
}

/// One level of a JSON value of `serde_json`.
pub enum JsonParts {
    Null,
    Bool(bool),
    Number(serde_json::Number),
    Str(String),
    Array(Vec<serde_json::Value>),
    Object(Vec<(String, serde_json::Value)>),
}

/// What the items of an array of `serde_json` say.
pub open spec fn values_view(items: Seq<serde_json::Value>) -> Seq<JsonView> {
    Seq::new(items.len(), |i: int| value_view(items[i]))
}

/// What the fields of an object of `serde_json` say.
pub open spec fn value_fields_view(fields: Seq<(String, serde_json::Value)>) -> Map<
    Seq<char>,
    JsonView,
>
    decreases fields.len(),
{
    if fields.len() == 0 {
        Map::empty()
    } else {
        value_fields_view(fields.drop_last()).insert(fields.last().0@, value_view(fields.last().1))
    }
}

impl JsonParts {
    pub open spec fn says(self) -> JsonView {
        match self {
            JsonParts::Null => JsonView::Null,
            JsonParts::Bool(b) => JsonView::Bool(b),
            JsonParts::Number(n) => JsonView::Number(number_text(n)),
            JsonParts::Str(s) => JsonView::Str(s@),
            JsonParts::Array(items) => JsonView::Array(values_view(items@)),
            JsonParts::Object(fields) => JsonView::Object(value_fields_view(fields@)),
        }
    }
}

/// Takes a `serde_json::Value` apart by its variants. Claims that the parts say
/// what the value says; the fields of an object come out of its map, which
/// holds each name once.
#[verifier::external_body]
fn take_apart(v: serde_json::Value) -> (r: JsonParts)
    ensures
        r.says() == value_view(v),
        r matches JsonParts::Object(fields) ==> forall|i: int, j: int|
            0 <= i < j < fields@.len() ==> #[trigger] fields@[i].0@ != #[trigger] fields@[j].0@,
{
    match v {
        serde_json::Value::Null => JsonParts::Null,
        serde_json::Value::Bool(b) => JsonParts::Bool(b),
        serde_json::Value::Number(n) => JsonParts::Number(n),
        serde_json::Value::String(s) => JsonParts::Str(s),
        serde_json::Value::Array(items) => JsonParts::Array(items),
        serde_json::Value::Object(map) => JsonParts::Object(map.into_iter().collect()),
    }
}

/// Puts a `serde_json::Value` together from one variant. Claims that the value
/// says what the parts say; the fields of an object are collected into its
/// map, where the last of two fields with one name stays.
#[verifier::external_body]
fn put_together(parts: JsonParts) -> (r: serde_json::Value)
    ensures
        value_view(r) == parts.says(),
{
    match parts {
        JsonParts::Null => serde_json::Value::Null,
        JsonParts::Bool(b) => serde_json::Value::Bool(b),
        JsonParts::Number(n) => serde_json::Value::Number(n),
        JsonParts::Str(s) => serde_json::Value::String(s),
        JsonParts::Array(items) => serde_json::Value::Array(items),
        JsonParts::Object(fields) => serde_json::Value::Object(fields.into_iter().collect()),
    }
}

/// `serde_json::Number::from` of an unsigned integer: its text is the decimal.
#[verifier::external_body]
fn number_of(n: u64) -> (r: serde_json::Number)
    ensures
        number_text(r) == crate::text::decimal(n as nat),
{
    serde_json::Number::from(n)
}

/// `serde_json::Number::as_i64`: the integer that the number is, where it is
/// one and fits. An integer is shown in decimal; a number that is not held as
/// an integer is shown with a point or an exponent.
#[verifier::external_body]
fn number_as_i64(n: &serde_json::Number) -> (r: Option<i64>)
    ensures
        forall|i: i64|
            r == Some(i) <==> number_text(*n) == #[trigger] crate::text::signed_decimal(i as int),
{
    n.as_i64()
}

/// `serde_json::Number::clone`: a copy shows the same text.
#[verifier::external_body]
fn copy_number(n: &serde_json::Number) -> (r: serde_json::Number)
    ensures
        number_text(r) == number_text(*n),
{
    n.clone()
}

/// `serde_json::Number`, shown by its `Display`: the text of the number.
#[verifier::external_body]
fn show_number(n: &serde_json::Number) -> (r: String)
    ensures
        r@ == number_text(*n),
{
    n.to_string()
}

/// Whether a number is a positive integer that fits into 64 signed bits.
pub open spec fn is_positive(number: Seq<char>) -> bool {
    exists|i: i64| 0 < i && number == #[trigger] crate::text::signed_decimal(i as int)
}

/// The text of a number that is a positive integer and fits into 64 signed bits.
pub fn positive_text(n: &serde_json::Number) -> (r: Option<String>)
    ensures
        match r {
            Some(t) => t@ == number_text(*n) && is_positive(number_text(*n)),
            None => !is_positive(number_text(*n)),
        },
{
    let i: i64 = match number_as_i64(n) {
        Some(i) => i,
        None => return None,
    };
    assert(number_text(*n) == crate::text::signed_decimal(i as int));
    if i > 0 {
        Some(show_number(n))
    } else {
        None
    }
}

/// What `serde_json` reads in a text: a value, or the message of the error.
pub uninterp spec fn parsed(text: Seq<char>) -> Result<JsonView, Seq<char>>;

/// `serde_json::from_str` into a `serde_json::Value`. The outcome is a function
/// of the text; what it is, is left to `serde_json`.
#[verifier::external_body]
fn parse_value(text: &str) -> (r: Result<serde_json::Value, String>)
    ensures
        match r {
            Ok(v) => parsed(text@) == Ok::<JsonView, Seq<char>>(value_view(v)),
            Err(e) => parsed(text@) == Err::<JsonView, Seq<char>>(e@),
        },
{
    serde_json::from_str::<serde_json::Value>(text).map_err(|e| e.to_string())
}

/// The compact text that `serde_json` writes for a value.
pub uninterp spec fn written(v: JsonView) -> Seq<char>;

/// `serde_json::to_string` of a `serde_json::Value`, which never fails. The
/// text is a function of what the value says: an object is written in the
/// order of its names.
#[verifier::external_body]
fn write_value(v: &serde_json::Value) -> (r: String)
    ensures
        r@ == written(value_view(*v)),
{
    serde_json::to_string(v).unwrap_or_default()
}

/// The value with the two zeros `0.0` and `-0.0` made one.
pub open spec fn settled(v: JsonView) -> JsonView
    decreases v,
{
    match v {
        JsonView::Number(t) => JsonView::Number(
            if t == "-0.0"@ {
                "0.0"@
            } else {
                t
            },
        ),
        JsonView::Array(items) => JsonView::Array(
            Seq::new(
                items.len(),
                |i: int|
                    if 0 <= i < items.len() {
                        settled(items[i])
                    } else {
                        JsonView::Null
                    },
            ),
        ),
        JsonView::Object(m) => JsonView::Object(
            Map::new(
                |k: Seq<char>| m.dom().contains(k),
                |k: Seq<char>|
                    if m.dom().contains(k) {
                        settled(m[k])
                    } else {
                        JsonView::Null
                    },
            ),
        ),
        _ => v,
    }
}

/// `==` on `serde_json::Value`: whether the two say the same, the two float
/// zeros being equal.
#[verifier::external_body]
fn values_equal(a: &serde_json::Value, b: &serde_json::Value) -> (r: bool)
    ensures
        r == (settled(value_view(*a)) == settled(value_view(*b))),
{
    a == b
}

pub proof fn lemma_array_push(items: Seq<Json>, item: Json)
    ensures
        array_view(items.push(item)) == array_view(items).push(item@),
{
    assert(array_view(items.push(item)) =~= array_view(items).push(item@));
}

pub proof fn lemma_fields_push(fields: Seq<(String, Json)>, field: (String, Json))
    ensures
        fields_view(fields.push(field)) == fields_view(fields).insert(field.0@, field.1@),
{
    assert(fields.push(field).drop_last() =~= fields);
}

pub proof fn lemma_no_fields(fields: Seq<(String, Json)>)
    ensures
        fields_view(fields) == Map::<Seq<char>, JsonView>::empty() <==> fields.len() == 0,
{
    if fields.len() > 0 {
        let last = fields.last();
        lemma_fields_push(fields.drop_last(), last);
        assert(fields.drop_last().push(last) =~= fields);
        assert(fields_view(fields).dom().contains(last.0@));
    }
}

pub proof fn lemma_fields_concat(a: Seq<(String, Json)>, b: Seq<(String, Json)>)
    ensures
        fields_view(a + b) == fields_view(a).union_prefer_right(fields_view(b)),
    decreases b.len(),
{
    if b.len() == 0 {
        assert(a + b =~= a);
        assert(fields_view(a + b) =~= fields_view(a).union_prefer_right(fields_view(b)));
    } else {
        let init = b.drop_last();
        let last = b.last();
        lemma_fields_concat(a, init);
        lemma_fields_push(a + init, last);
        lemma_fields_push(init, last);
        assert(init.push(last) =~= b);
        assert((a + init).push(last) =~= a + b);
        assert(fields_view(a + b) =~= fields_view(a).union_prefer_right(fields_view(b)));
    }
}

pub proof fn lemma_field_named(fields: Seq<(String, Json)>, i: int)
    requires
        0 <= i < fields.len(),
    ensures
        fields_view(fields).dom().contains(fields[i].0@),
    decreases fields.len(),
{
    lemma_fields_push(fields.drop_last(), fields.last());
    assert(fields.drop_last().push(fields.last()) =~= fields);
    if i < fields.len() - 1 {
        assert(fields.drop_last()[i] == fields[i]);
        lemma_field_named(fields.drop_last(), i);
    }
}

/// Replacing the last field of a name gives the name its new value.
proof fn lemma_fields_replace(fields: Seq<(String, Json)>, i: int, value: Json)
    requires
        0 <= i < fields.len(),
        forall|j: int| i < j < fields.len() ==> (#[trigger] fields[j]).0@ != fields[i].0@,
    ensures
        fields_view(fields.update(i, (fields[i].0, value))) == fields_view(fields).insert(
            fields[i].0@,
            value@,
        ),
    decreases fields.len(),
{
    let after = fields.update(i, (fields[i].0, value));
    let init = fields.drop_last();
    let last = fields.last();
    lemma_fields_push(init, last);
    assert(init.push(last) =~= fields);
    lemma_fields_push(after.drop_last(), after.last());
    assert(after.drop_last().push(after.last()) =~= after);
    if i < fields.len() - 1 {
        assert forall|j: int| i < j < init.len() implies (#[trigger] init[j]).0@ != init[i].0@ by {
            assert(fields[j].0@ != fields[i].0@);
        }
        lemma_fields_replace(init, i, value);
        assert(after.drop_last() =~= init.update(i, (init[i].0, value)));
        assert(fields[fields.len() - 1].0@ != fields[i].0@);
        assert(fields_view(after) =~= fields_view(fields).insert(fields[i].0@, value@));
    } else {
        assert(after.drop_last() =~= init);
        assert(fields_view(after) =~= fields_view(fields).insert(fields[i].0@, value@));
    }
}

proof fn lemma_value_fields_push(
    fields: Seq<(String, serde_json::Value)>,
    field: (String, serde_json::Value),
)
    ensures
        value_fields_view(fields.push(field)) == value_fields_view(fields).insert(
            field.0@,
            value_view(field.1),
        ),
{
    assert(fields.push(field).drop_last() =~= fields);
}

proof fn lemma_value_fields_finite(fields: Seq<(String, serde_json::Value)>)
    ensures
        value_fields_view(fields).dom().finite(),
    decreases fields.len(),
{
    if fields.len() > 0 {
        lemma_value_fields_finite(fields.drop_last());
    }
}

proof fn lemma_value_field(fields: Seq<(String, serde_json::Value)>, i: int)
    requires
        0 <= i < fields.len(),
        forall|i: int, j: int|
            0 <= i < j < fields.len() ==> #[trigger] fields[i].0@ != #[trigger] fields[j].0@,
    ensures
        value_fields_view(fields).dom().contains(fields[i].0@),
        value_fields_view(fields)[fields[i].0@] == value_view(fields[i].1),
    decreases fields.len(),
{
    if i < fields.len() - 1 {
        assert(fields.drop_last()[i] == fields[i]);
        lemma_value_field(fields.drop_last(), i);
    }
}

impl Json {
    /// The value that a `serde_json::Value` says.
    pub fn from_value(v: serde_json::Value) -> (r: Json)
        ensures
            r@ == value_view(v),
        decreases value_view(v),
    {
        let ghost whole = value_view(v);
        match take_apart(v) {
            JsonParts::Null => Json::Null,
            JsonParts::Bool(b) => Json::Bool(b),
            JsonParts::Number(n) => Json::Number(n),
            JsonParts::Str(s) => Json::Str(s),
            JsonParts::Array(items) => {
                let ghost all = items@;
                let mut out: Vec<Json> = Vec::new();
                for item in it: items
                    invariant
                        it.seq() == all,
                        whole == JsonView::Array(values_view(all)),
                        whole == value_view(v),
                        array_view(out@) =~= values_view(all.take(it.index() as int)),
                {
                    let ghost k = it.index() as int;
                    assert(values_view(all)[k] == value_view(item));
                    assert(decreases_to!(whole => whole->Array_0));
                    assert(decreases_to!(values_view(all) => values_view(all)[k]));
                    let ghost before = out@;
                    out.push(Json::from_value(item));
                    proof {
                        lemma_array_push(before, out@.last());
                        assert(out@ =~= before.push(out@.last()));
                        assert(values_view(all.take(k + 1)) =~= values_view(all.take(k)).push(
                            value_view(item),
                        ));
                    }
                }
                assert(all.take(all.len() as int) =~= all);
                Json::Array(out)
            },
            JsonParts::Object(fields) => {
                let ghost all = fields@;
                let mut out: Vec<(String, Json)> = Vec::new();
                for field in it: fields
                    invariant
                        it.seq() == all,
                        whole == JsonView::Object(value_fields_view(all)),
                        whole == value_view(v),
                        fields_view(out@) == value_fields_view(all.take(it.index() as int)),
                        forall|i: int, j: int|
                            0 <= i < j < all.len() ==> #[trigger] all[i].0@ != #[trigger] all[j].0@,
                {
                    let ghost k = it.index() as int;
                    let (name, value) = field;
                    proof {
                        lemma_value_field(all, k);
                        lemma_value_fields_finite(all);
                    }
                    assert(decreases_to!(whole => whole->Object_0));
                    assert(decreases_to!(value_fields_view(all) => value_fields_view(all)[name@]));
                    let ghost before = out@;
                    out.push((name, Json::from_value(value)));
                    proof {
                        lemma_fields_push(before, out@.last());
                        assert(out@ =~= before.push(out@.last()));
                        lemma_value_fields_push(all.take(k), (name, value));
                        assert(all.take(k + 1) =~= all.take(k).push((name, value)));
                    }
                }
                assert(all.take(all.len() as int) =~= all);
                Json::Object(out)
            },
        }
    }
}

/// The field of an object with this name.
pub open spec fn field(v: JsonView, name: Seq<char>) -> Option<JsonView> {
    match v {
        JsonView::Object(m) => if m.dom().contains(name) {
            Some(m[name])
        } else {
            None
        },
        _ => None,
    }
}

/// The text of a string value.
pub open spec fn string(v: JsonView) -> Option<Seq<char>> {
    match v {
        JsonView::Str(s) => Some(s),
        _ => None,
    }
}

/// The text of the field of this name, where it is a string.
pub open spec fn string_field(v: JsonView, name: Seq<char>) -> Option<Seq<char>> {
    match field(v, name) {
        Some(f) => string(f),
        None => None,
    }
}

/// The field of this name.
pub fn find<'a>(fields: &'a Vec<(String, Json)>, name: &str) -> (r: Option<&'a Json>)
    ensures
        match r {
            Some(f) => {
                &&& fields_view(fields@).dom().contains(name@)
                &&& fields_view(fields@)[name@] == f@
            },
            None => !fields_view(fields@).dom().contains(name@),
        },
{
    let mut i: usize = fields.len();
    assert(fields@.take(fields@.len() as int) =~= fields@);
    while i > 0
        invariant
            i <= fields@.len(),
            fields_view(fields@).dom().contains(name@) == fields_view(
                fields@.take(i as int),
            ).dom().contains(name@),
            fields_view(fields@)[name@] == fields_view(fields@.take(i as int))[name@],
        decreases i,
    {
        i = i - 1;
        proof {
            assert(fields@.take(i + 1) =~= fields@.take(i as int).push(fields@[i as int]));
            assert(fields@.take(i + 1).drop_last() =~= fields@.take(i as int));
            lemma_fields_push(fields@.take(i as int), fields@[i as int]);
        }
        if crate::text::same(fields[i].0.as_str(), name) {
            return Some(&fields[i].1);
        }
    }
    assert(fields@.take(0) =~= Seq::empty());
    None
}

/// Gives an object one more field. A field of the same name counts no longer.
pub fn put(fields: &mut Vec<(String, Json)>, name: &str, value: Json)
    ensures
        fields_view(final(fields)@) == fields_view(old(fields)@).insert(name@, value@),
{
    let ghost before = fields@;
    fields.push((name.to_owned(), value));
    proof {
        lemma_fields_push(before, fields@.last());
        assert(fields@ =~= before.push(fields@.last()));
    }
}

/// Gives a field of an object a new value, in its place where there is one.
pub fn set_field(fields: &mut Vec<(String, Json)>, name: &str, value: Json)
    ensures
        fields_view(final(fields)@) == fields_view(old(fields)@).insert(name@, value@),
{
    let ghost before = fields@;
    let mut i: usize = fields.len();
    while i > 0
        invariant
            i <= fields@.len(),
            fields@ == before,
            before == old(fields)@,
            forall|j: int| i <= j < fields@.len() ==> (#[trigger] fields@[j]).0@ != name@,
        decreases i,
    {
        i = i - 1;
        if crate::text::same(fields[i].0.as_str(), name) {
            proof {
                lemma_fields_replace(before, i as int, value);
            }
            fields[i].1 = value;
            assert(fields@ =~= before.update(i as int, (before[i as int].0, value)));
            return;
        }
    }
    put(fields, name, value);
}

/// An object with a field set; anything else as it is.
pub open spec fn with(v: JsonView, name: Seq<char>, value: JsonView) -> JsonView {
    match v {
        JsonView::Object(m) => JsonView::Object(m.insert(name, value)),
        _ => v,
    }
}

impl Json {
    /// The `serde_json::Value` that says the same.
    pub fn to_value(&self) -> (r: serde_json::Value)
        ensures
            value_view(r) == self@,
        decreases *self,
    {
        match self {
            Json::Null => put_together(JsonParts::Null),
            Json::Bool(b) => put_together(JsonParts::Bool(*b)),
            Json::Number(n) => put_together(JsonParts::Number(copy_number(n))),
            Json::Str(s) => put_together(JsonParts::Str(s.clone())),
            Json::Array(items) => {
                let mut out: Vec<serde_json::Value> = Vec::new();
                for i in 0..items.len()
                    invariant
                        decreases_to!(*self => items@),
                        values_view(out@) =~= array_view(items@.take(i as int)),
                {
                    assert(decreases_to!(items@ => items@[i as int]));
                    let ghost before = out@;
                    out.push(items[i].to_value());
                    proof {
                        lemma_array_push(items@.take(i as int), items@[i as int]);
                        assert(items@.take(i + 1) =~= items@.take(i as int).push(items@[i as int]));
                        assert(values_view(out@) =~= values_view(before).push(value_view(out@.last())));
                    }
                }
                assert(items@.take(items@.len() as int) =~= items@);
                put_together(JsonParts::Array(out))
            },
            Json::Object(fields) => {
                let mut out: Vec<(String, serde_json::Value)> = Vec::new();
                for i in 0..fields.len()
                    invariant
                        decreases_to!(*self => fields@),
                        value_fields_view(out@) == fields_view(fields@.take(i as int)),
                {
                    let ghost f = fields@[i as int];
                    assert(decreases_to!(fields@ => fields@[i as int]));
                    assert(decreases_to!(f => f.1));
                    let ghost before = out@;
                    out.push((fields[i].0.clone(), fields[i].1.to_value()));
                    proof {
                        lemma_fields_push(fields@.take(i as int), f);
                        assert(fields@.take(i + 1) =~= fields@.take(i as int).push(f));
                        lemma_value_fields_push(before, out@.last());
                        assert(out@ =~= before.push(out@.last()));
                    }
                }
                assert(fields@.take(fields@.len() as int) =~= fields@);
                put_together(JsonParts::Object(out))
            },
        }
    }

    /// A copy, which says the same.
    pub fn copy(&self) -> (r: Json)
        ensures
            r@ == self@,
        decreases *self,
    {
        match self {
            Json::Null => Json::Null,
            Json::Bool(b) => Json::Bool(*b),
            Json::Number(n) => Json::Number(copy_number(n)),
            Json::Str(s) => Json::Str(s.clone()),
            Json::Array(items) => {
                let mut out: Vec<Json> = Vec::new();
                for i in 0..items.len()
                    invariant
                        decreases_to!(*self => items@),
                        array_view(out@) =~= array_view(items@.take(i as int)),
                {
                    assert(decreases_to!(items@ => items@[i as int]));
                    let ghost before = out@;
                    out.push(items[i].copy());
                    proof {
                        lemma_array_push(items@.take(i as int), items@[i as int]);
                        assert(items@.take(i + 1) =~= items@.take(i as int).push(items@[i as int]));
                        lemma_array_push(before, out@.last());
                        assert(out@ =~= before.push(out@.last()));
                    }
                }
                assert(items@.take(items@.len() as int) =~= items@);
                Json::Array(out)
            },
            Json::Object(fields) => {
                let mut out: Vec<(String, Json)> = Vec::new();
                for i in 0..fields.len()
                    invariant
                        decreases_to!(*self => fields@),
                        fields_view(out@) == fields_view(fields@.take(i as int)),
                {
                    let ghost f = fields@[i as int];
                    assert(decreases_to!(fields@ => fields@[i as int]));
                    assert(decreases_to!(f => f.1));
                    let ghost before = out@;
                    out.push((fields[i].0.clone(), fields[i].1.copy()));
                    proof {
                        lemma_fields_push(fields@.take(i as int), f);
                        assert(fields@.take(i + 1) =~= fields@.take(i as int).push(f));
                        lemma_fields_push(before, out@.last());
                        assert(out@ =~= before.push(out@.last()));
                    }
                }
                assert(fields@.take(fields@.len() as int) =~= fields@);
                Json::Object(out)
            },
        }
    }

    /// Reads a JSON text.
    pub fn parse(text: &str) -> (r: Result<Json, String>)
        ensures
            match r {
                Ok(v) => parsed(text@) == Ok::<JsonView, Seq<char>>(v@),
                Err(e) => parsed(text@) == Err::<JsonView, Seq<char>>(e@),
            },
    {
        match parse_value(text) {
            Ok(v) => Ok(Json::from_value(v)),
            Err(e) => Err(e),
        }
    }

    /// The compact JSON text of the value.
    pub fn to_text(&self) -> (r: String)
        ensures
            r@ == written(self@),
    {
        write_value(&self.to_value())
    }

    /// Whether two values say the same, the two float zeros being equal.
    pub fn equals(&self, other: &Json) -> (r: bool)
        ensures
            r == (settled(self@) == settled(other@)),
    {
        values_equal(&self.to_value(), &other.to_value())
    }

    pub fn uint(n: u64) -> (r: Json)
        ensures
            r@ == JsonView::Number(crate::text::decimal(n as nat)),
    {
        Json::Number(number_of(n))
    }

    pub fn string(s: &str) -> (r: Json)
        ensures
            r@ == JsonView::Str(s@),
    {
        Json::Str(s.to_owned())
    }

    /// The field of this name, where the value is an object that has one.
    pub fn get(&self, name: &str) -> (r: Option<&Json>)
        ensures
            match r {
                Some(f) => field(self@, name@) == Some(f@),
                None => field(self@, name@) is None,
            },
    {
        match self {
            Json::Object(fields) => find(fields, name),
            _ => None,
        }
    }

    /// The text, where the value is a string.
    pub fn as_str(&self) -> (r: Option<&String>)
        ensures
            match r {
                Some(s) => string(self@) == Some(s@),
                None => string(self@) is None,
            },
    {
        match self {
            Json::Str(s) => Some(s),
            _ => None,
        }
    }

    /// The text of the field of this name, where it is a string.
    pub fn get_str(&self, name: &str) -> (r: Option<&String>)
        ensures
            match r {
                Some(s) => string_field(self@, name@) == Some(s@),
                None => string_field(self@, name@) is None,
            },
    {
        match self.get(name) {
            Some(f) => f.as_str(),
            None => None,
        }
    }

    /// Sets a field, where the value is an object.
    pub fn set(&mut self, name: &str, value: Json)
        ensures
            final(self)@ == with(old(self)@, name@, value@),
    {
        match self {
            Json::Object(fields) => set_field(fields, name, value),
            _ => {},
        }
    }
}

/// What a field was given last is what is read of it; the other fields stay.
pub proof fn law_field_is_read_as_it_was_set(
    before: JsonView,
    name: Seq<char>,
    value: JsonView,
    asked: Seq<char>,
)
    ensures
        before is Object && asked == name ==> field(with(before, name, value), asked) == Some(
            value,
        ),
        asked != name ==> field(with(before, name, value), asked) == field(before, asked),
        !(before is Object) ==> with(before, name, value) == before,
{
}

/// The fields of an object are read by their names; of two of the same name the last counts.
pub proof fn law_last_field_counts(
    fields: &Vec<(String, Json)>,
    at: int,
    name: &str,
    r: Option<&Json>,
)
    requires
        call_ensures(find, (fields, name), r),
        -1 <= at < fields@.len(),
        forall|j: int| at < j < fields@.len() ==> (#[trigger] fields@[j]).0@ != name@,
        at >= 0 ==> fields@[at].0@ == name@,
    ensures
        r is Some <==> at >= 0,
        r matches Some(f) ==> f@ == fields@[at].1@,
{
    lemma_last_named(fields@, at, name@);
}

proof fn lemma_last_named(fields: Seq<(String, Json)>, at: int, name: Seq<char>)
    requires
        -1 <= at < fields.len(),
        forall|j: int| at < j < fields.len() ==> (#[trigger] fields[j]).0@ != name,
        at >= 0 ==> fields[at].0@ == name,
    ensures
        fields_view(fields).dom().contains(name) <==> at >= 0,
        at >= 0 ==> fields_view(fields)[name] == fields[at].1@,
    decreases fields.len(),
{
    if fields.len() > 0 {
        let init = fields.drop_last();
        lemma_fields_push(init, fields.last());
        assert(init.push(fields.last()) =~= fields);
        if at < fields.len() - 1 {
            assert(fields[fields.len() - 1].0@ != name);
            assert forall|j: int| at < j < init.len() implies (#[trigger] init[j]).0@ != name by {
                assert(init[j] == fields[j]);
            }
            lemma_last_named(init, at, name);
        }
    }
}

/// A value is read for what it is: a field of an object by its name, the text of a string, and
/// nothing of anything else. A copy says the same.
pub proof fn law_value_is_read_for_what_it_is(
    v: &Json,
    name: &str,
    got: Option<&Json>,
    said: Option<&String>,
    text: Option<&String>,
    copied: Json,
)
    requires
        call_ensures(Json::get, (v, name), got),
        call_ensures(Json::as_str, (v,), said),
        call_ensures(Json::get_str, (v, name), text),
        call_ensures(Json::copy, (v,), copied),
    ensures
        !(v@ is Object) ==> got is None && text is None,
        v@ matches JsonView::Object(m) ==> {
            &&& got is Some <==> m.dom().contains(name@)
            &&& got matches Some(f) ==> f@ == m[name@]
            &&& text is Some <==> m.dom().contains(name@) && m[name@] is Str
            &&& text matches Some(s) ==> m[name@] == JsonView::Str(s@)
        },
        said is Some <==> v@ is Str,
        said matches Some(s) ==> v@ == JsonView::Str(s@),
        copied@ == v@,
{
}

/// A number and a text are what they were made of.
pub proof fn law_values_are_what_they_were_made_of(n: u64, s: &str, number: Json, said: Json)
    requires
        call_ensures(Json::uint, (n,), number),
        call_ensures(Json::string, (s,), said),
    ensures
        number@ matches JsonView::Number(t) && crate::text::read_decimal(t) == n,
        said@ == JsonView::Str(s@),
{
    crate::text::law_decimal_is_read_back(n as nat);
}

/// A field that is put or set is read as it was given, and the other fields stay; what is no
/// object stays as it is.
pub proof fn law_fields_are_put_and_set(
    fields: &mut Vec<(String, Json)>,
    others: &mut Vec<(String, Json)>,
    whole: &mut Json,
    name: &str,
    value: Json,
    asked: Seq<char>,
)
    requires
        call_ensures(put, (fields, name, value), ()),
        call_ensures(set_field, (others, name, value), ()),
        call_ensures(Json::set, (whole, name, value), ()),
    ensures
        fields_view(final(fields)@).dom().contains(name@),
        fields_view(final(fields)@)[name@] == value@,
        fields_view(final(others)@).dom().contains(name@),
        fields_view(final(others)@)[name@] == value@,
        asked != name@ ==> {
            &&& fields_view(final(fields)@).dom().contains(asked) <==> fields_view(
                old(fields)@,
            ).dom().contains(asked)
            &&& fields_view(final(fields)@)[asked] == fields_view(old(fields)@)[asked]
            &&& fields_view(final(others)@).dom().contains(asked) <==> fields_view(
                old(others)@,
            ).dom().contains(asked)
            &&& fields_view(final(others)@)[asked] == fields_view(old(others)@)[asked]
            &&& field(final(whole)@, asked) == field(old(whole)@, asked)
        },
        old(whole)@ is Object ==> field(final(whole)@, name@) == Some(value@),
        !(old(whole)@ is Object) ==> final(whole)@ == old(whole)@,
{
}

/// What is written of a value that says the same is the same text, and a text is read the same
/// whoever reads it.
pub proof fn law_writing_and_reading_depend_on_what_is_said(
    a: &Json,
    b: &Json,
    x: String,
    y: String,
    same: bool,
    s: &str,
    t: &str,
    read: Result<Json, String>,
    again: Result<Json, String>,
)
    requires
        call_ensures(Json::to_text, (a,), x),
        call_ensures(Json::to_text, (b,), y),
        call_ensures(Json::equals, (a, b), same),
        s@ == x@,
        t@ == y@,
        call_ensures(Json::parse, (s,), read),
        call_ensures(Json::parse, (t,), again),
    ensures
        a@ == b@ ==> x@ == y@ && same,
        a@ == b@ ==> (read is Ok <==> again is Ok),
        a@ == b@ && read is Ok && again is Ok ==> (read->Ok_0)@ == (again->Ok_0)@,
{
}

} // verus!

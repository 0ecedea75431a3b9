//! The values that trains carry, and their representation in a message.

use vstd::prelude::*;

verus! {

/// The bit pattern of a floating-point number, in the precision it was made
/// in: `Single` as a message carries it (IEEE-754 binary32), `Double` as a
/// program hands it over (IEEE-754 binary64). The library does no
/// floating-point arithmetic; narrowing to single precision happens when a
/// message is written.
#[derive(Debug, Clone, Copy, PartialEq, Eq, Structural)]
pub enum FloatBits {
    Single(u32),
    Double(u64),
}

/// A value carried by a train.
#[derive(Debug, Clone)]
pub enum Value {
    Text(String),
    Number(i64),
    Float(FloatBits),
    Bool(bool),
    Null,
}

/// A value as a message holds it: the kind of the value union together with
/// the kind's table when the message has one. `Float` holds the number's bit
/// pattern: a float read from a message is `Single`; a `Double` is narrowed to
/// single precision when a message is written as bytes. `Other` stands for every other kind of the union
/// (no value, lists, documents, times and kinds unknown to the library), with
/// its tag.
#[derive(Debug, Clone)]
pub enum WireValue {
    Null,
    Text(Option<String>),
    Bool(Option<bool>),
    Integer(Option<i64>),
    Float(Option<FloatBits>),
    Other(u8),
}

/// Mathematical model of a [`Value`].
pub enum ValueModel {
    Text(Seq<char>),
    Number(i64),
    Float(FloatBits),
    Bool(bool),
    Null,
}

/// Mathematical model of a [`WireValue`].
pub enum WireValueModel {
    Null,
    Text(Option<Seq<char>>),
    Bool(Option<bool>),
    Integer(Option<i64>),
    Float(Option<FloatBits>),
    Other(u8),
}

impl View for Value {
    type V = ValueModel;

    open spec fn view(&self) -> ValueModel {
        match self {
            Value::Text(t) => ValueModel::Text(t@),
            Value::Number(n) => ValueModel::Number(*n),
            Value::Float(f) => ValueModel::Float(*f),
            Value::Bool(b) => ValueModel::Bool(*b),
            Value::Null => ValueModel::Null,
        }
    }
}

impl View for WireValue {
    type V = WireValueModel;

    open spec fn view(&self) -> WireValueModel {
        match self {
            WireValue::Null => WireValueModel::Null,
            WireValue::Text(t) => WireValueModel::Text(
                match t {
                    Some(s) => Some(s@),
                    None => None,
                },
            ),
            WireValue::Bool(b) => WireValueModel::Bool(*b),
            WireValue::Integer(i) => WireValueModel::Integer(*i),
            WireValue::Float(f) => WireValueModel::Float(*f),
            WireValue::Other(tag) => WireValueModel::Other(*tag),
        }
    }
}

/// Whether a value of a message can be read as a [`Value`]: its kind is one of
/// the five the library knows, and the kind's table is there where the kind has
/// a payload.
pub open spec fn readable(w: WireValueModel) -> bool {
    match w {
        WireValueModel::Null => true,
        WireValueModel::Text(t) => t is Some,
        WireValueModel::Bool(b) => b is Some,
        WireValueModel::Integer(i) => i is Some,
        WireValueModel::Float(f) => f is Some,
        WireValueModel::Other(_) => false,
    }
}

/// The value that a readable message value stands for.
pub open spec fn value_of_wire(w: WireValueModel) -> ValueModel
    recommends
        readable(w),
{
    match w {
        WireValueModel::Null => ValueModel::Null,
        WireValueModel::Text(t) => ValueModel::Text(t.unwrap()),
        WireValueModel::Bool(b) => ValueModel::Bool(b.unwrap()),
        WireValueModel::Integer(i) => ValueModel::Number(i.unwrap()),
        WireValueModel::Float(f) => ValueModel::Float(f.unwrap()),
        WireValueModel::Other(_) => ValueModel::Null,
    }
}

/// How a value is placed in the message model (a `Double` float is narrowed
/// to single precision only later, when the message is written as bytes).
pub open spec fn wire_of_value(v: ValueModel) -> WireValueModel {
    match v {
        ValueModel::Text(t) => WireValueModel::Text(Some(t)),
        ValueModel::Number(n) => WireValueModel::Integer(Some(n)),
        ValueModel::Float(f) => WireValueModel::Float(Some(f)),
        ValueModel::Bool(b) => WireValueModel::Bool(Some(b)),
        ValueModel::Null => WireValueModel::Null,
    }
}

impl WireValue {
    /// Whether the value can be read as a [`Value`].
    pub fn is_readable(&self) -> (r: bool)
        ensures
            r == readable(self@),
    {
        match self {
            WireValue::Null => true,
            WireValue::Text(t) => t.is_some(),
            WireValue::Bool(b) => b.is_some(),
            WireValue::Integer(i) => i.is_some(),
            WireValue::Float(f) => f.is_some(),
            WireValue::Other(_) => false,
        }
    }
}

impl Value {
    /// Writes the value in the form a message holds it: a text as a `Text`
    /// table, a number as an `Integer`, a float as a `Float`, a boolean as a
    /// `Bool` and null as `Null`.
    pub fn flatternize(&self) -> (r: WireValue)
        ensures
            r@ == wire_of_value(self@),
    {
        match self {
            Value::Text(t) => WireValue::Text(Some(t.clone())),
            Value::Number(n) => WireValue::Integer(Some(*n)),
            Value::Float(f) => WireValue::Float(Some(*f)),
            Value::Bool(b) => WireValue::Bool(Some(*b)),
            Value::Null => WireValue::Null,
        }
    }

    /// Reads a value of a message: `Integer` gives a number, `Float` a float,
    /// `Bool` a boolean, `Text` a text and `Null` null.
    pub fn from_wire(w: WireValue) -> (r: Value)
        requires
            readable(w@),
        ensures
            r@ == value_of_wire(w@),
    {
        match w {
            WireValue::Integer(i) => Value::Number(i.unwrap()),
            WireValue::Float(f) => Value::Float(f.unwrap()),
            WireValue::Bool(b) => Value::Bool(b.unwrap()),
            WireValue::Text(t) => Value::Text(t.unwrap()),
            WireValue::Null => Value::Null,
            WireValue::Other(_) => Value::Null,
        }
    }
}

/// In the message model, every value placed in a message can be read back,
/// and reading it gives the value that was placed. Through bytes, a `Double`
/// float comes back as the `Single` it was narrowed to.
pub proof fn lemma_value_wire_round_trip(v: ValueModel)
    ensures
        readable(wire_of_value(v)),
        value_of_wire(wire_of_value(v)) == v,
{
}

/// Reading a message value keeps what it carries: a text gives a text with the
/// same characters, an integer the same number, a float the same bit pattern in
/// the same precision, a boolean the same boolean, and null gives null.
pub proof fn lemma_reading_keeps_the_carried_value(w: WireValueModel)
    requires
        readable(w),
    ensures
        w matches WireValueModel::Text(Some(t)) ==> value_of_wire(w) == ValueModel::Text(t),
        w matches WireValueModel::Integer(Some(n)) ==> value_of_wire(w) == ValueModel::Number(n),
        w matches WireValueModel::Float(Some(f)) ==> value_of_wire(w) == ValueModel::Float(f),
        w matches WireValueModel::Bool(Some(b)) ==> value_of_wire(w) == ValueModel::Bool(b),
        w matches WireValueModel::Null ==> value_of_wire(w) == ValueModel::Null,
{
}

/// Placing a value in a message keeps it: a text is written as a `Text` table
/// with the same characters, a number as an `Integer` with the same number, a
/// float as a `Float` with the same bit pattern in the same precision, a
/// boolean as a `Bool` with the same boolean, and null as `Null`.
pub proof fn lemma_writing_keeps_the_value(v: ValueModel)
    ensures
        v matches ValueModel::Text(t) ==> wire_of_value(v) == WireValueModel::Text(Some(t)),
        v matches ValueModel::Number(n) ==> wire_of_value(v) == WireValueModel::Integer(Some(n)),
        v matches ValueModel::Float(f) ==> wire_of_value(v) == WireValueModel::Float(Some(f)),
        v matches ValueModel::Bool(b) ==> wire_of_value(v) == WireValueModel::Bool(Some(b)),
        v matches ValueModel::Null ==> wire_of_value(v) == WireValueModel::Null,
{
}

/// Reading a message value and writing it again gives the message value back.
pub proof fn lemma_wire_value_round_trip(w: WireValueModel)
    requires
        readable(w),
    ensures
        wire_of_value(value_of_wire(w)) == w,
{
}

impl Value {
    /// A text value with the characters of `value`.
    pub fn from_text(value: &str) -> (r: Value)
        ensures
            r@ == ValueModel::Text(value@),
    {
        Value::Text(String::from_str(value))
    }
}

impl From<i64> for Value {
    fn from(value: i64) -> Value {
        Value::Number(value)
    }
}

impl vstd::std_specs::convert::FromSpecImpl<i64> for Value {
    open spec fn obeys_from_spec() -> bool {
        true
    }

    open spec fn from_spec(value: i64) -> Value {
        Value::Number(value)
    }
}

impl From<bool> for Value {
    fn from(value: bool) -> Value {
        Value::Bool(value)
    }
}

impl vstd::std_specs::convert::FromSpecImpl<bool> for Value {
    open spec fn obeys_from_spec() -> bool {
        true
    }

    open spec fn from_spec(value: bool) -> Value {
        Value::Bool(value)
    }
}

impl From<String> for Value {
    fn from(value: String) -> Value {
        Value::Text(value)
    }
}

impl vstd::std_specs::convert::FromSpecImpl<String> for Value {
    open spec fn obeys_from_spec() -> bool {
        true
    }

    open spec fn from_spec(value: String) -> Value {
        Value::Text(value)
    }
}

/// A text value with the characters of a string slice.
impl<'a> From<&'a str> for Value {
    fn from(value: &'a str) -> (r: Value)
        ensures
            r@ == ValueModel::Text(value@),
    {
        Value::from_text(value)
    }
}

/// The conversion from a string slice is stated by the `ensures` of its
/// `from`, over the characters of the text; `from_spec` would fix the `String`
/// itself beyond its characters, and is not claimed.
impl<'a> vstd::std_specs::convert::FromSpecImpl<&'a str> for Value {
    open spec fn obeys_from_spec() -> bool {
        false
    }

    open spec fn from_spec(value: &'a str) -> Value {
        Value::Text(choose|s: String| s@ == value@)
    }
}

} // verus!

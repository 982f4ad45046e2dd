//! Typed literal values and their SQL text; JSON literals built from them.
use vstd::prelude::*;
use crate::number::{Decimal, decimal_text, int_text, int_to_text};
use crate::text::{join, join_exec, str_eq};

verus! {

/// A literal value that the composer writes into a statement.
#[derive(Clone, Debug)]
pub enum ValueType {
    String(String),
    Datetime(String),
    Null,
    Boolean(bool),
    Int32(i32),
    Int16(i16),
    Int8(i8),
    Int64(i64),
    Int128(i128),
    Uint8(u8),
    Uint16(u16),
    Uint32(u32),
    Uint64(u64),
    Usize(usize),
    Float32(Decimal),
    Float64(Decimal),
    EpochTime(i64),
    JsonString(String),
}

/// The SQL time functions that a datetime value may name, written unquoted.
pub open spec fn is_time_keyword(s: Seq<char>) -> bool {
    s == "CURRENT_TIMESTAMP"@ || s == "UNIX_TIMESTAMP"@ || s == "CURRENT_DATE"@ || s
        == "CURRENT_TIME"@ || s == "NOW()"@ || s == "CURDATE()"@ || s == "CURTIME()"@
}

pub open spec fn single_quoted(s: Seq<char>) -> Seq<char> {
    seq!['\''] + s + seq!['\'']
}

pub open spec fn double_quoted(s: Seq<char>) -> Seq<char> {
    seq!['"'] + s + seq!['"']
}

/// The integer that a numeric variant holds.
pub open spec fn integer_of(v: ValueType) -> Option<int> {
    match v {
        ValueType::Int8(x) => Some(x as int),
        ValueType::Int16(x) => Some(x as int),
        ValueType::Int32(x) => Some(x as int),
        ValueType::Int64(x) => Some(x as int),
        ValueType::Int128(x) => Some(x as int),
        ValueType::Uint8(x) => Some(x as int),
        ValueType::Uint16(x) => Some(x as int),
        ValueType::Uint32(x) => Some(x as int),
        ValueType::Uint64(x) => Some(x as int),
        ValueType::Usize(x) => Some(x as int),
        _ => None,
    }
}

/// The SQL literal of a value.
pub open spec fn value_text(v: ValueType) -> Seq<char> {
    match v {
        ValueType::String(s) => single_quoted(s@),
        ValueType::JsonString(s) => double_quoted(s@),
        ValueType::Datetime(s) => if is_time_keyword(s@) {
            s@
        } else {
            single_quoted(s@)
        },
        ValueType::Null => "NULL"@,
        ValueType::Boolean(b) => if b {
            "true"@
        } else {
            "false"@
        },
        ValueType::Float32(d) => decimal_text(d),
        ValueType::Float64(d) => decimal_text(d),
        ValueType::EpochTime(n) => "FROM_UNIXTIME("@ + int_text(n as int) + ")"@,
        _ => int_text(integer_of(v).unwrap()),
    }
}

/// The text that a value takes inside a JSON function call: a string, a
/// JSON string or a datetime in single quotes (a JSON string keeping its
/// double quotes inside them), any other value as its literal.
pub open spec fn json_argument_text(v: ValueType) -> Seq<char> {
    match v {
        ValueType::JsonString(s) => single_quoted(double_quoted(s@)),
        ValueType::String(s) => single_quoted(s@),
        ValueType::Datetime(s) => single_quoted(s@),
        _ => value_text(v),
    }
}

fn is_time_keyword_exec(s: &str) -> (r: bool)
    ensures
        r == is_time_keyword(s@),
{
    str_eq(s, "CURRENT_TIMESTAMP") || str_eq(s, "UNIX_TIMESTAMP") || str_eq(s, "CURRENT_DATE")
        || str_eq(s, "CURRENT_TIME") || str_eq(s, "NOW()") || str_eq(s, "CURDATE()") || str_eq(
        s,
        "CURTIME()",
    )
}

pub fn quote_single(s: &str) -> (r: String)
    ensures
        r@ == single_quoted(s@),
{
    proof {
        reveal_strlit("'");
    }
    let mut r = String::from_str("'");
    r.append(s);
    r.append("'");
    assert(r@ =~= single_quoted(s@));
    r
}

pub fn quote_double(s: &str) -> (r: String)
    ensures
        r@ == double_quoted(s@),
{
    proof {
        reveal_strlit("\"");
    }
    let mut r = String::from_str("\"");
    r.append(s);
    r.append("\"");
    assert(r@ =~= double_quoted(s@));
    r
}

impl ValueType {
    /// The SQL literal of the value.
    pub fn to_string(&self) -> (r: String)
        ensures
            r@ == value_text(*self),
    {
        match self {
            ValueType::String(s) => quote_single(s.as_str()),
            ValueType::JsonString(s) => quote_double(s.as_str()),
            ValueType::Datetime(s) => {
                if is_time_keyword_exec(s.as_str()) {
                    s.clone()
                } else {
                    quote_single(s.as_str())
                }
            },
            ValueType::Null => String::from_str("NULL"),
            ValueType::Boolean(b) => {
                if *b {
                    String::from_str("true")
                } else {
                    String::from_str("false")
                }
            },
            ValueType::Int8(x) => int_to_text(*x as i128),
            ValueType::Int16(x) => int_to_text(*x as i128),
            ValueType::Int32(x) => int_to_text(*x as i128),
            ValueType::Int64(x) => int_to_text(*x as i128),
            ValueType::Int128(x) => int_to_text(*x),
            ValueType::Uint8(x) => int_to_text(*x as i128),
            ValueType::Uint16(x) => int_to_text(*x as i128),
            ValueType::Uint32(x) => int_to_text(*x as i128),
            ValueType::Uint64(x) => int_to_text(*x as i128),
            ValueType::Usize(x) => int_to_text(*x as i128),
            ValueType::Float32(d) => d.to_string(),
            ValueType::Float64(d) => d.to_string(),
            ValueType::EpochTime(n) => {
                let mut r = String::from_str("FROM_UNIXTIME(");
                let t = int_to_text(*n as i128);
                r.append(t.as_str());
                r.append(")");
                r
            },
        }
    }

    /// The value's text as an argument of a JSON function call.
    pub fn json_argument(&self) -> (r: String)
        ensures
            r@ == json_argument_text(*self),
    {
        match self {
            ValueType::JsonString(s) => {
                let inner = quote_double(s.as_str());
                quote_single(inner.as_str())
            },
            ValueType::String(s) => quote_single(s.as_str()),
            ValueType::Datetime(s) => quote_single(s.as_str()),
            _ => self.to_string(),
        }
    }
}

impl From<String> for ValueType {
    fn from(value: String) -> (r: ValueType)
        ensures
            r == ValueType::String(value),
    {
        ValueType::String(value)
    }
}

impl vstd::std_specs::convert::FromSpecImpl<String> for ValueType {
    open spec fn obeys_from_spec() -> bool {
        true
    }

    open spec fn from_spec(value: String) -> ValueType {
        ValueType::String(value)
    }
}

impl From<bool> for ValueType {
    fn from(value: bool) -> (r: ValueType)
        ensures
            r == ValueType::Boolean(value),
    {
        ValueType::Boolean(value)
    }
}

impl vstd::std_specs::convert::FromSpecImpl<bool> for ValueType {
    open spec fn obeys_from_spec() -> bool {
        true
    }

    open spec fn from_spec(value: bool) -> ValueType {
        ValueType::Boolean(value)
    }
}

impl From<i8> for ValueType {
    fn from(value: i8) -> (r: ValueType)
        ensures
            r == ValueType::Int8(value),
    {
        ValueType::Int8(value)
    }
}

impl vstd::std_specs::convert::FromSpecImpl<i8> for ValueType {
    open spec fn obeys_from_spec() -> bool {
        true
    }

    open spec fn from_spec(value: i8) -> ValueType {
        ValueType::Int8(value)
    }
}

impl From<i16> for ValueType {
    fn from(value: i16) -> (r: ValueType)
        ensures
            r == ValueType::Int16(value),
    {
        ValueType::Int16(value)
    }
}

impl vstd::std_specs::convert::FromSpecImpl<i16> for ValueType {
    open spec fn obeys_from_spec() -> bool {
        true
    }

    open spec fn from_spec(value: i16) -> ValueType {
        ValueType::Int16(value)
    }
}

impl From<i32> for ValueType {
    fn from(value: i32) -> (r: ValueType)
        ensures
            r == ValueType::Int32(value),
    {
        ValueType::Int32(value)
    }
}

impl vstd::std_specs::convert::FromSpecImpl<i32> for ValueType {
    open spec fn obeys_from_spec() -> bool {
        true
    }

    open spec fn from_spec(value: i32) -> ValueType {
        ValueType::Int32(value)
    }
}

impl From<i64> for ValueType {
    fn from(value: i64) -> (r: ValueType)
        ensures
            r == ValueType::Int64(value),
    {
        ValueType::Int64(value)
    }
}

impl vstd::std_specs::convert::FromSpecImpl<i64> for ValueType {
    open spec fn obeys_from_spec() -> bool {
        true
    }

    open spec fn from_spec(value: i64) -> ValueType {
        ValueType::Int64(value)
    }
}

impl From<i128> for ValueType {
    fn from(value: i128) -> (r: ValueType)
        ensures
            r == ValueType::Int128(value),
    {
        ValueType::Int128(value)
    }
}

impl vstd::std_specs::convert::FromSpecImpl<i128> for ValueType {
    open spec fn obeys_from_spec() -> bool {
        true
    }

    open spec fn from_spec(value: i128) -> ValueType {
        ValueType::Int128(value)
    }
}

impl From<usize> for ValueType {
    fn from(value: usize) -> (r: ValueType)
        ensures
            r == ValueType::Usize(value),
    {
        ValueType::Usize(value)
    }
}

impl vstd::std_specs::convert::FromSpecImpl<usize> for ValueType {
    open spec fn obeys_from_spec() -> bool {
        true
    }

    open spec fn from_spec(value: usize) -> ValueType {
        ValueType::Usize(value)
    }
}

impl From<u8> for ValueType {
    fn from(value: u8) -> (r: ValueType)
        ensures
            r == ValueType::Uint8(value),
    {
        ValueType::Uint8(value)
    }
}

impl vstd::std_specs::convert::FromSpecImpl<u8> for ValueType {
    open spec fn obeys_from_spec() -> bool {
        true
    }

    open spec fn from_spec(value: u8) -> ValueType {
        ValueType::Uint8(value)
    }
}

impl From<u16> for ValueType {
    fn from(value: u16) -> (r: ValueType)
        ensures
            r == ValueType::Uint16(value),
    {
        ValueType::Uint16(value)
    }
}

impl vstd::std_specs::convert::FromSpecImpl<u16> for ValueType {
    open spec fn obeys_from_spec() -> bool {
        true
    }

    open spec fn from_spec(value: u16) -> ValueType {
        ValueType::Uint16(value)
    }
}

impl From<u32> for ValueType {
    fn from(value: u32) -> (r: ValueType)
        ensures
            r == ValueType::Uint32(value),
    {
        ValueType::Uint32(value)
    }
}

impl vstd::std_specs::convert::FromSpecImpl<u32> for ValueType {
    open spec fn obeys_from_spec() -> bool {
        true
    }

    open spec fn from_spec(value: u32) -> ValueType {
        ValueType::Uint32(value)
    }
}

impl From<u64> for ValueType {
    fn from(value: u64) -> (r: ValueType)
        ensures
            r == ValueType::Uint64(value),
    {
        ValueType::Uint64(value)
    }
}

impl vstd::std_specs::convert::FromSpecImpl<u64> for ValueType {
    open spec fn obeys_from_spec() -> bool {
        true
    }

    open spec fn from_spec(value: u64) -> ValueType {
        ValueType::Uint64(value)
    }
}

/// A JSON literal, or a `JSON_OBJECT(...)` call, built from values.
#[derive(Clone, Debug)]
pub enum JsonValue<'a> {
    Array(&'a Vec<ValueType>),
    Object(&'a Vec<(&'a str, &'a ValueType)>),
    ObjectArray(&'a Vec<Vec<(&'a str, &'a ValueType)>>),
    Initial(&'a ValueType),
    MysqlJsonObject(&'a Vec<(&'a str, &'a ValueType)>),
}

/// `"key": value`
pub open spec fn member_text(p: (&str, &ValueType)) -> Seq<char> {
    double_quoted(p.0@) + ": "@ + value_text(*p.1)
}

/// `'key', value`
pub open spec fn argument_pair_text(p: (&str, &ValueType)) -> Seq<char> {
    single_quoted(p.0@) + ", "@ + value_text(*p.1)
}

/// `{"k1": v1, "k2": v2}`
pub open spec fn object_text(props: Seq<(&str, &ValueType)>) -> Seq<char> {
    "{"@ + join(props.map_values(|p: (&str, &ValueType)| member_text(p)), ", "@) + "}"@
}

/// The text of a JSON literal.
pub open spec fn json_text(j: JsonValue) -> Seq<char> {
    match j {
        JsonValue::Array(values) => "["@ + join(
            values@.map_values(|v: ValueType| value_text(v)),
            ", "@,
        ) + "]"@,
        JsonValue::Object(props) => object_text(props@),
        JsonValue::MysqlJsonObject(props) => "JSON_OBJECT("@ + join(
            props@.map_values(|p: (&str, &ValueType)| argument_pair_text(p)),
            ", "@,
        ) + ")"@,
        JsonValue::ObjectArray(objects) => "["@ + join(
            objects@.map_values(|o: Vec<(&str, &ValueType)>| object_text(o@)),
            ", "@,
        ) + "]"@,
        JsonValue::Initial(v) => value_text(*v),
    }
}

/// The text that a JSON literal takes as the argument of a JSON function
/// call: a single value as `json_argument_text` gives it, any other as its
/// JSON text.
pub open spec fn json_operand_text(j: JsonValue) -> Seq<char> {
    match j {
        JsonValue::Initial(v) => json_argument_text(*v),
        _ => json_text(j),
    }
}

/// The pieces, with `sep` between each two of them.
pub fn join_strings(pieces: &Vec<String>, sep: &str) -> (r: String)
    ensures
        r@ == join(pieces@.map_values(|x: String| x@), sep@),
{
    let mut refs: Vec<&str> = Vec::new();
    let mut i: usize = 0;
    while i < pieces.len()
        invariant
            i <= pieces@.len(),
            refs@.len() == i,
            forall|k: int| 0 <= k < i ==> #[trigger] refs@[k]@ == pieces@[k]@,
        decreases pieces@.len() - i,
    {
        refs.push(pieces[i].as_str());
        i = i + 1;
    }
    let r = join_exec(&refs, sep);
    assert(refs@.map_values(|x: &str| x@) =~= pieces@.map_values(|x: String| x@));
    r
}

fn object_to_string(props: &Vec<(&str, &ValueType)>) -> (r: String)
    ensures
        r@ == object_text(props@),
{
    let mut parts: Vec<String> = Vec::new();
    let mut i: usize = 0;
    while i < props.len()
        invariant
            i <= props@.len(),
            parts@.len() == i,
            forall|k: int| 0 <= k < i ==> #[trigger] parts@[k]@ == member_text(props@[k]),
        decreases props@.len() - i,
    {
        let (key, value) = props[i];
        let mut part = quote_double(key);
        part.append(": ");
        let v = value.to_string();
        part.append(v.as_str());
        parts.push(part);
        i = i + 1;
    }
    let mut r = String::from_str("{");
    let body = join_strings(&parts, ", ");
    assert(parts@.map_values(|x: String| x@) =~= props@.map_values(
        |p: (&str, &ValueType)| member_text(p),
    ));
    r.append(body.as_str());
    r.append("}");
    r
}

impl<'a> JsonValue<'a> {
    /// The text of the JSON literal.
    pub fn to_string(&self) -> (r: String)
        ensures
            r@ == json_text(*self),
    {
        match self {
            JsonValue::Array(values) => {
                let mut parts: Vec<String> = Vec::new();
                let mut i: usize = 0;
                while i < values.len()
                    invariant
                        i <= values@.len(),
                        parts@.len() == i,
                        forall|k: int|
                            0 <= k < i ==> #[trigger] parts@[k]@ == value_text(values@[k]),
                    decreases values@.len() - i,
                {
                    parts.push(values[i].to_string());
                    i = i + 1;
                }
                let mut r = String::from_str("[");
                let body = join_strings(&parts, ", ");
                assert(parts@.map_values(|x: String| x@) =~= values@.map_values(
                    |v: ValueType| value_text(v),
                ));
                r.append(body.as_str());
                r.append("]");
                r
            },
            JsonValue::Object(props) => object_to_string(props),
            JsonValue::MysqlJsonObject(props) => {
                let mut parts: Vec<String> = Vec::new();
                let mut i: usize = 0;
                while i < props.len()
                    invariant
                        i <= props@.len(),
                        parts@.len() == i,
                        forall|k: int|
                            0 <= k < i ==> #[trigger] parts@[k]@ == argument_pair_text(props@[k]),
                    decreases props@.len() - i,
                {
                    let (key, value) = props[i];
                    let mut part = quote_single(key);
                    part.append(", ");
                    let v = value.to_string();
                    part.append(v.as_str());
                    parts.push(part);
                    i = i + 1;
                }
                let mut r = String::from_str("JSON_OBJECT(");
                let body = join_strings(&parts, ", ");
                assert(parts@.map_values(|x: String| x@) =~= props@.map_values(
                    |p: (&str, &ValueType)| argument_pair_text(p),
                ));
                r.append(body.as_str());
                r.append(")");
                r
            },
            JsonValue::ObjectArray(objects) => {
                let mut parts: Vec<String> = Vec::new();
                let mut i: usize = 0;
                while i < objects.len()
                    invariant
                        i <= objects@.len(),
                        parts@.len() == i,
                        forall|k: int|
                            0 <= k < i ==> #[trigger] parts@[k]@ == object_text(objects@[k]@),
                    decreases objects@.len() - i,
                {
                    parts.push(object_to_string(&objects[i]));
                    i = i + 1;
                }
                let mut r = String::from_str("[");
                let body = join_strings(&parts, ", ");
                assert(parts@.map_values(|x: String| x@) =~= objects@.map_values(
                    |o: Vec<(&str, &ValueType)>| object_text(o@),
                ));
                r.append(body.as_str());
                r.append("]");
                r
            },
            JsonValue::Initial(v) => v.to_string(),
        }
    }

    /// The literal's text as an argument of a JSON function call.
    pub fn operand(&self) -> (r: String)
        ensures
            r@ == json_operand_text(*self),
    {
        match self {
            JsonValue::Initial(v) => v.json_argument(),
            _ => self.to_string(),
        }
    }
}

} // verus!

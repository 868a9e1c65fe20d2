//! Reading typed fields out of an object payload.

use vstd::prelude::*;
use crate::json::{Json, Num, lookup, given, find_field, take_field};

verus! {

/// The kinds of value a request field accepts.
#[derive(Clone, Copy, Debug, PartialEq, Eq, Structural)]
pub enum Shape {
    Text,
    Count,
    Int32,
    Number,
    Flag,
    TextList,
    ValueList,
    NumberGrid,
    Value,
}

/// Why a payload does not decode into a request.
#[derive(Debug)]
pub enum DecodeError {
    NotAnObject,
    MissingField(String),
    InvalidType(String),
}

/// The integer a number holds, for the integer forms.
pub open spec fn int_value(n: Num) -> int {
    match n {
        Num::PosInt(k) => k as int,
        Num::NegInt(k) => k as int,
        Num::Float(_) => 0,
    }
}

pub open spec fn is_text_list(items: Seq<Json>) -> bool {
    forall|i: int| 0 <= i < items.len() ==> items[i] is Str
}

pub open spec fn is_number_row(items: Seq<Json>) -> bool {
    forall|i: int| 0 <= i < items.len() ==> items[i] is Number
}

pub open spec fn is_number_grid(rows: Seq<Json>) -> bool {
    forall|i: int| 0 <= i < rows.len() ==> (#[trigger] rows[i] matches Json::Array(r) && is_number_row(r@))
}

pub open spec fn has_shape(v: Json, shape: Shape) -> bool {
    match shape {
        Shape::Text => v is Str,
        Shape::Count => v matches Json::Number(Num::PosInt(k)) && k <= usize::MAX,
        Shape::Int32 => match v {
            Json::Number(Num::PosInt(k)) => k <= i32::MAX,
            Json::Number(Num::NegInt(k)) => i32::MIN <= k <= i32::MAX,
            _ => false,
        },
        Shape::Number => v is Number,
        Shape::Flag => v is Bool,
        Shape::TextList => v matches Json::Array(items) && is_text_list(items@),
        Shape::ValueList => v is Array,
        Shape::NumberGrid => v matches Json::Array(rows) && is_number_grid(rows@),
        Shape::Value => true,
    }
}

/// A field decodes: it is absent or `Null` where that is allowed, else it has
/// the field's shape.
pub open spec fn field_fits(fields: Seq<(String, Json)>, key: Seq<char>, shape: Shape, required: bool) -> bool {
    match lookup(fields, key) {
        None => !required,
        Some(Json::Null) => !required,
        Some(v) => has_shape(v, shape),
    }
}

/// `e` is the error that a field which does not fit gives.
pub open spec fn reports(e: DecodeError, fields: Seq<(String, Json)>, key: Seq<char>) -> bool {
    match e {
        DecodeError::MissingField(name) => name@ == key && lookup(fields, key) is None,
        DecodeError::InvalidType(name) => name@ == key && lookup(fields, key) is Some,
        DecodeError::NotAnObject => false,
    }
}

pub open spec fn text_at(fields: Seq<(String, Json)>, key: Seq<char>, s: String) -> bool {
    given(fields, key) == Some(Json::Str(s))
}

pub open spec fn opt_text_at(fields: Seq<(String, Json)>, key: Seq<char>, o: Option<String>) -> bool {
    match o {
        Some(s) => text_at(fields, key, s),
        None => given(fields, key) is None,
    }
}

pub open spec fn count_at(fields: Seq<(String, Json)>, key: Seq<char>, n: usize) -> bool {
    given(fields, key) == Some(Json::Number(Num::PosInt(n as u64)))
}

pub open spec fn opt_count_at(fields: Seq<(String, Json)>, key: Seq<char>, o: Option<usize>) -> bool {
    match o {
        Some(n) => count_at(fields, key, n),
        None => given(fields, key) is None,
    }
}

pub open spec fn flag_at(fields: Seq<(String, Json)>, key: Seq<char>, b: bool) -> bool {
    given(fields, key) == Some(Json::Bool(b))
}

pub open spec fn opt_flag_at(fields: Seq<(String, Json)>, key: Seq<char>, o: Option<bool>) -> bool {
    match o {
        Some(b) => flag_at(fields, key, b),
        None => given(fields, key) is None,
    }
}

pub open spec fn opt_int32_at(fields: Seq<(String, Json)>, key: Seq<char>, o: Option<i32>) -> bool {
    match o {
        Some(x) => given(fields, key) matches Some(Json::Number(n)) && int_value(n) == x as int
            && !(n is Float),
        None => given(fields, key) is None,
    }
}

pub open spec fn opt_number_at(fields: Seq<(String, Json)>, key: Seq<char>, o: Option<Num>) -> bool {
    match o {
        Some(n) => given(fields, key) == Some(Json::Number(n)),
        None => given(fields, key) is None,
    }
}

/// The array `items` holds exactly the texts `texts`, in order.
pub open spec fn holds_texts(items: Seq<Json>, texts: Seq<String>) -> bool {
    &&& items.len() == texts.len()
    &&& forall|i: int| 0 <= i < items.len() ==> items[i] == Json::Str(#[trigger] texts[i])
}

pub open spec fn texts_at(fields: Seq<(String, Json)>, key: Seq<char>, texts: Seq<String>) -> bool {
    given(fields, key) matches Some(Json::Array(items)) && holds_texts(items@, texts)
}

pub open spec fn opt_texts_at(fields: Seq<(String, Json)>, key: Seq<char>, o: Option<Vec<String>>) -> bool {
    match o {
        Some(t) => texts_at(fields, key, t@),
        None => given(fields, key) is None,
    }
}

/// The array `rows` holds exactly the rows of numbers `grid`, in order.
pub open spec fn holds_grid(rows: Seq<Json>, grid: Seq<Vec<Num>>) -> bool {
    &&& rows.len() == grid.len()
    &&& forall|i: int| 0 <= i < rows.len() ==> (#[trigger] rows[i] matches Json::Array(r)
        && r@.len() == grid[i]@.len()
        && forall|j: int| 0 <= j < r@.len() ==> r@[j] == Json::Number(#[trigger] grid[i]@[j]))
}

pub open spec fn opt_grid_at(fields: Seq<(String, Json)>, key: Seq<char>, o: Option<Vec<Vec<Num>>>) -> bool {
    match o {
        Some(g) => given(fields, key) matches Some(Json::Array(rows)) && holds_grid(rows@, g@),
        None => given(fields, key) is None,
    }
}

pub open spec fn opt_values_at(fields: Seq<(String, Json)>, key: Seq<char>, o: Option<Vec<Json>>) -> bool {
    match o {
        Some(v) => given(fields, key) == Some(Json::Array(v)),
        None => given(fields, key) is None,
    }
}

/// Whether `v` has the shape `shape`.
pub fn shape_ok(v: &Json, shape: Shape) -> (r: bool)
    ensures
        r == has_shape(*v, shape),
{
    match shape {
        Shape::Text => matches!(v, Json::Str(_)),
        Shape::Count => match v {
            Json::Number(Num::PosInt(k)) => *k as u128 <= usize::MAX as u128,
            _ => false,
        },
        Shape::Int32 => match v {
            Json::Number(Num::PosInt(k)) => *k <= i32::MAX as u64,
            Json::Number(Num::NegInt(k)) => i32::MIN as i64 <= *k && *k <= i32::MAX as i64,
            _ => false,
        },
        Shape::Number => matches!(v, Json::Number(_)),
        Shape::Flag => matches!(v, Json::Bool(_)),
        Shape::TextList => match v {
            Json::Array(items) => all_texts(items),
            _ => false,
        },
        Shape::ValueList => matches!(v, Json::Array(_)),
        Shape::NumberGrid => match v {
            Json::Array(rows) => all_rows(rows),
            _ => false,
        },
        Shape::Value => true,
    }
}

fn all_texts(items: &Vec<Json>) -> (r: bool)
    ensures
        r == is_text_list(items@),
{
    let mut i: usize = 0;
    while i < items.len()
        invariant
            i <= items@.len(),
            forall|k: int| 0 <= k < i ==> items@[k] is Str,
        decreases items@.len() - i,
    {
        if !matches!(&items[i], Json::Str(_)) {
            return false;
        }
        i = i + 1;
    }
    true
}

fn all_rows(rows: &Vec<Json>) -> (r: bool)
    ensures
        r == is_number_grid(rows@),
{
    let mut i: usize = 0;
    while i < rows.len()
        invariant
            i <= rows@.len(),
            forall|k: int| 0 <= k < i ==> (#[trigger] rows@[k] matches Json::Array(r) && is_number_row(r@)),
        decreases rows@.len() - i,
    {
        match &rows[i] {
            Json::Array(r) => {
                if !all_numbers(r) {
                    return false;
                }
            },
            _ => {
                return false;
            },
        }
        i = i + 1;
    }
    true
}

fn all_numbers(items: &Vec<Json>) -> (r: bool)
    ensures
        r == is_number_row(items@),
{
    let mut i: usize = 0;
    while i < items.len()
        invariant
            i <= items@.len(),
            forall|k: int| 0 <= k < i ==> items@[k] is Number,
        decreases items@.len() - i,
    {
        if !matches!(&items[i], Json::Number(_)) {
            return false;
        }
        i = i + 1;
    }
    true
}

impl DecodeError {
    /// A one-line description of the error.
    pub fn message(&self) -> (r: String)
        ensures
            r@ == match self {
                DecodeError::NotAnObject => "invalid type: expected an object"@,
                DecodeError::MissingField(name) => "missing field `"@ + name@ + "`"@,
                DecodeError::InvalidType(name) => "invalid type for field `"@ + name@ + "`"@,
            },
    {
        match self {
            DecodeError::NotAnObject => "invalid type: expected an object".to_owned(),
            DecodeError::MissingField(name) => {
                let mut m = "missing field `".to_owned();
                m.append(name.as_str());
                m.append("`");
                m
            },
            DecodeError::InvalidType(name) => {
                let mut m = "invalid type for field `".to_owned();
                m.append(name.as_str());
                m.append("`");
                m
            },
        }
    }
}

/// Checks one field against its shape; on success hands back its value, or
/// `None` where it is absent or `Null`.
pub fn check_field<'a>(fields: &'a Vec<(String, Json)>, key: &str, shape: Shape, required: bool) -> (r:
    Result<Option<&'a Json>, DecodeError>)
    ensures
        r is Ok <==> field_fits(fields@, key@, shape, required),
        r matches Ok(o) ==> match o {
            Some(v) => given(fields@, key@) == Some(*v) && has_shape(*v, shape),
            None => given(fields@, key@) is None,
        },
        r matches Err(e) ==> reports(e, fields@, key@),
{
    match find_field(fields, key) {
        None => {
            if required {
                Err(DecodeError::MissingField(key.to_owned()))
            } else {
                Ok(None)
            }
        },
        Some(v) => {
            if matches!(v, Json::Null) {
                if required {
                    Err(DecodeError::InvalidType(key.to_owned()))
                } else {
                    Ok(None)
                }
            } else if shape_ok(v, shape) {
                Ok(Some(v))
            } else {
                Err(DecodeError::InvalidType(key.to_owned()))
            }
        },
    }
}

fn text_of(v: &Json) -> (r: String)
    requires
        v is Str,
    ensures
        *v == Json::Str(r),
{
    match v {
        Json::Str(s) => s.clone(),
        _ => String::new(),
    }
}

fn count_of(v: &Json) -> (r: usize)
    requires
        has_shape(*v, Shape::Count),
    ensures
        *v == Json::Number(Num::PosInt(r as u64)),
{
    match v {
        Json::Number(Num::PosInt(k)) => *k as usize,
        _ => 0,
    }
}

fn flag_of(v: &Json) -> (r: bool)
    requires
        v is Bool,
    ensures
        *v == Json::Bool(r),
{
    match v {
        Json::Bool(b) => *b,
        _ => false,
    }
}

fn texts_of(v: &Json) -> (r: Vec<String>)
    requires
        has_shape(*v, Shape::TextList),
    ensures
        v matches Json::Array(items) && holds_texts(items@, r@),
{
    let mut out: Vec<String> = Vec::new();
    match v {
        Json::Array(items) => {
            let mut i: usize = 0;
            while i < items.len()
                invariant
                    i <= items@.len(),
                    is_text_list(items@),
                    out@.len() == i,
                    forall|k: int| 0 <= k < i ==> items@[k] == Json::Str(#[trigger] out@[k]),
                decreases items@.len() - i,
            {
                out.push(text_of(&items[i]));
                i = i + 1;
            }
        },
        _ => {},
    }
    out
}

fn row_of(items: &Vec<Json>) -> (r: Vec<Num>)
    requires
        is_number_row(items@),
    ensures
        r@.len() == items@.len(),
        forall|j: int| 0 <= j < items@.len() ==> items@[j] == Json::Number(#[trigger] r@[j]),
{
    let mut out: Vec<Num> = Vec::new();
    let mut i: usize = 0;
    while i < items.len()
        invariant
            i <= items@.len(),
            is_number_row(items@),
            out@.len() == i,
            forall|k: int| 0 <= k < i ==> items@[k] == Json::Number(#[trigger] out@[k]),
        decreases items@.len() - i,
    {
        match &items[i] {
            Json::Number(n) => out.push(n.copy()),
            _ => {},
        }
        i = i + 1;
    }
    out
}

fn grid_of(v: &Json) -> (r: Vec<Vec<Num>>)
    requires
        has_shape(*v, Shape::NumberGrid),
    ensures
        v matches Json::Array(rows) && holds_grid(rows@, r@),
{
    let mut out: Vec<Vec<Num>> = Vec::new();
    match v {
        Json::Array(rows) => {
            let mut i: usize = 0;
            while i < rows.len()
                invariant
                    i <= rows@.len(),
                    is_number_grid(rows@),
                    out@.len() == i,
                    forall|k: int| 0 <= k < i ==> (#[trigger] rows@[k] matches Json::Array(r)
                        && r@.len() == out@[k]@.len()
                        && forall|j: int| 0 <= j < r@.len() ==> r@[j] == Json::Number(#[trigger] out@[k]@[j])),
                decreases rows@.len() - i,
            {
                match &rows[i] {
                    Json::Array(r) => out.push(row_of(r)),
                    _ => {},
                }
                i = i + 1;
            }
        },
        _ => {},
    }
    out
}

/// A required text field.
pub fn text_field(fields: &Vec<(String, Json)>, key: &str) -> (r: Result<String, DecodeError>)
    ensures
        r is Ok <==> field_fits(fields@, key@, Shape::Text, true),
        r matches Ok(s) ==> text_at(fields@, key@, s),
        r matches Err(e) ==> reports(e, fields@, key@),
{
    match check_field(fields, key, Shape::Text, true)? {
        Some(v) => Ok(text_of(v)),
        None => Ok(String::new()),
    }
}

/// An optional text field.
pub fn opt_text_field(fields: &Vec<(String, Json)>, key: &str) -> (r: Result<Option<String>, DecodeError>)
    ensures
        r is Ok <==> field_fits(fields@, key@, Shape::Text, false),
        r matches Ok(o) ==> opt_text_at(fields@, key@, o),
        r matches Err(e) ==> reports(e, fields@, key@),
{
    match check_field(fields, key, Shape::Text, false)? {
        Some(v) => Ok(Some(text_of(v))),
        None => Ok(None),
    }
}

/// A required non-negative integer field.
pub fn count_field(fields: &Vec<(String, Json)>, key: &str) -> (r: Result<usize, DecodeError>)
    ensures
        r is Ok <==> field_fits(fields@, key@, Shape::Count, true),
        r matches Ok(n) ==> count_at(fields@, key@, n),
        r matches Err(e) ==> reports(e, fields@, key@),
{
    match check_field(fields, key, Shape::Count, true)? {
        Some(v) => Ok(count_of(v)),
        None => Ok(0),
    }
}

/// An optional non-negative integer field.
pub fn opt_count_field(fields: &Vec<(String, Json)>, key: &str) -> (r: Result<Option<usize>, DecodeError>)
    ensures
        r is Ok <==> field_fits(fields@, key@, Shape::Count, false),
        r matches Ok(o) ==> opt_count_at(fields@, key@, o),
        r matches Err(e) ==> reports(e, fields@, key@),
{
    match check_field(fields, key, Shape::Count, false)? {
        Some(v) => Ok(Some(count_of(v))),
        None => Ok(None),
    }
}

/// A required boolean field.
pub fn flag_field(fields: &Vec<(String, Json)>, key: &str) -> (r: Result<bool, DecodeError>)
    ensures
        r is Ok <==> field_fits(fields@, key@, Shape::Flag, true),
        r matches Ok(b) ==> flag_at(fields@, key@, b),
        r matches Err(e) ==> reports(e, fields@, key@),
{
    match check_field(fields, key, Shape::Flag, true)? {
        Some(v) => Ok(flag_of(v)),
        None => Ok(false),
    }
}

/// An optional boolean field.
pub fn opt_flag_field(fields: &Vec<(String, Json)>, key: &str) -> (r: Result<Option<bool>, DecodeError>)
    ensures
        r is Ok <==> field_fits(fields@, key@, Shape::Flag, false),
        r matches Ok(o) ==> opt_flag_at(fields@, key@, o),
        r matches Err(e) ==> reports(e, fields@, key@),
{
    match check_field(fields, key, Shape::Flag, false)? {
        Some(v) => Ok(Some(flag_of(v))),
        None => Ok(None),
    }
}

/// An optional 32-bit signed integer field.
pub fn opt_int32_field(fields: &Vec<(String, Json)>, key: &str) -> (r: Result<Option<i32>, DecodeError>)
    ensures
        r is Ok <==> field_fits(fields@, key@, Shape::Int32, false),
        r matches Ok(o) ==> opt_int32_at(fields@, key@, o),
        r matches Err(e) ==> reports(e, fields@, key@),
{
    match check_field(fields, key, Shape::Int32, false)? {
        Some(v) => match v {
            Json::Number(Num::PosInt(k)) => Ok(Some(*k as i32)),
            Json::Number(Num::NegInt(k)) => Ok(Some(*k as i32)),
            _ => Ok(None),
        },
        None => Ok(None),
    }
}

/// An optional field that takes any number.
pub fn opt_number_field(fields: &Vec<(String, Json)>, key: &str) -> (r: Result<Option<Num>, DecodeError>)
    ensures
        r is Ok <==> field_fits(fields@, key@, Shape::Number, false),
        r matches Ok(o) ==> opt_number_at(fields@, key@, o),
        r matches Err(e) ==> reports(e, fields@, key@),
{
    match check_field(fields, key, Shape::Number, false)? {
        Some(v) => match v {
            Json::Number(n) => Ok(Some(n.copy())),
            _ => Ok(None),
        },
        None => Ok(None),
    }
}

/// A required list of texts.
pub fn texts_field(fields: &Vec<(String, Json)>, key: &str) -> (r: Result<Vec<String>, DecodeError>)
    ensures
        r is Ok <==> field_fits(fields@, key@, Shape::TextList, true),
        r matches Ok(t) ==> texts_at(fields@, key@, t@),
        r matches Err(e) ==> reports(e, fields@, key@),
{
    match check_field(fields, key, Shape::TextList, true)? {
        Some(v) => Ok(texts_of(v)),
        None => Ok(Vec::new()),
    }
}

/// An optional list of texts.
pub fn opt_texts_field(fields: &Vec<(String, Json)>, key: &str) -> (r: Result<Option<Vec<String>>, DecodeError>)
    ensures
        r is Ok <==> field_fits(fields@, key@, Shape::TextList, false),
        r matches Ok(o) ==> opt_texts_at(fields@, key@, o),
        r matches Err(e) ==> reports(e, fields@, key@),
{
    match check_field(fields, key, Shape::TextList, false)? {
        Some(v) => Ok(Some(texts_of(v))),
        None => Ok(None),
    }
}

/// An optional list of lists of numbers.
pub fn opt_grid_field(fields: &Vec<(String, Json)>, key: &str) -> (r: Result<Option<Vec<Vec<Num>>>, DecodeError>)
    ensures
        r is Ok <==> field_fits(fields@, key@, Shape::NumberGrid, false),
        r matches Ok(o) ==> opt_grid_at(fields@, key@, o),
        r matches Err(e) ==> reports(e, fields@, key@),
{
    match check_field(fields, key, Shape::NumberGrid, false)? {
        Some(v) => Ok(Some(grid_of(v))),
        None => Ok(None),
    }
}

/// Moves an optional value of any shape out of the entries.
pub fn take_value(fields: &mut Vec<(String, Json)>, key: &str) -> (r: Option<Json>)
    ensures
        r == given(old(fields)@, key@),
        forall|k: Seq<char>| k != key@ ==> lookup(final(fields)@, k) == lookup(old(fields)@, k),
{
    match take_field(fields, key) {
        Some(Json::Null) => None,
        other => other,
    }
}

/// Moves an optional list of values out of the entries.
pub fn take_values(fields: &mut Vec<(String, Json)>, key: &str) -> (r: Result<Option<Vec<Json>>, DecodeError>)
    ensures
        r is Ok <==> field_fits(old(fields)@, key@, Shape::ValueList, false),
        r matches Ok(o) ==> opt_values_at(old(fields)@, key@, o),
        r matches Err(e) ==> reports(e, old(fields)@, key@),
        forall|k: Seq<char>| k != key@ ==> lookup(final(fields)@, k) == lookup(old(fields)@, k),
{
    match take_field(fields, key) {
        None => Ok(None),
        Some(Json::Null) => Ok(None),
        Some(Json::Array(items)) => Ok(Some(items)),
        Some(_) => Err(DecodeError::InvalidType(key.to_owned())),
    }
}

} // verus!

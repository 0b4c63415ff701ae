//! Reading and writing the fields of a JSON object, one type at a time.

use crate::error::{DecodeError, DecodeErrorView};
use crate::json::{find, member, members_view, Json, JsonView, Number};
use vstd::prelude::*;
use vstd::string::*;

verus! {

/// What decoding yielded, as plain mathematical data.
pub open spec fn outcome<T: DeepView>(decoded: Result<T, DecodeError>) -> Result<
    T::V,
    DecodeErrorView,
> {
    match decoded {
        Ok(value) => Ok(value.deep_view()),
        Err(error) => Err(error@),
    }
}

/// The whole number that `number` stands for, if it is one.
pub open spec fn whole(number: Number) -> Option<int> {
    match number {
        Number::Unsigned(n) => Some(n as int),
        Number::Signed(n) => Some(n as int),
        Number::Real(_) => None,
    }
}

/// The number that stands for the whole number `n`: unsigned where `n` is
/// not negative, signed where it is.
pub open spec fn number_of(n: int) -> Number {
    if n >= 0 {
        Number::Unsigned(n as u64)
    } else {
        Number::Signed(n as i64)
    }
}

/// The whole number that `json` holds, if it is a whole number between
/// `low` and `high`.
pub open spec fn as_whole(json: JsonView, low: int, high: int) -> Option<int> {
    match json {
        JsonView::Number(number) => match whole(number) {
            Some(n) => if low <= n <= high {
                Some(n)
            } else {
                None
            },
            None => None,
        },
        _ => None,
    }
}

/// The `u32` that `json` holds, if it is a whole number in that range.
pub open spec fn as_u32(json: JsonView) -> Option<u32> {
    match as_whole(json, 0, u32::MAX as int) {
        Some(n) => Some(n as u32),
        None => None,
    }
}

/// The `i32` that `json` holds, if it is a whole number in that range.
pub open spec fn as_i32(json: JsonView) -> Option<i32> {
    match as_whole(json, i32::MIN as int, i32::MAX as int) {
        Some(n) => Some(n as i32),
        None => None,
    }
}

/// The `i64` that `json` holds, if it is a whole number in that range.
pub open spec fn as_i64(json: JsonView) -> Option<i64> {
    match as_whole(json, i64::MIN as int, i64::MAX as int) {
        Some(n) => Some(n as i64),
        None => None,
    }
}

/// The `usize` that `json` holds, if it is a whole number in that range.
pub open spec fn as_usize(json: JsonView) -> Option<usize> {
    match as_whole(json, 0, usize::MAX as int) {
        Some(n) => Some(n as usize),
        None => None,
    }
}

/// The number that `json` holds, if it is a number of any form.
pub open spec fn as_number(json: JsonView) -> Option<Number> {
    match json {
        JsonView::Number(number) => Some(number),
        _ => None,
    }
}

/// The text that `json` holds, if it is a text.
pub open spec fn as_text(json: JsonView) -> Option<Seq<char>> {
    match json {
        JsonView::Text(text) => Some(text),
        _ => None,
    }
}

/// What a field that the record needs yields: the field must be there, and
/// `read` must accept its value.
pub open spec fn required<T>(
    members: Seq<(Seq<char>, JsonView)>,
    name: Seq<char>,
    read: spec_fn(JsonView) -> Option<T>,
) -> Result<T, DecodeErrorView> {
    match member(members, name) {
        None => Err(DecodeErrorView::Missing(name)),
        Some(json) => match read(json) {
            Some(value) => Ok(value),
            None => Err(DecodeErrorView::WrongType(name)),
        },
    }
}

/// What a field that may be absent yields: nothing where the field is not
/// there or holds `null`; otherwise `read` must accept its value.
pub open spec fn optional<T>(
    members: Seq<(Seq<char>, JsonView)>,
    name: Seq<char>,
    read: spec_fn(JsonView) -> Option<T>,
) -> Result<Option<T>, DecodeErrorView> {
    match member(members, name) {
        None => Ok(None),
        Some(JsonView::Null) => Ok(None),
        Some(json) => match read(json) {
            Some(value) => Ok(Some(value)),
            None => Err(DecodeErrorView::WrongType(name)),
        },
    }
}

/// What a field that must hold a `u32` yields.
pub open spec fn required_u32(members: Seq<(Seq<char>, JsonView)>, name: Seq<char>) -> Result<
    u32,
    DecodeErrorView,
> {
    required(members, name, |json: JsonView| as_u32(json))
}

/// What a field that must hold an `i32` yields.
pub open spec fn required_i32(members: Seq<(Seq<char>, JsonView)>, name: Seq<char>) -> Result<
    i32,
    DecodeErrorView,
> {
    required(members, name, |json: JsonView| as_i32(json))
}

/// What a field that must hold an `i64` yields.
pub open spec fn required_i64(members: Seq<(Seq<char>, JsonView)>, name: Seq<char>) -> Result<
    i64,
    DecodeErrorView,
> {
    required(members, name, |json: JsonView| as_i64(json))
}

/// What a field that must hold a `usize` yields.
pub open spec fn required_usize(members: Seq<(Seq<char>, JsonView)>, name: Seq<char>) -> Result<
    usize,
    DecodeErrorView,
> {
    required(members, name, |json: JsonView| as_usize(json))
}

/// What a field that must hold a number of any form yields.
pub open spec fn required_number(members: Seq<(Seq<char>, JsonView)>, name: Seq<char>) -> Result<
    Number,
    DecodeErrorView,
> {
    required(members, name, |json: JsonView| as_number(json))
}

/// What a field that must hold a text yields.
pub open spec fn required_text(members: Seq<(Seq<char>, JsonView)>, name: Seq<char>) -> Result<
    Seq<char>,
    DecodeErrorView,
> {
    required(members, name, |json: JsonView| as_text(json))
}

/// What a field that may be absent, and otherwise holds a `u32`, yields.
pub open spec fn optional_u32(members: Seq<(Seq<char>, JsonView)>, name: Seq<char>) -> Result<
    Option<u32>,
    DecodeErrorView,
> {
    optional(members, name, |json: JsonView| as_u32(json))
}

/// What a field that may be absent, and otherwise holds an `i32`, yields.
pub open spec fn optional_i32(members: Seq<(Seq<char>, JsonView)>, name: Seq<char>) -> Result<
    Option<i32>,
    DecodeErrorView,
> {
    optional(members, name, |json: JsonView| as_i32(json))
}

/// What a field that may be absent, and otherwise holds a number of any form, yields.
pub open spec fn optional_number(members: Seq<(Seq<char>, JsonView)>, name: Seq<char>) -> Result<
    Option<Number>,
    DecodeErrorView,
> {
    optional(members, name, |json: JsonView| as_number(json))
}

/// What a field that may be absent, and otherwise holds a text, yields.
pub open spec fn optional_text(members: Seq<(Seq<char>, JsonView)>, name: Seq<char>) -> Result<
    Option<Seq<char>>,
    DecodeErrorView,
> {
    optional(members, name, |json: JsonView| as_text(json))
}

/// The value that writes a whole number.
pub open spec fn whole_json(n: int) -> JsonView {
    JsonView::Number(number_of(n))
}

/// The value that writes an optional `u32`.
pub open spec fn optional_u32_json(n: Option<u32>) -> JsonView {
    match n {
        Some(n) => whole_json(n as int),
        None => JsonView::Null,
    }
}

/// The value that writes an optional `i32`.
pub open spec fn optional_i32_json(n: Option<i32>) -> JsonView {
    match n {
        Some(n) => whole_json(n as int),
        None => JsonView::Null,
    }
}

/// The value that writes an optional number.
pub open spec fn optional_number_json(number: Option<Number>) -> JsonView {
    match number {
        Some(number) => JsonView::Number(number),
        None => JsonView::Null,
    }
}

/// The value that writes an optional text.
pub open spec fn optional_text_json(text: Option<Seq<char>>) -> JsonView {
    match text {
        Some(text) => JsonView::Text(text),
        None => JsonView::Null,
    }
}

/// Reads the whole number that `json` holds, if it lies between `low` and
/// `high`.
fn whole_between(json: &Json, low: i128, high: i128) -> (value: Option<i128>)
    ensures
        value matches Some(n) ==> as_whole(json@, low as int, high as int) == Some(n as int),
        value is None ==> as_whole(json@, low as int, high as int) is None,
{
    let n: i128 = match json {
        Json::Number(Number::Unsigned(n)) => *n as i128,
        Json::Number(Number::Signed(n)) => *n as i128,
        _ => {
            return None;
        },
    };
    if low <= n && n <= high {
        Some(n)
    } else {
        None
    }
}

/// Reads a field that must hold a whole number between `low` and `high`.
fn read_whole(members: &Vec<(String, Json)>, name: &str, low: i128, high: i128) -> (value: Result<
    i128,
    DecodeError,
>)
    ensures
        value matches Ok(n) ==> low <= n <= high && required(
            members_view(members@),
            name@,
            |json: JsonView| as_whole(json, low as int, high as int),
        ) == Ok::<int, DecodeErrorView>(n as int),
        value matches Err(error) ==> required(
            members_view(members@),
            name@,
            |json: JsonView| as_whole(json, low as int, high as int),
        ) == Err::<int, DecodeErrorView>(error@),
{
    match find(members, name) {
        None => Err(DecodeError::Missing(String::from_str(name))),
        Some(json) => match whole_between(json, low, high) {
            Some(n) => Ok(n),
            None => Err(DecodeError::WrongType(String::from_str(name))),
        },
    }
}

/// Reads a field that may be absent and otherwise holds a whole number
/// between `low` and `high`.
fn read_optional_whole(members: &Vec<(String, Json)>, name: &str, low: i128, high: i128) -> (value:
    Result<Option<i128>, DecodeError>)
    ensures
        value matches Ok(Some(n)) ==> low <= n <= high && optional(
            members_view(members@),
            name@,
            |json: JsonView| as_whole(json, low as int, high as int),
        ) == Ok::<Option<int>, DecodeErrorView>(Some(n as int)),
        value matches Ok(None) ==> optional(
            members_view(members@),
            name@,
            |json: JsonView| as_whole(json, low as int, high as int),
        ) == Ok::<Option<int>, DecodeErrorView>(None),
        value matches Err(error) ==> optional(
            members_view(members@),
            name@,
            |json: JsonView| as_whole(json, low as int, high as int),
        ) == Err::<Option<int>, DecodeErrorView>(error@),
{
    match find(members, name) {
        None => Ok(None),
        Some(Json::Null) => Ok(None),
        Some(json) => match whole_between(json, low, high) {
            Some(n) => Ok(Some(n)),
            None => Err(DecodeError::WrongType(String::from_str(name))),
        },
    }
}

/// Reads a required field that holds a `u32`.
pub fn read_u32(members: &Vec<(String, Json)>, name: &str) -> (value: Result<u32, DecodeError>)
    ensures
        outcome(value) == required_u32(members_view(members@), name@),
{
    match read_whole(members, name, 0, u32::MAX as i128) {
        Ok(n) => Ok(n as u32),
        Err(error) => Err(error),
    }
}

/// Reads an optional field that holds a `u32`.
pub fn read_optional_u32(members: &Vec<(String, Json)>, name: &str) -> (value: Result<
    Option<u32>,
    DecodeError,
>)
    ensures
        outcome(value) == optional_u32(members_view(members@), name@),
{
    match read_optional_whole(members, name, 0, u32::MAX as i128) {
        Ok(Some(n)) => Ok(Some(n as u32)),
        Ok(None) => Ok(None),
        Err(error) => Err(error),
    }
}

/// Reads a required field that holds an `i32`.
pub fn read_i32(members: &Vec<(String, Json)>, name: &str) -> (value: Result<i32, DecodeError>)
    ensures
        outcome(value) == required_i32(members_view(members@), name@),
{
    match read_whole(members, name, i32::MIN as i128, i32::MAX as i128) {
        Ok(n) => Ok(n as i32),
        Err(error) => Err(error),
    }
}

/// Reads an optional field that holds an `i32`.
pub fn read_optional_i32(members: &Vec<(String, Json)>, name: &str) -> (value: Result<
    Option<i32>,
    DecodeError,
>)
    ensures
        outcome(value) == optional_i32(members_view(members@), name@),
{
    match read_optional_whole(members, name, i32::MIN as i128, i32::MAX as i128) {
        Ok(Some(n)) => Ok(Some(n as i32)),
        Ok(None) => Ok(None),
        Err(error) => Err(error),
    }
}

/// Reads a required field that holds an `i64`.
pub fn read_i64(members: &Vec<(String, Json)>, name: &str) -> (value: Result<i64, DecodeError>)
    ensures
        outcome(value) == required_i64(members_view(members@), name@),
{
    match read_whole(members, name, i64::MIN as i128, i64::MAX as i128) {
        Ok(n) => Ok(n as i64),
        Err(error) => Err(error),
    }
}

/// Reads a required field that holds a `usize`.
pub fn read_usize(members: &Vec<(String, Json)>, name: &str) -> (value: Result<usize, DecodeError>)
    ensures
        outcome(value) == required_usize(members_view(members@), name@),
{
    match read_whole(members, name, 0, usize::MAX as i128) {
        Ok(n) => Ok(n as usize),
        Err(error) => Err(error),
    }
}

/// Reads a required field that holds a number of any form.
pub fn read_number(members: &Vec<(String, Json)>, name: &str) -> (value: Result<
    Number,
    DecodeError,
>)
    ensures
        outcome(value) == required_number(members_view(members@), name@),
{
    match find(members, name) {
        None => Err(DecodeError::Missing(String::from_str(name))),
        Some(Json::Number(number)) => Ok(*number),
        Some(_) => Err(DecodeError::WrongType(String::from_str(name))),
    }
}

/// Reads an optional field that holds a number of any form.
pub fn read_optional_number(members: &Vec<(String, Json)>, name: &str) -> (value: Result<
    Option<Number>,
    DecodeError,
>)
    ensures
        outcome(value) == optional_number(members_view(members@), name@),
{
    match find(members, name) {
        None => Ok(None),
        Some(Json::Null) => Ok(None),
        Some(Json::Number(number)) => Ok(Some(*number)),
        Some(_) => Err(DecodeError::WrongType(String::from_str(name))),
    }
}

/// Reads a required field that holds a text.
pub fn read_text(members: &Vec<(String, Json)>, name: &str) -> (value: Result<String, DecodeError>)
    ensures
        outcome(value) == required_text(members_view(members@), name@),
{
    match find(members, name) {
        None => Err(DecodeError::Missing(String::from_str(name))),
        Some(Json::Text(text)) => Ok(text.clone()),
        Some(_) => Err(DecodeError::WrongType(String::from_str(name))),
    }
}

/// Reads an optional field that holds a text.
pub fn read_optional_text(members: &Vec<(String, Json)>, name: &str) -> (value: Result<
    Option<String>,
    DecodeError,
>)
    ensures
        outcome(value) == optional_text(members_view(members@), name@),
{
    match find(members, name) {
        None => Ok(None),
        Some(Json::Null) => Ok(None),
        Some(Json::Text(text)) => Ok(Some(text.clone())),
        Some(_) => Err(DecodeError::WrongType(String::from_str(name))),
    }
}

/// Writes a whole number that is not negative.
pub fn write_unsigned(n: u64) -> (json: Json)
    ensures
        json@ == whole_json(n as int),
{
    Json::Number(Number::Unsigned(n))
}

/// Writes a whole number with a sign.
pub fn write_signed(n: i64) -> (json: Json)
    ensures
        json@ == whole_json(n as int),
{
    if n >= 0 {
        Json::Number(Number::Unsigned(n as u64))
    } else {
        Json::Number(Number::Signed(n))
    }
}

/// Writes an optional `u32`.
pub fn write_optional_u32(n: Option<u32>) -> (json: Json)
    ensures
        json@ == optional_u32_json(n),
{
    match n {
        Some(n) => write_unsigned(n as u64),
        None => Json::Null,
    }
}

/// Writes an optional `i32`.
pub fn write_optional_i32(n: Option<i32>) -> (json: Json)
    ensures
        json@ == optional_i32_json(n),
{
    match n {
        Some(n) => write_signed(n as i64),
        None => Json::Null,
    }
}

/// Writes an optional number.
pub fn write_optional_number(number: Option<Number>) -> (json: Json)
    ensures
        json@ == optional_number_json(number),
{
    match number {
        Some(number) => Json::Number(number),
        None => Json::Null,
    }
}

/// Writes a text.
pub fn write_text(text: &String) -> (json: Json)
    ensures
        json@ == JsonView::Text(text@),
{
    Json::Text(text.clone())
}

/// Writes an optional text.
pub fn write_optional_text(text: &Option<String>) -> (json: Json)
    ensures
        json@ == optional_text_json(text.deep_view()),
{
    match text {
        Some(text) => Json::Text(text.clone()),
        None => Json::Null,
    }
}

} // verus!

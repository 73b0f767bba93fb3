use vstd::prelude::*;

use crate::date::Date;
use crate::error::RepoError;

verus! {

/// One column value of a row, as the store hands it over or takes it.
/// Timestamps travel as `Int`, seconds since the Unix epoch, UTC.
#[derive(Clone, Debug, PartialEq, Eq)]
pub enum SqlValue {
    Null,
    UInt(u64),
    Int(i64),
    Text(String),
    Bool(bool),
    Day(Date),
}

pub const U8_MAX: u64 = 255;

pub const U16_MAX: u64 = 65535;

pub const U64_MAX: u64 = 18446744073709551615;

pub open spec fn uint_of(v: SqlValue, max: u64) -> Option<u64> {
    match v {
        SqlValue::UInt(n) => if n <= max { Some(n) } else { None },
        _ => None,
    }
}

pub open spec fn text_of(v: SqlValue) -> Option<String> {
    match v {
        SqlValue::Text(s) => Some(s),
        _ => None,
    }
}

pub open spec fn bool_of(v: SqlValue) -> Option<bool> {
    match v {
        SqlValue::Bool(b) => Some(b),
        _ => None,
    }
}

pub open spec fn opt_uint_of(v: SqlValue, max: u64) -> Option<Option<u64>> {
    match v {
        SqlValue::Null => Some(None),
        SqlValue::UInt(n) => if n <= max { Some(Some(n)) } else { None },
        _ => None,
    }
}

pub open spec fn opt_text_of(v: SqlValue) -> Option<Option<String>> {
    match v {
        SqlValue::Null => Some(None),
        SqlValue::Text(s) => Some(Some(s)),
        _ => None,
    }
}

pub open spec fn opt_day_of(v: SqlValue) -> Option<Option<Date>> {
    match v {
        SqlValue::Null => Some(None),
        SqlValue::Day(d) => if d.wf() { Some(Some(d)) } else { None },
        _ => None,
    }
}

pub open spec fn opt_stamp_of(v: SqlValue) -> Option<Option<i64>> {
    match v {
        SqlValue::Null => Some(None),
        SqlValue::Int(n) => Some(Some(n)),
        _ => None,
    }
}

/// A timestamp that the store always fills in: a null there is not a valid
/// row.
pub open spec fn stamp_of(v: SqlValue) -> Option<i64> {
    match v {
        SqlValue::Int(n) => Some(n),
        _ => None,
    }
}

pub open spec fn opt_uint_val(o: Option<u64>) -> SqlValue {
    match o {
        Some(n) => SqlValue::UInt(n),
        None => SqlValue::Null,
    }
}

pub open spec fn opt_text_val(o: Option<String>) -> SqlValue {
    match o {
        Some(s) => SqlValue::Text(s),
        None => SqlValue::Null,
    }
}

pub open spec fn opt_day_val(o: Option<Date>) -> SqlValue {
    match o {
        Some(d) => SqlValue::Day(d),
        None => SqlValue::Null,
    }
}

pub open spec fn opt_stamp_val(o: Option<i64>) -> SqlValue {
    match o {
        Some(n) => SqlValue::Int(n),
        None => SqlValue::Null,
    }
}

/// A decoded row, or a validation error where it did not decode.
pub open spec fn decoded<T>(o: Option<T>) -> Result<T, RepoError> {
    match o {
        Some(t) => Ok(t),
        None => Err(RepoError::Validation),
    }
}

pub open spec fn widen16(o: Option<u16>) -> Option<u64> {
    match o {
        Some(n) => Some(n as u64),
        None => None,
    }
}

pub open spec fn narrow16(o: Option<u64>) -> Option<u16> {
    match o {
        Some(n) => Some(n as u16),
        None => None,
    }
}

pub open spec fn flatten<T>(o: Option<Option<T>>) -> Option<T> {
    match o {
        Some(v) => v,
        None => None,
    }
}

pub fn get_uint(v: &SqlValue, max: u64) -> (r: Option<u64>)
    ensures
        r == uint_of(*v, max),
{
    match v {
        SqlValue::UInt(n) => if *n <= max { Some(*n) } else { None },
        _ => None,
    }
}

pub fn get_text(v: &SqlValue) -> (r: Option<String>)
    ensures
        r == text_of(*v),
{
    match v {
        SqlValue::Text(s) => Some(s.clone()),
        _ => None,
    }
}

pub fn get_bool(v: &SqlValue) -> (r: Option<bool>)
    ensures
        r == bool_of(*v),
{
    match v {
        SqlValue::Bool(b) => Some(*b),
        _ => None,
    }
}

pub fn get_opt_uint(v: &SqlValue, max: u64) -> (r: Option<Option<u64>>)
    ensures
        r == opt_uint_of(*v, max),
{
    match v {
        SqlValue::Null => Some(None),
        SqlValue::UInt(n) => if *n <= max { Some(Some(*n)) } else { None },
        _ => None,
    }
}

pub fn get_opt_text(v: &SqlValue) -> (r: Option<Option<String>>)
    ensures
        r == opt_text_of(*v),
{
    match v {
        SqlValue::Null => Some(None),
        SqlValue::Text(s) => Some(Some(s.clone())),
        _ => None,
    }
}

pub fn get_opt_day(v: &SqlValue) -> (r: Option<Option<Date>>)
    ensures
        r == opt_day_of(*v),
{
    match v {
        SqlValue::Null => Some(None),
        SqlValue::Day(d) => match Date::from_ymd(d.year, d.month, d.day) {
            Some(day) => Some(Some(day)),
            None => None,
        },
        _ => None,
    }
}

pub fn get_opt_stamp(v: &SqlValue) -> (r: Option<Option<i64>>)
    ensures
        r == opt_stamp_of(*v),
{
    match v {
        SqlValue::Null => Some(None),
        SqlValue::Int(n) => Some(Some(*n)),
        _ => None,
    }
}

pub fn get_stamp(v: &SqlValue) -> (r: Option<i64>)
    ensures
        r == stamp_of(*v),
{
    match v {
        SqlValue::Int(n) => Some(*n),
        _ => None,
    }
}

pub fn put_opt_text(o: &Option<String>) -> (r: SqlValue)
    ensures
        r == opt_text_val(*o),
{
    match o {
        Some(s) => SqlValue::Text(s.clone()),
        None => SqlValue::Null,
    }
}

pub fn put_opt_day(o: Option<Date>) -> (r: SqlValue)
    ensures
        r == opt_day_val(o),
{
    match o {
        Some(d) => SqlValue::Day(d),
        None => SqlValue::Null,
    }
}

pub fn put_opt_stamp(o: Option<i64>) -> (r: SqlValue)
    ensures
        r == opt_stamp_val(o),
{
    match o {
        Some(n) => SqlValue::Int(n),
        None => SqlValue::Null,
    }
}

pub fn put_opt_u16(o: Option<u16>) -> (r: SqlValue)
    ensures
        r == opt_uint_val(widen16(o)),
{
    match o {
        Some(n) => SqlValue::UInt(n as u64),
        None => SqlValue::Null,
    }
}

} // verus!

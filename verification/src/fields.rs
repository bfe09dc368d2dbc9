//! Field decoders: look a declared field up by its wire name in a
//! document object and decode it to its declared type, reporting the
//! exact first failure otherwise. Missing optional fields resolve to the
//! type's absent representation, never to fabricated defaults.

use vstd::prelude::*;

use crate::error::{
    DecodeError, ErrorV, malformed_err, malformed_x, mismatch_err, mismatch_x, missing_err,
    missing_x,
};
use crate::open_enum::{decodes_to, OpenEnum, WireEnum};
use crate::timestamp::{components, Timestamp};
use crate::value::{get_field, obj_get, Kind, Value};

verus! {

/// The error, if any, of a required unsigned-number field.
pub open spec fn u64_field_err(o: Seq<(String, Value)>, name: Seq<char>) -> Option<ErrorV> {
    match obj_get(o, name) {
        Option::None => Some(missing_err(name)),
        Option::Some(v) => match v {
            Value::Num(_) => None,
            _ => Some(mismatch_err(name, Kind::Num, v.kind())),
        },
    }
}

/// The number a required unsigned-number field holds.
pub open spec fn u64_field_val(o: Seq<(String, Value)>, name: Seq<char>) -> u64 {
    match obj_get(o, name) {
        Option::Some(Value::Num(n)) => n,
        _ => 0,
    }
}

/// Decode a required unsigned-number field.
pub fn u64_field(entries: &Vec<(String, Value)>, name: &str) -> (r: Result<u64, DecodeError>)
    ensures
        match r {
            Ok(n) => u64_field_err(entries@, name@) is None && n == u64_field_val(
                entries@,
                name@,
            ),
            Err(e) => u64_field_err(entries@, name@) == Some(e@),
        },
{
    match get_field(entries, name) {
        None => Err(missing_x(name)),
        Some(v) => match v {
            Value::Num(n) => Ok(*n),
            _ => Err(mismatch_x(name, Kind::Num, v.kind_x())),
        },
    }
}

/// The error, if any, of a required boolean field.
pub open spec fn bool_field_err(o: Seq<(String, Value)>, name: Seq<char>) -> Option<ErrorV> {
    match obj_get(o, name) {
        Option::None => Some(missing_err(name)),
        Option::Some(v) => match v {
            Value::Bool(_) => None,
            _ => Some(mismatch_err(name, Kind::Bool, v.kind())),
        },
    }
}

/// The boolean a required boolean field holds.
pub open spec fn bool_field_val(o: Seq<(String, Value)>, name: Seq<char>) -> bool {
    match obj_get(o, name) {
        Option::Some(Value::Bool(b)) => b,
        _ => false,
    }
}

/// Decode a required boolean field.
pub fn bool_field(entries: &Vec<(String, Value)>, name: &str) -> (r: Result<bool, DecodeError>)
    ensures
        match r {
            Ok(b) => bool_field_err(entries@, name@) is None && b == bool_field_val(
                entries@,
                name@,
            ),
            Err(e) => bool_field_err(entries@, name@) == Some(e@),
        },
{
    match get_field(entries, name) {
        None => Err(missing_x(name)),
        Some(v) => match v {
            Value::Bool(b) => Ok(*b),
            _ => Err(mismatch_x(name, Kind::Bool, v.kind_x())),
        },
    }
}

/// The error, if any, of a required wire-string field.
pub open spec fn str_field_err(o: Seq<(String, Value)>, name: Seq<char>) -> Option<ErrorV> {
    match obj_get(o, name) {
        Option::None => Some(missing_err(name)),
        Option::Some(v) => match v {
            Value::Str(_) => None,
            _ => Some(mismatch_err(name, Kind::Str, v.kind())),
        },
    }
}

/// The text a required wire-string field holds.
pub open spec fn str_field_val(o: Seq<(String, Value)>, name: Seq<char>) -> Seq<char> {
    match obj_get(o, name) {
        Option::Some(Value::Str(s)) => s@,
        _ => Seq::empty(),
    }
}

/// Decode a required string field.
pub fn str_field(entries: &Vec<(String, Value)>, name: &str) -> (r: Result<String, DecodeError>)
    ensures
        match r {
            Ok(s) => str_field_err(entries@, name@) is None && s@ == str_field_val(
                entries@,
                name@,
            ),
            Err(e) => str_field_err(entries@, name@) == Some(e@),
        },
{
    match get_field(entries, name) {
        None => Err(missing_x(name)),
        Some(v) => match v {
            Value::Str(s) => Ok(s.clone()),
            _ => Err(mismatch_x(name, Kind::Str, v.kind_x())),
        },
    }
}

/// Decode a required open-enumeration field: the wire value must be a
/// string, and every string decodes — unknown symbols to the fallback.
pub fn enum_field<T: WireEnum>(entries: &Vec<(String, Value)>, name: &str) -> (r: Result<
    OpenEnum<T>,
    DecodeError,
>)
    ensures
        match r {
            Ok(v) => str_field_err(entries@, name@) is None && decodes_to::<T>(
                str_field_val(entries@, name@),
                v@,
            ),
            Err(e) => str_field_err(entries@, name@) == Some(e@),
        },
{
    match get_field(entries, name) {
        None => Err(missing_x(name)),
        Some(v) => match v {
            Value::Str(s) => Ok(OpenEnum::<T>::decode(s.as_str())),
            _ => Err(mismatch_x(name, Kind::Str, v.kind_x())),
        },
    }
}

/// The error, if any, of a required timestamp field.
pub open spec fn ts_field_err(o: Seq<(String, Value)>, name: Seq<char>) -> Option<ErrorV> {
    match obj_get(o, name) {
        Option::None => Some(missing_err(name)),
        Option::Some(v) => match v {
            Value::Str(s) => if Timestamp::parse(s@) is Some {
                None
            } else {
                Some(malformed_err(name, s@))
            },
            _ => Some(mismatch_err(name, Kind::Str, v.kind())),
        },
    }
}

/// The timestamp a required timestamp field holds.
pub open spec fn ts_field_val(o: Seq<(String, Value)>, name: Seq<char>) -> Timestamp {
    components(str_field_val(o, name))
}

/// Decode a required timestamp field.
pub fn ts_field(entries: &Vec<(String, Value)>, name: &str) -> (r: Result<Timestamp, DecodeError>)
    ensures
        match r {
            Ok(t) => ts_field_err(entries@, name@) is None && t == ts_field_val(entries@, name@),
            Err(e) => ts_field_err(entries@, name@) == Some(e@),
        },
{
    match get_field(entries, name) {
        None => Err(missing_x(name)),
        Some(v) => match v {
            Value::Str(s) => match Timestamp::decode(s.as_str()) {
                Some(t) => Ok(t),
                None => Err(malformed_x(name, s.as_str())),
            },
            _ => Err(mismatch_x(name, Kind::Str, v.kind_x())),
        },
    }
}

/// The error, if any, of an optional timestamp field: absent and null
/// wire values are no error.
pub open spec fn opt_ts_field_err(o: Seq<(String, Value)>, name: Seq<char>) -> Option<ErrorV> {
    match obj_get(o, name) {
        Option::None => None,
        Option::Some(v) => match v {
            Value::Null => None,
            Value::Str(s) => if Timestamp::parse(s@) is Some {
                None
            } else {
                Some(malformed_err(name, s@))
            },
            _ => Some(mismatch_err(name, Kind::Str, v.kind())),
        },
    }
}

/// The value of an optional timestamp field: absent and null wire values
/// decode to no value.
pub open spec fn opt_ts_field_val(o: Seq<(String, Value)>, name: Seq<char>) -> Option<Timestamp> {
    match obj_get(o, name) {
        Option::Some(Value::Str(s)) => Some(components(s@)),
        _ => None,
    }
}

/// Decode an optional timestamp field.
pub fn opt_ts_field(entries: &Vec<(String, Value)>, name: &str) -> (r: Result<
    Option<Timestamp>,
    DecodeError,
>)
    ensures
        match r {
            Ok(t) => opt_ts_field_err(entries@, name@) is None && t == opt_ts_field_val(
                entries@,
                name@,
            ),
            Err(e) => opt_ts_field_err(entries@, name@) == Some(e@),
        },
{
    match get_field(entries, name) {
        None => Ok(None),
        Some(v) => match v {
            Value::Null => Ok(None),
            Value::Str(s) => match Timestamp::decode(s.as_str()) {
                Some(t) => Ok(Some(t)),
                None => Err(malformed_x(name, s.as_str())),
            },
            _ => Err(mismatch_x(name, Kind::Str, v.kind_x())),
        },
    }
}

/// The error, if any, of an optional unsigned-number field.
pub open spec fn opt_u64_field_err(o: Seq<(String, Value)>, name: Seq<char>) -> Option<ErrorV> {
    match obj_get(o, name) {
        Option::None => None,
        Option::Some(v) => match v {
            Value::Null => None,
            Value::Num(_) => None,
            _ => Some(mismatch_err(name, Kind::Num, v.kind())),
        },
    }
}

/// The value of an optional unsigned-number field.
pub open spec fn opt_u64_field_val(o: Seq<(String, Value)>, name: Seq<char>) -> Option<u64> {
    match obj_get(o, name) {
        Option::Some(Value::Num(n)) => Some(n),
        _ => None,
    }
}

/// Decode an optional unsigned-number field.
pub fn opt_u64_field(entries: &Vec<(String, Value)>, name: &str) -> (r: Result<
    Option<u64>,
    DecodeError,
>)
    ensures
        match r {
            Ok(n) => opt_u64_field_err(entries@, name@) is None && n == opt_u64_field_val(
                entries@,
                name@,
            ),
            Err(e) => opt_u64_field_err(entries@, name@) == Some(e@),
        },
{
    match get_field(entries, name) {
        None => Ok(None),
        Some(v) => match v {
            Value::Null => Ok(None),
            Value::Num(n) => Ok(Some(*n)),
            _ => Err(mismatch_x(name, Kind::Num, v.kind_x())),
        },
    }
}

/// The error, if any, of an optional string field.
pub open spec fn opt_str_field_err(o: Seq<(String, Value)>, name: Seq<char>) -> Option<ErrorV> {
    match obj_get(o, name) {
        Option::None => None,
        Option::Some(v) => match v {
            Value::Null => None,
            Value::Str(_) => None,
            _ => Some(mismatch_err(name, Kind::Str, v.kind())),
        },
    }
}

/// The value of an optional string field, as text.
pub open spec fn opt_str_field_val(o: Seq<(String, Value)>, name: Seq<char>) -> Option<Seq<char>> {
    match obj_get(o, name) {
        Option::Some(Value::Str(s)) => Some(s@),
        _ => None,
    }
}

/// Decode an optional string field.
pub fn opt_str_field(entries: &Vec<(String, Value)>, name: &str) -> (r: Result<
    Option<String>,
    DecodeError,
>)
    ensures
        match r {
            Ok(s) => opt_str_field_err(entries@, name@) is None && (match s {
                Some(t) => opt_str_field_val(entries@, name@) == Some(t@),
                None => opt_str_field_val(entries@, name@) is None,
            }),
            Err(e) => opt_str_field_err(entries@, name@) == Some(e@),
        },
{
    match get_field(entries, name) {
        None => Ok(None),
        Some(v) => match v {
            Value::Null => Ok(None),
            Value::Str(s) => Ok(Some(s.clone())),
            _ => Err(mismatch_x(name, Kind::Str, v.kind_x())),
        },
    }
}

/// The first element, if any, that is not a number.
pub open spec fn seq_num_err(items: Seq<Value>, field: Seq<char>) -> Option<ErrorV>
    decreases items.len(),
{
    if items.len() == 0 {
        None
    } else {
        match items[0] {
            Value::Num(_) => seq_num_err(items.drop_first(), field),
            _ => Some(mismatch_err(field, Kind::Num, items[0].kind())),
        }
    }
}

/// The first element, if any, that is not a wire string.
pub open spec fn seq_str_err(items: Seq<Value>, field: Seq<char>) -> Option<ErrorV>
    decreases items.len(),
{
    if items.len() == 0 {
        None
    } else {
        match items[0] {
            Value::Str(_) => seq_str_err(items.drop_first(), field),
            _ => Some(mismatch_err(field, Kind::Str, items[0].kind())),
        }
    }
}

/// The decoded numbers are exactly the array's elements.
pub open spec fn nums_ok(items: Seq<Value>, rs: Seq<u64>) -> bool {
    rs.len() == items.len() && (forall|i: int|
        0 <= i < items.len() ==> items[i] == Value::Num(rs[i]))
}

/// The decoded strings are exactly the array's elements.
pub open spec fn strs_ok(items: Seq<Value>, rs: Seq<String>) -> bool {
    rs.len() == items.len() && (forall|i: int|
        0 <= i < items.len() ==> ((#[trigger] items[i]) matches Value::Str(s) && s@ == rs[i]@))
}

/// The decoded open-enumeration values are exactly the decodings of the
/// array's elements.
pub open spec fn enums_ok<T: WireEnum>(items: Seq<Value>, rs: Seq<OpenEnum<T>>) -> bool {
    rs.len() == items.len() && (forall|i: int|
        0 <= i < items.len() ==> ((#[trigger] items[i]) matches Value::Str(s) && decodes_to::<T>(s@, rs[i]@)))
}

/// Decode an array of numbers element by element.
pub fn nums_of(items: &Vec<Value>, field: &str) -> (r: Result<Vec<u64>, DecodeError>)
    ensures
        match r {
            Ok(ns) => seq_num_err(items@, field@) is None && nums_ok(items@, ns@),
            Err(e) => seq_num_err(items@, field@) == Some(e@),
        },
{
    let mut out: Vec<u64> = Vec::new();
    let mut i: usize = 0;
    proof {
        assert(items@.skip(0) =~= items@);
    }
    while i < items.len()
        invariant
            i <= items@.len(),
            out@.len() == i,
            forall|j: int| 0 <= j < i ==> items@[j] == Value::Num(out@[j]),
            seq_num_err(items@, field@) == seq_num_err(items@.skip(i as int), field@),
        decreases items@.len() - i,
    {
        proof {
            assert(items@.skip(i as int)[0] == items@[i as int]);
        }
        match &items[i] {
            Value::Num(n) => {
                out.push(*n);
            },
            v => {
                return Err(mismatch_x(field, Kind::Num, v.kind_x()));
            },
        }
        proof {
            assert(items@.skip(i as int).drop_first() =~= items@.skip(i as int + 1));
        }
        i += 1;
    }
    proof {
        assert(items@.skip(i as int).len() == 0);
    }
    Ok(out)
}

/// Decode an array of strings element by element.
pub fn strs_of(items: &Vec<Value>, field: &str) -> (r: Result<Vec<String>, DecodeError>)
    ensures
        match r {
            Ok(rs) => seq_str_err(items@, field@) is None && strs_ok(items@, rs@),
            Err(e) => seq_str_err(items@, field@) == Some(e@),
        },
{
    let mut out: Vec<String> = Vec::new();
    let mut i: usize = 0;
    proof {
        assert(items@.skip(0) =~= items@);
    }
    while i < items.len()
        invariant
            i <= items@.len(),
            out@.len() == i,
            forall|j: int|
                0 <= j < i ==> ((#[trigger] items@[j]) matches Value::Str(s) && s@ == out@[j]@),
            seq_str_err(items@, field@) == seq_str_err(items@.skip(i as int), field@),
        decreases items@.len() - i,
    {
        proof {
            assert(items@.skip(i as int)[0] == items@[i as int]);
        }
        match &items[i] {
            Value::Str(s) => {
                out.push(s.clone());
            },
            v => {
                return Err(mismatch_x(field, Kind::Str, v.kind_x()));
            },
        }
        proof {
            assert(items@.skip(i as int).drop_first() =~= items@.skip(i as int + 1));
        }
        i += 1;
    }
    proof {
        assert(items@.skip(i as int).len() == 0);
    }
    Ok(out)
}

/// Decode an array of open-enumeration values element by element.
pub fn enums_of<T: WireEnum>(items: &Vec<Value>, field: &str) -> (r: Result<
    Vec<OpenEnum<T>>,
    DecodeError,
>)
    ensures
        match r {
            Ok(rs) => seq_str_err(items@, field@) is None && enums_ok::<T>(items@, rs@),
            Err(e) => seq_str_err(items@, field@) == Some(e@),
        },
{
    let mut out: Vec<OpenEnum<T>> = Vec::new();
    let mut i: usize = 0;
    proof {
        assert(items@.skip(0) =~= items@);
    }
    while i < items.len()
        invariant
            i <= items@.len(),
            out@.len() == i,
            forall|j: int|
                0 <= j < i ==> ((#[trigger] items@[j]) matches Value::Str(s) && decodes_to::<T>(
                    s@,
                    out@[j]@,
                )),
            seq_str_err(items@, field@) == seq_str_err(items@.skip(i as int), field@),
        decreases items@.len() - i,
    {
        proof {
            assert(items@.skip(i as int)[0] == items@[i as int]);
        }
        match &items[i] {
            Value::Str(s) => {
                out.push(OpenEnum::<T>::decode(s.as_str()));
            },
            v => {
                return Err(mismatch_x(field, Kind::Str, v.kind_x()));
            },
        }
        proof {
            assert(items@.skip(i as int).drop_first() =~= items@.skip(i as int + 1));
        }
        i += 1;
    }
    proof {
        assert(items@.skip(i as int).len() == 0);
    }
    Ok(out)
}

/// The error, if any, of a required array-of-numbers field.
pub open spec fn arr_u64_field_err(o: Seq<(String, Value)>, name: Seq<char>) -> Option<ErrorV> {
    match obj_get(o, name) {
        Option::None => Some(missing_err(name)),
        Option::Some(v) => match v {
            Value::Arr(items) => seq_num_err(items@, name),
            _ => Some(mismatch_err(name, Kind::Arr, v.kind())),
        },
    }
}

/// The decoded numbers are exactly the elements of the array field.
pub open spec fn arr_u64_field_ok(o: Seq<(String, Value)>, name: Seq<char>, rs: Seq<u64>) -> bool {
    obj_get(o, name) matches Some(Value::Arr(items)) && nums_ok(items@, rs)
}

/// Decode a required array-of-numbers field.
pub fn arr_u64_field(entries: &Vec<(String, Value)>, name: &str) -> (r: Result<
    Vec<u64>,
    DecodeError,
>)
    ensures
        match r {
            Ok(ns) => arr_u64_field_err(entries@, name@) is None && arr_u64_field_ok(
                entries@,
                name@,
                ns@,
            ),
            Err(e) => arr_u64_field_err(entries@, name@) == Some(e@),
        },
{
    match get_field(entries, name) {
        None => Err(missing_x(name)),
        Some(v) => match v {
            Value::Arr(items) => nums_of(items, name),
            _ => Err(mismatch_x(name, Kind::Arr, v.kind_x())),
        },
    }
}

/// The error, if any, of a required array-of-strings field.
pub open spec fn arr_str_field_err(o: Seq<(String, Value)>, name: Seq<char>) -> Option<ErrorV> {
    match obj_get(o, name) {
        Option::None => Some(missing_err(name)),
        Option::Some(v) => match v {
            Value::Arr(items) => seq_str_err(items@, name),
            _ => Some(mismatch_err(name, Kind::Arr, v.kind())),
        },
    }
}

/// The decoded strings are exactly the elements of the array field.
pub open spec fn arr_str_field_ok(
    o: Seq<(String, Value)>,
    name: Seq<char>,
    rs: Seq<String>,
) -> bool {
    obj_get(o, name) matches Some(Value::Arr(items)) && strs_ok(items@, rs)
}

/// Decode a required array-of-strings field.
pub fn arr_str_field(entries: &Vec<(String, Value)>, name: &str) -> (r: Result<
    Vec<String>,
    DecodeError,
>)
    ensures
        match r {
            Ok(rs) => arr_str_field_err(entries@, name@) is None && arr_str_field_ok(
                entries@,
                name@,
                rs@,
            ),
            Err(e) => arr_str_field_err(entries@, name@) == Some(e@),
        },
{
    match get_field(entries, name) {
        None => Err(missing_x(name)),
        Some(v) => match v {
            Value::Arr(items) => strs_of(items, name),
            _ => Err(mismatch_x(name, Kind::Arr, v.kind_x())),
        },
    }
}

/// The error, if any, of a required array-of-enumerations field.
pub open spec fn arr_enum_field_err(o: Seq<(String, Value)>, name: Seq<char>) -> Option<ErrorV> {
    arr_str_field_err(o, name)
}

/// The decoded enumeration values are exactly the decodings of the
/// elements of the array field.
pub open spec fn arr_enum_field_ok<T: WireEnum>(
    o: Seq<(String, Value)>,
    name: Seq<char>,
    rs: Seq<OpenEnum<T>>,
) -> bool {
    obj_get(o, name) matches Some(Value::Arr(items)) && enums_ok::<T>(items@, rs)
}

/// Decode a required array-of-enumerations field.
pub fn arr_enum_field<T: WireEnum>(entries: &Vec<(String, Value)>, name: &str) -> (r: Result<
    Vec<OpenEnum<T>>,
    DecodeError,
>)
    ensures
        match r {
            Ok(rs) => arr_enum_field_err(entries@, name@) is None && arr_enum_field_ok::<T>(
                entries@,
                name@,
                rs@,
            ),
            Err(e) => arr_enum_field_err(entries@, name@) == Some(e@),
        },
{
    match get_field(entries, name) {
        None => Err(missing_x(name)),
        Some(v) => match v {
            Value::Arr(items) => enums_of::<T>(items, name),
            _ => Err(mismatch_x(name, Kind::Arr, v.kind_x())),
        },
    }
}

/// The error, if any, of an optional array-of-enumerations field:
/// absent and null wire values are no error.
pub open spec fn opt_arr_enum_field_err(
    o: Seq<(String, Value)>,
    name: Seq<char>,
) -> Option<ErrorV> {
    match obj_get(o, name) {
        Option::None => None,
        Option::Some(v) => match v {
            Value::Null => None,
            Value::Arr(items) => seq_str_err(items@, name),
            _ => Some(mismatch_err(name, Kind::Arr, v.kind())),
        },
    }
}

/// The decoded optional enumeration list matches the wire field: absent
/// or null decodes to no value, an array to its elements' decodings.
pub open spec fn opt_arr_enum_field_ok<T: WireEnum>(
    o: Seq<(String, Value)>,
    name: Seq<char>,
    rs: Option<Vec<OpenEnum<T>>>,
) -> bool {
    match obj_get(o, name) {
        Option::None => rs is None,
        Option::Some(v) => match v {
            Value::Null => rs is None,
            Value::Arr(items) => rs matches Some(vs) && enums_ok::<T>(items@, vs@),
            _ => true,
        },
    }
}

/// Decode an optional array-of-enumerations field.
pub fn opt_arr_enum_field<T: WireEnum>(entries: &Vec<(String, Value)>, name: &str) -> (r: Result<
    Option<Vec<OpenEnum<T>>>,
    DecodeError,
>)
    ensures
        match r {
            Ok(rs) => opt_arr_enum_field_err(entries@, name@) is None && opt_arr_enum_field_ok::<
                T,
            >(entries@, name@, rs),
            Err(e) => opt_arr_enum_field_err(entries@, name@) == Some(e@),
        },
{
    match get_field(entries, name) {
        None => Ok(None),
        Some(v) => match v {
            Value::Null => Ok(None),
            Value::Arr(items) => match enums_of::<T>(items, name) {
                Ok(vs) => Ok(Some(vs)),
                Err(e) => Err(e),
            },
            _ => Err(mismatch_x(name, Kind::Arr, v.kind_x())),
        },
    }
}

} // verus!

use vstd::prelude::*;
use vstd::string::*;

use crate::frontend::ast;
use crate::runtime::floats::FloatHost;
use crate::runtime::values::{view_result, RuntimeValue, ValueModel, ValueType};
use crate::text::str_eq;

verus! {

pub fn runtime_value_is_digit(runtime_value: &RuntimeValue) -> (r: bool)
    ensures
        r == runtime_value@.is_digit(),
{
    if runtime_value_is_integer(runtime_value) || runtime_value_is_float(runtime_value) {
        return true;
    }
    false
}

pub fn runtime_value_is_float(runtime_value: &RuntimeValue) -> (r: bool)
    ensures
        r == runtime_value@.is_float(),
{
    match runtime_value {
        RuntimeValue::Float32(_) | RuntimeValue::Float64(_) => true,
        _ => false,
    }
}

pub fn runtime_value_is_integer(runtime_value: &RuntimeValue) -> (r: bool)
    ensures
        r == runtime_value@.is_integer(),
{
    match runtime_value {
        RuntimeValue::Integer8(_)
        | RuntimeValue::Integer16(_)
        | RuntimeValue::Integer32(_)
        | RuntimeValue::Integer64(_)
        | RuntimeValue::Integer128(_)
        | RuntimeValue::UnsignedInteger8(_)
        | RuntimeValue::UnsignedInteger16(_)
        | RuntimeValue::UnsignedInteger32(_)
        | RuntimeValue::UnsignedInteger64(_)
        | RuntimeValue::UnsignedInteger128(_) => true,
        _ => false,
    }
}

pub fn runtime_digit_is_i8(runtime_value: &RuntimeValue) -> (r: bool)
    ensures
        r == (runtime_value@.value_type() is Integer8),
{
    match runtime_value {
        RuntimeValue::Integer8(_) => true,
        _ => false,
    }
}

pub fn runtime_digit_is_i16(runtime_value: &RuntimeValue) -> (r: bool)
    ensures
        r == (runtime_value@.value_type() is Integer16),
{
    match runtime_value {
        RuntimeValue::Integer16(_) => true,
        _ => false,
    }
}

pub fn runtime_digit_is_i32(runtime_value: &RuntimeValue) -> (r: bool)
    ensures
        r == (runtime_value@.value_type() is Integer32),
{
    match runtime_value {
        RuntimeValue::Integer32(_) => true,
        _ => false,
    }
}

pub fn runtime_digit_is_i64(runtime_value: &RuntimeValue) -> (r: bool)
    ensures
        r == (runtime_value@.value_type() is Integer64),
{
    match runtime_value {
        RuntimeValue::Integer64(_) => true,
        _ => false,
    }
}

pub fn runtime_digit_is_i128(runtime_value: &RuntimeValue) -> (r: bool)
    ensures
        r == (runtime_value@.value_type() is Integer128),
{
    match runtime_value {
        RuntimeValue::Integer128(_) => true,
        _ => false,
    }
}

pub fn runtime_digit_is_u8(runtime_value: &RuntimeValue) -> (r: bool)
    ensures
        r == (runtime_value@.value_type() is UnsignedInteger8),
{
    match runtime_value {
        RuntimeValue::UnsignedInteger8(_) => true,
        _ => false,
    }
}

pub fn runtime_digit_is_u16(runtime_value: &RuntimeValue) -> (r: bool)
    ensures
        r == (runtime_value@.value_type() is UnsignedInteger16),
{
    match runtime_value {
        RuntimeValue::UnsignedInteger16(_) => true,
        _ => false,
    }
}

pub fn runtime_digit_is_u32(runtime_value: &RuntimeValue) -> (r: bool)
    ensures
        r == (runtime_value@.value_type() is UnsignedInteger32),
{
    match runtime_value {
        RuntimeValue::UnsignedInteger32(_) => true,
        _ => false,
    }
}

pub fn runtime_digit_is_u64(runtime_value: &RuntimeValue) -> (r: bool)
    ensures
        r == (runtime_value@.value_type() is UnsignedInteger64),
{
    match runtime_value {
        RuntimeValue::UnsignedInteger64(_) => true,
        _ => false,
    }
}

pub fn runtime_digit_is_u128(runtime_value: &RuntimeValue) -> (r: bool)
    ensures
        r == (runtime_value@.value_type() is UnsignedInteger128),
{
    match runtime_value {
        RuntimeValue::UnsignedInteger128(_) => true,
        _ => false,
    }
}

pub fn runtime_digit_is_f32(runtime_value: &RuntimeValue) -> (r: bool)
    ensures
        r == (runtime_value@.value_type() is Float32),
{
    match runtime_value {
        RuntimeValue::Float32(_) => true,
        _ => false,
    }
}

pub fn runtime_digit_is_f64(runtime_value: &RuntimeValue) -> (r: bool)
    ensures
        r == (runtime_value@.value_type() is Float64),
{
    match runtime_value {
        RuntimeValue::Float64(_) => true,
        _ => false,
    }
}

pub fn runtime_is_char(runtime_value: &RuntimeValue) -> (r: bool)
    ensures
        r == (runtime_value@.value_type() is Character),
{
    match runtime_value {
        RuntimeValue::Character(_) => true,
        _ => false,
    }
}

pub fn runtime_is_str(runtime_value: &RuntimeValue) -> (r: bool)
    ensures
        r == (runtime_value@.value_type() is Str),
{
    match runtime_value {
        RuntimeValue::Str(_) => true,
        _ => false,
    }
}

pub fn runtime_is_bool(runtime_value: &RuntimeValue) -> (r: bool)
    ensures
        r == (runtime_value@.value_type() is Boolean),
{
    match runtime_value {
        RuntimeValue::Boolean(_) => true,
        _ => false,
    }
}
/// Range-checked conversion into `i8`; never wraps or truncates.
pub fn cast_to_i8(value: i128) -> (r: Result<i8, String>)
    ensures
        match r {
            Ok(v) => v as int == value as int,
            Err(_) => (value as int) < i8::MIN as int || (value as int) > i8::MAX as int,
        },
        (i8::MIN as int <= value as int && (value as int) <= i8::MAX as int) ==> r is Ok,
{
    if value > i8::MAX as i128 {
        Err(String::from_str("value is too large to cast into an i8"))
    } else if value < i8::MIN as i128 {
        Err(String::from_str("value is too small to cast into an i8"))
    } else {
        Ok(value as i8)
    }
}

/// Range-checked conversion into `i16`; never wraps or truncates.
pub fn cast_to_i16(value: i128) -> (r: Result<i16, String>)
    ensures
        match r {
            Ok(v) => v as int == value as int,
            Err(_) => (value as int) < i16::MIN as int || (value as int) > i16::MAX as int,
        },
        (i16::MIN as int <= value as int && (value as int) <= i16::MAX as int) ==> r is Ok,
{
    if value > i16::MAX as i128 {
        Err(String::from_str("value is too large to cast into an i16"))
    } else if value < i16::MIN as i128 {
        Err(String::from_str("value is too small to cast into an i16"))
    } else {
        Ok(value as i16)
    }
}

/// Range-checked conversion into `i32`; never wraps or truncates.
pub fn cast_to_i32(value: i128) -> (r: Result<i32, String>)
    ensures
        match r {
            Ok(v) => v as int == value as int,
            Err(_) => (value as int) < i32::MIN as int || (value as int) > i32::MAX as int,
        },
        (i32::MIN as int <= value as int && (value as int) <= i32::MAX as int) ==> r is Ok,
{
    if value > i32::MAX as i128 {
        Err(String::from_str("value is too large to cast into an i32"))
    } else if value < i32::MIN as i128 {
        Err(String::from_str("value is too small to cast into an i32"))
    } else {
        Ok(value as i32)
    }
}

/// Range-checked conversion into `i64`; never wraps or truncates.
pub fn cast_to_i64(value: i128) -> (r: Result<i64, String>)
    ensures
        match r {
            Ok(v) => v as int == value as int,
            Err(_) => (value as int) < i64::MIN as int || (value as int) > i64::MAX as int,
        },
        (i64::MIN as int <= value as int && (value as int) <= i64::MAX as int) ==> r is Ok,
{
    if value > i64::MAX as i128 {
        Err(String::from_str("value is too large to cast into an i64"))
    } else if value < i64::MIN as i128 {
        Err(String::from_str("value is too small to cast into an i64"))
    } else {
        Ok(value as i64)
    }
}

/// Range-checked conversion into `u8`; never wraps or truncates.
pub fn cast_to_u8(value: i128) -> (r: Result<u8, String>)
    ensures
        match r {
            Ok(v) => v as int == value as int,
            Err(_) => (value as int) < 0 || (value as int) > u8::MAX as int,
        },
        (0 <= value as int && (value as int) <= u8::MAX as int) ==> r is Ok,
{
    if value > u8::MAX as i128 {
        Err(String::from_str("value is too large to cast into an u8"))
    } else if value < 0 {
        Err(String::from_str("value is too small to cast into an u8"))
    } else {
        Ok(value as u8)
    }
}

/// Range-checked conversion into `u16`; never wraps or truncates.
pub fn cast_to_u16(value: i128) -> (r: Result<u16, String>)
    ensures
        match r {
            Ok(v) => v as int == value as int,
            Err(_) => (value as int) < 0 || (value as int) > u16::MAX as int,
        },
        (0 <= value as int && (value as int) <= u16::MAX as int) ==> r is Ok,
{
    if value > u16::MAX as i128 {
        Err(String::from_str("value is too large to cast into an u16"))
    } else if value < 0 {
        Err(String::from_str("value is too small to cast into an u16"))
    } else {
        Ok(value as u16)
    }
}

/// Range-checked conversion into `u32`; never wraps or truncates.
pub fn cast_to_u32(value: i128) -> (r: Result<u32, String>)
    ensures
        match r {
            Ok(v) => v as int == value as int,
            Err(_) => (value as int) < 0 || (value as int) > u32::MAX as int,
        },
        (0 <= value as int && (value as int) <= u32::MAX as int) ==> r is Ok,
{
    if value > u32::MAX as i128 {
        Err(String::from_str("value is too large to cast into an u32"))
    } else if value < 0 {
        Err(String::from_str("value is too small to cast into an u32"))
    } else {
        Ok(value as u32)
    }
}

/// Range-checked conversion into `u64`; never wraps or truncates.
pub fn cast_to_u64(value: i128) -> (r: Result<u64, String>)
    ensures
        match r {
            Ok(v) => v as int == value as int,
            Err(_) => (value as int) < 0 || (value as int) > u64::MAX as int,
        },
        (0 <= value as int && (value as int) <= u64::MAX as int) ==> r is Ok,
{
    if value > u64::MAX as i128 {
        Err(String::from_str("value is too large to cast into an u64"))
    } else if value < 0 {
        Err(String::from_str("value is too small to cast into an u64"))
    } else {
        Ok(value as u64)
    }
}

/// Conversion into `i128`; every `i128` input is already in range.
pub fn cast_to_i128(value: i128) -> (r: Result<i128, String>)
    ensures
        r == Result::<i128, String>::Ok(value),
{
    Ok(value)
}

/// Range-checked conversion into `u128`; never wraps or truncates.
pub fn cast_to_u128(value: i128) -> (r: Result<u128, String>)
    ensures
        match r {
            Ok(v) => v as int == value as int,
            Err(_) => value < 0,
        },
        value >= 0 ==> r is Ok,
{
    if value < 0 {
        Err(String::from_str("value is too small to cast into an u128"))
    } else {
        Ok(value as u128)
    }
}

/// Range-checked conversion of an unsigned 128-bit value into `i8`.
pub fn cast_u128_to_i8(value: u128) -> (r: Result<i8, String>)
    ensures
        match r {
            Ok(v) => v as int == value as int,
            Err(_) => (value as int) > i8::MAX as int,
        },
        (value as int) <= i8::MAX as int ==> r is Ok,
{
    if value > i8::MAX as u128 {
        Err(String::from_str("value is too large to cast into an i8"))
    } else {
        Ok(value as i8)
    }
}

/// Range-checked conversion of an unsigned 128-bit value into `i16`.
pub fn cast_u128_to_i16(value: u128) -> (r: Result<i16, String>)
    ensures
        match r {
            Ok(v) => v as int == value as int,
            Err(_) => (value as int) > i16::MAX as int,
        },
        (value as int) <= i16::MAX as int ==> r is Ok,
{
    if value > i16::MAX as u128 {
        Err(String::from_str("value is too large to cast into an i16"))
    } else {
        Ok(value as i16)
    }
}

/// Range-checked conversion of an unsigned 128-bit value into `i32`.
pub fn cast_u128_to_i32(value: u128) -> (r: Result<i32, String>)
    ensures
        match r {
            Ok(v) => v as int == value as int,
            Err(_) => (value as int) > i32::MAX as int,
        },
        (value as int) <= i32::MAX as int ==> r is Ok,
{
    if value > i32::MAX as u128 {
        Err(String::from_str("value is too large to cast into an i32"))
    } else {
        Ok(value as i32)
    }
}

/// Range-checked conversion of an unsigned 128-bit value into `i64`.
pub fn cast_u128_to_i64(value: u128) -> (r: Result<i64, String>)
    ensures
        match r {
            Ok(v) => v as int == value as int,
            Err(_) => (value as int) > i64::MAX as int,
        },
        (value as int) <= i64::MAX as int ==> r is Ok,
{
    if value > i64::MAX as u128 {
        Err(String::from_str("value is too large to cast into an i64"))
    } else {
        Ok(value as i64)
    }
}

/// Range-checked conversion of an unsigned 128-bit value into `i128`.
pub fn cast_u128_to_i128(value: u128) -> (r: Result<i128, String>)
    ensures
        match r {
            Ok(v) => v as int == value as int,
            Err(_) => (value as int) > i128::MAX as int,
        },
        (value as int) <= i128::MAX as int ==> r is Ok,
{
    if value > i128::MAX as u128 {
        Err(String::from_str("value is too large to cast into an i128"))
    } else {
        Ok(value as i128)
    }
}

/// Range-checked conversion of an unsigned 128-bit value into `u8`.
pub fn cast_u128_to_u8(value: u128) -> (r: Result<u8, String>)
    ensures
        match r {
            Ok(v) => v as int == value as int,
            Err(_) => (value as int) > u8::MAX as int,
        },
        (value as int) <= u8::MAX as int ==> r is Ok,
{
    if value > u8::MAX as u128 {
        Err(String::from_str("value is too large to cast into an u8"))
    } else {
        Ok(value as u8)
    }
}

/// Range-checked conversion of an unsigned 128-bit value into `u16`.
pub fn cast_u128_to_u16(value: u128) -> (r: Result<u16, String>)
    ensures
        match r {
            Ok(v) => v as int == value as int,
            Err(_) => (value as int) > u16::MAX as int,
        },
        (value as int) <= u16::MAX as int ==> r is Ok,
{
    if value > u16::MAX as u128 {
        Err(String::from_str("value is too large to cast into an u16"))
    } else {
        Ok(value as u16)
    }
}

/// Range-checked conversion of an unsigned 128-bit value into `u32`.
pub fn cast_u128_to_u32(value: u128) -> (r: Result<u32, String>)
    ensures
        match r {
            Ok(v) => v as int == value as int,
            Err(_) => (value as int) > u32::MAX as int,
        },
        (value as int) <= u32::MAX as int ==> r is Ok,
{
    if value > u32::MAX as u128 {
        Err(String::from_str("value is too large to cast into an u32"))
    } else {
        Ok(value as u32)
    }
}

/// Range-checked conversion of an unsigned 128-bit value into `u64`.
pub fn cast_u128_to_u64(value: u128) -> (r: Result<u64, String>)
    ensures
        match r {
            Ok(v) => v as int == value as int,
            Err(_) => (value as int) > u64::MAX as int,
        },
        (value as int) <= u64::MAX as int ==> r is Ok,
{
    if value > u64::MAX as u128 {
        Err(String::from_str("value is too large to cast into an u64"))
    } else {
        Ok(value as u64)
    }
}


/// Coercion of a value into a target kind named by its surface name,
/// §4.4: an integer kind passes a value of that kind through and
/// range-checks any other integer; the float kinds accept any numeric
/// value, with the payload left to the host; `char`, `str` and `bool`
/// demand the exact kind; any other name is an error.
pub open spec fn int_coerce_rel(kind: ValueType, v: ValueModel, out: Result<ValueModel, ()>) -> bool {
    match v {
        ValueModel::Int { kind: vk, value } => {
            if vk == kind {
                out == Ok::<ValueModel, ()>(v)
            } else if kind.min_value() <= value <= kind.max_value() {
                out == Ok::<ValueModel, ()>(ValueModel::Int { kind, value })
            } else {
                out is Err
            }
        },
        _ => out is Err,
    }
}

/// What declared-type enforcement may return for a value and a type name.
pub open spec fn coerce_rel(target_name: Seq<char>, v: ValueModel, out: Result<ValueModel, ()>) -> bool {
    if target_name == "i8"@ {
        int_coerce_rel(ValueType::Integer8, v, out)
    } else if target_name == "i16"@ {
        int_coerce_rel(ValueType::Integer16, v, out)
    } else if target_name == "i32"@ {
        int_coerce_rel(ValueType::Integer32, v, out)
    } else if target_name == "i64"@ {
        int_coerce_rel(ValueType::Integer64, v, out)
    } else if target_name == "i128"@ {
        int_coerce_rel(ValueType::Integer128, v, out)
    } else if target_name == "u8"@ {
        int_coerce_rel(ValueType::UnsignedInteger8, v, out)
    } else if target_name == "u16"@ {
        int_coerce_rel(ValueType::UnsignedInteger16, v, out)
    } else if target_name == "u32"@ {
        int_coerce_rel(ValueType::UnsignedInteger32, v, out)
    } else if target_name == "u64"@ {
        int_coerce_rel(ValueType::UnsignedInteger64, v, out)
    } else if target_name == "u128"@ {
        int_coerce_rel(ValueType::UnsignedInteger128, v, out)
    } else if target_name == "f32"@ {
        match v {
            ValueModel::Float32 { .. } => out == Ok::<ValueModel, ()>(v),
            _ => if v.is_digit() {
                out matches Ok(w) && w is Float32
            } else {
                out is Err
            },
        }
    } else if target_name == "f64"@ {
        match v {
            ValueModel::Float64 { .. } => out == Ok::<ValueModel, ()>(v),
            _ => if v.is_digit() {
                out matches Ok(w) && w is Float64
            } else {
                out is Err
            },
        }
    } else if target_name == "char"@ {
        if v is Char {
            out == Ok::<ValueModel, ()>(v)
        } else {
            out is Err
        }
    } else if target_name == "str"@ {
        if v is Str {
            out == Ok::<ValueModel, ()>(v)
        } else {
            out is Err
        }
    } else if target_name == "bool"@ {
        if v is Bool {
            out == Ok::<ValueModel, ()>(v)
        } else {
            out is Err
        }
    } else {
        out is Err
    }
}

/// Declared-type enforcement: used at declaration, and at reassignment
/// with the existing binding's kind as the target.
pub fn evaluate_variable_type<F: FloatHost>(
    value_type: Option<ast::IdentifierExpression>,
    identifier: String,
    runtime_val: RuntimeValue,
    host: &F,
) -> (r: Result<RuntimeValue, String>)
    ensures
        match value_type {
            None => r == Ok::<RuntimeValue, String>(runtime_val),
            Some(t) => coerce_rel(t.symbol@, runtime_val@, view_result(r)),
        },
{
    match value_type {
        None => Ok(runtime_val),
        Some(t) => {
            let s = t.symbol.as_str();
            if str_eq(s, "i8") {
            if runtime_digit_is_i8(&runtime_val) {
                Ok(runtime_val)
            } else {
                match runtime_val.as_i8() {
                    Ok(v) => Ok(v.as_raw()),
                    Err(m) => Err(m),
                }
            }
        } else if str_eq(s, "i16") {
            if runtime_digit_is_i16(&runtime_val) {
                Ok(runtime_val)
            } else {
                match runtime_val.as_i16() {
                    Ok(v) => Ok(v.as_raw()),
                    Err(m) => Err(m),
                }
            }
        } else if str_eq(s, "i32") {
            if runtime_digit_is_i32(&runtime_val) {
                Ok(runtime_val)
            } else {
                match runtime_val.as_i32() {
                    Ok(v) => Ok(v.as_raw()),
                    Err(m) => Err(m),
                }
            }
        } else if str_eq(s, "i64") {
            if runtime_digit_is_i64(&runtime_val) {
                Ok(runtime_val)
            } else {
                match runtime_val.as_i64() {
                    Ok(v) => Ok(v.as_raw()),
                    Err(m) => Err(m),
                }
            }
        } else if str_eq(s, "i128") {
            if runtime_digit_is_i128(&runtime_val) {
                Ok(runtime_val)
            } else {
                match runtime_val.as_i128() {
                    Ok(v) => Ok(v.as_raw()),
                    Err(m) => Err(m),
                }
            }
        } else if str_eq(s, "u8") {
            if runtime_digit_is_u8(&runtime_val) {
                Ok(runtime_val)
            } else {
                match runtime_val.as_u8() {
                    Ok(v) => Ok(v.as_raw()),
                    Err(m) => Err(m),
                }
            }
        } else if str_eq(s, "u16") {
            if runtime_digit_is_u16(&runtime_val) {
                Ok(runtime_val)
            } else {
                match runtime_val.as_u16() {
                    Ok(v) => Ok(v.as_raw()),
                    Err(m) => Err(m),
                }
            }
        } else if str_eq(s, "u32") {
            if runtime_digit_is_u32(&runtime_val) {
                Ok(runtime_val)
            } else {
                match runtime_val.as_u32() {
                    Ok(v) => Ok(v.as_raw()),
                    Err(m) => Err(m),
                }
            }
        } else if str_eq(s, "u64") {
            if runtime_digit_is_u64(&runtime_val) {
                Ok(runtime_val)
            } else {
                match runtime_val.as_u64() {
                    Ok(v) => Ok(v.as_raw()),
                    Err(m) => Err(m),
                }
            }
        } else if str_eq(s, "u128") {
            if runtime_digit_is_u128(&runtime_val) {
                Ok(runtime_val)
            } else {
                match runtime_val.as_u128() {
                    Ok(v) => Ok(v.as_raw()),
                    Err(m) => Err(m),
                }
            }
        } else if str_eq(s, "f32") {
            if runtime_digit_is_f32(&runtime_val) {
                Ok(runtime_val)
            } else {
                match runtime_val.as_f32(host) {
                    Ok(v) => Ok(v.as_raw()),
                    Err(m) => Err(m),
                }
            }
        } else if str_eq(s, "f64") {
            if runtime_digit_is_f64(&runtime_val) {
                Ok(runtime_val)
            } else {
                match runtime_val.as_f64(host) {
                    Ok(v) => Ok(v.as_raw()),
                    Err(m) => Err(m),
                }
            }
        } else if str_eq(s, "char") {
            if runtime_is_char(&runtime_val) {
                Ok(runtime_val)
            } else {
                let mut message = String::from_str("incorrect runtime value for ");
                message.append(identifier.as_str());
                message.append(", expected: char, got: ");
                message.append(runtime_val.as_value_type().as_string().as_str());
                Err(message)
            }
        } else if str_eq(s, "str") {
            if runtime_is_str(&runtime_val) {
                Ok(runtime_val)
            } else {
                let mut message = String::from_str("incorrect runtime value for ");
                message.append(identifier.as_str());
                message.append(", expected: str, got: ");
                message.append(runtime_val.as_value_type().as_string().as_str());
                Err(message)
            }
        } else if str_eq(s, "bool") {
            if runtime_is_bool(&runtime_val) {
                Ok(runtime_val)
            } else {
                let mut message = String::from_str("incorrect runtime value for ");
                message.append(identifier.as_str());
                message.append(", expected: bool, got: ");
                message.append(runtime_val.as_value_type().as_string().as_str());
                Err(message)
            }
        } else {
            Err(
                String::from_str(
                    "unexpected variable type given during variable declaration or assignment evaluation",
                ),
            )
        }
        },
    }
}

} // verus!

use vstd::prelude::*;
use vstd::string::*;

use crate::runtime::floats::FloatHost;
use crate::runtime::helpers;

verus! {

/// The sixteen kinds a runtime value can have.
#[derive(Debug, Clone, Copy)]
pub enum ValueType {
    Integer8,
    Integer16,
    Integer32,
    Integer64,
    Integer128,
    UnsignedInteger8,
    UnsignedInteger16,
    UnsignedInteger32,
    UnsignedInteger64,
    UnsignedInteger128,
    Float32,
    Float64,
    Str,
    Character,
    Boolean,
    Null,
}

impl ValueType {
    /// The surface name of the kind, as it appears in type annotations
    /// and in diagnostics.
    pub open spec fn name(self) -> Seq<char> {
        match self {
            ValueType::Integer8 => "i8"@,
            ValueType::Integer16 => "i16"@,
            ValueType::Integer32 => "i32"@,
            ValueType::Integer64 => "i64"@,
            ValueType::Integer128 => "i128"@,
            ValueType::UnsignedInteger8 => "u8"@,
            ValueType::UnsignedInteger16 => "u16"@,
            ValueType::UnsignedInteger32 => "u32"@,
            ValueType::UnsignedInteger64 => "u64"@,
            ValueType::UnsignedInteger128 => "u128"@,
            ValueType::Float32 => "f32"@,
            ValueType::Float64 => "f64"@,
            ValueType::Str => "str"@,
            ValueType::Character => "char"@,
            ValueType::Boolean => "bool"@,
            ValueType::Null => "null"@,
        }
    }

    /// True of the ten fixed-width integer kinds.
    pub open spec fn is_integer_kind(self) -> bool {
        match self {
            ValueType::Integer8
            | ValueType::Integer16
            | ValueType::Integer32
            | ValueType::Integer64
            | ValueType::Integer128
            | ValueType::UnsignedInteger8
            | ValueType::UnsignedInteger16
            | ValueType::UnsignedInteger32
            | ValueType::UnsignedInteger64
            | ValueType::UnsignedInteger128 => true,
            _ => false,
        }
    }

    /// True of the five signed integer kinds.
    pub open spec fn is_signed_kind(self) -> bool {
        match self {
            ValueType::Integer8
            | ValueType::Integer16
            | ValueType::Integer32
            | ValueType::Integer64
            | ValueType::Integer128 => true,
            _ => false,
        }
    }

    /// Smallest value an integer kind can represent (0 for non-integer kinds).
    pub open spec fn min_value(self) -> int {
        match self {
            ValueType::Integer8 => i8::MIN as int,
            ValueType::Integer16 => i16::MIN as int,
            ValueType::Integer32 => i32::MIN as int,
            ValueType::Integer64 => i64::MIN as int,
            ValueType::Integer128 => i128::MIN as int,
            _ => 0,
        }
    }

    /// Largest value an integer kind can represent (0 for non-integer kinds).
    pub open spec fn max_value(self) -> int {
        match self {
            ValueType::Integer8 => i8::MAX as int,
            ValueType::Integer16 => i16::MAX as int,
            ValueType::Integer32 => i32::MAX as int,
            ValueType::Integer64 => i64::MAX as int,
            ValueType::Integer128 => i128::MAX as int,
            ValueType::UnsignedInteger8 => u8::MAX as int,
            ValueType::UnsignedInteger16 => u16::MAX as int,
            ValueType::UnsignedInteger32 => u32::MAX as int,
            ValueType::UnsignedInteger64 => u64::MAX as int,
            ValueType::UnsignedInteger128 => u128::MAX as int,
            _ => 0,
        }
    }

    pub fn as_string(self) -> (r: String)
        ensures
            r@ == self.name(),
    {
        match self {
            ValueType::Integer8 => String::from_str("i8"),
            ValueType::Integer16 => String::from_str("i16"),
            ValueType::Integer32 => String::from_str("i32"),
            ValueType::Integer64 => String::from_str("i64"),
            ValueType::Integer128 => String::from_str("i128"),
            ValueType::UnsignedInteger8 => String::from_str("u8"),
            ValueType::UnsignedInteger16 => String::from_str("u16"),
            ValueType::UnsignedInteger32 => String::from_str("u32"),
            ValueType::UnsignedInteger64 => String::from_str("u64"),
            ValueType::UnsignedInteger128 => String::from_str("u128"),
            ValueType::Float32 => String::from_str("f32"),
            ValueType::Float64 => String::from_str("f64"),
            ValueType::Str => String::from_str("str"),
            ValueType::Character => String::from_str("char"),
            ValueType::Boolean => String::from_str("bool"),
            ValueType::Null => String::from_str("null"),
        }
    }
}

/// Mathematical view of a runtime value: integer payloads are unbounded
/// integers tagged with their kind, float payloads are the raw bit
/// patterns the host gave back, strings are character sequences.
pub enum ValueModel {
    Int { kind: ValueType, value: int },
    Float32 { bits: u32 },
    Float64 { bits: u64 },
    Str { text: Seq<char> },
    Char { value: char },
    Bool { value: bool },
    Null,
}

impl ValueModel {
    /// The kind tag of the value.
    pub open spec fn value_type(self) -> ValueType {
        match self {
            ValueModel::Int { kind, .. } => kind,
            ValueModel::Float32 { .. } => ValueType::Float32,
            ValueModel::Float64 { .. } => ValueType::Float64,
            ValueModel::Str { .. } => ValueType::Str,
            ValueModel::Char { .. } => ValueType::Character,
            ValueModel::Bool { .. } => ValueType::Boolean,
            ValueModel::Null => ValueType::Null,
        }
    }

    pub open spec fn is_integer(self) -> bool {
        match self {
            ValueModel::Int { kind, .. } => kind.is_integer_kind(),
            _ => false,
        }
    }

    pub open spec fn is_float(self) -> bool {
        match self {
            ValueModel::Float32 { .. } | ValueModel::Float64 { .. } => true,
            _ => false,
        }
    }

    /// "Digit" is the language's word for any numeric value.
    pub open spec fn is_digit(self) -> bool {
        self.is_integer() || self.is_float()
    }

    /// Integer payload; meaningful only when `is_integer` holds.
    pub open spec fn int_value(self) -> int {
        match self {
            ValueModel::Int { value, .. } => value,
            _ => 0,
        }
    }

    /// A value is well formed when an integer payload lies within the
    /// range of its kind and the kind tags fit the variant.
    pub open spec fn wf(self) -> bool {
        match self {
            ValueModel::Int { kind, value } => kind.is_integer_kind()
                && kind.min_value() <= value <= kind.max_value(),
            _ => true,
        }
    }
}

/// A tagged runtime value; the tag field and the variant always agree.
#[derive(Debug)]
pub enum RuntimeValue {
    Integer8(Integer8Value),
    Integer16(Integer16Value),
    Integer32(Integer32Value),
    Integer64(Integer64Value),
    Integer128(Integer128Value),
    UnsignedInteger8(UnsignedInteger8Value),
    UnsignedInteger16(UnsignedInteger16Value),
    UnsignedInteger32(UnsignedInteger32Value),
    UnsignedInteger64(UnsignedInteger64Value),
    UnsignedInteger128(UnsignedInteger128Value),
    Float32(Float32Value),
    Float64(Float64Value),
    Str(StringValue),
    Character(CharacterValue),
    Boolean(BooleanValue),
    Null(NullValue),
}

impl View for RuntimeValue {
    type V = ValueModel;

    open spec fn view(&self) -> ValueModel {
        match self {
            RuntimeValue::Integer8(v) => ValueModel::Int {
                kind: ValueType::Integer8,
                value: v.value as int,
            },
            RuntimeValue::Integer16(v) => ValueModel::Int {
                kind: ValueType::Integer16,
                value: v.value as int,
            },
            RuntimeValue::Integer32(v) => ValueModel::Int {
                kind: ValueType::Integer32,
                value: v.value as int,
            },
            RuntimeValue::Integer64(v) => ValueModel::Int {
                kind: ValueType::Integer64,
                value: v.value as int,
            },
            RuntimeValue::Integer128(v) => ValueModel::Int {
                kind: ValueType::Integer128,
                value: v.value as int,
            },
            RuntimeValue::UnsignedInteger8(v) => ValueModel::Int {
                kind: ValueType::UnsignedInteger8,
                value: v.value as int,
            },
            RuntimeValue::UnsignedInteger16(v) => ValueModel::Int {
                kind: ValueType::UnsignedInteger16,
                value: v.value as int,
            },
            RuntimeValue::UnsignedInteger32(v) => ValueModel::Int {
                kind: ValueType::UnsignedInteger32,
                value: v.value as int,
            },
            RuntimeValue::UnsignedInteger64(v) => ValueModel::Int {
                kind: ValueType::UnsignedInteger64,
                value: v.value as int,
            },
            RuntimeValue::UnsignedInteger128(v) => ValueModel::Int {
                kind: ValueType::UnsignedInteger128,
                value: v.value as int,
            },
            RuntimeValue::Float32(v) => ValueModel::Float32 { bits: v.bits },
            RuntimeValue::Float64(v) => ValueModel::Float64 { bits: v.bits },
            RuntimeValue::Str(v) => ValueModel::Str { text: v.value@ },
            RuntimeValue::Character(v) => ValueModel::Char { value: v.value },
            RuntimeValue::Boolean(v) => ValueModel::Bool { value: v.value },
            RuntimeValue::Null(_) => ValueModel::Null,
        }
    }
}

impl RuntimeValue {
    pub fn as_value_type(self) -> (r: ValueType)
        ensures
            r == self@.value_type(),
    {
        match self {
            RuntimeValue::Integer8(_) => ValueType::Integer8,
            RuntimeValue::Integer16(_) => ValueType::Integer16,
            RuntimeValue::Integer32(_) => ValueType::Integer32,
            RuntimeValue::Integer64(_) => ValueType::Integer64,
            RuntimeValue::Integer128(_) => ValueType::Integer128,
            RuntimeValue::UnsignedInteger8(_) => ValueType::UnsignedInteger8,
            RuntimeValue::UnsignedInteger16(_) => ValueType::UnsignedInteger16,
            RuntimeValue::UnsignedInteger32(_) => ValueType::UnsignedInteger32,
            RuntimeValue::UnsignedInteger64(_) => ValueType::UnsignedInteger64,
            RuntimeValue::UnsignedInteger128(_) => ValueType::UnsignedInteger128,
            RuntimeValue::Float32(_) => ValueType::Float32,
            RuntimeValue::Float64(_) => ValueType::Float64,
            RuntimeValue::Str(_) => ValueType::Str,
            RuntimeValue::Character(_) => ValueType::Character,
            RuntimeValue::Boolean(_) => ValueType::Boolean,
            RuntimeValue::Null(_) => ValueType::Null,
        }
    }
}

#[derive(Debug)]
pub struct Integer8Value {
    pub value_type: ValueType,
    pub value: i8,
}

impl Integer8Value {
    pub fn create(value: i8) -> (r: Self)
        ensures
            r.value == value,
            r.value_type is Integer8,
    {
        Integer8Value { value_type: ValueType::Integer8, value }
    }

    pub fn as_raw(self) -> (r: RuntimeValue)
        ensures
            r == RuntimeValue::Integer8(self),
    {
        RuntimeValue::Integer8(self)
    }
}

#[derive(Debug)]
pub struct Integer16Value {
    pub value_type: ValueType,
    pub value: i16,
}

impl Integer16Value {
    pub fn create(value: i16) -> (r: Self)
        ensures
            r.value == value,
            r.value_type is Integer16,
    {
        Integer16Value { value_type: ValueType::Integer16, value }
    }

    pub fn as_raw(self) -> (r: RuntimeValue)
        ensures
            r == RuntimeValue::Integer16(self),
    {
        RuntimeValue::Integer16(self)
    }
}

#[derive(Debug)]
pub struct Integer32Value {
    pub value_type: ValueType,
    pub value: i32,
}

impl Integer32Value {
    pub fn create(value: i32) -> (r: Self)
        ensures
            r.value == value,
            r.value_type is Integer32,
    {
        Integer32Value { value_type: ValueType::Integer32, value }
    }

    pub fn as_raw(self) -> (r: RuntimeValue)
        ensures
            r == RuntimeValue::Integer32(self),
    {
        RuntimeValue::Integer32(self)
    }
}

#[derive(Debug)]
pub struct Integer64Value {
    pub value_type: ValueType,
    pub value: i64,
}

impl Integer64Value {
    pub fn create(value: i64) -> (r: Self)
        ensures
            r.value == value,
            r.value_type is Integer64,
    {
        Integer64Value { value_type: ValueType::Integer64, value }
    }

    pub fn as_raw(self) -> (r: RuntimeValue)
        ensures
            r == RuntimeValue::Integer64(self),
    {
        RuntimeValue::Integer64(self)
    }
}

#[derive(Debug)]
pub struct Integer128Value {
    pub value_type: ValueType,
    pub value: i128,
}

impl Integer128Value {
    pub fn create(value: i128) -> (r: Self)
        ensures
            r.value == value,
            r.value_type is Integer128,
    {
        Integer128Value { value_type: ValueType::Integer128, value }
    }

    pub fn as_raw(self) -> (r: RuntimeValue)
        ensures
            r == RuntimeValue::Integer128(self),
    {
        RuntimeValue::Integer128(self)
    }
}

#[derive(Debug)]
pub struct UnsignedInteger8Value {
    pub value_type: ValueType,
    pub value: u8,
}

impl UnsignedInteger8Value {
    pub fn create(value: u8) -> (r: Self)
        ensures
            r.value == value,
            r.value_type is UnsignedInteger8,
    {
        UnsignedInteger8Value { value_type: ValueType::UnsignedInteger8, value }
    }

    pub fn as_raw(self) -> (r: RuntimeValue)
        ensures
            r == RuntimeValue::UnsignedInteger8(self),
    {
        RuntimeValue::UnsignedInteger8(self)
    }
}

#[derive(Debug)]
pub struct UnsignedInteger16Value {
    pub value_type: ValueType,
    pub value: u16,
}

impl UnsignedInteger16Value {
    pub fn create(value: u16) -> (r: Self)
        ensures
            r.value == value,
            r.value_type is UnsignedInteger16,
    {
        UnsignedInteger16Value { value_type: ValueType::UnsignedInteger16, value }
    }

    pub fn as_raw(self) -> (r: RuntimeValue)
        ensures
            r == RuntimeValue::UnsignedInteger16(self),
    {
        RuntimeValue::UnsignedInteger16(self)
    }
}

#[derive(Debug)]
pub struct UnsignedInteger32Value {
    pub value_type: ValueType,
    pub value: u32,
}

impl UnsignedInteger32Value {
    pub fn create(value: u32) -> (r: Self)
        ensures
            r.value == value,
            r.value_type is UnsignedInteger32,
    {
        UnsignedInteger32Value { value_type: ValueType::UnsignedInteger32, value }
    }

    pub fn as_raw(self) -> (r: RuntimeValue)
        ensures
            r == RuntimeValue::UnsignedInteger32(self),
    {
        RuntimeValue::UnsignedInteger32(self)
    }
}

#[derive(Debug)]
pub struct UnsignedInteger64Value {
    pub value_type: ValueType,
    pub value: u64,
}

impl UnsignedInteger64Value {
    pub fn create(value: u64) -> (r: Self)
        ensures
            r.value == value,
            r.value_type is UnsignedInteger64,
    {
        UnsignedInteger64Value { value_type: ValueType::UnsignedInteger64, value }
    }

    pub fn as_raw(self) -> (r: RuntimeValue)
        ensures
            r == RuntimeValue::UnsignedInteger64(self),
    {
        RuntimeValue::UnsignedInteger64(self)
    }
}

#[derive(Debug)]
pub struct UnsignedInteger128Value {
    pub value_type: ValueType,
    pub value: u128,
}

impl UnsignedInteger128Value {
    pub fn create(value: u128) -> (r: Self)
        ensures
            r.value == value,
            r.value_type is UnsignedInteger128,
    {
        UnsignedInteger128Value { value_type: ValueType::UnsignedInteger128, value }
    }

    pub fn as_raw(self) -> (r: RuntimeValue)
        ensures
            r == RuntimeValue::UnsignedInteger128(self),
    {
        RuntimeValue::UnsignedInteger128(self)
    }
}

/// A 32-bit float value; the payload is the IEEE 754 bit pattern, which
/// only the host interprets (see `FloatHost`).
#[derive(Debug)]
pub struct Float32Value {
    pub value_type: ValueType,
    pub bits: u32,
}

impl Float32Value {
    pub fn create(bits: u32) -> (r: Self)
        ensures
            r.bits == bits,
            r.value_type is Float32,
    {
        Float32Value { value_type: ValueType::Float32, bits }
    }

    pub fn as_raw(self) -> (r: RuntimeValue)
        ensures
            r == RuntimeValue::Float32(self),
    {
        RuntimeValue::Float32(self)
    }
}

/// A 64-bit float value; the payload is the IEEE 754 bit pattern.
#[derive(Debug)]
pub struct Float64Value {
    pub value_type: ValueType,
    pub bits: u64,
}

impl Float64Value {
    pub fn create(bits: u64) -> (r: Self)
        ensures
            r.bits == bits,
            r.value_type is Float64,
    {
        Float64Value { value_type: ValueType::Float64, bits }
    }

    pub fn as_raw(self) -> (r: RuntimeValue)
        ensures
            r == RuntimeValue::Float64(self),
    {
        RuntimeValue::Float64(self)
    }
}

#[derive(Debug)]
pub struct StringValue {
    pub value_type: ValueType,
    pub value: String,
}

impl StringValue {
    pub fn create(value: String) -> (r: Self)
        ensures
            r.value == value,
            r.value_type is Str,
    {
        StringValue { value_type: ValueType::Str, value }
    }

    pub fn as_raw(self) -> (r: RuntimeValue)
        ensures
            r == RuntimeValue::Str(self),
    {
        RuntimeValue::Str(self)
    }
}

#[derive(Debug)]
pub struct CharacterValue {
    pub value_type: ValueType,
    pub value: char,
}

impl CharacterValue {
    pub fn create(value: char) -> (r: Self)
        ensures
            r.value == value,
            r.value_type is Character,
    {
        CharacterValue { value_type: ValueType::Character, value }
    }

    pub fn as_raw(self) -> (r: RuntimeValue)
        ensures
            r == RuntimeValue::Character(self),
    {
        RuntimeValue::Character(self)
    }
}

#[derive(Debug)]
pub struct BooleanValue {
    pub value_type: ValueType,
    pub value: bool,
}

impl BooleanValue {
    pub fn create(value: bool) -> (r: Self)
        ensures
            r.value == value,
            r.value_type is Boolean,
    {
        BooleanValue { value_type: ValueType::Boolean, value }
    }

    pub fn as_raw(self) -> (r: RuntimeValue)
        ensures
            r == RuntimeValue::Boolean(self),
    {
        RuntimeValue::Boolean(self)
    }
}

#[derive(Debug)]
pub struct NullValue {
    pub value_type: ValueType,
    pub value: String,
}

impl NullValue {
    pub fn create() -> (r: Self)
        ensures
            r.value_type is Null,
            r.value@ == "null"@,
    {
        NullValue { value_type: ValueType::Null, value: String::from_str("null") }
    }

    pub fn as_raw(self) -> (r: RuntimeValue)
        ensures
            r == RuntimeValue::Null(self),
    {
        RuntimeValue::Null(self)
    }
}

impl RuntimeValue {
    /// Checked conversion of any integer-kind value into the `i8` kind.
    pub fn as_i8(self) -> (r: Result<Integer8Value, String>)
        ensures
            match r {
                Ok(v) => self@.is_integer() && i8::MIN as int <= self@.int_value() <= i8::MAX as int
                    && v.value as int == self@.int_value() && v.value_type is Integer8,
                Err(_) => !self@.is_integer() || self@.int_value() < i8::MIN as int
                    || self@.int_value() > i8::MAX as int,
            },
    {
        match self {
            RuntimeValue::Integer8(v) => Ok(Integer8Value::create(v.value)),
            RuntimeValue::Integer16(v) => match helpers::cast_to_i8(v.value as i128) {
                Ok(x) => Ok(Integer8Value::create(x)),
                Err(m) => Err(m),
            },
            RuntimeValue::Integer32(v) => match helpers::cast_to_i8(v.value as i128) {
                Ok(x) => Ok(Integer8Value::create(x)),
                Err(m) => Err(m),
            },
            RuntimeValue::Integer64(v) => match helpers::cast_to_i8(v.value as i128) {
                Ok(x) => Ok(Integer8Value::create(x)),
                Err(m) => Err(m),
            },
            RuntimeValue::Integer128(v) => match helpers::cast_to_i8(v.value as i128) {
                Ok(x) => Ok(Integer8Value::create(x)),
                Err(m) => Err(m),
            },
            RuntimeValue::UnsignedInteger8(v) => match helpers::cast_to_i8(v.value as i128) {
                Ok(x) => Ok(Integer8Value::create(x)),
                Err(m) => Err(m),
            },
            RuntimeValue::UnsignedInteger16(v) => match helpers::cast_to_i8(v.value as i128) {
                Ok(x) => Ok(Integer8Value::create(x)),
                Err(m) => Err(m),
            },
            RuntimeValue::UnsignedInteger32(v) => match helpers::cast_to_i8(v.value as i128) {
                Ok(x) => Ok(Integer8Value::create(x)),
                Err(m) => Err(m),
            },
            RuntimeValue::UnsignedInteger64(v) => match helpers::cast_to_i8(v.value as i128) {
                Ok(x) => Ok(Integer8Value::create(x)),
                Err(m) => Err(m),
            },
            RuntimeValue::UnsignedInteger128(v) => match helpers::cast_u128_to_i8(v.value) {
                Ok(x) => Ok(Integer8Value::create(x)),
                Err(m) => Err(m),
            },
            _ => Err(String::from_str("cannot cast a non-integer value into an i8")),
        }
    }

    /// Checked conversion of any integer-kind value into the `i16` kind.
    pub fn as_i16(self) -> (r: Result<Integer16Value, String>)
        ensures
            match r {
                Ok(v) => self@.is_integer() && i16::MIN as int <= self@.int_value() <= i16::MAX as int
                    && v.value as int == self@.int_value() && v.value_type is Integer16,
                Err(_) => !self@.is_integer() || self@.int_value() < i16::MIN as int
                    || self@.int_value() > i16::MAX as int,
            },
    {
        match self {
            RuntimeValue::Integer8(v) => match helpers::cast_to_i16(v.value as i128) {
                Ok(x) => Ok(Integer16Value::create(x)),
                Err(m) => Err(m),
            },
            RuntimeValue::Integer16(v) => Ok(Integer16Value::create(v.value)),
            RuntimeValue::Integer32(v) => match helpers::cast_to_i16(v.value as i128) {
                Ok(x) => Ok(Integer16Value::create(x)),
                Err(m) => Err(m),
            },
            RuntimeValue::Integer64(v) => match helpers::cast_to_i16(v.value as i128) {
                Ok(x) => Ok(Integer16Value::create(x)),
                Err(m) => Err(m),
            },
            RuntimeValue::Integer128(v) => match helpers::cast_to_i16(v.value as i128) {
                Ok(x) => Ok(Integer16Value::create(x)),
                Err(m) => Err(m),
            },
            RuntimeValue::UnsignedInteger8(v) => match helpers::cast_to_i16(v.value as i128) {
                Ok(x) => Ok(Integer16Value::create(x)),
                Err(m) => Err(m),
            },
            RuntimeValue::UnsignedInteger16(v) => match helpers::cast_to_i16(v.value as i128) {
                Ok(x) => Ok(Integer16Value::create(x)),
                Err(m) => Err(m),
            },
            RuntimeValue::UnsignedInteger32(v) => match helpers::cast_to_i16(v.value as i128) {
                Ok(x) => Ok(Integer16Value::create(x)),
                Err(m) => Err(m),
            },
            RuntimeValue::UnsignedInteger64(v) => match helpers::cast_to_i16(v.value as i128) {
                Ok(x) => Ok(Integer16Value::create(x)),
                Err(m) => Err(m),
            },
            RuntimeValue::UnsignedInteger128(v) => match helpers::cast_u128_to_i16(v.value) {
                Ok(x) => Ok(Integer16Value::create(x)),
                Err(m) => Err(m),
            },
            _ => Err(String::from_str("cannot cast a non-integer value into an i16")),
        }
    }

    /// Checked conversion of any integer-kind value into the `i32` kind.
    pub fn as_i32(self) -> (r: Result<Integer32Value, String>)
        ensures
            match r {
                Ok(v) => self@.is_integer() && i32::MIN as int <= self@.int_value() <= i32::MAX as int
                    && v.value as int == self@.int_value() && v.value_type is Integer32,
                Err(_) => !self@.is_integer() || self@.int_value() < i32::MIN as int
                    || self@.int_value() > i32::MAX as int,
            },
    {
        match self {
            RuntimeValue::Integer8(v) => match helpers::cast_to_i32(v.value as i128) {
                Ok(x) => Ok(Integer32Value::create(x)),
                Err(m) => Err(m),
            },
            RuntimeValue::Integer16(v) => match helpers::cast_to_i32(v.value as i128) {
                Ok(x) => Ok(Integer32Value::create(x)),
                Err(m) => Err(m),
            },
            RuntimeValue::Integer32(v) => Ok(Integer32Value::create(v.value)),
            RuntimeValue::Integer64(v) => match helpers::cast_to_i32(v.value as i128) {
                Ok(x) => Ok(Integer32Value::create(x)),
                Err(m) => Err(m),
            },
            RuntimeValue::Integer128(v) => match helpers::cast_to_i32(v.value as i128) {
                Ok(x) => Ok(Integer32Value::create(x)),
                Err(m) => Err(m),
            },
            RuntimeValue::UnsignedInteger8(v) => match helpers::cast_to_i32(v.value as i128) {
                Ok(x) => Ok(Integer32Value::create(x)),
                Err(m) => Err(m),
            },
            RuntimeValue::UnsignedInteger16(v) => match helpers::cast_to_i32(v.value as i128) {
                Ok(x) => Ok(Integer32Value::create(x)),
                Err(m) => Err(m),
            },
            RuntimeValue::UnsignedInteger32(v) => match helpers::cast_to_i32(v.value as i128) {
                Ok(x) => Ok(Integer32Value::create(x)),
                Err(m) => Err(m),
            },
            RuntimeValue::UnsignedInteger64(v) => match helpers::cast_to_i32(v.value as i128) {
                Ok(x) => Ok(Integer32Value::create(x)),
                Err(m) => Err(m),
            },
            RuntimeValue::UnsignedInteger128(v) => match helpers::cast_u128_to_i32(v.value) {
                Ok(x) => Ok(Integer32Value::create(x)),
                Err(m) => Err(m),
            },
            _ => Err(String::from_str("cannot cast a non-integer value into an i32")),
        }
    }

    /// Checked conversion of any integer-kind value into the `i64` kind.
    pub fn as_i64(self) -> (r: Result<Integer64Value, String>)
        ensures
            match r {
                Ok(v) => self@.is_integer() && i64::MIN as int <= self@.int_value() <= i64::MAX as int
                    && v.value as int == self@.int_value() && v.value_type is Integer64,
                Err(_) => !self@.is_integer() || self@.int_value() < i64::MIN as int
                    || self@.int_value() > i64::MAX as int,
            },
    {
        match self {
            RuntimeValue::Integer8(v) => match helpers::cast_to_i64(v.value as i128) {
                Ok(x) => Ok(Integer64Value::create(x)),
                Err(m) => Err(m),
            },
            RuntimeValue::Integer16(v) => match helpers::cast_to_i64(v.value as i128) {
                Ok(x) => Ok(Integer64Value::create(x)),
                Err(m) => Err(m),
            },
            RuntimeValue::Integer32(v) => match helpers::cast_to_i64(v.value as i128) {
                Ok(x) => Ok(Integer64Value::create(x)),
                Err(m) => Err(m),
            },
            RuntimeValue::Integer64(v) => Ok(Integer64Value::create(v.value)),
            RuntimeValue::Integer128(v) => match helpers::cast_to_i64(v.value as i128) {
                Ok(x) => Ok(Integer64Value::create(x)),
                Err(m) => Err(m),
            },
            RuntimeValue::UnsignedInteger8(v) => match helpers::cast_to_i64(v.value as i128) {
                Ok(x) => Ok(Integer64Value::create(x)),
                Err(m) => Err(m),
            },
            RuntimeValue::UnsignedInteger16(v) => match helpers::cast_to_i64(v.value as i128) {
                Ok(x) => Ok(Integer64Value::create(x)),
                Err(m) => Err(m),
            },
            RuntimeValue::UnsignedInteger32(v) => match helpers::cast_to_i64(v.value as i128) {
                Ok(x) => Ok(Integer64Value::create(x)),
                Err(m) => Err(m),
            },
            RuntimeValue::UnsignedInteger64(v) => match helpers::cast_to_i64(v.value as i128) {
                Ok(x) => Ok(Integer64Value::create(x)),
                Err(m) => Err(m),
            },
            RuntimeValue::UnsignedInteger128(v) => match helpers::cast_u128_to_i64(v.value) {
                Ok(x) => Ok(Integer64Value::create(x)),
                Err(m) => Err(m),
            },
            _ => Err(String::from_str("cannot cast a non-integer value into an i64")),
        }
    }

    /// Checked conversion of any integer-kind value into the `i128` kind.
    pub fn as_i128(self) -> (r: Result<Integer128Value, String>)
        ensures
            match r {
                Ok(v) => self@.is_integer() && i128::MIN as int <= self@.int_value() <= i128::MAX as int
                    && v.value as int == self@.int_value() && v.value_type is Integer128,
                Err(_) => !self@.is_integer() || self@.int_value() < i128::MIN as int
                    || self@.int_value() > i128::MAX as int,
            },
    {
        match self {
            RuntimeValue::Integer8(v) => match helpers::cast_to_i128(v.value as i128) {
                Ok(x) => Ok(Integer128Value::create(x)),
                Err(m) => Err(m),
            },
            RuntimeValue::Integer16(v) => match helpers::cast_to_i128(v.value as i128) {
                Ok(x) => Ok(Integer128Value::create(x)),
                Err(m) => Err(m),
            },
            RuntimeValue::Integer32(v) => match helpers::cast_to_i128(v.value as i128) {
                Ok(x) => Ok(Integer128Value::create(x)),
                Err(m) => Err(m),
            },
            RuntimeValue::Integer64(v) => match helpers::cast_to_i128(v.value as i128) {
                Ok(x) => Ok(Integer128Value::create(x)),
                Err(m) => Err(m),
            },
            RuntimeValue::Integer128(v) => Ok(Integer128Value::create(v.value)),
            RuntimeValue::UnsignedInteger8(v) => match helpers::cast_to_i128(v.value as i128) {
                Ok(x) => Ok(Integer128Value::create(x)),
                Err(m) => Err(m),
            },
            RuntimeValue::UnsignedInteger16(v) => match helpers::cast_to_i128(v.value as i128) {
                Ok(x) => Ok(Integer128Value::create(x)),
                Err(m) => Err(m),
            },
            RuntimeValue::UnsignedInteger32(v) => match helpers::cast_to_i128(v.value as i128) {
                Ok(x) => Ok(Integer128Value::create(x)),
                Err(m) => Err(m),
            },
            RuntimeValue::UnsignedInteger64(v) => match helpers::cast_to_i128(v.value as i128) {
                Ok(x) => Ok(Integer128Value::create(x)),
                Err(m) => Err(m),
            },
            RuntimeValue::UnsignedInteger128(v) => match helpers::cast_u128_to_i128(v.value) {
                Ok(x) => Ok(Integer128Value::create(x)),
                Err(m) => Err(m),
            },
            _ => Err(String::from_str("cannot cast a non-integer value into an i128")),
        }
    }

    /// Checked conversion of any integer-kind value into the `u8` kind.
    pub fn as_u8(self) -> (r: Result<UnsignedInteger8Value, String>)
        ensures
            match r {
                Ok(v) => self@.is_integer() && 0 <= self@.int_value() <= u8::MAX as int
                    && v.value as int == self@.int_value() && v.value_type is UnsignedInteger8,
                Err(_) => !self@.is_integer() || self@.int_value() < 0
                    || self@.int_value() > u8::MAX as int,
            },
    {
        match self {
            RuntimeValue::Integer8(v) => match helpers::cast_to_u8(v.value as i128) {
                Ok(x) => Ok(UnsignedInteger8Value::create(x)),
                Err(m) => Err(m),
            },
            RuntimeValue::Integer16(v) => match helpers::cast_to_u8(v.value as i128) {
                Ok(x) => Ok(UnsignedInteger8Value::create(x)),
                Err(m) => Err(m),
            },
            RuntimeValue::Integer32(v) => match helpers::cast_to_u8(v.value as i128) {
                Ok(x) => Ok(UnsignedInteger8Value::create(x)),
                Err(m) => Err(m),
            },
            RuntimeValue::Integer64(v) => match helpers::cast_to_u8(v.value as i128) {
                Ok(x) => Ok(UnsignedInteger8Value::create(x)),
                Err(m) => Err(m),
            },
            RuntimeValue::Integer128(v) => match helpers::cast_to_u8(v.value as i128) {
                Ok(x) => Ok(UnsignedInteger8Value::create(x)),
                Err(m) => Err(m),
            },
            RuntimeValue::UnsignedInteger8(v) => Ok(UnsignedInteger8Value::create(v.value)),
            RuntimeValue::UnsignedInteger16(v) => match helpers::cast_to_u8(v.value as i128) {
                Ok(x) => Ok(UnsignedInteger8Value::create(x)),
                Err(m) => Err(m),
            },
            RuntimeValue::UnsignedInteger32(v) => match helpers::cast_to_u8(v.value as i128) {
                Ok(x) => Ok(UnsignedInteger8Value::create(x)),
                Err(m) => Err(m),
            },
            RuntimeValue::UnsignedInteger64(v) => match helpers::cast_to_u8(v.value as i128) {
                Ok(x) => Ok(UnsignedInteger8Value::create(x)),
                Err(m) => Err(m),
            },
            RuntimeValue::UnsignedInteger128(v) => match helpers::cast_u128_to_u8(v.value) {
                Ok(x) => Ok(UnsignedInteger8Value::create(x)),
                Err(m) => Err(m),
            },
            _ => Err(String::from_str("cannot cast a non-integer value into an u8")),
        }
    }

    /// Checked conversion of any integer-kind value into the `u16` kind.
    pub fn as_u16(self) -> (r: Result<UnsignedInteger16Value, String>)
        ensures
            match r {
                Ok(v) => self@.is_integer() && 0 <= self@.int_value() <= u16::MAX as int
                    && v.value as int == self@.int_value() && v.value_type is UnsignedInteger16,
                Err(_) => !self@.is_integer() || self@.int_value() < 0
                    || self@.int_value() > u16::MAX as int,
            },
    {
        match self {
            RuntimeValue::Integer8(v) => match helpers::cast_to_u16(v.value as i128) {
                Ok(x) => Ok(UnsignedInteger16Value::create(x)),
                Err(m) => Err(m),
            },
            RuntimeValue::Integer16(v) => match helpers::cast_to_u16(v.value as i128) {
                Ok(x) => Ok(UnsignedInteger16Value::create(x)),
                Err(m) => Err(m),
            },
            RuntimeValue::Integer32(v) => match helpers::cast_to_u16(v.value as i128) {
                Ok(x) => Ok(UnsignedInteger16Value::create(x)),
                Err(m) => Err(m),
            },
            RuntimeValue::Integer64(v) => match helpers::cast_to_u16(v.value as i128) {
                Ok(x) => Ok(UnsignedInteger16Value::create(x)),
                Err(m) => Err(m),
            },
            RuntimeValue::Integer128(v) => match helpers::cast_to_u16(v.value as i128) {
                Ok(x) => Ok(UnsignedInteger16Value::create(x)),
                Err(m) => Err(m),
            },
            RuntimeValue::UnsignedInteger8(v) => match helpers::cast_to_u16(v.value as i128) {
                Ok(x) => Ok(UnsignedInteger16Value::create(x)),
                Err(m) => Err(m),
            },
            RuntimeValue::UnsignedInteger16(v) => Ok(UnsignedInteger16Value::create(v.value)),
            RuntimeValue::UnsignedInteger32(v) => match helpers::cast_to_u16(v.value as i128) {
                Ok(x) => Ok(UnsignedInteger16Value::create(x)),
                Err(m) => Err(m),
            },
            RuntimeValue::UnsignedInteger64(v) => match helpers::cast_to_u16(v.value as i128) {
                Ok(x) => Ok(UnsignedInteger16Value::create(x)),
                Err(m) => Err(m),
            },
            RuntimeValue::UnsignedInteger128(v) => match helpers::cast_u128_to_u16(v.value) {
                Ok(x) => Ok(UnsignedInteger16Value::create(x)),
                Err(m) => Err(m),
            },
            _ => Err(String::from_str("cannot cast a non-integer value into an u16")),
        }
    }

    /// Checked conversion of any integer-kind value into the `u32` kind.
    pub fn as_u32(self) -> (r: Result<UnsignedInteger32Value, String>)
        ensures
            match r {
                Ok(v) => self@.is_integer() && 0 <= self@.int_value() <= u32::MAX as int
                    && v.value as int == self@.int_value() && v.value_type is UnsignedInteger32,
                Err(_) => !self@.is_integer() || self@.int_value() < 0
                    || self@.int_value() > u32::MAX as int,
            },
    {
        match self {
            RuntimeValue::Integer8(v) => match helpers::cast_to_u32(v.value as i128) {
                Ok(x) => Ok(UnsignedInteger32Value::create(x)),
                Err(m) => Err(m),
            },
            RuntimeValue::Integer16(v) => match helpers::cast_to_u32(v.value as i128) {
                Ok(x) => Ok(UnsignedInteger32Value::create(x)),
                Err(m) => Err(m),
            },
            RuntimeValue::Integer32(v) => match helpers::cast_to_u32(v.value as i128) {
                Ok(x) => Ok(UnsignedInteger32Value::create(x)),
                Err(m) => Err(m),
            },
            RuntimeValue::Integer64(v) => match helpers::cast_to_u32(v.value as i128) {
                Ok(x) => Ok(UnsignedInteger32Value::create(x)),
                Err(m) => Err(m),
            },
            RuntimeValue::Integer128(v) => match helpers::cast_to_u32(v.value as i128) {
                Ok(x) => Ok(UnsignedInteger32Value::create(x)),
                Err(m) => Err(m),
            },
            RuntimeValue::UnsignedInteger8(v) => match helpers::cast_to_u32(v.value as i128) {
                Ok(x) => Ok(UnsignedInteger32Value::create(x)),
                Err(m) => Err(m),
            },
            RuntimeValue::UnsignedInteger16(v) => match helpers::cast_to_u32(v.value as i128) {
                Ok(x) => Ok(UnsignedInteger32Value::create(x)),
                Err(m) => Err(m),
            },
            RuntimeValue::UnsignedInteger32(v) => Ok(UnsignedInteger32Value::create(v.value)),
            RuntimeValue::UnsignedInteger64(v) => match helpers::cast_to_u32(v.value as i128) {
                Ok(x) => Ok(UnsignedInteger32Value::create(x)),
                Err(m) => Err(m),
            },
            RuntimeValue::UnsignedInteger128(v) => match helpers::cast_u128_to_u32(v.value) {
                Ok(x) => Ok(UnsignedInteger32Value::create(x)),
                Err(m) => Err(m),
            },
            _ => Err(String::from_str("cannot cast a non-integer value into an u32")),
        }
    }

    /// Checked conversion of any integer-kind value into the `u64` kind.
    pub fn as_u64(self) -> (r: Result<UnsignedInteger64Value, String>)
        ensures
            match r {
                Ok(v) => self@.is_integer() && 0 <= self@.int_value() <= u64::MAX as int
                    && v.value as int == self@.int_value() && v.value_type is UnsignedInteger64,
                Err(_) => !self@.is_integer() || self@.int_value() < 0
                    || self@.int_value() > u64::MAX as int,
            },
    {
        match self {
            RuntimeValue::Integer8(v) => match helpers::cast_to_u64(v.value as i128) {
                Ok(x) => Ok(UnsignedInteger64Value::create(x)),
                Err(m) => Err(m),
            },
            RuntimeValue::Integer16(v) => match helpers::cast_to_u64(v.value as i128) {
                Ok(x) => Ok(UnsignedInteger64Value::create(x)),
                Err(m) => Err(m),
            },
            RuntimeValue::Integer32(v) => match helpers::cast_to_u64(v.value as i128) {
                Ok(x) => Ok(UnsignedInteger64Value::create(x)),
                Err(m) => Err(m),
            },
            RuntimeValue::Integer64(v) => match helpers::cast_to_u64(v.value as i128) {
                Ok(x) => Ok(UnsignedInteger64Value::create(x)),
                Err(m) => Err(m),
            },
            RuntimeValue::Integer128(v) => match helpers::cast_to_u64(v.value as i128) {
                Ok(x) => Ok(UnsignedInteger64Value::create(x)),
                Err(m) => Err(m),
            },
            RuntimeValue::UnsignedInteger8(v) => match helpers::cast_to_u64(v.value as i128) {
                Ok(x) => Ok(UnsignedInteger64Value::create(x)),
                Err(m) => Err(m),
            },
            RuntimeValue::UnsignedInteger16(v) => match helpers::cast_to_u64(v.value as i128) {
                Ok(x) => Ok(UnsignedInteger64Value::create(x)),
                Err(m) => Err(m),
            },
            RuntimeValue::UnsignedInteger32(v) => match helpers::cast_to_u64(v.value as i128) {
                Ok(x) => Ok(UnsignedInteger64Value::create(x)),
                Err(m) => Err(m),
            },
            RuntimeValue::UnsignedInteger64(v) => Ok(UnsignedInteger64Value::create(v.value)),
            RuntimeValue::UnsignedInteger128(v) => match helpers::cast_u128_to_u64(v.value) {
                Ok(x) => Ok(UnsignedInteger64Value::create(x)),
                Err(m) => Err(m),
            },
            _ => Err(String::from_str("cannot cast a non-integer value into an u64")),
        }
    }

    /// Checked conversion of any integer-kind value into the `u128` kind.
    pub fn as_u128(self) -> (r: Result<UnsignedInteger128Value, String>)
        ensures
            match r {
                Ok(v) => self@.is_integer() && 0 <= self@.int_value() <= u128::MAX as int
                    && v.value as int == self@.int_value() && v.value_type is UnsignedInteger128,
                Err(_) => !self@.is_integer() || self@.int_value() < 0
                    || self@.int_value() > u128::MAX as int,
            },
    {
        match self {
            RuntimeValue::Integer8(v) => match helpers::cast_to_u128(v.value as i128) {
                Ok(x) => Ok(UnsignedInteger128Value::create(x)),
                Err(m) => Err(m),
            },
            RuntimeValue::Integer16(v) => match helpers::cast_to_u128(v.value as i128) {
                Ok(x) => Ok(UnsignedInteger128Value::create(x)),
                Err(m) => Err(m),
            },
            RuntimeValue::Integer32(v) => match helpers::cast_to_u128(v.value as i128) {
                Ok(x) => Ok(UnsignedInteger128Value::create(x)),
                Err(m) => Err(m),
            },
            RuntimeValue::Integer64(v) => match helpers::cast_to_u128(v.value as i128) {
                Ok(x) => Ok(UnsignedInteger128Value::create(x)),
                Err(m) => Err(m),
            },
            RuntimeValue::Integer128(v) => match helpers::cast_to_u128(v.value as i128) {
                Ok(x) => Ok(UnsignedInteger128Value::create(x)),
                Err(m) => Err(m),
            },
            RuntimeValue::UnsignedInteger8(v) => match helpers::cast_to_u128(v.value as i128) {
                Ok(x) => Ok(UnsignedInteger128Value::create(x)),
                Err(m) => Err(m),
            },
            RuntimeValue::UnsignedInteger16(v) => match helpers::cast_to_u128(v.value as i128) {
                Ok(x) => Ok(UnsignedInteger128Value::create(x)),
                Err(m) => Err(m),
            },
            RuntimeValue::UnsignedInteger32(v) => match helpers::cast_to_u128(v.value as i128) {
                Ok(x) => Ok(UnsignedInteger128Value::create(x)),
                Err(m) => Err(m),
            },
            RuntimeValue::UnsignedInteger64(v) => match helpers::cast_to_u128(v.value as i128) {
                Ok(x) => Ok(UnsignedInteger128Value::create(x)),
                Err(m) => Err(m),
            },
            RuntimeValue::UnsignedInteger128(v) => Ok(UnsignedInteger128Value::create(v.value)),
            _ => Err(String::from_str("cannot cast a non-integer value into an u128")),
        }
    }

    /// Conversion of any numeric value into the 32-bit float kind; the
    /// host supplies the payload, so only the kind of the result is stated.
    pub fn as_f32<F: FloatHost>(self, host: &F) -> (r: Result<Float32Value, String>)
        ensures
            match r {
                Ok(v) => self@.is_digit() && v.value_type is Float32
                    && (self@ matches ValueModel::Float32 { bits } ==> v.bits == bits),
                Err(_) => !self@.is_digit(),
            },
    {
        match self {
            RuntimeValue::Integer8(v) => Ok(Float32Value::create(host.f32_from_int(v.value as i128))),
            RuntimeValue::Integer16(v) => Ok(Float32Value::create(host.f32_from_int(v.value as i128))),
            RuntimeValue::Integer32(v) => Ok(Float32Value::create(host.f32_from_int(v.value as i128))),
            RuntimeValue::Integer64(v) => Ok(Float32Value::create(host.f32_from_int(v.value as i128))),
            RuntimeValue::Integer128(v) => Ok(Float32Value::create(host.f32_from_int(v.value))),
            RuntimeValue::UnsignedInteger8(v) => Ok(Float32Value::create(host.f32_from_int(v.value as i128))),
            RuntimeValue::UnsignedInteger16(v) => Ok(Float32Value::create(host.f32_from_int(v.value as i128))),
            RuntimeValue::UnsignedInteger32(v) => Ok(Float32Value::create(host.f32_from_int(v.value as i128))),
            RuntimeValue::UnsignedInteger64(v) => Ok(Float32Value::create(host.f32_from_int(v.value as i128))),
            RuntimeValue::UnsignedInteger128(v) => Ok(Float32Value::create(host.f32_from_u128(v.value))),
            RuntimeValue::Float32(v) => Ok(Float32Value::create(v.bits)),
            RuntimeValue::Float64(v) => Ok(Float32Value::create(host.f32_from_f64_bits(v.bits))),
            _ => Err(String::from_str("cannot cast a non-numeric value into an f32")),
        }
    }

    /// Conversion of any numeric value into the 64-bit float kind; the
    /// host supplies the payload, so only the kind of the result is stated.
    pub fn as_f64<F: FloatHost>(self, host: &F) -> (r: Result<Float64Value, String>)
        ensures
            match r {
                Ok(v) => self@.is_digit() && v.value_type is Float64
                    && (self@ matches ValueModel::Float64 { bits } ==> v.bits == bits),
                Err(_) => !self@.is_digit(),
            },
    {
        match self {
            RuntimeValue::Integer8(v) => Ok(Float64Value::create(host.f64_from_int(v.value as i128))),
            RuntimeValue::Integer16(v) => Ok(Float64Value::create(host.f64_from_int(v.value as i128))),
            RuntimeValue::Integer32(v) => Ok(Float64Value::create(host.f64_from_int(v.value as i128))),
            RuntimeValue::Integer64(v) => Ok(Float64Value::create(host.f64_from_int(v.value as i128))),
            RuntimeValue::Integer128(v) => Ok(Float64Value::create(host.f64_from_int(v.value))),
            RuntimeValue::UnsignedInteger8(v) => Ok(Float64Value::create(host.f64_from_int(v.value as i128))),
            RuntimeValue::UnsignedInteger16(v) => Ok(Float64Value::create(host.f64_from_int(v.value as i128))),
            RuntimeValue::UnsignedInteger32(v) => Ok(Float64Value::create(host.f64_from_int(v.value as i128))),
            RuntimeValue::UnsignedInteger64(v) => Ok(Float64Value::create(host.f64_from_int(v.value as i128))),
            RuntimeValue::UnsignedInteger128(v) => Ok(Float64Value::create(host.f64_from_u128(v.value))),
            RuntimeValue::Float32(v) => Ok(Float64Value::create(host.f64_from_f32_bits(v.bits))),
            RuntimeValue::Float64(v) => Ok(Float64Value::create(v.bits)),
            _ => Err(String::from_str("cannot cast a non-numeric value into an f64")),
        }
    }
}

impl Clone for Integer8Value {
    fn clone(&self) -> (r: Self)
        ensures
            r == *self,
    {
        Integer8Value { value_type: self.value_type, value: self.value }
    }
}

impl Clone for Integer16Value {
    fn clone(&self) -> (r: Self)
        ensures
            r == *self,
    {
        Integer16Value { value_type: self.value_type, value: self.value }
    }
}

impl Clone for Integer32Value {
    fn clone(&self) -> (r: Self)
        ensures
            r == *self,
    {
        Integer32Value { value_type: self.value_type, value: self.value }
    }
}

impl Clone for Integer64Value {
    fn clone(&self) -> (r: Self)
        ensures
            r == *self,
    {
        Integer64Value { value_type: self.value_type, value: self.value }
    }
}

impl Clone for Integer128Value {
    fn clone(&self) -> (r: Self)
        ensures
            r == *self,
    {
        Integer128Value { value_type: self.value_type, value: self.value }
    }
}

impl Clone for UnsignedInteger8Value {
    fn clone(&self) -> (r: Self)
        ensures
            r == *self,
    {
        UnsignedInteger8Value { value_type: self.value_type, value: self.value }
    }
}

impl Clone for UnsignedInteger16Value {
    fn clone(&self) -> (r: Self)
        ensures
            r == *self,
    {
        UnsignedInteger16Value { value_type: self.value_type, value: self.value }
    }
}

impl Clone for UnsignedInteger32Value {
    fn clone(&self) -> (r: Self)
        ensures
            r == *self,
    {
        UnsignedInteger32Value { value_type: self.value_type, value: self.value }
    }
}

impl Clone for UnsignedInteger64Value {
    fn clone(&self) -> (r: Self)
        ensures
            r == *self,
    {
        UnsignedInteger64Value { value_type: self.value_type, value: self.value }
    }
}

impl Clone for UnsignedInteger128Value {
    fn clone(&self) -> (r: Self)
        ensures
            r == *self,
    {
        UnsignedInteger128Value { value_type: self.value_type, value: self.value }
    }
}

impl Clone for Float32Value {
    fn clone(&self) -> (r: Self)
        ensures
            r == *self,
    {
        Float32Value { value_type: self.value_type, bits: self.bits }
    }
}

impl Clone for Float64Value {
    fn clone(&self) -> (r: Self)
        ensures
            r == *self,
    {
        Float64Value { value_type: self.value_type, bits: self.bits }
    }
}

impl Clone for StringValue {
    fn clone(&self) -> (r: Self)
        ensures
            r == *self,
    {
        StringValue { value_type: self.value_type, value: self.value.clone() }
    }
}

impl Clone for CharacterValue {
    fn clone(&self) -> (r: Self)
        ensures
            r == *self,
    {
        CharacterValue { value_type: self.value_type, value: self.value }
    }
}

impl Clone for BooleanValue {
    fn clone(&self) -> (r: Self)
        ensures
            r == *self,
    {
        BooleanValue { value_type: self.value_type, value: self.value }
    }
}

impl Clone for NullValue {
    fn clone(&self) -> (r: Self)
        ensures
            r == *self,
    {
        NullValue { value_type: self.value_type, value: self.value.clone() }
    }
}

impl Clone for RuntimeValue {
    fn clone(&self) -> (r: Self)
        ensures
            r == *self,
    {
        match self {
            RuntimeValue::Integer8(x) => RuntimeValue::Integer8(x.clone()),
            RuntimeValue::Integer16(x) => RuntimeValue::Integer16(x.clone()),
            RuntimeValue::Integer32(x) => RuntimeValue::Integer32(x.clone()),
            RuntimeValue::Integer64(x) => RuntimeValue::Integer64(x.clone()),
            RuntimeValue::Integer128(x) => RuntimeValue::Integer128(x.clone()),
            RuntimeValue::UnsignedInteger8(x) => RuntimeValue::UnsignedInteger8(x.clone()),
            RuntimeValue::UnsignedInteger16(x) => RuntimeValue::UnsignedInteger16(x.clone()),
            RuntimeValue::UnsignedInteger32(x) => RuntimeValue::UnsignedInteger32(x.clone()),
            RuntimeValue::UnsignedInteger64(x) => RuntimeValue::UnsignedInteger64(x.clone()),
            RuntimeValue::UnsignedInteger128(x) => RuntimeValue::UnsignedInteger128(x.clone()),
            RuntimeValue::Float32(x) => RuntimeValue::Float32(x.clone()),
            RuntimeValue::Float64(x) => RuntimeValue::Float64(x.clone()),
            RuntimeValue::Str(x) => RuntimeValue::Str(x.clone()),
            RuntimeValue::Character(x) => RuntimeValue::Character(x.clone()),
            RuntimeValue::Boolean(x) => RuntimeValue::Boolean(x.clone()),
            RuntimeValue::Null(x) => RuntimeValue::Null(x.clone()),
        }
    }
}


/// A result's view: the value's model on success, a bare marker on error
/// (diagnostic texts carry no specified content).
pub open spec fn view_result(r: Result<RuntimeValue, String>) -> Result<ValueModel, ()> {
    match r {
        Ok(v) => Ok(v@),
        Err(_) => Err(()),
    }
}

} // verus!

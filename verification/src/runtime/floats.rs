use vstd::prelude::*;

verus! {

/// Floating-point work is delegated to the embedding program, which owns
/// the machine's float unit.  Payloads cross this boundary as raw IEEE 754
/// bit patterns (`u32` for 32-bit floats, `u64` for 64-bit floats), so the
/// verified core never holds a native float.  Nothing is assumed about the
/// results: contracts that involve float payloads state the kind of the
/// outcome and no more.
pub trait FloatHost {
    /// Bits of the 32-bit float nearest to a decimal literal
    /// (digits with at most one point).
    fn f32_from_decimal(&self, text: &str) -> u32;

    /// Bits of the 32-bit float nearest to a signed integer.
    fn f32_from_int(&self, value: i128) -> u32;

    /// Bits of the 32-bit float nearest to an unsigned integer.
    fn f32_from_u128(&self, value: u128) -> u32;

    /// Bits of the 32-bit float nearest to a 64-bit float.
    fn f32_from_f64_bits(&self, bits: u64) -> u32;

    /// Bits of the 64-bit float nearest to a signed integer.
    fn f64_from_int(&self, value: i128) -> u64;

    /// Bits of the 64-bit float nearest to an unsigned integer.
    fn f64_from_u128(&self, value: u128) -> u64;

    /// Bits of the 64-bit float equal to a 32-bit float.
    fn f64_from_f32_bits(&self, bits: u32) -> u64;

    /// One step of 32-bit float arithmetic; the operator is one of
    /// `+ - * / %`.
    fn f32_arithmetic(&self, operator: &str, left: u32, right: u32) -> u32;

    /// One step of 64-bit float arithmetic; the operator is one of
    /// `+ - * / %`.
    fn f64_arithmetic(&self, operator: &str, left: u64, right: u64) -> u64;
}

} // verus!

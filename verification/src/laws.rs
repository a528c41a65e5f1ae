use vstd::prelude::*;

use crate::frontend::ast::ExprModel;
use crate::runtime::environment::{model_declare, model_lookup, ScopeModel};
use crate::runtime::helpers::{coerce_rel, int_coerce_rel};
use crate::runtime::interpreter::eval_expr_rel;
use crate::runtime::values::{ValueModel, ValueType};

verus! {

/// The ten integer kind names are pairwise distinct, so declared-type
/// enforcement on an integer kind's name reduces to the kind's own
/// range-checked coercion.
pub proof fn lemma_coerce_integer_name(kind: ValueType, v: ValueModel, out: Result<ValueModel, ()>)
    requires
        kind.is_integer_kind(),
    ensures
        coerce_rel(kind.name(), v, out) == int_coerce_rel(kind, v, out),
{
    reveal_strlit("i8");
    reveal_strlit("i16");
    reveal_strlit("i32");
    reveal_strlit("i64");
    reveal_strlit("i128");
    reveal_strlit("u8");
    reveal_strlit("u16");
    reveal_strlit("u32");
    reveal_strlit("u64");
    reveal_strlit("u128");
    assert("i8"@.len() == 2 && "i8"@[0] == 'i' && "i8"@[1] == '8');
    assert("i16"@.len() == 3 && "i16"@[0] == 'i' && "i16"@[1] == '1' && "i16"@[2] == '6');
    assert("i32"@.len() == 3 && "i32"@[0] == 'i' && "i32"@[1] == '3' && "i32"@[2] == '2');
    assert("i64"@.len() == 3 && "i64"@[0] == 'i' && "i64"@[1] == '6' && "i64"@[2] == '4');
    assert("i128"@.len() == 4 && "i128"@[0] == 'i' && "i128"@[1] == '1' && "i128"@[2] == '2' && "i128"@[3] == '8');
    assert("u8"@.len() == 2 && "u8"@[0] == 'u' && "u8"@[1] == '8');
    assert("u16"@.len() == 3 && "u16"@[0] == 'u' && "u16"@[1] == '1' && "u16"@[2] == '6');
    assert("u32"@.len() == 3 && "u32"@[0] == 'u' && "u32"@[1] == '3' && "u32"@[2] == '2');
    assert("u64"@.len() == 3 && "u64"@[0] == 'u' && "u64"@[1] == '6' && "u64"@[2] == '4');
    assert("u128"@.len() == 4 && "u128"@[0] == 'u' && "u128"@[1] == '1' && "u128"@[2] == '2' && "u128"@[3] == '8');
    assert("i16"@ != "i8"@);
    assert("i32"@ != "i8"@);
    assert("i32"@ != "i16"@);
    assert("i64"@ != "i8"@);
    assert("i64"@ != "i16"@);
    assert("i64"@ != "i32"@);
    assert("i128"@ != "i8"@);
    assert("i128"@ != "i16"@);
    assert("i128"@ != "i32"@);
    assert("i128"@ != "i64"@);
    assert("u8"@ != "i8"@);
    assert("u8"@ != "i16"@);
    assert("u8"@ != "i32"@);
    assert("u8"@ != "i64"@);
    assert("u8"@ != "i128"@);
    assert("u16"@ != "i8"@);
    assert("u16"@ != "i16"@);
    assert("u16"@ != "i32"@);
    assert("u16"@ != "i64"@);
    assert("u16"@ != "i128"@);
    assert("u16"@ != "u8"@);
    assert("u32"@ != "i8"@);
    assert("u32"@ != "i16"@);
    assert("u32"@ != "i32"@);
    assert("u32"@ != "i64"@);
    assert("u32"@ != "i128"@);
    assert("u32"@ != "u8"@);
    assert("u32"@ != "u16"@);
    assert("u64"@ != "i8"@);
    assert("u64"@ != "i16"@);
    assert("u64"@ != "i32"@);
    assert("u64"@ != "i64"@);
    assert("u64"@ != "i128"@);
    assert("u64"@ != "u8"@);
    assert("u64"@ != "u16"@);
    assert("u64"@ != "u32"@);
    assert("u128"@ != "i8"@);
    assert("u128"@ != "i16"@);
    assert("u128"@ != "i32"@);
    assert("u128"@ != "i64"@);
    assert("u128"@ != "i128"@);
    assert("u128"@ != "u8"@);
    assert("u128"@ != "u16"@);
    assert("u128"@ != "u32"@);
    assert("u128"@ != "u64"@);
    match kind {
        ValueType::Integer8 => {},
        ValueType::Integer16 => {},
        ValueType::Integer32 => {},
        ValueType::Integer64 => {},
        ValueType::Integer128 => {},
        ValueType::UnsignedInteger8 => {},
        ValueType::UnsignedInteger16 => {},
        ValueType::UnsignedInteger32 => {},
        ValueType::UnsignedInteger64 => {},
        ValueType::UnsignedInteger128 => {},
        _ => {},
    }
}

/// Widening within one signedness is value-preserving: any in-range
/// value of a narrower integer kind coerces into a wider kind of the
/// same signedness, keeping the value exactly.
pub proof fn lemma_widening_cast_preserves(narrow: ValueType, wide: ValueType, value: int)
    requires
        narrow.is_integer_kind(),
        wide.is_integer_kind(),
        narrow.is_signed_kind() == wide.is_signed_kind(),
        wide.min_value() <= narrow.min_value(),
        narrow.max_value() <= wide.max_value(),
        narrow.min_value() <= value <= narrow.max_value(),
    ensures
        coerce_rel(
            wide.name(),
            ValueModel::Int { kind: narrow, value },
            Ok(ValueModel::Int { kind: if narrow == wide { narrow } else { wide }, value }),
        ),
{
    lemma_coerce_integer_name(
        wide,
        ValueModel::Int { kind: narrow, value },
        Ok(ValueModel::Int { kind: if narrow == wide { narrow } else { wide }, value }),
    );
}

/// A value outside an integer kind's representable range never coerces
/// into that kind: the cast fails rather than wrap or truncate.
pub proof fn lemma_out_of_range_cast_fails(kind: ValueType, v: ValueModel, out: Result<ValueModel, ()>)
    requires
        kind.is_integer_kind(),
        v.wf(),
        v is Int,
        v.int_value() < kind.min_value() || v.int_value() > kind.max_value(),
        coerce_rel(kind.name(), v, out),
    ensures
        out is Err,
{
    lemma_coerce_integer_name(kind, v, out);
}

/// Declaring a name in a nested scope shadows the outer binding: lookup
/// then finds the new value, while every outer scope keeps its own
/// bindings untouched.  (Redeclaring a name in one scope is refused by
/// `declare_variable` itself.)
pub proof fn lemma_shadowing(
    scopes: Seq<ScopeModel>,
    name: Seq<char>,
    inner: ValueModel,
    constant: bool,
)
    requires
        scopes.len() >= 1,
    ensures
        model_lookup(model_declare(scopes, name, inner, constant), name) == Some(inner),
        forall|d: int|
            1 <= d < scopes.len() ==> model_declare(scopes, name, inner, constant)[d] == scopes[d],
{
    let declared = model_declare(scopes, name, inner, constant);
    assert(declared[0].vars.contains_key(name));
    assert(declared[0].vars[name] == inner);
}

/// Referencing an undeclared identifier is an evaluation error and
/// nothing more: the environment is left as it was, and the verified
/// evaluator cannot abort on it.
pub proof fn lemma_unresolved_identifier_is_error(
    symbol: Seq<char>,
    env: Seq<ScopeModel>,
    out: Result<ValueModel, ()>,
    env2: Seq<ScopeModel>,
)
    requires
        model_lookup(env, symbol) is None,
        eval_expr_rel(ExprModel::Identifier { symbol }, env, out, env2),
    ensures
        out is Err,
        env2 == env,
{
}

} // verus!

use vstd::prelude::*;
use vstd::string::*;

use crate::frontend::ast::{
    expr_size, BinaryExpression, ExprModel, Expression, IdentifierExpression,
    VariableAssignmentExpression,
};
use crate::runtime::environment::Environment;
use crate::runtime::floats::FloatHost;
use crate::runtime::helpers::{
    cast_to_i16, cast_to_i32, cast_to_i64, cast_to_i8, cast_to_u16, cast_to_u32, cast_to_u64,
    cast_to_u8, coerce_rel, evaluate_variable_type, runtime_value_is_digit,
};
use crate::runtime::interpreter::{eval_expr_rel, eval_step};
use crate::runtime::values::{
    view_result, Float32Value, Float64Value, Integer128Value, Integer16Value, Integer32Value,
    Integer64Value, Integer8Value, NullValue, RuntimeValue, UnsignedInteger128Value,
    UnsignedInteger16Value, UnsignedInteger32Value, UnsignedInteger64Value,
    UnsignedInteger8Value, ValueModel,
};
use crate::text::{parse_i32_digits, str_eq};

verus! {

/// Division truncated toward zero, as the host's integer division behaves.
pub open spec fn trunc_div(x: int, d: int) -> int {
    if x == 0 {
        0
    } else if x > 0 && d > 0 {
        x / d
    } else if x < 0 && d < 0 {
        (x * -1) / (d * -1)
    } else if x < 0 {
        ((x * -1) / d) * -1
    } else {
        (x / (d * -1)) * -1
    }
}

/// Remainder of truncated division, as the host's `%` behaves.
pub open spec fn trunc_rem(x: int, d: int) -> int {
    if x == 0 {
        0
    } else if x > 0 && d > 0 {
        x % d
    } else if x < 0 && d < 0 {
        ((x * -1) % (d * -1)) * -1
    } else if x < 0 {
        ((x * -1) % d) * -1
    } else {
        x % (d * -1)
    }
}

/// The five arithmetic operators of the language.
pub open spec fn known_operator(operator: Seq<char>) -> bool {
    operator == "+"@ || operator == "-"@ || operator == "*"@ || operator == "/"@ || operator
        == "%"@
}

/// Exact mathematical result of one arithmetic step, before any range
/// check; nothing for an unknown operator or a zero divisor.
pub open spec fn spec_arith(operator: Seq<char>, left: int, right: int) -> Option<int> {
    if operator == "+"@ {
        Some(left + right)
    } else if operator == "-"@ {
        Some(left - right)
    } else if operator == "*"@ {
        Some(left * right)
    } else if operator == "/"@ {
        if right == 0 {
            None
        } else {
            Some(trunc_div(left, right))
        }
    } else if operator == "%"@ {
        if right == 0 {
            None
        } else {
            Some(trunc_rem(left, right))
        }
    } else {
        None
    }
}

/// What one binary arithmetic step may return: same-kind integers give
/// the checked host operation, same-kind floats give a float the host
/// computed, and every other combination gives null.
pub open spec fn binary_rel(
    operator: Seq<char>,
    left: ValueModel,
    right: ValueModel,
    out: Result<ValueModel, ()>,
) -> bool {
    if left.is_integer() && right.is_integer() && left.value_type() == right.value_type() {
        if known_operator(operator) {
            match spec_arith(operator, left.int_value(), right.int_value()) {
                Some(x) => if left.value_type().min_value() <= x <= left.value_type().max_value() {
                    out == Ok::<ValueModel, ()>(
                        ValueModel::Int { kind: left.value_type(), value: x },
                    )
                } else {
                    out is Err
                },
                None => out is Err,
            }
        } else {
            out is Err
        }
    } else if left is Float32 && right is Float32 {
        if known_operator(operator) {
            out matches Ok(v) && v is Float32
        } else {
            out is Err
        }
    } else if left is Float64 && right is Float64 {
        if known_operator(operator) {
            out matches Ok(v) && v is Float64
        } else {
            out is Err
        }
    } else {
        out matches Ok(v) && v is Null
    }
}

/// Whether the operator text is one of the five arithmetic operators.
pub fn is_known_operator(operator: &str) -> (r: bool)
    ensures
        r == known_operator(operator@),
{
    str_eq(operator, "+") || str_eq(operator, "-") || str_eq(operator, "*") || str_eq(
        operator,
        "/",
    ) || str_eq(operator, "%")
}

/// One arithmetic step on 128-bit signed integers: the exact result when
/// it is representable, an error for an unknown operator, a zero divisor
/// or a result out of range.  Narrower integer kinds widen into this
/// function and range-check the result afterwards.
pub fn evaluate_digit_binary_expression_result(
    left_value: i128,
    right_value: i128,
    operator: String,
) -> (r: Result<i128, String>)
    ensures
        match r {
            Ok(v) => known_operator(operator@) && spec_arith(
                operator@,
                left_value as int,
                right_value as int,
            ) == Some(v as int),
            Err(_) => !known_operator(operator@) || spec_arith(
                operator@,
                left_value as int,
                right_value as int,
            ) is None || (spec_arith(operator@, left_value as int, right_value as int)
                matches Some(x) && !(i128::MIN <= x <= i128::MAX)),
        },
{
    proof {
        reveal_strlit("+");
        reveal_strlit("-");
        reveal_strlit("*");
        reveal_strlit("/");
        reveal_strlit("%");
        assert("+"@[0] == '+' && "-"@[0] == '-' && "*"@[0] == '*' && "/"@[0] == '/' && "%"@[0]
            == '%');
        assert("-"@ != "+"@);
        assert("*"@ != "+"@ && "*"@ != "-"@);
        assert("/"@ != "+"@ && "/"@ != "-"@ && "/"@ != "*"@);
        assert("%"@ != "+"@ && "%"@ != "-"@ && "%"@ != "*"@ && "%"@ != "/"@);
    }
    let op = operator.as_str();
    if str_eq(op, "-") {
        match left_value.checked_sub(right_value) {
            Some(v) => Ok(v),
            None => Err(String::from_str("arithmetic result is out of the kind's range")),
        }
    } else if str_eq(op, "*") {
        match left_value.checked_mul(right_value) {
            Some(v) => Ok(v),
            None => Err(String::from_str("arithmetic result is out of the kind's range")),
        }
    } else if str_eq(op, "+") {
        match left_value.checked_add(right_value) {
            Some(v) => Ok(v),
            None => Err(String::from_str("arithmetic result is out of the kind's range")),
        }
    } else if str_eq(op, "/") {
        if right_value == 0 {
            Err(String::from_str("cannot divide by zero"))
        } else {
            match left_value.checked_div(right_value) {
                Some(v) => {
                    proof {
                        assert(v as int == trunc_div(left_value as int, right_value as int));
                    }
                    Ok(v)
                },
                None => {
                    proof {
                        assert(!(i128::MIN <= trunc_div(left_value as int, right_value as int)
                            <= i128::MAX));
                    }
                    Err(String::from_str("arithmetic result is out of the kind's range"))
                },
            }
        }
    } else if str_eq(op, "%") {
        if right_value == 0 {
            Err(String::from_str("cannot take a remainder by zero"))
        } else if right_value == -1 {
            proof {
                assert(trunc_rem(left_value as int, -1) == 0) by {
                    if left_value != 0 {
                        assert((left_value as int) % 1 == 0);
                        assert(((left_value as int) * -1) % 1 == 0);
                    }
                };
            }
            Ok(0)
        } else {
            match left_value.checked_rem(right_value) {
                Some(v) => {
                    proof {
                        assert(v as int == trunc_rem(left_value as int, right_value as int));
                    }
                    Ok(v)
                },
                None => {
                    proof {
                        assert(false);
                    }
                    Err(String::from_str("arithmetic result is out of the kind's range"))
                },
            }
        }
    } else {
        Err(String::from_str("unexpected operator found during binary expression evaluation"))
    }
}


/// One arithmetic step on 128-bit unsigned integers, with the same
/// checked behaviour as the signed form.
fn unsigned128_binary_result(left_value: u128, right_value: u128, operator: String) -> (r: Result<
    u128,
    String,
>)
    ensures
        match r {
            Ok(v) => known_operator(operator@) && spec_arith(
                operator@,
                left_value as int,
                right_value as int,
            ) == Some(v as int),
            Err(_) => !known_operator(operator@) || spec_arith(
                operator@,
                left_value as int,
                right_value as int,
            ) is None || (spec_arith(operator@, left_value as int, right_value as int)
                matches Some(x) && !(0 <= x <= u128::MAX)),
        },
{
    proof {
        reveal_strlit("+");
        reveal_strlit("-");
        reveal_strlit("*");
        reveal_strlit("/");
        reveal_strlit("%");
        assert("+"@[0] == '+' && "-"@[0] == '-' && "*"@[0] == '*' && "/"@[0] == '/' && "%"@[0]
            == '%');
        assert("-"@ != "+"@);
        assert("*"@ != "+"@ && "*"@ != "-"@);
        assert("/"@ != "+"@ && "/"@ != "-"@ && "/"@ != "*"@);
        assert("%"@ != "+"@ && "%"@ != "-"@ && "%"@ != "*"@ && "%"@ != "/"@);
    }
    let op = operator.as_str();
    if str_eq(op, "-") {
        match left_value.checked_sub(right_value) {
            Some(v) => Ok(v),
            None => Err(String::from_str("arithmetic result is out of the kind's range")),
        }
    } else if str_eq(op, "*") {
        match left_value.checked_mul(right_value) {
            Some(v) => Ok(v),
            None => Err(String::from_str("arithmetic result is out of the kind's range")),
        }
    } else if str_eq(op, "+") {
        match left_value.checked_add(right_value) {
            Some(v) => Ok(v),
            None => Err(String::from_str("arithmetic result is out of the kind's range")),
        }
    } else if str_eq(op, "/") {
        if right_value == 0 {
            Err(String::from_str("cannot divide by zero"))
        } else if left_value == 0 {
            Ok(0)
        } else {
            let v = left_value / right_value;
            proof {
                assert(v as int == trunc_div(left_value as int, right_value as int));
            }
            Ok(v)
        }
    } else if str_eq(op, "%") {
        if right_value == 0 {
            Err(String::from_str("cannot take a remainder by zero"))
        } else if left_value == 0 {
            Ok(0)
        } else {
            let v = left_value % right_value;
            proof {
                assert(v as int == trunc_rem(left_value as int, right_value as int));
            }
            Ok(v)
        }
    } else {
        Err(String::from_str("unexpected operator found during binary expression evaluation"))
    }
}

/// One binary arithmetic step on two already-evaluated values, §4.4:
/// defined only for operands of the identical numeric kind; every other
/// combination yields null.
#[verifier::rlimit(100)]
pub fn evaluate_digit_binary_expression<F: FloatHost>(
    left_hand_side: RuntimeValue,
    right_hand_side: RuntimeValue,
    operator: String,
    host: &F,
) -> (r: Result<RuntimeValue, String>)
    ensures
        binary_rel(operator@, left_hand_side@, right_hand_side@, view_result(r)),
{
    match (left_hand_side, right_hand_side) {
        (RuntimeValue::Integer8(lhs), RuntimeValue::Integer8(rhs)) => {
            match evaluate_digit_binary_expression_result(
                lhs.value as i128,
                rhs.value as i128,
                operator,
            ) {
                Ok(v) => match cast_to_i8(v) {
                    Ok(x) => Ok(Integer8Value::create(x).as_raw()),
                    Err(m) => Err(m),
                },
                Err(m) => Err(m),
            }
        },
        (RuntimeValue::Integer16(lhs), RuntimeValue::Integer16(rhs)) => {
            match evaluate_digit_binary_expression_result(
                lhs.value as i128,
                rhs.value as i128,
                operator,
            ) {
                Ok(v) => match cast_to_i16(v) {
                    Ok(x) => Ok(Integer16Value::create(x).as_raw()),
                    Err(m) => Err(m),
                },
                Err(m) => Err(m),
            }
        },
        (RuntimeValue::Integer32(lhs), RuntimeValue::Integer32(rhs)) => {
            match evaluate_digit_binary_expression_result(
                lhs.value as i128,
                rhs.value as i128,
                operator,
            ) {
                Ok(v) => match cast_to_i32(v) {
                    Ok(x) => Ok(Integer32Value::create(x).as_raw()),
                    Err(m) => Err(m),
                },
                Err(m) => Err(m),
            }
        },
        (RuntimeValue::Integer64(lhs), RuntimeValue::Integer64(rhs)) => {
            match evaluate_digit_binary_expression_result(
                lhs.value as i128,
                rhs.value as i128,
                operator,
            ) {
                Ok(v) => match cast_to_i64(v) {
                    Ok(x) => Ok(Integer64Value::create(x).as_raw()),
                    Err(m) => Err(m),
                },
                Err(m) => Err(m),
            }
        },
        (RuntimeValue::UnsignedInteger8(lhs), RuntimeValue::UnsignedInteger8(rhs)) => {
            match evaluate_digit_binary_expression_result(
                lhs.value as i128,
                rhs.value as i128,
                operator,
            ) {
                Ok(v) => match cast_to_u8(v) {
                    Ok(x) => Ok(UnsignedInteger8Value::create(x).as_raw()),
                    Err(m) => Err(m),
                },
                Err(m) => Err(m),
            }
        },
        (RuntimeValue::UnsignedInteger16(lhs), RuntimeValue::UnsignedInteger16(rhs)) => {
            match evaluate_digit_binary_expression_result(
                lhs.value as i128,
                rhs.value as i128,
                operator,
            ) {
                Ok(v) => match cast_to_u16(v) {
                    Ok(x) => Ok(UnsignedInteger16Value::create(x).as_raw()),
                    Err(m) => Err(m),
                },
                Err(m) => Err(m),
            }
        },
        (RuntimeValue::UnsignedInteger32(lhs), RuntimeValue::UnsignedInteger32(rhs)) => {
            match evaluate_digit_binary_expression_result(
                lhs.value as i128,
                rhs.value as i128,
                operator,
            ) {
                Ok(v) => match cast_to_u32(v) {
                    Ok(x) => Ok(UnsignedInteger32Value::create(x).as_raw()),
                    Err(m) => Err(m),
                },
                Err(m) => Err(m),
            }
        },
        (RuntimeValue::UnsignedInteger64(lhs), RuntimeValue::UnsignedInteger64(rhs)) => {
            match evaluate_digit_binary_expression_result(
                lhs.value as i128,
                rhs.value as i128,
                operator,
            ) {
                Ok(v) => match cast_to_u64(v) {
                    Ok(x) => Ok(UnsignedInteger64Value::create(x).as_raw()),
                    Err(m) => Err(m),
                },
                Err(m) => Err(m),
            }
        },
        (RuntimeValue::Integer128(lhs), RuntimeValue::Integer128(rhs)) => {
            match evaluate_digit_binary_expression_result(lhs.value, rhs.value, operator) {
                Ok(v) => Ok(Integer128Value::create(v).as_raw()),
                Err(m) => Err(m),
            }
        },
        (RuntimeValue::UnsignedInteger128(lhs), RuntimeValue::UnsignedInteger128(rhs)) => {
            match unsigned128_binary_result(lhs.value, rhs.value, operator) {
                Ok(v) => Ok(UnsignedInteger128Value::create(v).as_raw()),
                Err(m) => Err(m),
            }
        },
        (RuntimeValue::Float32(lhs), RuntimeValue::Float32(rhs)) => {
            if is_known_operator(operator.as_str()) {
                Ok(
                    Float32Value::create(
                        host.f32_arithmetic(operator.as_str(), lhs.bits, rhs.bits),
                    ).as_raw(),
                )
            } else {
                Err(String::from_str("unexpected operator found during binary expression evaluation"))
            }
        },
        (RuntimeValue::Float64(lhs), RuntimeValue::Float64(rhs)) => {
            if is_known_operator(operator.as_str()) {
                Ok(
                    Float64Value::create(
                        host.f64_arithmetic(operator.as_str(), lhs.bits, rhs.bits),
                    ).as_raw(),
                )
            } else {
                Err(String::from_str("unexpected operator found during binary expression evaluation"))
            }
        },
        (_, _) => Ok(NullValue::create().as_raw()),
    }
}


/// Evaluates a binary expression: left operand fully first, then right,
/// then one arithmetic step (§4.4); non-numeric operands give null.
#[verifier::rlimit(100)]
pub fn evaluate_binary_expression<F: FloatHost>(
    binary_expression: Box<BinaryExpression>,
    environment: &mut Environment,
    host: &F,
) -> (r: Result<RuntimeValue, String>)
    requires
        old(environment).wf(),
    ensures
        final(environment).wf(),
        eval_expr_rel(binary_expression@, old(environment)@, view_result(r), final(environment)@),
    decreases expr_size(binary_expression@), 0int,
{
    let ghost env0 = old(environment)@;
    let ghost model = binary_expression@;
    let BinaryExpression { left, right, operator, .. } = *binary_expression;
    let ghost left_model = left@;
    let ghost right_model = right@;
    let ghost op_text = operator@;
    proof {
        assert(model matches ExprModel::Binary { left: bl, right: br, operator: bo } && *bl
            == left_model && *br == right_model && bo == op_text);
    }
    let left_result = evaluate_expression(left, environment, host);
    let ghost env1 = environment@;
    let left_value = match left_result {
        Ok(v) => v,
        Err(m) => {
            proof {
                assert(model matches ExprModel::Binary { left: bl, .. } && eval_expr_rel(
                    *bl,
                    env0,
                    Err::<ValueModel, ()>(()),
                    env1,
                ));
                assert(eval_step(Err::<ValueModel, ()>(()), env1));
                assert(eval_expr_rel(model, env0, Err::<ValueModel, ()>(()), env1));
            }
            return Err(m);
        },
    };
    let ghost left_view = left_value@;
    let right_result = evaluate_expression(right, environment, host);
    let ghost env2 = environment@;
    let right_value = match right_result {
        Ok(v) => v,
        Err(m) => {
            proof {
                assert(model matches ExprModel::Binary { left: bl, right: br, .. }
                    && eval_expr_rel(*bl, env0, Ok::<ValueModel, ()>(left_view), env1)
                    && eval_expr_rel(*br, env1, Err::<ValueModel, ()>(()), env2));
                assert(eval_step(Ok::<ValueModel, ()>(left_view), env1));
                assert(eval_step(Err::<ValueModel, ()>(()), env2));
                assert(eval_expr_rel(model, env0, Err::<ValueModel, ()>(()), env2));
            }
            return Err(m);
        },
    };
    let ghost right_view = right_value@;
    if runtime_value_is_digit(&left_value) && runtime_value_is_digit(&right_value) {
        let result = evaluate_digit_binary_expression(left_value, right_value, operator, host);
        proof {
            assert(model matches ExprModel::Binary { left: bl, right: br, operator: bo }
                && eval_expr_rel(*bl, env0, Ok::<ValueModel, ()>(left_view), env1)
                && eval_expr_rel(*br, env1, Ok::<ValueModel, ()>(right_view), env2)
                && binary_rel(bo, left_view, right_view, view_result(result)));
            assert(eval_step(Ok::<ValueModel, ()>(left_view), env1));
            assert(eval_step(Ok::<ValueModel, ()>(right_view), env2));
            assert(eval_step(view_result(result), env2));
            assert(eval_expr_rel(model, env0, view_result(result), env2));
        }
        result
    } else {
        let result = Ok(NullValue::create().as_raw());
        proof {
            assert(model matches ExprModel::Binary { left: bl, right: br, .. }
                && eval_expr_rel(*bl, env0, Ok::<ValueModel, ()>(left_view), env1)
                && eval_expr_rel(*br, env1, Ok::<ValueModel, ()>(right_view), env2));
            assert(eval_step(Ok::<ValueModel, ()>(left_view), env1));
            assert(eval_step(Ok::<ValueModel, ()>(right_view), env2));
            assert(eval_step(view_result(result), env2));
            assert(eval_expr_rel(model, env0, view_result(result), env2));
        }
        result
    }
}

/// Looks the identifier up in the environment; an unresolved name is an
/// evaluation error, never an abort.
pub fn evaluate_identifier_expression(
    ast_node: IdentifierExpression,
    environment: &mut Environment,
) -> (r: Result<RuntimeValue, String>)
    requires
        old(environment).wf(),
    ensures
        final(environment).wf(),
        *final(environment) == *old(environment),
        eval_expr_rel(ast_node@, old(environment)@, view_result(r), final(environment)@),
{
    match environment.lookup_variable(ast_node.symbol) {
        Some(value) => Ok(value),
        None => Err(String::from_str("the variable does not exist")),
    }
}

/// Assigns a new value to an existing binding: the target must be an
/// identifier, the new value is coerced to the binding's current kind,
/// and the stored value is the expression's value.
#[verifier::rlimit(100)]
pub fn evaluate_assignment_expression<F: FloatHost>(
    ast_node: Box<VariableAssignmentExpression>,
    environment: &mut Environment,
    host: &F,
) -> (r: Result<RuntimeValue, String>)
    requires
        old(environment).wf(),
    ensures
        final(environment).wf(),
        eval_expr_rel(ast_node@, old(environment)@, view_result(r), final(environment)@),
    decreases expr_size(ast_node@), 0int,
{
    let ghost env0 = old(environment)@;
    let ghost model = ast_node@;
    let VariableAssignmentExpression { assignee, value, .. } = *ast_node;
    let ghost assignee_model = assignee@;
    let ghost value_model_early = value@;
    proof {
        assert(model matches ExprModel::Assignment { assignee: ba, value: bv } && *ba
            == assignee_model && *bv == value_model_early);
    }
    let assignee_ident = match assignee {
        Expression::Identifier(identifier) => identifier,
        _ => {
            return Err(
                String::from_str("invalid left hand side expression; expected an identifier"),
            );
        },
    };
    let ghost symbol = assignee_ident.symbol@;
    let variable_value = match environment.lookup_variable(assignee_ident.symbol.clone()) {
        Some(runtime_value) => runtime_value,
        None => {
            return Err(String::from_str("unknown variable detected during variable assignment"));
        },
    };
    let ghost current = variable_value@;
    let ghost value_model = value@;
    let value_result = evaluate_expression(value, environment, host);
    let ghost env1 = environment@;
    let new_value = match value_result {
        Ok(v) => v,
        Err(m) => {
            proof {
                assert(model matches ExprModel::Assignment { value: bv, .. } && eval_expr_rel(
                    *bv,
                    env0,
                    Err::<ValueModel, ()>(()),
                    env1,
                ));
                assert(eval_step(Err::<ValueModel, ()>(()), env1));
                assert(eval_expr_rel(model, env0, Err::<ValueModel, ()>(()), env1));
            }
            return Err(m);
        },
    };
    let ghost new_view = new_value@;
    let kind_string = variable_value.as_value_type().as_string();
    let coerce_result = evaluate_variable_type(
        Some(IdentifierExpression::create(kind_string)),
        assignee_ident.symbol.clone(),
        new_value,
        host,
    );
    let coerced = match coerce_result {
        Ok(v) => v,
        Err(m) => {
            proof {
                assert(model matches ExprModel::Assignment { value: bv, .. } && eval_expr_rel(
                    *bv,
                    env0,
                    Ok::<ValueModel, ()>(new_view),
                    env1,
                ) && coerce_rel(current.value_type().name(), new_view, Err::<ValueModel, ()>(())));
                assert(eval_step(Ok::<ValueModel, ()>(new_view), env1));
                assert(eval_expr_rel(model, env0, Err::<ValueModel, ()>(()), env1));
            }
            return Err(m);
        },
    };
    let ghost coerced_view = coerced@;
    match environment.assign_variable(assignee_ident.symbol, coerced.clone()) {
        Ok(_) => {
            proof {
                assert(model matches ExprModel::Assignment { value: bv, .. } && eval_expr_rel(
                    *bv,
                    env0,
                    Ok::<ValueModel, ()>(new_view),
                    env1,
                ) && coerce_rel(
                    current.value_type().name(),
                    new_view,
                    Ok::<ValueModel, ()>(coerced_view),
                ));
                assert(eval_step(Ok::<ValueModel, ()>(new_view), env1));
                assert(eval_expr_rel(model, env0, Ok::<ValueModel, ()>(coerced_view), environment@));
            }
            Ok(coerced)
        },
        Err(m) => {
            proof {
                assert(model matches ExprModel::Assignment { value: bv, .. } && eval_expr_rel(
                    *bv,
                    env0,
                    Ok::<ValueModel, ()>(new_view),
                    env1,
                ) && coerce_rel(
                    current.value_type().name(),
                    new_view,
                    Ok::<ValueModel, ()>(coerced_view),
                ));
                assert(eval_step(Ok::<ValueModel, ()>(new_view), env1));
                assert(eval_expr_rel(model, env0, Err::<ValueModel, ()>(()), environment@));
            }
            Err(m)
        },
    }
}

/// Evaluates one expression: literals parse here (an integer literal
/// becomes a 32-bit signed integer, a float literal a 32-bit float).
pub fn evaluate_expression<F: FloatHost>(
    expression: Expression,
    environment: &mut Environment,
    host: &F,
) -> (r: Result<RuntimeValue, String>)
    requires
        old(environment).wf(),
    ensures
        final(environment).wf(),
        eval_expr_rel(expression@, old(environment)@, view_result(r), final(environment)@),
    decreases expr_size(expression@), 1int,
{
    match expression {
        Expression::Float(float) => Ok(
            Float32Value::create(host.f32_from_decimal(float.value.as_str())).as_raw(),
        ),
        Expression::Integer(integer) => match parse_i32_digits(integer.value.as_str()) {
            Ok(v) => Ok(Integer32Value::create(v).as_raw()),
            Err(m) => Err(m),
        },
        Expression::Identifier(identifier) => evaluate_identifier_expression(
            identifier,
            environment,
        ),
        Expression::Binary(binary_expression) => evaluate_binary_expression(
            binary_expression,
            environment,
            host,
        ),
        Expression::VariableAssignment(assignment) => evaluate_assignment_expression(
            assignment,
            environment,
            host,
        ),
        Expression::Character(_) => Err(
            String::from_str("this AST node has not yet been implemented for interpretation"),
        ),
        Expression::Str(_) => Err(
            String::from_str("this AST node has not yet been implemented for interpretation"),
        ),
    }
}

} // verus!

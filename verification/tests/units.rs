use jarlang::frontend::lexer::{tokenise, TokenType};
use jarlang::runtime::environment::Environment;
use jarlang::runtime::expressions::evaluate_digit_binary_expression_result;
use jarlang::runtime::helpers::{cast_to_i8, cast_u128_to_u8};
use jarlang::runtime::values::{
    Integer64Value, Integer8Value, RuntimeValue, UnsignedInteger8Value, ValueType,
};

#[test]
fn widening_checked_cast_preserves_the_value() {
    let narrow = Integer8Value::create(5).as_raw();
    let widened = narrow.as_i64().unwrap();
    assert_eq!(widened.value, 5i64);
}

#[test]
fn out_of_range_checked_cast_fails() {
    let wide = Integer64Value::create(300).as_raw();
    assert!(wide.as_i8().is_err());
    let negative = Integer8Value::create(-1).as_raw();
    assert!(negative.as_u8().is_err());
}

#[test]
fn in_range_cross_signedness_cast_succeeds() {
    let small = UnsignedInteger8Value::create(100).as_raw();
    let signed = small.as_i8().unwrap();
    assert_eq!(signed.value, 100i8);
}

#[test]
fn non_numeric_value_refuses_integer_cast() {
    let flag = jarlang::runtime::values::BooleanValue::create(true).as_raw();
    assert!(flag.as_i32().is_err());
}

#[test]
fn cast_helpers_check_both_bounds() {
    assert_eq!(cast_to_i8(127).unwrap(), 127i8);
    assert!(cast_to_i8(128).is_err());
    assert!(cast_to_i8(-129).is_err());
    assert_eq!(cast_u128_to_u8(255).unwrap(), 255u8);
    assert!(cast_u128_to_u8(256).is_err());
}

#[test]
fn arithmetic_truncates_toward_zero() {
    let seven = 7i128;
    let minus_seven = -7i128;
    assert_eq!(
        evaluate_digit_binary_expression_result(seven, 3, String::from("/")).unwrap(),
        2
    );
    assert_eq!(
        evaluate_digit_binary_expression_result(minus_seven, 3, String::from("/")).unwrap(),
        -2
    );
    assert_eq!(
        evaluate_digit_binary_expression_result(seven, 3, String::from("%")).unwrap(),
        1
    );
    assert_eq!(
        evaluate_digit_binary_expression_result(minus_seven, 3, String::from("%")).unwrap(),
        -1
    );
}

#[test]
fn arithmetic_rejects_unknown_operators() {
    assert!(evaluate_digit_binary_expression_result(1, 2, String::from("^")).is_err());
}

#[test]
fn kind_names_match_the_surface_syntax() {
    assert_eq!(ValueType::Integer8.as_string(), "i8");
    assert_eq!(ValueType::UnsignedInteger128.as_string(), "u128");
    assert_eq!(ValueType::Float32.as_string(), "f32");
    assert_eq!(ValueType::Str.as_string(), "str");
    assert_eq!(ValueType::Null.as_string(), "null");
}

#[test]
fn shadowing_in_a_nested_scope_hides_the_outer_binding() {
    let mut parent = Environment::create(None);
    parent
        .declare_variable(String::from("x"), Integer8Value::create(1).as_raw(), false)
        .unwrap();
    let mut child = Environment::create(Some(Box::new(parent)));
    child
        .declare_variable(String::from("x"), Integer8Value::create(2).as_raw(), false)
        .unwrap();
    let seen = child.lookup_variable(String::from("x")).unwrap();
    assert!(matches!(seen, RuntimeValue::Integer8(v) if v.value == 2));
}

#[test]
fn lookup_returns_a_copy_not_a_reference() {
    let mut env = Environment::create(None);
    env.declare_variable(String::from("x"), Integer8Value::create(1).as_raw(), false)
        .unwrap();
    let before = env.lookup_variable(String::from("x")).unwrap();
    env.assign_variable(String::from("x"), Integer8Value::create(9).as_raw())
        .unwrap();
    assert!(matches!(before, RuntimeValue::Integer8(v) if v.value == 1));
    let after = env.lookup_variable(String::from("x")).unwrap();
    assert!(matches!(after, RuntimeValue::Integer8(v) if v.value == 9));
}

#[test]
fn init_global_scope_refuses_a_child_scope() {
    let parent = Environment::create(None);
    let mut child = Environment::create(Some(Box::new(parent)));
    assert!(child.init_global_scope().is_err());
}

#[test]
fn tokeniser_recognises_keywords_and_identifiers() {
    let tokens = tokenise("let x1 const bool").unwrap();
    let kinds: Vec<TokenType> = tokens.iter().map(|t| t.token_type).collect();
    assert_eq!(
        kinds,
        vec![
            TokenType::Let,
            TokenType::Identifier,
            TokenType::Const,
            TokenType::Boolean,
            TokenType::EOF
        ]
    );
    assert_eq!(tokens[1].value, "x1");
}

#[test]
fn tokeniser_reads_multi_character_operators() {
    let tokens = tokenise("=== !== ++ -- + -").unwrap();
    let kinds: Vec<TokenType> = tokens.iter().map(|t| t.token_type).collect();
    assert_eq!(
        kinds,
        vec![
            TokenType::Equality,
            TokenType::Inequality,
            TokenType::Increment,
            TokenType::Decrement,
            TokenType::BinaryOperator,
            TokenType::BinaryOperator,
            TokenType::EOF
        ]
    );
}

#[test]
fn tokeniser_survives_a_truncated_operator() {
    let lone_equals = tokenise("=").unwrap();
    assert_eq!(lone_equals[0].token_type, TokenType::Equals);
    let lone_bang = tokenise("!").unwrap();
    assert_eq!(lone_bang[0].token_type, TokenType::Not);
    let lone_plus = tokenise("+").unwrap();
    assert_eq!(lone_plus[0].token_type, TokenType::BinaryOperator);
}

#[test]
fn tokeniser_appends_the_end_of_stream_token() {
    let tokens = tokenise("").unwrap();
    assert_eq!(tokens.len(), 1);
    assert_eq!(tokens[0].token_type, TokenType::EOF);
    assert_eq!(tokens[0].value, "EndOfFile");
}

#[test]
fn number_with_one_point_is_one_token() {
    let tokens = tokenise("1.25").unwrap();
    assert_eq!(tokens[0].token_type, TokenType::Number);
    assert_eq!(tokens[0].value, "1.25");
    assert!(tokenise("1.2.5").is_err());
}

use jarlang::frontend::parser::Parser;
use jarlang::runtime::environment::Environment;
use jarlang::runtime::floats::FloatHost;
use jarlang::runtime::interpreter::evaluate;
use jarlang::runtime::values::RuntimeValue;

struct HostFloats;

impl FloatHost for HostFloats {
    fn f32_from_decimal(&self, text: &str) -> u32 {
        text.parse::<f32>().unwrap_or(f32::NAN).to_bits()
    }
    fn f32_from_int(&self, value: i128) -> u32 {
        (value as f32).to_bits()
    }
    fn f32_from_u128(&self, value: u128) -> u32 {
        (value as f32).to_bits()
    }
    fn f32_from_f64_bits(&self, bits: u64) -> u32 {
        (f64::from_bits(bits) as f32).to_bits()
    }
    fn f64_from_int(&self, value: i128) -> u64 {
        (value as f64).to_bits()
    }
    fn f64_from_u128(&self, value: u128) -> u64 {
        (value as f64).to_bits()
    }
    fn f64_from_f32_bits(&self, bits: u32) -> u64 {
        (f32::from_bits(bits) as f64).to_bits()
    }
    fn f32_arithmetic(&self, operator: &str, left: u32, right: u32) -> u32 {
        let a = f32::from_bits(left);
        let b = f32::from_bits(right);
        let r = match operator {
            "+" => a + b,
            "-" => a - b,
            "*" => a * b,
            "/" => a / b,
            "%" => a % b,
            _ => f32::NAN,
        };
        r.to_bits()
    }
    fn f64_arithmetic(&self, operator: &str, left: u64, right: u64) -> u64 {
        let a = f64::from_bits(left);
        let b = f64::from_bits(right);
        let r = match operator {
            "+" => a + b,
            "-" => a - b,
            "*" => a * b,
            "/" => a / b,
            "%" => a % b,
            _ => f64::NAN,
        };
        r.to_bits()
    }
}

fn run_program(source: &str) -> Result<RuntimeValue, String> {
    let mut parser = Parser::new();
    let program = parser.produce_ast(source)?;
    let mut environment = Environment::create(None);
    environment.init_global_scope()?;
    evaluate(program, &mut environment, &HostFloats)
}

#[test]
fn addition_of_integer_literals() {
    let result = run_program("1 + 2;").unwrap();
    assert!(matches!(result, RuntimeValue::Integer32(v) if v.value == 3));
}

#[test]
fn mixed_numeric_kinds_yield_null() {
    let result = run_program("1 + 2.0;").unwrap();
    assert!(matches!(result, RuntimeValue::Null(_)));
}

#[test]
fn reassignment_of_constant_fails() {
    let result = run_program("const x = 5; x = 6;");
    assert!(result.is_err());
}

#[test]
fn reassignment_of_let_binding_succeeds() {
    let result = run_program("let x = 5; x = 6; x;").unwrap();
    assert!(matches!(result, RuntimeValue::Integer32(v) if v.value == 6));
}

#[test]
fn duplicate_declaration_in_one_scope_fails() {
    let result = run_program("let x = 1; let x = 2;");
    assert!(result.is_err());
}

#[test]
fn narrow_annotation_out_of_range_fails() {
    let result = run_program("let x: i8 = 200;");
    assert!(result.is_err());
}

#[test]
fn narrow_annotation_in_range_converts() {
    let result = run_program("let x: i8 = 100; x;").unwrap();
    assert!(matches!(result, RuntimeValue::Integer8(v) if v.value == 100));
}

#[test]
fn wide_annotation_preserves_value() {
    let result = run_program("let x: i64 = 5; x;").unwrap();
    assert!(matches!(result, RuntimeValue::Integer64(v) if v.value == 5));
}

#[test]
fn negative_value_never_wraps_into_unsigned() {
    let result = run_program("let x: u8 = 0 - 1;");
    assert!(result.is_err());
}

#[test]
fn undeclared_identifier_is_an_error() {
    let result = run_program("missing;");
    assert!(result.is_err());
}

#[test]
fn bindings_persist_across_inputs_in_one_session() {
    let mut environment = Environment::create(None);
    environment.init_global_scope().unwrap();

    let mut parser = Parser::new();
    let first = parser.produce_ast("let a = 1;").unwrap();
    evaluate(first, &mut environment, &HostFloats).unwrap();

    let mut parser = Parser::new();
    let second = parser.produce_ast("a;").unwrap();
    let result = evaluate(second, &mut environment, &HostFloats).unwrap();
    assert!(matches!(result, RuntimeValue::Integer32(v) if v.value == 1));
}

#[test]
fn precedence_binds_multiplication_tighter() {
    let result = run_program("1 + 2 * 3;").unwrap();
    assert!(matches!(result, RuntimeValue::Integer32(v) if v.value == 7));
}

#[test]
fn parentheses_group_subexpressions() {
    let result = run_program("(1 + 2) * 3;").unwrap();
    assert!(matches!(result, RuntimeValue::Integer32(v) if v.value == 9));
}

#[test]
fn division_by_zero_is_an_error() {
    let result = run_program("1 / 0;");
    assert!(result.is_err());
}

#[test]
fn same_kind_overflow_is_an_error() {
    let result = run_program("let a: i8 = 100; let b: i8 = 100; a + b;");
    assert!(result.is_err());
}

#[test]
fn float_literal_becomes_a_32_bit_float() {
    let result = run_program("let f: f32 = 1.5; f;").unwrap();
    assert!(matches!(result, RuntimeValue::Float32(v) if v.bits == 1.5f32.to_bits()));
}

#[test]
fn integer_converts_to_float_annotation() {
    let result = run_program("let f: f32 = 2; f;").unwrap();
    assert!(matches!(result, RuntimeValue::Float32(v) if v.bits == 2.0f32.to_bits()));
}

#[test]
fn empty_program_evaluates_to_null() {
    let result = run_program("").unwrap();
    assert!(matches!(result, RuntimeValue::Null(_)));
}

#[test]
fn global_booleans_are_predeclared_constants() {
    let result = run_program("true;").unwrap();
    assert!(matches!(result, RuntimeValue::Boolean(v) if v.value));
    let overwrite = run_program("true = false;");
    assert!(overwrite.is_err());
}

#[test]
fn constant_without_initializer_is_a_parse_error() {
    let result = run_program("const x;");
    assert!(result.is_err());
}

#[test]
fn unknown_type_name_is_a_parse_error() {
    let result = run_program("let x: widget = 1;");
    assert!(result.is_err());
}

#[test]
fn second_decimal_point_is_a_lex_error() {
    let result = run_program("1.2.3;");
    assert!(result.is_err());
}

#[test]
fn unknown_character_is_a_lex_error() {
    let result = run_program("let $ = 1;");
    assert!(result.is_err());
}

#[test]
fn unterminated_parenthesis_is_a_parse_error() {
    let result = run_program("(1 + 2;");
    assert!(result.is_err());
}

#[test]
fn assignment_evaluates_to_the_stored_value() {
    let result = run_program("let x = 1; let y = 0; y = x + 4;").unwrap();
    assert!(matches!(result, RuntimeValue::Integer32(v) if v.value == 5));
}

#[test]
fn reassignment_coerces_to_the_existing_kind() {
    let result = run_program("let x: i8 = 1; x = 7; x;").unwrap();
    assert!(matches!(result, RuntimeValue::Integer8(v) if v.value == 7));
}

#[test]
fn reassignment_out_of_existing_kind_range_fails() {
    let result = run_program("let x: i8 = 1; x = 200;");
    assert!(result.is_err());
}

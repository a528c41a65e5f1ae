use vstd::prelude::*;

use crate::frontend::ast::{stmt_size, ExprModel, Statement, StmtModel};
use crate::runtime::environment::{
    model_assign, model_declare, model_is_constant, model_lookup, model_resolve, Environment,
    ScopeModel,
};
use crate::runtime::expressions::{binary_rel, evaluate_expression};
use crate::runtime::floats::FloatHost;
use crate::runtime::helpers::coerce_rel;
use crate::runtime::statements::{evaluate_program, evaluate_variable_declaration};
use crate::runtime::values::{view_result, RuntimeValue, ValueModel, ValueType};
use crate::text::{all_digits, str_to_int};

verus! {

/// Coercion against an optional annotation: none leaves the value as it
/// is, a name goes through declared-type enforcement.
pub open spec fn coerce_opt_rel(
    annotation: Option<Seq<char>>,
    v: ValueModel,
    out: Result<ValueModel, ()>,
) -> bool {
    match annotation {
        None => out == Ok::<ValueModel, ()>(v),
        Some(t) => coerce_rel(t, v, out),
    }
}

/// Trigger marker for the intermediate outcome and scope chain of one
/// evaluation step; always true, it only names the pair.
pub open spec fn eval_step(out: Result<ValueModel, ()>, env: Seq<ScopeModel>) -> bool {
    true
}

/// Big-step evaluation of an expression, as a relation between the
/// starting scope chain, the outcome, and the final scope chain.  Float
/// payloads come from the host, so where a float is produced only its
/// kind is constrained; everything else is pinned exactly.
pub open spec fn eval_expr_rel(
    e: ExprModel,
    env: Seq<ScopeModel>,
    out: Result<ValueModel, ()>,
    env2: Seq<ScopeModel>,
) -> bool
    decreases e,
{
    match e {
        ExprModel::Identifier { symbol } => env2 == env && (match model_lookup(env, symbol) {
            Some(v) => out == Ok::<ValueModel, ()>(v),
            None => out is Err,
        }),
        ExprModel::IntegerLit { text } => env2 == env && (if text.len() > 0 && all_digits(text)
            && str_to_int(text) <= i32::MAX {
            out == Ok::<ValueModel, ()>(
                ValueModel::Int { kind: ValueType::Integer32, value: str_to_int(text) },
            )
        } else {
            out is Err
        }),
        ExprModel::FloatLit { .. } => env2 == env && (out matches Ok(v) && v is Float32),
        ExprModel::CharacterLit { .. } => env2 == env && out is Err,
        ExprModel::StringLit { .. } => env2 == env && out is Err,
        ExprModel::Binary { left, right, operator } => exists|
            lr: Result<ValueModel, ()>,
            env1: Seq<ScopeModel>,
        |
            #[trigger] eval_step(lr, env1) && eval_expr_rel(*left, env, lr, env1) && (match lr {
                Err(_) => out is Err && env2 == env1,
                Ok(lv) => exists|rr: Result<ValueModel, ()>, env1b: Seq<ScopeModel>|
                    #[trigger] eval_step(rr, env1b) && eval_expr_rel(*right, env1, rr, env1b)
                        && (match rr {
                        Err(_) => out is Err && env2 == env1b,
                        Ok(rv) => env2 == env1b && (if lv.is_digit() && rv.is_digit() {
                            binary_rel(operator, lv, rv, out)
                        } else {
                            out matches Ok(v) && v is Null
                        }),
                    }),
            }),
        ExprModel::Assignment { assignee, value } => match *assignee {
            ExprModel::Identifier { symbol } => match model_lookup(env, symbol) {
                None => out is Err && env2 == env,
                Some(cur) => exists|vr: Result<ValueModel, ()>, env1: Seq<ScopeModel>|
                    #[trigger] eval_step(vr, env1) && eval_expr_rel(*value, env, vr, env1)
                        && (match vr {
                        Err(_) => out is Err && env2 == env1,
                        Ok(v1) => exists|cr: Result<ValueModel, ()>|
                            #[trigger] coerce_rel(cur.value_type().name(), v1, cr) && (match cr {
                                Err(_) => out is Err && env2 == env1,
                                Ok(vc) => if model_resolve(env1, symbol) is None
                                    || model_is_constant(env1, symbol) {
                                    out is Err && env2 == env1
                                } else {
                                    out == Ok::<ValueModel, ()>(vc) && env2 == model_assign(
                                        env1,
                                        symbol,
                                        vc,
                                    )
                                },
                            }),
                    }),
            },
            _ => out is Err && env2 == env,
        },
    }
}

/// Big-step evaluation of one statement.
pub open spec fn eval_stmt_rel(
    s: StmtModel,
    env: Seq<ScopeModel>,
    out: Result<ValueModel, ()>,
    env2: Seq<ScopeModel>,
) -> bool
    decreases s,
{
    match s {
        StmtModel::Program { body } => eval_block_rel(body, env, out, env2),
        StmtModel::Expr { expr } => eval_expr_rel(expr, env, out, env2),
        StmtModel::Declaration { constant, identifier, value, annotation } => match value {
            None => if env[0].vars.contains_key(identifier) {
                out is Err && env2 == env
            } else {
                out == Ok::<ValueModel, ()>(ValueModel::Null) && env2 == model_declare(
                    env,
                    identifier,
                    ValueModel::Null,
                    constant,
                )
            },
            Some(e) => exists|vr: Result<ValueModel, ()>, env1: Seq<ScopeModel>|
                #[trigger] eval_step(vr, env1) && eval_expr_rel(e, env, vr, env1) && (match vr {
                    Err(_) => out is Err && env2 == env1,
                    Ok(v1) => exists|cr: Result<ValueModel, ()>|
                        #[trigger] coerce_opt_rel(annotation, v1, cr) && (match cr {
                            Err(_) => out is Err && env2 == env1,
                            Ok(vc) => if env1[0].vars.contains_key(identifier) {
                                out is Err && env2 == env1
                            } else {
                                out == Ok::<ValueModel, ()>(vc) && env2 == model_declare(
                                    env1,
                                    identifier,
                                    vc,
                                    constant,
                                )
                            },
                        }),
                }),
        },
    }
}

/// Big-step evaluation of a statement list: statements run in order, an
/// error stops the run, and the block's value is the last statement's
/// value (null for an empty block).
pub open spec fn eval_block_rel(
    stmts: Seq<StmtModel>,
    env: Seq<ScopeModel>,
    out: Result<ValueModel, ()>,
    env2: Seq<ScopeModel>,
) -> bool
    decreases stmts,
{
    if stmts.len() == 0 {
        out == Ok::<ValueModel, ()>(ValueModel::Null) && env2 == env
    } else {
        exists|sr: Result<ValueModel, ()>, env1: Seq<ScopeModel>|
            #[trigger] eval_step(sr, env1) && eval_stmt_rel(stmts[0], env, sr, env1) && (match sr {
                Err(_) => out is Err && env2 == env1,
                Ok(v1) => if stmts.len() == 1 {
                    out == Ok::<ValueModel, ()>(v1) && env2 == env1
                } else {
                    eval_block_rel(stmts.subrange(1, stmts.len() as int), env1, out, env2)
                },
            })
    }
}


/// Recursive dispatch over the statement kinds, §4.5.
pub fn evaluate<F: FloatHost>(
    ast_node: Statement,
    environment: &mut Environment,
    host: &F,
) -> (r: Result<RuntimeValue, String>)
    requires
        old(environment).wf(),
    ensures
        final(environment).wf(),
        eval_stmt_rel(ast_node@, old(environment)@, view_result(r), final(environment)@),
    decreases stmt_size(ast_node@), 1int,
{
    match ast_node {
        Statement::Program(program) => evaluate_program(program, environment, host),
        Statement::VariableDeclaration(variable_declaration) => evaluate_variable_declaration(
            variable_declaration,
            environment,
            host,
        ),
        Statement::Expression(expression) => evaluate_expression(expression, environment, host),
    }
}

} // verus!

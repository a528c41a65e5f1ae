use vstd::prelude::*;
use vstd::string::*;

use crate::frontend::ast::{
    block_size, lemma_block_size_element, lemma_stmts_view, stmt_size, stmts_view,
    ProgramStatement, StmtModel, VariableDeclarationStatement,
};
use crate::runtime::environment::{Environment, ScopeModel};
use crate::runtime::expressions::evaluate_expression;
use crate::runtime::floats::FloatHost;
use crate::runtime::helpers::evaluate_variable_type;
use crate::runtime::interpreter::{coerce_opt_rel, eval_block_rel, eval_expr_rel, eval_step, eval_stmt_rel, evaluate};
use crate::runtime::values::{view_result, NullValue, RuntimeValue, ValueModel};

verus! {

/// Runs each statement of a program in order; the program's value is the
/// last statement's value, null for an empty program.
#[verifier::loop_isolation(false)]
pub fn evaluate_program<F: FloatHost>(
    program: ProgramStatement,
    environment: &mut Environment,
    host: &F,
) -> (r: Result<RuntimeValue, String>)
    requires
        old(environment).wf(),
    ensures
        final(environment).wf(),
        eval_stmt_rel(program@, old(environment)@, view_result(r), final(environment)@),
    decreases stmt_size(program@), 0int,
{
    let ghost env0 = old(environment)@;
    let ghost orig = program.body@;
    let ghost full = stmts_view(orig);
    proof {
        lemma_stmts_view(orig);
        assert(program@ == StmtModel::Program { body: full });
    }
    let mut last_evaluated = NullValue::create().as_raw();
    let mut body = program.body;
    let ghost mut k: int = 0;
    proof {
        assert(body@ =~= orig.subrange(0, orig.len() as int));
        assert(full.subrange(0, full.len() as int) =~= full);
    }
    while body.len() > 0
        invariant
            environment.wf(),
            0 <= k <= orig.len(),
            full.len() == orig.len(),
            full == stmts_view(orig),
            body@ == orig.subrange(k, orig.len() as int),
            forall|i: int| 0 <= i < orig.len() ==> full[i] == orig[i]@,
            k < orig.len() ==> forall|out: Result<ValueModel, ()>, env2: Seq<ScopeModel>|
                eval_block_rel(#[trigger] full.subrange(k, full.len() as int), environment@, out, env2)
                    ==> eval_block_rel(full, env0, out, env2),
            k == orig.len() ==> eval_block_rel(
                full,
                env0,
                Ok::<ValueModel, ()>(last_evaluated@),
                environment@,
            ),
        decreases body@.len(),
    {
        let ghost env_pre = environment@;
        let ghost remaining = full.subrange(k, full.len() as int);
        let statement = body.remove(0);
        proof {
            assert(statement == orig[k]);
            assert(body@ =~= orig.subrange(k + 1, orig.len() as int));
            assert(statement@ == full[k]);
            lemma_block_size_element(full, k);
            assert(stmt_size(statement@) <= block_size(full));
            assert(stmt_size(statement@) < stmt_size(StmtModel::Program { body: full }));
        }
        let result = evaluate(statement, environment, host);
        let ghost env_post = environment@;
        match result {
            Ok(value) => {
                last_evaluated = value;
                proof {
                    assert(eval_step(Ok::<ValueModel, ()>(last_evaluated@), env_post));
                    assert(eval_stmt_rel(
                        remaining[0],
                        env_pre,
                        Ok::<ValueModel, ()>(last_evaluated@),
                        env_post,
                    ));
                    if k + 1 == orig.len() {
                        assert(remaining.len() == 1);
                        assert(eval_block_rel(
                            remaining,
                            env_pre,
                            Ok::<ValueModel, ()>(last_evaluated@),
                            env_post,
                        ));
                        assert(eval_block_rel(
                            full,
                            env0,
                            Ok::<ValueModel, ()>(last_evaluated@),
                            env_post,
                        ));
                    } else {
                        let next = full.subrange(k + 1, full.len() as int);
                        assert(remaining.subrange(1, remaining.len() as int) =~= next);
                        assert forall|out: Result<ValueModel, ()>, env2: Seq<ScopeModel>|
                            #[trigger] eval_block_rel(next, env_post, out, env2) implies eval_block_rel(
                            full,
                            env0,
                            out,
                            env2,
                        ) by {
                            assert(eval_block_rel(remaining, env_pre, out, env2));
                        }
                    }
                    k = k + 1;
                }
            },
            Err(m) => {
                proof {
                    assert(eval_step(Err::<ValueModel, ()>(()), env_post));
                    assert(eval_stmt_rel(remaining[0], env_pre, Err::<ValueModel, ()>(()), env_post));
                    assert(eval_block_rel(remaining, env_pre, Err::<ValueModel, ()>(()), env_post));
                    assert(eval_block_rel(full, env0, Err::<ValueModel, ()>(()), env_post));
                }
                return Err(m);
            },
        }
    }
    proof {
        assert(k == orig.len());
        if orig.len() == 0 {
            assert(full.len() == 0);
        }
    }
    Ok(last_evaluated)
}

/// Evaluates the initializer (null when absent), enforces an annotation
/// when one is present, and declares the name in the current scope; the
/// statement's value is the stored value.
pub fn evaluate_variable_declaration<F: FloatHost>(
    variable_declaration: VariableDeclarationStatement,
    environment: &mut Environment,
    host: &F,
) -> (r: Result<RuntimeValue, String>)
    requires
        old(environment).wf(),
    ensures
        final(environment).wf(),
        eval_stmt_rel(
            variable_declaration@,
            old(environment)@,
            view_result(r),
            final(environment)@,
        ),
    decreases stmt_size(variable_declaration@), 0int,
{
    let ghost env0 = old(environment)@;
    let ghost model = variable_declaration@;
    let VariableDeclarationStatement { constant, identifier, value, value_type, .. } =
        variable_declaration;
    let ghost annotation = match &value_type {
        Some(t) => Some(t.symbol@),
        None => None::<Seq<char>>,
    };
    let stored: RuntimeValue;
    match value {
        Some(expression) => {
            proof {
                assert(model matches StmtModel::Declaration { value: Some(ve), .. } && ve
                    == expression@);
            }
            let ghost expr_model = expression@;
            let value_result = evaluate_expression(expression, environment, host);
            let ghost env1 = environment@;
            match value_result {
                Ok(runtime_val) => {
                    let ghost evaluated = runtime_val@;
                    proof {
                        assert(eval_step(Ok::<ValueModel, ()>(evaluated), env1));
                        assert(eval_expr_rel(
                            expr_model,
                            env0,
                            Ok::<ValueModel, ()>(evaluated),
                            env1,
                        ));
                    }
                    match evaluate_variable_type(value_type, identifier.clone(), runtime_val, host) {
                        Ok(v) => {
                            proof {
                                assert(coerce_opt_rel(
                                    annotation,
                                    evaluated,
                                    Ok::<ValueModel, ()>(v@),
                                ));
                            }
                            stored = v;
                        },
                        Err(m) => {
                            proof {
                                assert(coerce_opt_rel(annotation, evaluated, Err::<ValueModel, ()>(())));
                                assert(eval_stmt_rel(model, env0, Err::<ValueModel, ()>(()), env1));
                            }
                            return Err(m);
                        },
                    }
                },
                Err(m) => {
                    proof {
                        assert(eval_step(Err::<ValueModel, ()>(()), env1));
                        assert(eval_expr_rel(expr_model, env0, Err::<ValueModel, ()>(()), env1));
                        assert(eval_stmt_rel(model, env0, Err::<ValueModel, ()>(()), env1));
                    }
                    return Err(m);
                },
            }
        },
        None => {
            stored = NullValue::create().as_raw();
        },
    }
    let ghost stored_model = stored@;
    let declare_result = environment.declare_variable(identifier, stored.clone(), constant);
    match declare_result {
        Ok(_) => {
            proof {
                assert(eval_stmt_rel(
                    model,
                    env0,
                    Ok::<ValueModel, ()>(stored_model),
                    environment@,
                ));
            }
            Ok(stored)
        },
        Err(m) => {
            proof {
                assert(eval_stmt_rel(model, env0, Err::<ValueModel, ()>(()), environment@));
            }
            Err(m)
        },
    }
}

} // verus!

//! The simplification engine: term rewriting to a canonical reduced form.
//!
//! A single-step rewrite (`try_reduce`) fires at most one local rule at the
//! root of the tree, recursing into children only when no root rule
//! applies; `simplify` applies it to a fixpoint. Every successful rewrite
//! strictly shrinks the tree, so the fixpoint is reached, and the result is
//! irreducible, which makes simplification idempotent.

use vstd::prelude::*;

use crate::expression::{
    clone_expression, spec_identity_element, spec_size, BinaryOperation, BinaryOperationType,
    Expression, Function, Monomial,
};

verus! {

/// Rule: a sum of two monomials in the same variable with the same power
/// collapses to one monomial whose factor is the sum of the two factors.
/// The rule fires only when the summed factor is representable.
pub open spec fn reduce_like_terms(operation: BinaryOperation) -> Option<Expression> {
    match (operation.operation, *operation.left_value, *operation.right_value) {
        (
            BinaryOperationType::Addition,
            Expression::Monomial(m1),
            Expression::Monomial(m2),
        ) => if m1.variable == m2.variable && m1.power == m2.power && i64::MIN <= m1.factor
            + m2.factor <= i64::MAX {
            Some(
                Expression::Monomial(
                    Monomial {
                        factor: (m1.factor + m2.factor) as i64,
                        variable: m1.variable,
                        power: m1.power,
                    },
                ),
            )
        } else {
            None
        },
        _ => None,
    }
}

/// Rule: a product of a monomial and a constant, in either order, folds the
/// constant into the monomial's factor. The rule fires only when the folded
/// factor is representable.
pub open spec fn reduce_constant_factor(operation: BinaryOperation) -> Option<Expression> {
    match (operation.operation, *operation.left_value, *operation.right_value) {
        (
            BinaryOperationType::Multiplication,
            Expression::Monomial(m),
            Expression::Constant(constant),
        ) => fold_constant(m, constant),
        (
            BinaryOperationType::Multiplication,
            Expression::Constant(constant),
            Expression::Monomial(m),
        ) => fold_constant(m, constant),
        _ => None,
    }
}

/// The monomial with a constant folded into its factor, where representable.
pub open spec fn fold_constant(m: Monomial, constant: i64) -> Option<Expression> {
    if i64::MIN <= m.factor * constant <= i64::MAX {
        Some(
            Expression::Monomial(
                Monomial {
                    factor: (m.factor * constant) as i64,
                    variable: m.variable,
                    power: m.power,
                },
            ),
        )
    } else {
        None
    }
}

/// One rewrite step: `Some(reduced)` when a rule fires, `None` when the
/// expression is irreducible. For a binary operation the rules apply in
/// order: left identity, right identity, zero absorbs a product, a zero
/// numerator absorbs a quotient, like-term collection, constant folding
/// into a monomial, and only then reduction of the children. A sine of the
/// zero constant vanishes; otherwise a function application reduces its
/// argument. Constants, named constants and monomials are irreducible.
pub open spec fn try_reduce(e: Expression) -> Option<Expression>
    decreases e,
{
    match e {
        Expression::BinaryOperation(operation) => {
            let left = *operation.left_value;
            let right = *operation.right_value;
            if left == spec_identity_element(operation.operation) {
                Some(right)
            } else if right == spec_identity_element(operation.operation) {
                Some(left)
            } else if operation.operation == BinaryOperationType::Multiplication && (left
                == Expression::Constant(0) || right == Expression::Constant(0)) {
                Some(Expression::Constant(0))
            } else if operation.operation == BinaryOperationType::Division && left
                == Expression::Constant(0) {
                Some(Expression::Constant(0))
            } else if reduce_like_terms(operation) is Some {
                reduce_like_terms(operation)
            } else if reduce_constant_factor(operation) is Some {
                reduce_constant_factor(operation)
            } else {
                let left_reduced = try_reduce(left);
                let right_reduced = try_reduce(right);
                if left_reduced is None && right_reduced is None {
                    None
                } else {
                    Some(
                        Expression::BinaryOperation(
                            BinaryOperation {
                                operation: operation.operation,
                                left_value: Box::new(
                                    match left_reduced {
                                        Some(l) => l,
                                        None => left,
                                    },
                                ),
                                right_value: Box::new(
                                    match right_reduced {
                                        Some(r) => r,
                                        None => right,
                                    },
                                ),
                            },
                        ),
                    )
                }
            }
        },
        Expression::Function { function, expression } => {
            if function == Function::Sine && *expression == Expression::Constant(0) {
                Some(Expression::Constant(0))
            } else {
                match try_reduce(*expression) {
                    Some(reduced) => Some(
                        Expression::Function { function, expression: Box::new(reduced) },
                    ),
                    None => None,
                }
            }
        },
        _ => None,
    }
}

/// Every expression tree has at least one node.
proof fn lemma_size_positive(e: Expression)
    ensures
        spec_size(e) >= 1,
{
}

/// Every rewrite step strictly shrinks the tree.
pub proof fn lemma_try_reduce_shrinks(e: Expression)
    ensures
        try_reduce(e) matches Some(reduced) ==> spec_size(reduced) < spec_size(e),
    decreases e,
{
    match e {
        Expression::BinaryOperation(operation) => {
            let left = *operation.left_value;
            let right = *operation.right_value;
            lemma_try_reduce_shrinks(left);
            lemma_try_reduce_shrinks(right);
            lemma_size_positive(left);
            lemma_size_positive(right);
        },
        Expression::Function { function: _, expression } => {
            lemma_try_reduce_shrinks(*expression);
            lemma_size_positive(*expression);
        },
        _ => {},
    }
}

/// The canonical form: rewrite steps applied until none fires.
pub open spec fn simplify(e: Expression) -> Expression
    decreases spec_size(e),
    via simplify_decreases
{
    match try_reduce(e) {
        Some(reduced) => simplify(reduced),
        None => e,
    }
}

#[via_fn]
proof fn simplify_decreases(e: Expression) {
    lemma_try_reduce_shrinks(e);
}

/// The result of `simplify` is irreducible: no rewrite rule fires on it.
pub proof fn lemma_simplify_irreducible(e: Expression)
    ensures
        try_reduce(simplify(e)) is None,
    decreases spec_size(e),
{
    match try_reduce(e) {
        Some(reduced) => {
            lemma_try_reduce_shrinks(e);
            lemma_simplify_irreducible(reduced);
        },
        None => {},
    }
}

/// Law: simplification is idempotent. Simplifying an already simplified
/// expression changes nothing, for every expression.
pub proof fn lemma_simplify_idempotent(e: Expression)
    ensures
        simplify(simplify(e)) == simplify(e),
{
    lemma_simplify_irreducible(e);
}

/// An expression that is not a binary operation and not a function
/// application is already in canonical form.
pub proof fn lemma_simplify_leaf(e: Expression)
    requires
        e is Constant || e is NamedConstant || e is Monomial,
    ensures
        simplify(e) == e,
{
}

pub trait Simplifiable: Sized {
    /// The canonical form this value rewrites to.
    spec fn simplify_spec(&self) -> Self;

    /// Rewrites the value to its canonical form.
    fn simplify_expression(&self) -> (result: Self)
        ensures
            result == self.simplify_spec(),
    ;
}

impl Simplifiable for Expression {
    open spec fn simplify_spec(&self) -> Expression {
        simplify(*self)
    }

    fn simplify_expression(&self) -> (result: Expression) {
        simplify_to_fixpoint(self)
    }
}

/// Whether the expression is the given literal constant.
fn is_constant_value(e: &Expression, value: i64) -> (r: bool)
    ensures
        r == (*e == Expression::Constant(value)),
{
    match e {
        Expression::Constant(c) => *c == value,
        _ => false,
    }
}

/// Whether the expression is the identity element of the operation.
fn is_identity_element(e: &Expression, operation: BinaryOperationType) -> (r: bool)
    ensures
        r == (*e == spec_identity_element(operation)),
{
    match operation {
        BinaryOperationType::Addition | BinaryOperationType::Substraction => is_constant_value(
            e,
            0,
        ),
        BinaryOperationType::Multiplication | BinaryOperationType::Division => is_constant_value(
            e,
            1,
        ),
    }
}

/// Applies rewrite steps until none fires.
fn simplify_to_fixpoint(expr: &Expression) -> (result: Expression)
    ensures
        result == simplify(*expr),
    decreases spec_size(*expr),
{
    match do_simplify_expression(expr) {
        Some(exp) => {
            proof {
                lemma_try_reduce_shrinks(*expr);
            }
            simplify_to_fixpoint(&exp)
        },
        None => clone_expression(expr),
    }
}

/// One rewrite step at the root of a function application's argument.
fn simplify_function_subexpression(function: Function, expression: &Expression) -> (result: Option<
    Expression,
>)
    ensures
        result == (match try_reduce(*expression) {
            Some(reduced) => Some(
                (Expression::Function { function, expression: Box::new(reduced) }),
            ),
            None => None::<Expression>,
        }),
    decreases *expression, 1int,
{
    match do_simplify_expression(expression) {
        Some(exp) => Some(Expression::Function { function, expression: Box::new(exp) }),
        None => None,
    }
}

/// One rewrite step for a function application: a sine of the zero
/// constant vanishes; otherwise the argument is reduced if possible.
fn simplify_function(function: &Function, expression: &Expression) -> (result: Option<Expression>)
    ensures
        result == try_reduce(
            (Expression::Function { function: *function, expression: Box::new(*expression) }),
        ),
    decreases *expression, 2int,
{
    match function {
        Function::Cosine => simplify_function_subexpression(*function, expression),
        Function::Sine => {
            if is_constant_value(expression, 0) {
                Some(Expression::Constant(0))
            } else {
                simplify_function_subexpression(*function, expression)
            }
        },
    }
}

/// One rewrite step for a binary operation, in the rule order documented
/// on `try_reduce`. The two arithmetic rules use checked arithmetic: on an
/// unrepresentable factor the rule does not fire and rewriting falls
/// through to the children, which keeps the rewrite total.
fn simplify_operation(operation: &BinaryOperation) -> (result: Option<Expression>)
    ensures
        result == try_reduce((Expression::BinaryOperation(*operation))),
    decreases *operation, 2int,
{
    if is_identity_element(&operation.left_value, operation.operation) {
        return Some(clone_expression(&operation.right_value));
    }
    if is_identity_element(&operation.right_value, operation.operation) {
        return Some(clone_expression(&operation.left_value));
    }
    if operation.operation == BinaryOperationType::Multiplication && (is_constant_value(
        &operation.left_value,
        0,
    ) || is_constant_value(&operation.right_value, 0)) {
        return Some(Expression::Constant(0));
    }
    if operation.operation == BinaryOperationType::Division && is_constant_value(
        &operation.left_value,
        0,
    ) {
        return Some(Expression::Constant(0));
    }
    if operation.operation == BinaryOperationType::Addition {
        match (&*operation.left_value, &*operation.right_value) {
            (Expression::Monomial(m1), Expression::Monomial(m2)) => {
                if m1.variable == m2.variable && m1.power == m2.power {
                    if let Some(sum) = m1.factor.checked_add(m2.factor) {
                        return Some(
                            Expression::Monomial(
                                Monomial { factor: sum, variable: m1.variable, power: m1.power },
                            ),
                        );
                    }
                }
            },
            _ => {},
        }
    }
    if operation.operation == BinaryOperationType::Multiplication {
        match (&*operation.left_value, &*operation.right_value) {
            (Expression::Monomial(m), Expression::Constant(constant)) => {
                if let Some(product) = m.factor.checked_mul(*constant) {
                    return Some(
                        Expression::Monomial(
                            Monomial { factor: product, variable: m.variable, power: m.power },
                        ),
                    );
                }
            },
            (Expression::Constant(constant), Expression::Monomial(m)) => {
                if let Some(product) = m.factor.checked_mul(*constant) {
                    return Some(
                        Expression::Monomial(
                            Monomial { factor: product, variable: m.variable, power: m.power },
                        ),
                    );
                }
            },
            _ => {},
        }
    }
    simplify_operation_operands(operation)
}

/// One rewrite step inside a binary operation's children: if either child
/// reduces, rebuild the node around the reduced children; otherwise the
/// node is irreducible.
fn simplify_operation_operands(operation: &BinaryOperation) -> (result: Option<Expression>)
    ensures
        result == (match (try_reduce(*operation.left_value), try_reduce(
            *operation.right_value,
        )) {
            (None, None) => None::<Expression>,
            (left_reduced, right_reduced) => Some(
                (Expression::BinaryOperation(
                    BinaryOperation {
                        operation: operation.operation,
                        left_value: Box::new(
                            match left_reduced {
                                Some(l) => l,
                                None => *operation.left_value,
                            },
                        ),
                        right_value: Box::new(
                            match right_reduced {
                                Some(r) => r,
                                None => *operation.right_value,
                            },
                        ),
                    },
                )),
            ),
        }),
    decreases *operation, 1int,
{
    match (do_simplify_expression(&operation.left_value), do_simplify_expression(
        &operation.right_value,
    )) {
        (Some(left), Some(right)) => Some(
            Expression::BinaryOperation(
                BinaryOperation {
                    operation: operation.operation,
                    left_value: Box::new(left),
                    right_value: Box::new(right),
                },
            ),
        ),
        (Some(left), None) => Some(
            Expression::BinaryOperation(
                BinaryOperation {
                    operation: operation.operation,
                    left_value: Box::new(left),
                    right_value: Box::new(clone_expression(&operation.right_value)),
                },
            ),
        ),
        (None, Some(right)) => Some(
            Expression::BinaryOperation(
                BinaryOperation {
                    operation: operation.operation,
                    left_value: Box::new(clone_expression(&operation.left_value)),
                    right_value: Box::new(right),
                },
            ),
        ),
        (None, None) => None,
    }
}

/// One rewrite step at the root of an arbitrary expression.
fn do_simplify_expression(expr: &Expression) -> (result: Option<Expression>)
    ensures
        result == try_reduce(*expr),
    decreases *expr, 0int,
{
    match expr {
        Expression::Function { function, expression } => simplify_function(function, expression),
        Expression::BinaryOperation(operation) => simplify_operation(operation),
        _ => None,
    }
}

} // verus!

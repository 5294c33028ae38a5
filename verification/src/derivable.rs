//! The differentiation engine: symbolic differentiation of an expression
//! with respect to a variable, composed with the simplifier so that
//! callers observe a canonical result.
//!
//! Differentiation is partial: a quotient and a cosine (with the
//! derivation variable free in the argument) have no rule, and asking for
//! their derivative is a recoverable `UnsupportedConstruct` condition that
//! propagates to the caller rather than a silent default.

use vstd::prelude::*;

use crate::expression::{
    clone_expression, spec_variables, vec_contains_variable, BinaryOperation, BinaryOperationType,
    Expression, Function, Monomial, Variable,
};
use crate::simplifiable::{
    lemma_simplify_irreducible, lemma_simplify_leaf, simplify, try_reduce, Simplifiable,
};

verus! {

/// The one failure differentiation can report: the expression holds a
/// construct for which no differentiation rule is defined.
#[derive(Debug, Copy, Clone, PartialEq, Eq, Structural)]
pub enum DeriveError {
    UnsupportedConstruct,
}

/// The power rule on a single monomial: a monomial in another variable is
/// constant, a linear monomial degenerates to its coefficient, and
/// otherwise the power multiplies the factor and drops by one.
pub open spec fn spec_derive_monomial(monomial: Monomial, derivation_variable: Variable) -> Expression {
    if monomial.variable != derivation_variable {
        Expression::Constant(0)
    } else if monomial.power == 1 {
        Expression::Constant(monomial.factor)
    } else {
        Expression::Monomial(
            Monomial {
                factor: (monomial.factor * monomial.power) as i64,
                variable: monomial.variable,
                power: (monomial.power - 1) as u8,
            },
        )
    }
}

/// The raw (un-simplified) product rule: `d(l*r) = dl*r + dr*l`, with the
/// un-differentiated operand a structural copy of the original subtree.
pub open spec fn spec_product_rule(
    operation: BinaryOperation,
    left_derivative: Expression,
    right_derivative: Expression,
) -> Expression {
    Expression::BinaryOperation(
        BinaryOperation {
            operation: BinaryOperationType::Addition,
            left_value: Box::new(
                Expression::BinaryOperation(
                    BinaryOperation {
                        operation: BinaryOperationType::Multiplication,
                        left_value: Box::new(left_derivative),
                        right_value: operation.right_value,
                    },
                ),
            ),
            right_value: Box::new(
                Expression::BinaryOperation(
                    BinaryOperation {
                        operation: BinaryOperationType::Multiplication,
                        left_value: Box::new(right_derivative),
                        right_value: operation.left_value,
                    },
                ),
            ),
        },
    )
}

/// The derivative of an expression with respect to a variable, already in
/// canonical form; `None` where no differentiation rule is defined (a
/// quotient, or a cosine whose argument the variable occurs in).
///
/// A sine whose argument does not hold the variable short-circuits to
/// zero; otherwise its derivative is the cosine of the unchanged argument,
/// deliberately without the inner derivative: the rule is restricted to an
/// argument that is the bare derivation variable, not a general chain
/// rule.
///
/// The simplifier is the last step of every rule, so a caller observes a
/// canonical result, never a raw differentiated tree
/// (`lemma_derivative_canonical`).
pub open spec fn spec_derive(e: Expression, derivation_variable: Variable) -> Option<Expression>
    decreases e,
{
    match e {
        Expression::Constant(_) => Some(Expression::Constant(0)),
        Expression::NamedConstant(_) => Some(Expression::Constant(0)),
        Expression::Monomial(m) => Some(spec_derive_monomial(m, derivation_variable)),
        Expression::BinaryOperation(operation) => match operation.operation {
            BinaryOperationType::Addition | BinaryOperationType::Substraction => {
                match (
                    spec_derive(*operation.left_value, derivation_variable),
                    spec_derive(*operation.right_value, derivation_variable),
                ) {
                    (Some(left_derivative), Some(right_derivative)) => Some(
                        simplify(
                            (Expression::BinaryOperation(
                                BinaryOperation {
                                    operation: operation.operation,
                                    left_value: Box::new(left_derivative),
                                    right_value: Box::new(right_derivative),
                                },
                            )),
                        ),
                    ),
                    _ => None,
                }
            },
            BinaryOperationType::Multiplication => {
                match (
                    spec_derive(*operation.left_value, derivation_variable),
                    spec_derive(*operation.right_value, derivation_variable),
                ) {
                    (Some(left_derivative), Some(right_derivative)) => Some(
                        simplify(spec_product_rule(operation, left_derivative, right_derivative)),
                    ),
                    _ => None,
                }
            },
            BinaryOperationType::Division => None,
        },
        Expression::Function { function, expression } => {
            if !spec_variables(*expression).contains(derivation_variable) {
                Some(Expression::Constant(0))
            } else {
                match function {
                    Function::Sine => Some(
                        simplify((Expression::Function { function: Function::Cosine, expression })),
                    ),
                    Function::Cosine => None,
                }
            }
        },
    }
}

/// The inputs on which differentiation stays within the machine integers:
/// along every path the differentiation rules walk (they never enter a
/// function application's argument and never pass a quotient), a monomial
/// in the derivation variable has a power of at least one, and its factor
/// times its power is representable.
pub open spec fn derive_in_bounds(e: Expression, derivation_variable: Variable) -> bool
    decreases e,
{
    match e {
        Expression::Monomial(m) => m.variable == derivation_variable ==> {
            &&& 1 <= m.power
            &&& (2 <= m.power ==> i64::MIN <= m.factor * m.power <= i64::MAX)
        },
        Expression::BinaryOperation(operation) => match operation.operation {
            BinaryOperationType::Addition
            | BinaryOperationType::Substraction
            | BinaryOperationType::Multiplication => derive_in_bounds(
                *operation.left_value,
                derivation_variable,
            ) && derive_in_bounds(*operation.right_value, derivation_variable),
            BinaryOperationType::Division => true,
        },
        _ => true,
    }
}

pub trait Derivable: Sized {
    /// The inputs this value may be differentiated on.
    spec fn derive_req(&self, derivation_variable: Variable) -> bool;

    /// The derivative, `None` where no differentiation rule is defined.
    spec fn derive_spec(&self, derivation_variable: Variable) -> Option<Self>;

    /// Differentiates the value with respect to the variable, reporting
    /// `UnsupportedConstruct` exactly where no rule is defined.
    fn derive(&self, derivation_variable: Variable) -> (result: Result<Self, DeriveError>)
        requires
            self.derive_req(derivation_variable),
        ensures
            match result {
                Ok(derivative) => self.derive_spec(derivation_variable) == Some(derivative),
                Err(_) => self.derive_spec(derivation_variable) is None,
            },
    ;
}

impl Derivable for Expression {
    open spec fn derive_req(&self, derivation_variable: Variable) -> bool {
        derive_in_bounds(*self, derivation_variable)
    }

    open spec fn derive_spec(&self, derivation_variable: Variable) -> Option<Expression> {
        spec_derive(*self, derivation_variable)
    }

    fn derive(&self, derivation_variable: Variable) -> (result: Result<Expression, DeriveError>) {
        derive_expression(self, derivation_variable)
    }
}

/// Differentiates by the rule of the root node and hands the raw result to
/// the simplifier before returning.
fn derive_expression(e: &Expression, derivation_variable: Variable) -> (result: Result<
    Expression,
    DeriveError,
>)
    requires
        derive_in_bounds(*e, derivation_variable),
    ensures
        match result {
            Ok(derivative) => spec_derive(*e, derivation_variable) == Some(derivative),
            Err(_) => spec_derive(*e, derivation_variable) is None,
        },
    decreases *e, 1int,
{
    match e {
        Expression::Constant(_) => Ok(Expression::Constant(0)),
        Expression::NamedConstant(_) => Ok(Expression::Constant(0)),
        Expression::Monomial(m) => {
            let raw = derive_monomial(derivation_variable, m);
            proof {
                lemma_simplify_leaf(raw);
            }
            Ok(raw.simplify_expression())
        },
        Expression::BinaryOperation(operation) => {
            match derive_operation(derivation_variable, operation) {
                Ok(raw) => Ok(raw.simplify_expression()),
                Err(err) => Err(err),
            }
        },
        Expression::Function { function, expression } => {
            match derive_function(*function, expression, derivation_variable) {
                Ok(raw) => Ok(raw.simplify_expression()),
                Err(err) => Err(err),
            }
        },
    }
}

/// The power rule on a monomial node; the factor arithmetic stays in
/// bounds by the differentiation precondition.
fn derive_monomial(derivation_variable: Variable, monomial: &Monomial) -> (result: Expression)
    requires
        derive_in_bounds((Expression::Monomial(*monomial)), derivation_variable),
    ensures
        result == spec_derive_monomial(*monomial, derivation_variable),
{
    if monomial.variable == derivation_variable {
        if monomial.power == 1 {
            Expression::Constant(monomial.factor)
        } else {
            Expression::Monomial(
                Monomial {
                    factor: monomial.factor * (monomial.power as i64),
                    variable: monomial.variable,
                    power: monomial.power - 1,
                },
            )
        }
    } else {
        Expression::Constant(0)
    }
}

/// The sum, difference and product rules on a binary node; the result is
/// the raw combined tree, which the caller simplifies. A quotient has no
/// rule and reports `UnsupportedConstruct`.
fn derive_operation(derivation_variable: Variable, operation: &BinaryOperation) -> (result: Result<
    Expression,
    DeriveError,
>)
    requires
        derive_in_bounds((Expression::BinaryOperation(*operation)), derivation_variable),
    ensures
        match result {
            Ok(raw) => spec_derive((Expression::BinaryOperation(*operation)), derivation_variable)
                == Some(simplify(raw)),
            Err(_) => spec_derive(
                (Expression::BinaryOperation(*operation)),
                derivation_variable,
            ) is None,
        },
    decreases *operation, 0int,
{
    match operation.operation {
        BinaryOperationType::Addition | BinaryOperationType::Substraction => {
            let left_derivative = match derive_expression(&operation.left_value, derivation_variable) {
                Ok(derivative) => derivative,
                Err(err) => {
                    return Err(err);
                },
            };
            let right_derivative = match derive_expression(
                &operation.right_value,
                derivation_variable,
            ) {
                Ok(derivative) => derivative,
                Err(err) => {
                    return Err(err);
                },
            };
            Ok(
                Expression::BinaryOperation(
                    BinaryOperation {
                        operation: operation.operation,
                        left_value: Box::new(left_derivative),
                        right_value: Box::new(right_derivative),
                    },
                ),
            )
        },
        BinaryOperationType::Multiplication => {
            let left_derivative = match derive_expression(&operation.left_value, derivation_variable) {
                Ok(derivative) => derivative,
                Err(err) => {
                    return Err(err);
                },
            };
            let right_derivative = match derive_expression(
                &operation.right_value,
                derivation_variable,
            ) {
                Ok(derivative) => derivative,
                Err(err) => {
                    return Err(err);
                },
            };
            Ok(
                Expression::BinaryOperation(
                    BinaryOperation {
                        operation: BinaryOperationType::Addition,
                        left_value: Box::new(
                            Expression::BinaryOperation(
                                BinaryOperation {
                                    operation: BinaryOperationType::Multiplication,
                                    left_value: Box::new(left_derivative),
                                    right_value: Box::new(
                                        clone_expression(&operation.right_value),
                                    ),
                                },
                            ),
                        ),
                        right_value: Box::new(
                            Expression::BinaryOperation(
                                BinaryOperation {
                                    operation: BinaryOperationType::Multiplication,
                                    left_value: Box::new(right_derivative),
                                    right_value: Box::new(clone_expression(&operation.left_value)),
                                },
                            ),
                        ),
                    },
                ),
            )
        },
        BinaryOperationType::Division => Err(DeriveError::UnsupportedConstruct),
    }
}

/// The function rules: an application whose argument the variable does not
/// occur in is constant; a sine's derivative is the cosine of the
/// unchanged argument; a cosine has no rule and reports
/// `UnsupportedConstruct`. The result is the raw derivative, which the
/// caller simplifies.
fn derive_function(function: Function, expression: &Expression, derivation_variable: Variable) -> (result: Result<
    Expression,
    DeriveError,
>)
    ensures
        match result {
            Ok(raw) => spec_derive(
                (Expression::Function { function, expression: Box::new(*expression) }),
                derivation_variable,
            ) == Some(simplify(raw)),
            Err(_) => spec_derive(
                (Expression::Function { function, expression: Box::new(*expression) }),
                derivation_variable,
            ) is None,
        },
{
    let argument_variables = expression.variables();
    if !vec_contains_variable(&argument_variables, derivation_variable) {
        proof {
            lemma_simplify_leaf(Expression::Constant(0));
        }
        return Ok(Expression::Constant(0));
    }
    match function {
        Function::Cosine => Err(DeriveError::UnsupportedConstruct),
        Function::Sine => Ok(
            Expression::Function {
                function: Function::Cosine,
                expression: Box::new(clone_expression(expression)),
            },
        ),
    }
}

/// Law: the derivative of a literal constant and of a named constant is
/// the zero constant, with respect to every variable.
pub proof fn lemma_constant_derivative_zero(c: i64, name: &'static str, v: Variable)
    ensures
        spec_derive(Expression::Constant(c), v) == Some(Expression::Constant(0)),
        spec_derive(Expression::NamedConstant(name), v) == Some(Expression::Constant(0)),
{
}

/// Law: the power rule on monomials. A monomial in another variable has
/// derivative zero; a linear monomial's derivative is its coefficient; a
/// higher power multiplies the factor and drops the power by one.
pub proof fn lemma_monomial_power_rule(m: Monomial, v: Variable)
    requires
        derive_in_bounds(Expression::Monomial(m), v),
    ensures
        m.variable != v ==> spec_derive(Expression::Monomial(m), v) == Some(
            Expression::Constant(0),
        ),
        m.variable == v && m.power == 1 ==> spec_derive(Expression::Monomial(m), v) == Some(
            Expression::Constant(m.factor),
        ),
        m.variable == v && 2 <= m.power ==> spec_derive(Expression::Monomial(m), v) == Some(
            Expression::Monomial(
                Monomial {
                    factor: (m.factor * m.power) as i64,
                    variable: m.variable,
                    power: (m.power - 1) as u8,
                },
            ),
        ),
{
}

/// Law: the simplifier is the last step of every differentiation rule, so
/// a successful derivative is observed in canonical form: no rewrite rule
/// fires on it.
pub proof fn lemma_derivative_canonical(e: Expression, v: Variable)
    ensures
        spec_derive(e, v) matches Some(derivative) ==> try_reduce(derivative) is None,
{
    match e {
        Expression::BinaryOperation(operation) => {
            match (spec_derive(*operation.left_value, v), spec_derive(*operation.right_value, v)) {
                (Some(left_derivative), Some(right_derivative)) => {
                    lemma_simplify_irreducible(
                        Expression::BinaryOperation(
                            BinaryOperation {
                                operation: operation.operation,
                                left_value: Box::new(left_derivative),
                                right_value: Box::new(right_derivative),
                            },
                        ),
                    );
                    lemma_simplify_irreducible(
                        spec_product_rule(operation, left_derivative, right_derivative),
                    );
                },
                _ => {},
            }
        },
        Expression::Function { function, expression } => {
            lemma_simplify_irreducible(
                Expression::Function { function: Function::Cosine, expression },
            );
        },
        _ => {},
    }
}

} // verus!

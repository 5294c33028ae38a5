use rust_differential_geometry::derivable::{Derivable, DeriveError};
use rust_differential_geometry::expression::{
    BinaryOperation, BinaryOperationType, Expression, Function, Monomial,
};

#[test]
fn derive_constant() {
    assert_eq!(
        Expression::Constant(5).derive('x'),
        Ok(Expression::Constant(0))
    );

    assert_eq!(
        Expression::NamedConstant("pi").derive('x'),
        Ok(Expression::Constant(0))
    );
}

#[test]
fn derive_monomial() {
    let x_monomial = Expression::Monomial(Monomial {
        factor: 5,
        variable: 'x',
        power: 1,
    });
    assert_eq!(x_monomial.derive('y'), Ok(Expression::Constant(0)));
    assert_eq!(x_monomial.derive('x'), Ok(Expression::Constant(5)));

    let x_squared_monomial = Expression::Monomial(Monomial {
        factor: 3,
        variable: 'x',
        power: 2,
    });
    assert_eq!(x_squared_monomial.derive('y'), Ok(Expression::Constant(0)));
    assert_eq!(
        x_squared_monomial.derive('x'),
        Ok(Expression::Monomial(Monomial {
            factor: 6,
            variable: 'x',
            power: 1
        }))
    );

    let x_3_monomial = Expression::Monomial(Monomial {
        factor: 5,
        variable: 'x',
        power: 3,
    });
    assert_eq!(x_3_monomial.derive('y'), Ok(Expression::Constant(0)));
    assert_eq!(
        x_3_monomial.derive('x'),
        Ok(Expression::Monomial(Monomial {
            factor: 15,
            variable: 'x',
            power: 2
        }))
    );
}

#[test]
fn derive_sum() {
    let left_monomial = Expression::Monomial(Monomial {
        factor: 5,
        variable: 'x',
        power: 1,
    });
    let right_monomial = Expression::Monomial(Monomial {
        factor: 3,
        variable: 'x',
        power: 2,
    });
    let sum = Expression::BinaryOperation(BinaryOperation {
        operation: BinaryOperationType::Addition,
        left_value: Box::new(left_monomial.clone()),
        right_value: Box::new(right_monomial.clone()),
    });

    assert_eq!(sum.derive('y'), Ok(Expression::Constant(0)));
    assert_eq!(
        sum.derive('x'),
        Ok(Expression::BinaryOperation(BinaryOperation {
            operation: BinaryOperationType::Addition,
            left_value: Box::new(Expression::Constant(5)),
            right_value: Box::new(Expression::Monomial(Monomial {
                factor: 6,
                variable: 'x',
                power: 1
            }))
        }))
    )
}

#[test]
fn derive_product() {
    let left_monomial = Expression::Monomial(Monomial {
        factor: 5,
        variable: 'x',
        power: 1,
    });
    let right_monomial = Expression::Monomial(Monomial {
        factor: 3,
        variable: 'y',
        power: 2,
    });
    let product = Expression::BinaryOperation(BinaryOperation {
        operation: BinaryOperationType::Multiplication,
        left_value: Box::new(left_monomial.clone()),
        right_value: Box::new(right_monomial.clone()),
    });

    assert_eq!(
        product.derive('x'),
        Ok(Expression::Monomial(Monomial {
            factor: 15,
            variable: 'y',
            power: 2
        }))
    );
    assert_eq!(
        product.derive('y'),
        Ok(Expression::BinaryOperation(BinaryOperation {
            operation: BinaryOperationType::Multiplication,
            left_value: Box::new(Expression::Monomial(Monomial {
                factor: 6,
                variable: 'y',
                power: 1
            })),
            right_value: Box::new(Expression::Monomial(Monomial {
                factor: 5,
                variable: 'x',
                power: 1
            }))
        }))
    );
    assert_eq!(product.derive('z'), Ok(Expression::Constant(0)));
}

#[test]
fn test_derive_simple_functions() {
    let expr = Expression::Function {
        function: Function::Sine,
        expression: Box::new(Expression::Monomial(Monomial {
            factor: 1,
            variable: 'x',
            power: 1,
        })),
    };
    assert_eq!(expr.derive('y'), Ok(Expression::Constant(0)));
    assert_eq!(
        expr.derive('x'),
        Ok(Expression::Function {
            function: Function::Cosine,
            expression: Box::new(Expression::Monomial(Monomial {
                factor: 1,
                variable: 'x',
                power: 1,
            }))
        })
    );
}

#[test]
fn derive_sine_returns_a_canonical_cosine() {
    let expr = Expression::Function {
        function: Function::Sine,
        expression: Box::new(Expression::BinaryOperation(BinaryOperation {
            operation: BinaryOperationType::Multiplication,
            left_value: Box::new(Expression::Monomial(Monomial {
                factor: 1,
                variable: 'x',
                power: 1,
            })),
            right_value: Box::new(Expression::Constant(1)),
        })),
    };
    assert_eq!(
        expr.derive('x'),
        Ok(Expression::Function {
            function: Function::Cosine,
            expression: Box::new(Expression::Monomial(Monomial {
                factor: 1,
                variable: 'x',
                power: 1,
            }))
        })
    );
}

#[test]
fn derive_quotient_is_unsupported() {
    let quotient = Expression::BinaryOperation(BinaryOperation {
        operation: BinaryOperationType::Division,
        left_value: Box::new(Expression::Monomial(Monomial {
            factor: 1,
            variable: 'x',
            power: 1,
        })),
        right_value: Box::new(Expression::Monomial(Monomial {
            factor: 1,
            variable: 'y',
            power: 1,
        })),
    });
    assert_eq!(quotient.derive('x'), Err(DeriveError::UnsupportedConstruct));
}

#[test]
fn derive_cosine_is_unsupported_when_the_variable_is_free() {
    let expr = Expression::Function {
        function: Function::Cosine,
        expression: Box::new(Expression::Monomial(Monomial {
            factor: 1,
            variable: 'x',
            power: 1,
        })),
    };
    assert_eq!(expr.derive('x'), Err(DeriveError::UnsupportedConstruct));
    assert_eq!(expr.derive('y'), Ok(Expression::Constant(0)));
}

#[test]
fn derive_propagates_the_unsupported_construct_error() {
    let quotient = Expression::BinaryOperation(BinaryOperation {
        operation: BinaryOperationType::Division,
        left_value: Box::new(Expression::Monomial(Monomial {
            factor: 1,
            variable: 'x',
            power: 1,
        })),
        right_value: Box::new(Expression::Constant(2)),
    });
    let sum = Expression::BinaryOperation(BinaryOperation {
        operation: BinaryOperationType::Addition,
        left_value: Box::new(Expression::Monomial(Monomial {
            factor: 4,
            variable: 'x',
            power: 1,
        })),
        right_value: Box::new(quotient),
    });
    assert_eq!(sum.derive('x'), Err(DeriveError::UnsupportedConstruct));
}

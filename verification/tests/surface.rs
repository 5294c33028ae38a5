use std::collections::HashSet;

use rust_differential_geometry::expression::{
    BinaryOperation, BinaryOperationType, Expression, Function, Monomial,
};
use rust_differential_geometry::surface::Surface;

fn monomial(variable: char) -> Expression {
    Expression::Monomial(Monomial {
        factor: 1,
        variable,
        power: 1,
    })
}

#[test]
fn it_adds_two() {
    let torus = Surface::from_embedding(
        vec!['u', 'v'],
        vec![
            Expression::BinaryOperation(BinaryOperation {
                operation: BinaryOperationType::Multiplication,
                left_value: Box::new(Expression::Function {
                    function: Function::Cosine,
                    expression: Box::new(monomial('u')),
                }),
                right_value: Box::new(Expression::BinaryOperation(BinaryOperation {
                    operation: BinaryOperationType::Addition,
                    left_value: Box::new(monomial('R')),
                    right_value: Box::new(Expression::BinaryOperation(BinaryOperation {
                        operation: BinaryOperationType::Multiplication,
                        left_value: Box::new(monomial('r')),
                        right_value: Box::new(Expression::Function {
                            function: Function::Cosine,
                            expression: Box::new(monomial('v')),
                        }),
                    })),
                })),
            }),
            Expression::BinaryOperation(BinaryOperation {
                operation: BinaryOperationType::Multiplication,
                left_value: Box::new(Expression::Function {
                    function: Function::Cosine,
                    expression: Box::new(monomial('u')),
                }),
                right_value: Box::new(Expression::BinaryOperation(BinaryOperation {
                    operation: BinaryOperationType::Addition,
                    left_value: Box::new(monomial('R')),
                    right_value: Box::new(Expression::BinaryOperation(BinaryOperation {
                        operation: BinaryOperationType::Multiplication,
                        left_value: Box::new(monomial('r')),
                        right_value: Box::new(Expression::Function {
                            function: Function::Sine,
                            expression: Box::new(monomial('v')),
                        }),
                    })),
                })),
            }),
            Expression::BinaryOperation(BinaryOperation {
                operation: BinaryOperationType::Multiplication,
                left_value: Box::new(monomial('r')),
                right_value: Box::new(Expression::Function {
                    function: Function::Sine,
                    expression: Box::new(monomial('v')),
                }),
            }),
        ],
    );
    let surface_set: HashSet<char> = torus.surface_variables.iter().copied().collect();
    assert_eq!(surface_set, HashSet::from(['u', 'v']));
    let parametric_set: HashSet<char> = torus.parametric_variables.iter().copied().collect();
    assert_eq!(parametric_set, HashSet::from(['r', 'R']));
}

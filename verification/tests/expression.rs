use std::collections::HashSet;

use rust_differential_geometry::expression::{
    BinaryOperation, BinaryOperationType, Expression, Monomial,
};

fn monomial(variable: char) -> Expression {
    Expression::Monomial(Monomial {
        factor: 1,
        variable,
        power: 1,
    })
}

#[test]
fn free_variables_of_a_combined_expression() {
    let expr = Expression::BinaryOperation(BinaryOperation {
        operation: BinaryOperationType::Addition,
        left_value: Box::new(monomial('u')),
        right_value: Box::new(Expression::BinaryOperation(BinaryOperation {
            operation: BinaryOperationType::Multiplication,
            left_value: Box::new(monomial('r')),
            right_value: Box::new(monomial('v')),
        })),
    });
    let variables: HashSet<char> = expr.variables().iter().copied().collect();
    assert_eq!(variables, HashSet::from(['u', 'r', 'v']));
}

#[test]
fn free_variables_of_constants_are_empty() {
    assert!(Expression::Constant(3).variables().is_empty());
    assert!(Expression::NamedConstant("pi").variables().is_empty());
}

#[test]
fn identity_elements_of_the_operations() {
    assert_eq!(
        BinaryOperationType::Addition.identity_element(),
        Expression::Constant(0)
    );
    assert_eq!(
        BinaryOperationType::Substraction.identity_element(),
        Expression::Constant(0)
    );
    assert_eq!(
        BinaryOperationType::Multiplication.identity_element(),
        Expression::Constant(1)
    );
    assert_eq!(
        BinaryOperationType::Division.identity_element(),
        Expression::Constant(1)
    );
}

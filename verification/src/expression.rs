//! The expression model: a closed recursive sum type for scalar algebraic
//! expressions, together with its derived operations (free-variable
//! collection and the identity elements of the binary operations).

use vstd::prelude::*;

verus! {

/// A variable is a single-character symbol naming a scalar unknown.
pub type Variable = char;

/// The four binary arithmetic operations an expression node can carry.
#[derive(Debug, Copy, Clone, PartialEq, Eq, Structural)]
pub enum BinaryOperationType {
    Addition,
    Substraction,
    Multiplication,
    Division,
}

/// The transcendental functions an expression node can apply.
#[derive(Debug, Copy, Clone, PartialEq, Eq, Structural)]
pub enum Function {
    Sine,
    Cosine,
}

/// A binary arithmetic node; it owns both children exclusively, so every
/// expression is a finite tree.
#[derive(Debug, PartialEq)]
pub struct BinaryOperation {
    pub operation: BinaryOperationType,
    pub left_value: Box<Expression>,
    pub right_value: Box<Expression>,
}

/// A term of the form `factor * variable^power`, restricted to a single
/// variable and an integer power. The engine only ever builds monomials
/// with a power of at least one; a monomial with a power of zero is
/// semantically a constant, but the engine deliberately never collapses
/// it into one.
#[derive(Debug, PartialEq, Eq, Structural)]
pub struct Monomial {
    pub factor: i64,
    pub variable: Variable,
    pub power: u8,
}

/// A scalar algebraic expression.
#[derive(Debug, PartialEq)]
pub enum Expression {
    /// A literal number.
    Constant(i64),
    /// An opaque symbolic constant such as `"pi"`: it never reduces to a
    /// number, has no free variables, and its derivative is zero.
    NamedConstant(&'static str),
    Monomial(Monomial),
    BinaryOperation(BinaryOperation),
    Function { function: Function, expression: Box<Expression> },
}

/// The identity element of a binary operation: zero for addition and
/// subtraction, one for multiplication and division.
pub open spec fn spec_identity_element(operation: BinaryOperationType) -> Expression {
    match operation {
        BinaryOperationType::Addition | BinaryOperationType::Substraction => {
            Expression::Constant(0)
        },
        BinaryOperationType::Multiplication | BinaryOperationType::Division => {
            Expression::Constant(1)
        },
    }
}

/// The set of variables occurring anywhere in the expression tree.
pub open spec fn spec_variables(e: Expression) -> Set<Variable>
    decreases e,
{
    match e {
        Expression::Constant(_) => Set::empty(),
        Expression::NamedConstant(_) => Set::empty(),
        Expression::Monomial(m) => Set::empty().insert(m.variable),
        Expression::BinaryOperation(operation) => spec_variables(*operation.left_value).union(
            spec_variables(*operation.right_value),
        ),
        Expression::Function { function: _, expression } => spec_variables(*expression),
    }
}

/// The number of nodes in the expression tree; every rewrite step of the
/// simplifier strictly shrinks it, which bounds the rewriting.
pub open spec fn spec_size(e: Expression) -> nat
    decreases e,
{
    match e {
        Expression::Constant(_) => 1,
        Expression::NamedConstant(_) => 1,
        Expression::Monomial(_) => 1,
        Expression::BinaryOperation(operation) => 1 + spec_size(*operation.left_value)
            + spec_size(*operation.right_value),
        Expression::Function { function: _, expression } => 1 + spec_size(*expression),
    }
}

impl BinaryOperationType {
    /// The identity element of this operation, used by the simplifier as a
    /// rewriting oracle; it is never stored in a tree by the engine itself.
    pub fn identity_element(&self) -> (r: Expression)
        ensures
            r == spec_identity_element(*self),
    {
        match self {
            BinaryOperationType::Addition | BinaryOperationType::Substraction => {
                Expression::Constant(0)
            },
            BinaryOperationType::Multiplication | BinaryOperationType::Division => {
                Expression::Constant(1)
            },
        }
    }
}

/// Whether a vector of variables holds the given one.
pub(crate) fn vec_contains_variable(values: &Vec<Variable>, target: Variable) -> (r: bool)
    ensures
        r == values@.contains(target),
{
    let mut i: usize = 0;
    while i < values.len()
        invariant
            i <= values@.len(),
            forall|j: int| 0 <= j < i ==> values@[j] != target,
        decreases values@.len() - i,
    {
        if values[i] == target {
            return true;
        }
        i += 1;
    }
    false
}

/// Pushing an element onto a sequence inserts it into the sequence's set.
pub(crate) proof fn lemma_push_to_set(s: Seq<Variable>, v: Variable)
    ensures
        s.push(v).to_set() == s.to_set().insert(v),
{
    let pushed = s.push(v);
    assert forall|x: Variable| pushed.contains(x) <==> (s.contains(x) || x == v) by {
        if s.contains(x) {
            let j = choose|j: int| 0 <= j < s.len() && #[trigger] s[j] == x;
            assert(pushed[j] == x);
        }
        if x == v {
            assert(pushed[s.len() as int] == x);
        }
        if pushed.contains(x) {
            let j = choose|j: int| 0 <= j < pushed.len() && #[trigger] pushed[j] == x;
            if j < s.len() {
                assert(s[j] == x);
            }
        }
    }
    assert(pushed.to_set() =~= s.to_set().insert(v));
}

/// Taking one element more extends the taken prefix's set by that element.
pub(crate) proof fn lemma_take_one_more_to_set(s: Seq<Variable>, i: int)
    requires
        0 <= i < s.len(),
    ensures
        s.take(i + 1).to_set() == s.take(i).to_set().insert(s[i]),
{
    assert(s.take(i + 1) =~= s.take(i).push(s[i]));
    lemma_push_to_set(s.take(i), s[i]);
}

/// A sequence without duplicates stays duplicate-free when an element it
/// does not hold is pushed onto it.
pub(crate) proof fn lemma_push_no_duplicates(s: Seq<Variable>, v: Variable)
    requires
        s.no_duplicates(),
        !s.contains(v),
    ensures
        s.push(v).no_duplicates(),
{
    let pushed = s.push(v);
    assert forall|p: int, q: int|
        0 <= p < pushed.len() && 0 <= q < pushed.len() && p != q implies pushed[p]
        != pushed[q] by {
        if p < s.len() && q < s.len() {
            assert(s[p] != s[q]);
        } else if p < s.len() {
            assert(s[p] != v);
        } else if q < s.len() {
            assert(s[q] != v);
        }
    }
}

/// Extends `acc` with every variable of `source` it does not yet hold.
pub(crate) fn merge_variables(acc: Vec<Variable>, source: &Vec<Variable>) -> (merged: Vec<Variable>)
    requires
        acc@.no_duplicates(),
    ensures
        merged@.to_set() == acc@.to_set().union(source@.to_set()),
        merged@.no_duplicates(),
{
    let mut result = acc;
    let ghost initial = result@;
    let mut i: usize = 0;
    while i < source.len()
        invariant
            i <= source@.len(),
            result@.no_duplicates(),
            result@.to_set() == initial.to_set().union(source@.take(i as int).to_set()),
        decreases source@.len() - i,
    {
        let ghost before = result@;
        let candidate = source[i];
        if !vec_contains_variable(&result, candidate) {
            result.push(candidate);
            proof {
                lemma_push_to_set(before, candidate);
                lemma_push_no_duplicates(before, candidate);
            }
        }
        proof {
            lemma_take_one_more_to_set(source@, i as int);
            assert(result@.to_set() =~= initial.to_set().union(source@.take(
                i + 1int,
            ).to_set()));
        }
        i += 1;
    }
    proof {
        assert(source@.take(source@.len() as int) =~= source@);
    }
    result
}

impl Expression {
    /// The free variables of the expression, without duplicates; the order
    /// of the entries carries no meaning.
    pub fn variables(&self) -> (r: Vec<Variable>)
        ensures
            r@.to_set() == spec_variables(*self),
            r@.no_duplicates(),
        decreases *self,
    {
        match self {
            Expression::Constant(_) => Vec::new(),
            Expression::NamedConstant(_) => Vec::new(),
            Expression::Monomial(m) => {
                let mut single: Vec<Variable> = Vec::new();
                single.push(m.variable);
                proof {
                    lemma_push_to_set(Seq::empty(), m.variable);
                    assert(Seq::<Variable>::empty().to_set() =~= Set::<Variable>::empty());
                }
                single
            },
            Expression::Function { function: _, expression } => expression.variables(),
            Expression::BinaryOperation(operation) => {
                let left_vars = operation.left_value.variables();
                let right_vars = operation.right_value.variables();
                merge_variables(left_vars, &right_vars)
            },
        }
    }
}

/// A structural deep copy; expressions are value types, so the copy is
/// equal to the original.
pub(crate) fn clone_expression(e: &Expression) -> (r: Expression)
    ensures
        r == *e,
    decreases *e,
{
    match e {
        Expression::Constant(value) => Expression::Constant(*value),
        Expression::NamedConstant(name) => Expression::NamedConstant(name),
        Expression::Monomial(monomial) => Expression::Monomial(
            Monomial { factor: monomial.factor, variable: monomial.variable, power: monomial.power },
        ),
        Expression::BinaryOperation(operation) => Expression::BinaryOperation(
            BinaryOperation {
                operation: operation.operation,
                left_value: Box::new(clone_expression(&operation.left_value)),
                right_value: Box::new(clone_expression(&operation.right_value)),
            },
        ),
        Expression::Function { function, expression } => Expression::Function {
            function: *function,
            expression: Box::new(clone_expression(expression)),
        },
    }
}

impl Clone for Monomial {
    /// A copy equal to the original.
    fn clone(&self) -> (r: Self)
        ensures
            r == *self,
    {
        Monomial { factor: self.factor, variable: self.variable, power: self.power }
    }
}

impl Clone for BinaryOperation {
    /// A copy equal to the original.
    fn clone(&self) -> (r: Self)
        ensures
            r == *self,
    {
        BinaryOperation {
            operation: self.operation,
            left_value: Box::new(clone_expression(&self.left_value)),
            right_value: Box::new(clone_expression(&self.right_value)),
        }
    }
}

impl Clone for Expression {
    /// A copy equal to the original.
    fn clone(&self) -> (r: Self)
        ensures
            r == *self,
    {
        clone_expression(self)
    }
}

} // verus!

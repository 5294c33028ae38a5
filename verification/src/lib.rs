//! Symbolic algebra over scalar expressions: a closed expression tree
//! (constants, named constants, single-variable monomials, binary
//! arithmetic, and sine/cosine applications), with verified term
//! rewriting to a canonical form and verified symbolic differentiation.

pub mod expression;
pub mod simplifiable;
pub mod derivable;
pub mod surface;

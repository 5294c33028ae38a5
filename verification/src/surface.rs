//! The geometry consumer of the expression model: a surface splits the
//! variables of an embedding into the surface variables handed in by the
//! caller and the remaining, parametric ones.

use vstd::prelude::*;

use crate::expression::{
    lemma_push_no_duplicates, lemma_push_to_set, lemma_take_one_more_to_set, merge_variables,
    spec_variables, vec_contains_variable, Expression, Variable,
};

verus! {

/// The set of variables occurring anywhere in a sequence of expressions.
pub open spec fn spec_embedding_variables(embedding: Seq<Expression>) -> Set<Variable>
    decreases embedding.len(),
{
    if embedding.len() == 0 {
        Set::empty()
    } else {
        spec_embedding_variables(embedding.drop_last()).union(spec_variables(embedding.last()))
    }
}

/// A surface, described by the variables that parameterize it and the
/// remaining variables its embedding depends on.
pub struct Surface {
    pub surface_variables: Vec<Variable>,
    pub parametric_variables: Vec<Variable>,
}

impl Surface {
    /// Splits the variables of the embedding: those handed in are the
    /// surface variables and are kept as they are; every other variable of
    /// the embedding is parametric. The parametric entries hold no
    /// duplicates and their order carries no meaning.
    pub fn from_embedding(surface_variables: Vec<Variable>, embedding: Vec<Expression>) -> (surface:
        Surface)
        ensures
            surface.surface_variables@ == surface_variables@,
            surface.parametric_variables@.to_set() == spec_embedding_variables(
                embedding@,
            ).difference(surface_variables@.to_set()),
            surface.parametric_variables@.no_duplicates(),
    {
        let mut all_variables: Vec<Variable> = Vec::new();
        let mut i: usize = 0;
        while i < embedding.len()
            invariant
                i <= embedding@.len(),
                all_variables@.no_duplicates(),
                all_variables@.to_set() == spec_embedding_variables(embedding@.take(i as int)),
            decreases embedding@.len() - i,
        {
            let expression_variables = embedding[i].variables();
            all_variables = merge_variables(all_variables, &expression_variables);
            proof {
                assert(embedding@.take(i + 1int).drop_last() =~= embedding@.take(i as int));
                assert(embedding@.take(i + 1int).last() == embedding@[i as int]);
            }
            i += 1;
        }
        proof {
            assert(embedding@.take(embedding@.len() as int) =~= embedding@);
        }
        let mut parametric_variables: Vec<Variable> = Vec::new();
        let mut j: usize = 0;
        while j < all_variables.len()
            invariant
                j <= all_variables@.len(),
                all_variables@.no_duplicates(),
                all_variables@.to_set() == spec_embedding_variables(embedding@),
                parametric_variables@.no_duplicates(),
                parametric_variables@.to_set() == all_variables@.take(
                    j as int,
                ).to_set().difference(surface_variables@.to_set()),
            decreases all_variables@.len() - j,
        {
            let ghost before = parametric_variables@;
            let candidate = all_variables[j];
            if !vec_contains_variable(&surface_variables, candidate) {
                proof {
                    assert(!all_variables@.take(j as int).contains(candidate)) by {
                        if all_variables@.take(j as int).contains(candidate) {
                            let k = choose|k: int|
                                0 <= k < j && #[trigger] all_variables@.take(j as int)[k]
                                    == candidate;
                            assert(all_variables@[k] == all_variables@[j as int]);
                        }
                    }
                    assert(!all_variables@.take(j as int).to_set().contains(candidate));
                    assert(!before.to_set().contains(candidate));
                    assert(!before.contains(candidate));
                }
                parametric_variables.push(candidate);
                proof {
                    lemma_push_to_set(before, candidate);
                    lemma_push_no_duplicates(before, candidate);
                }
            }
            proof {
                lemma_take_one_more_to_set(all_variables@, j as int);
                assert(parametric_variables@.to_set() =~= all_variables@.take(
                    j + 1int,
                ).to_set().difference(surface_variables@.to_set()));
            }
            j += 1;
        }
        proof {
            assert(all_variables@.take(all_variables@.len() as int) =~= all_variables@);
        }
        Surface { surface_variables, parametric_variables }
    }
}

} // verus!

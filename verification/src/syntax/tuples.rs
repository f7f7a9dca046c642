//! Sequences of an exact length, as tuples.

use vstd::prelude::*;
use itertools::Itertools;

verus! {

/// `Itertools::collect_tuple` for tuples of three: the three items if
/// `items` holds exactly three, none if it holds fewer or more.
#[verifier::external_body]
pub(crate) fn collect_triple<T>(items: Vec<T>) -> (triple: Option<(T, T, T)>)
    ensures
        triple == (if items@.len() == 3 {
            Some((items@[0], items@[1], items@[2]))
        } else {
            None
        }),
{
    items.into_iter().collect_tuple()
}

/// `Itertools::collect_tuple` for tuples of four: the four items if `items`
/// holds exactly four, none if it holds fewer or more.
#[verifier::external_body]
pub(crate) fn collect_quadruple<T>(items: Vec<T>) -> (quadruple: Option<(T, T, T, T)>)
    ensures
        quadruple == (if items@.len() == 4 {
            Some((items@[0], items@[1], items@[2], items@[3]))
        } else {
            None
        }),
{
    items.into_iter().collect_tuple()
}

} // verus!

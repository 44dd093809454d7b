//! Rich comparison: the six comparison operators, of which the geometry
//! types define the two that test equality.
use vstd::prelude::*;

verus! {

/// A comparison operator.
#[derive(Clone, Copy, Debug, PartialEq, Eq)]
pub enum CompareOp {
    Lt,
    Le,
    Eq,
    Ne,
    Gt,
    Ge,
}

/// The answer to a comparison with `op` between two values of which `equal`
/// says whether they are equal: the geometry types have no order, so only
/// `Eq` and `Ne` have an answer.
pub open spec fn rich_answer(equal: bool, op: CompareOp) -> Option<bool> {
    match op {
        CompareOp::Eq => Some(equal),
        CompareOp::Ne => Some(!equal),
        _ => None,
    }
}

/// Answers a comparison from the outcome of the equality test, or returns
/// `None` where the operator is not defined.
pub fn answer(equal: bool, op: CompareOp) -> (r: Option<bool>)
    ensures
        r == rich_answer(equal, op),
{
    match op {
        CompareOp::Eq => Some(equal),
        CompareOp::Ne => Some(!equal),
        _ => None,
    }
}

} // verus!

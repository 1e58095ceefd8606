use vstd::prelude::*;

use crate::coefficients::{CoefficientModel, CoefficientSet};
use crate::commit::commit_or_keep;
use crate::expression::{expression_parses, is_blank, Expression};
use crate::series::Series;

verus! {

/// Everything one session works on: the target expression, the cosine and
/// sine coefficients of its approximation, and the last computed error.
pub struct ApproximationState<S> {
    pub expression: Expression,
    pub cosines: CoefficientSet<S>,
    pub sines: CoefficientSet<S>,
    pub l2_error: S,
}

impl<S> ApproximationState<S> {
    /// A session on `expression` with no coefficients yet.
    pub fn new(expression: Expression, l2_error: S) -> (r: Self)
        ensures
            r.expression == expression,
            r.cosines@ == Seq::<CoefficientModel<S>>::empty(),
            r.sines@ == Seq::<CoefficientModel<S>>::empty(),
            r.l2_error == l2_error,
    {
        ApproximationState {
            expression,
            cosines: CoefficientSet::new(),
            sines: CoefficientSet::new(),
            l2_error,
        }
    }

    /// Commits edited expression text: the target becomes the parse of
    /// `text` when it is not blank and parses, and stays exactly as it was
    /// otherwise.
    /// Returns whether the target was replaced.
    pub fn commit_expression(&mut self, text: &str) -> (replaced: bool)
        ensures
            replaced == (!is_blank(text@) && expression_parses(text@)),
            replaced ==> final(self).expression@ == text@,
            !replaced ==> final(self).expression == old(self).expression,
            final(self).cosines == old(self).cosines,
            final(self).sines == old(self).sines,
            final(self).l2_error == old(self).l2_error,
    {
        commit_or_keep(&mut self.expression, Expression::parse(text))
    }

    /// The coefficients of `series`.
    pub fn coefficients(&self, series: Series) -> (r: &CoefficientSet<S>)
        ensures
            r == (match series {
                Series::Cosine => &self.cosines,
                Series::Sine => &self.sines,
            }),
    {
        match series {
            Series::Cosine => &self.cosines,
            Series::Sine => &self.sines,
        }
    }
}

} // verus!

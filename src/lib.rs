//! Core of an interactive Fourier-series approximation tool: the state that
//! a render loop reads and edits between frames, kept free of any framework.
//!
//! The numeric scalar of the coefficients is a type parameter: the library
//! holds, orders and replaces scalars but never computes with them.
mod coefficients;
mod commit;
mod expression;
mod sampler;
mod series;
mod state;

pub use coefficients::{Bound, Coefficient, CoefficientModel, CoefficientSet};
pub use commit::commit_or_keep;
pub use expression::Expression;
pub use sampler::sample;
pub use series::{frequency, label, Series};
pub use state::ApproximationState;

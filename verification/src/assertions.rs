//! Generic predicate-evaluation entry points.
//!
//! A failing predicate yields a [`PredicateFailed`] outcome carrying the
//! finished failure message; evaluation of a passing predicate has no
//! observable effect. Raising the host's failure signal from that outcome
//! is left to the unverified boundary around the library.

use vstd::prelude::*;

use crate::context::AssertionContextBuilder;
use crate::message_generator::expected_vs_actual_message;
use crate::message_generator::failed_condition_message;
use crate::message_generator::is_expected_vs_actual_message;
use crate::message_generator::is_failed_condition_message;
use crate::message_generator::view_custom;

verus! {

/// The failure signal of a failed assertion: the predicate did not hold,
/// and `message` phrases why.
pub struct PredicateFailed {
    pub message: String,
}

/// Relies on `format!` with `core::fmt::Debug`: renders a value's debug
/// representation. Nothing is assumed about the resulting text.
#[verifier::external_body]
pub(crate) fn debug_repr<T: core::fmt::Debug>(value: &T) -> String {
    format!("{:?}", value)
}

/// Evaluates `evaluator(actual)`. On success this is a no-op; on failure
/// it yields a [`PredicateFailed`] whose message is the failed-condition
/// phrasing of `original_actual` under the given context.
pub fn assert_unary<T: core::fmt::Debug, F: FnOnce(T) -> bool>(
    actual: T,
    evaluator: F,
    original_actual: T,
    context: AssertionContextBuilder,
) -> (r: Result<(), PredicateFailed>)
    requires
        call_requires(evaluator, (actual,)),
    ensures
        r is Ok ==> call_ensures(evaluator, (actual,), true),
        r is Err ==> call_ensures(evaluator, (actual,), false),
        r matches Err(f) ==> is_failed_condition_message(
            f.message@,
            context.context.verb@,
            context.context.actual_mapper,
            view_custom(context.context.custom_message),
        ),
{
    let holds = evaluator(actual);
    if holds {
        return Ok(());
    }
    let repr = debug_repr(&original_actual);
    let message = failed_condition_message(repr.as_str(), context.build());
    Err(PredicateFailed { message })
}

/// Evaluates `evaluator(actual)`. On success this is a no-op; on failure
/// it yields a [`PredicateFailed`] whose message phrases `expected`
/// against `original_actual` under the given context.
pub fn assert_comparison<T: core::fmt::Debug, O: core::fmt::Debug, F: FnOnce(T) -> bool>(
    actual: T,
    evaluator: F,
    original_actual: T,
    expected: O,
    context: AssertionContextBuilder,
) -> (r: Result<(), PredicateFailed>)
    requires
        call_requires(evaluator, (actual,)),
    ensures
        r is Ok ==> call_ensures(evaluator, (actual,), true),
        r is Err ==> call_ensures(evaluator, (actual,), false),
        r matches Err(f) ==> is_expected_vs_actual_message(
            f.message@,
            context.context.verb@,
            context.context.actual_mapper,
            view_custom(context.context.custom_message),
        ),
{
    let holds = evaluator(actual);
    if holds {
        return Ok(());
    }
    let actual_repr = debug_repr(&original_actual);
    let expected_repr = debug_repr(&expected);
    let message = expected_vs_actual_message(
        actual_repr.as_str(),
        expected_repr.as_str(),
        context.build(),
    );
    Err(PredicateFailed { message })
}

} // verus!

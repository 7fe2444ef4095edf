//! The generic predicate matcher.

use vstd::prelude::*;

use crate::assertions::assert_unary;
use crate::assertions::PredicateFailed;
use crate::context::ActualMapper;
use crate::context::AssertionContextBuilder;
use crate::message_generator::is_failed_condition_message;
use crate::message_generator::view_custom;

verus! {

pub trait ShouldSatisfyExtension: core::fmt::Debug + Sized {
    /// Check that this object satisfies the 'predicate'. In other words,
    /// the 'predicate' must return 'true' when evaluated with 'self'.
    ///
    /// More specialized functions should be preferred over this one.
    fn should_satisfy<F: FnOnce(&Self) -> bool>(
        &self,
        predicate: F,
        custom_message: Option<String>,
    ) -> (r: Result<(), PredicateFailed>)
        requires
            call_requires(predicate, (self,)),
        ensures
            r is Ok ==> call_ensures(predicate, (self,), true),
            r is Err ==> call_ensures(predicate, (self,), false),
            r matches Err(f) ==> is_failed_condition_message(
                f.message@,
                "should satisfy the given predicate"@,
                ActualMapper::DebugWithSpace,
                view_custom(custom_message),
            ),
    ;
}

impl<T: core::fmt::Debug> ShouldSatisfyExtension for T {
    fn should_satisfy<F: FnOnce(&Self) -> bool>(
        &self,
        predicate: F,
        custom_message: Option<String>,
    ) -> (r: Result<(), PredicateFailed>) {
        assert_unary(
            self,
            predicate,
            self,
            AssertionContextBuilder::new().verb("should satisfy the given predicate")
                .custom_message(custom_message),
        )
    }
}

} // verus!

//! The equality matchers.

use vstd::prelude::*;
use vstd::std_specs::cmp::PartialEqSpec;

use crate::assertions::assert_comparison;
use crate::assertions::PredicateFailed;
use crate::context::verb_should_be;
use crate::context::ActualMapper;
use crate::context::AssertionContextBuilder;
use crate::message_generator::is_expected_vs_actual_message;

verus! {

pub trait ShouldBeEqExtension: Eq + core::fmt::Debug + Sized {
    /// Check that this object is equivalent to the given 'expected'.
    ///
    /// The outcome follows this type's own equality: whenever that
    /// equality obeys its specification, success is exactly agreement of
    /// the two values under it.
    fn should_be_eq(&self, expected: &Self) -> (r: Result<(), PredicateFailed>)
        ensures
            Self::obeys_eq_spec() ==> ((r is Ok) <==> self.eq_spec(expected)),
            r matches Err(f) ==> is_expected_vs_actual_message(
                f.message@,
                verb_should_be(),
                ActualMapper::DebugWithSpace,
                None,
            ),
    ;

    /// Check that this object is not equivalent to the given 'expected'.
    fn should_not_be_eq(&self, expected: &Self) -> (r: Result<(), PredicateFailed>)
        ensures
            Self::obeys_eq_spec() ==> ((r is Ok) <==> !self.eq_spec(expected)),
            r matches Err(f) ==> is_expected_vs_actual_message(
                f.message@,
                verb_should_be(),
                ActualMapper::Empty,
                None,
            ),
    ;
}

impl<T: Eq + core::fmt::Debug> ShouldBeEqExtension for T {
    fn should_be_eq(&self, expected: &Self) -> (r: Result<(), PredicateFailed>) {
        assert_comparison(
            self,
            (|x: &T| -> (b: bool)
                ensures
                    T::obeys_eq_spec() ==> b == x.eq_spec(expected),
                { x.eq(expected) }),
            self,
            expected,
            AssertionContextBuilder::new(),
        )
    }

    fn should_not_be_eq(&self, expected: &Self) -> (r: Result<(), PredicateFailed>) {
        assert_comparison(
            self,
            (|x: &T| -> (b: bool)
                ensures
                    T::obeys_eq_spec() ==> b == !x.eq_spec(expected),
                { x.ne(expected) }),
            self,
            expected,
            AssertionContextBuilder::new().actual_mapper(ActualMapper::Empty),
        )
    }
}

} // verus!

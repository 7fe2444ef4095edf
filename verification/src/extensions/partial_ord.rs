//! The ordering matchers.

use vstd::prelude::*;
use vstd::std_specs::cmp::PartialOrdSpec;

use core::cmp::Ordering;

use crate::assertions::assert_comparison;
use crate::assertions::PredicateFailed;
use crate::context::ActualMapper;
use crate::context::AssertionContextBuilder;
use crate::message_generator::is_expected_vs_actual_message;

verus! {

pub trait ShouldBePartialOrdExtension: PartialOrd + core::fmt::Debug + Sized {
    /// Check that this object is strictly less than 'expected'.
    ///
    /// The outcome follows this type's own partial order: whenever that
    /// order obeys its specification, success is exactly the strict
    /// comparison under it.
    fn should_be_lt(&self, expected: &Self) -> (r: Result<(), PredicateFailed>)
        ensures
            Self::obeys_partial_cmp_spec() ==> ((r is Ok) <==> self.partial_cmp_spec(expected)
                == Some(Ordering::Less)),
            r matches Err(f) ==> is_expected_vs_actual_message(
                f.message@,
                "should be less than"@,
                ActualMapper::DebugWithSpace,
                None,
            ),
    ;

    /// Check that this object is at most 'expected'.
    fn should_be_le(&self, expected: &Self) -> (r: Result<(), PredicateFailed>)
        ensures
            Self::obeys_partial_cmp_spec() ==> ((r is Ok) <==> self.partial_cmp_spec(expected)
                matches Some(Ordering::Less | Ordering::Equal)),
            r matches Err(f) ==> is_expected_vs_actual_message(
                f.message@,
                "should be less than or equal to"@,
                ActualMapper::DebugWithSpace,
                None,
            ),
    ;

    /// Check that this object is strictly greater than 'expected'.
    fn should_be_gt(&self, expected: &Self) -> (r: Result<(), PredicateFailed>)
        ensures
            Self::obeys_partial_cmp_spec() ==> ((r is Ok) <==> self.partial_cmp_spec(expected)
                == Some(Ordering::Greater)),
            r matches Err(f) ==> is_expected_vs_actual_message(
                f.message@,
                "should be greater than"@,
                ActualMapper::DebugWithSpace,
                None,
            ),
    ;

    /// Check that this object is at least 'expected'.
    fn should_be_ge(&self, expected: &Self) -> (r: Result<(), PredicateFailed>)
        ensures
            Self::obeys_partial_cmp_spec() ==> ((r is Ok) <==> self.partial_cmp_spec(expected)
                matches Some(Ordering::Greater | Ordering::Equal)),
            r matches Err(f) ==> is_expected_vs_actual_message(
                f.message@,
                "should be greater than or equal to"@,
                ActualMapper::DebugWithSpace,
                None,
            ),
    ;
}

impl<T: PartialOrd + core::fmt::Debug> ShouldBePartialOrdExtension for T {
    fn should_be_lt(&self, expected: &Self) -> (r: Result<(), PredicateFailed>) {
        assert_comparison(
            self,
            (|x: &T| -> (b: bool)
                ensures
                    T::obeys_partial_cmp_spec() ==> (b <==> x.partial_cmp_spec(expected) == Some(
                        Ordering::Less,
                    )),
                { x.lt(expected) }),
            self,
            expected,
            AssertionContextBuilder::new().verb("should be less than"),
        )
    }

    fn should_be_le(&self, expected: &Self) -> (r: Result<(), PredicateFailed>) {
        assert_comparison(
            self,
            (|x: &T| -> (b: bool)
                ensures
                    T::obeys_partial_cmp_spec() ==> (b <==> x.partial_cmp_spec(expected)
                        matches Some(Ordering::Less | Ordering::Equal)),
                { x.le(expected) }),
            self,
            expected,
            AssertionContextBuilder::new().verb("should be less than or equal to"),
        )
    }

    fn should_be_gt(&self, expected: &Self) -> (r: Result<(), PredicateFailed>) {
        assert_comparison(
            self,
            (|x: &T| -> (b: bool)
                ensures
                    T::obeys_partial_cmp_spec() ==> (b <==> x.partial_cmp_spec(expected) == Some(
                        Ordering::Greater,
                    )),
                { x.gt(expected) }),
            self,
            expected,
            AssertionContextBuilder::new().verb("should be greater than"),
        )
    }

    fn should_be_ge(&self, expected: &Self) -> (r: Result<(), PredicateFailed>) {
        assert_comparison(
            self,
            (|x: &T| -> (b: bool)
                ensures
                    T::obeys_partial_cmp_spec() ==> (b <==> x.partial_cmp_spec(expected)
                        matches Some(Ordering::Greater | Ordering::Equal)),
                { x.ge(expected) }),
            self,
            expected,
            AssertionContextBuilder::new().verb("should be greater than or equal to"),
        )
    }
}

} // verus!

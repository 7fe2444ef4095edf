//! The sequence matchers, over any cloneable iterator.
//!
//! Contracts speak of the sequence of items the iterator will yield.
//! They bind the outcome whenever the iterator obeys the iterator laws
//! and yields a machine-representable number of items; an iterator that
//! never completes cannot be drained, and nothing is promised of it.

use vstd::prelude::*;
use vstd::std_specs::cmp::PartialEqSpec;
use vstd::std_specs::iter::IteratorSpec;

use crate::assertions::assert_comparison;
use crate::assertions::assert_unary;
use crate::assertions::debug_repr;
use crate::assertions::PredicateFailed;
use crate::context::ActualMapper;
use crate::context::AssertionContextBuilder;
use crate::message_generator::is_expected_vs_actual_message;
use crate::message_generator::is_failed_condition_message;
use crate::message_generator::is_message_with_verb;
use crate::message_generator::view_custom;
use crate::numbers::dec_digits;
use crate::numbers::usize_to_string;
use vstd::string::StringExecFns;

verus! {

/// Drains up to `fuel` items of `iter`, collecting them in order. A
/// law-abiding iterator whose items number at most `fuel` is drained
/// fully.
fn collect_items<I: Iterator>(iter: I, fuel: usize) -> (r: Vec<I::Item>)
    ensures
        iter.obeys_prophetic_iter_laws() && iter.remaining().len() <= fuel ==> r@
            == iter.remaining(),
{
    let ghost orig = iter;
    let mut it = iter;
    let mut items: Vec<I::Item> = Vec::new();
    let mut n: usize = 0;
    while n < fuel
        invariant
            orig == iter,
            n <= fuel,
            items@.len() == n,
            it.obeys_prophetic_iter_laws() == orig.obeys_prophetic_iter_laws(),
            orig.obeys_prophetic_iter_laws() ==> items@ + it.remaining() == orig.remaining(),
        decreases fuel - n,
    {
        match it.next() {
            Some(x) => {
                items.push(x);
                n = n + 1;
                proof {
                    if orig.obeys_prophetic_iter_laws() {
                        assert(items@ + it.remaining() =~= orig.remaining());
                    }
                }
            },
            None => {
                proof {
                    if orig.obeys_prophetic_iter_laws() {
                        assert(items@ + it.remaining() =~= items@);
                    }
                }
                return items;
            },
        }
    }
    proof {
        if orig.obeys_prophetic_iter_laws() {
            assert(orig.remaining().len() <= fuel ==> it.remaining().len() == 0);
            assert(orig.remaining().len() <= fuel ==> (items@ + it.remaining() =~= items@));
            assert(orig.remaining().len() <= fuel ==> (items@ =~= orig.remaining()));
        }
    }
    items
}

/// Whether some element of `items` equals `target`, under the type's own
/// equality.
fn vec_contains<A: Eq>(items: &Vec<A>, target: &A) -> (b: bool)
    ensures
        A::obeys_eq_spec() ==> (b <==> exists|i: int|
            0 <= i < items@.len() && (#[trigger] items@[i]).eq_spec(target)),
{
    let n = items.len();
    let mut i: usize = 0;
    while i < n
        invariant
            n == items@.len(),
            0 <= i <= n,
            A::obeys_eq_spec() ==> forall|j: int|
                0 <= j < i ==> !(#[trigger] items@[j]).eq_spec(target),
        decreases n - i,
    {
        let x = &items[i];
        if x.eq(target) {
            return true;
        }
        i = i + 1;
    }
    false
}

/// Whether `f` accepts at least one element of `items`, consuming them.
fn any_in_vec<A, F: Fn(A) -> bool>(items: Vec<A>, f: F) -> (b: bool)
    requires
        forall|x: A| #[trigger] call_requires(f, (x,)),
    ensures
        b ==> exists|i: int|
            0 <= i < items@.len() && #[trigger] call_ensures(f, (items@[i],), true),
        !b ==> forall|i: int|
            0 <= i < items@.len() ==> #[trigger] call_ensures(f, (items@[i],), false),
{
    let ghost all = items@;
    let mut v = items;
    loop
        invariant
            all == items@,
            forall|x: A| #[trigger] call_requires(f, (x,)),
            v@ == all.subrange(0, v@.len() as int),
            v@.len() <= all.len(),
            forall|i: int|
                v@.len() <= i < all.len() ==> #[trigger] call_ensures(f, (all[i],), false),
        decreases v@.len(),
    {
        match v.pop() {
            Some(x) => {
                proof {
                    assert(x == all[v@.len() as int]);
                    assert(v@ =~= all.subrange(0, v@.len() as int));
                }
                let accepted = f(x);
                proof {
                    let k = v@.len() as int;
                    if accepted {
                        assert(call_ensures(f, (all[k],), true));
                    } else {
                        assert(call_ensures(f, (all[k],), false));
                    }
                }
                if accepted {
                    return true;
                }
            },
            None => {
                return false;
            },
        }
    }
}

/// Whether `f` accepts every element of `items`, consuming them.
fn all_in_vec<A, F: Fn(A) -> bool>(items: Vec<A>, f: F) -> (b: bool)
    requires
        forall|x: A| #[trigger] call_requires(f, (x,)),
    ensures
        b ==> forall|i: int|
            0 <= i < items@.len() ==> #[trigger] call_ensures(f, (items@[i],), true),
        !b ==> exists|i: int|
            0 <= i < items@.len() && #[trigger] call_ensures(f, (items@[i],), false),
{
    let ghost all = items@;
    let mut v = items;
    loop
        invariant
            all == items@,
            forall|x: A| #[trigger] call_requires(f, (x,)),
            v@ == all.subrange(0, v@.len() as int),
            v@.len() <= all.len(),
            forall|i: int|
                v@.len() <= i < all.len() ==> #[trigger] call_ensures(f, (all[i],), true),
        decreases v@.len(),
    {
        match v.pop() {
            Some(x) => {
                proof {
                    assert(x == all[v@.len() as int]);
                    assert(v@ =~= all.subrange(0, v@.len() as int));
                }
                let accepted = f(x);
                proof {
                    let k = v@.len() as int;
                    if accepted {
                        assert(call_ensures(f, (all[k],), true));
                    } else {
                        assert(call_ensures(f, (all[k],), false));
                    }
                }
                if !accepted {
                    return false;
                }
            },
            None => {
                return true;
            },
        }
    }
}

pub trait ShouldBeIntoIterExtension: Iterator + Clone + core::fmt::Debug + Sized where
    Self::Item: Eq + core::fmt::Debug,
 {
    /// Check that the generated sequence is empty.
    fn should_be_empty(self) -> (r: Result<(), PredicateFailed>)
        ensures
            self.obeys_prophetic_iter_laws() ==> ((r is Ok) <==> self.remaining().len() == 0),
            r matches Err(f) ==> is_failed_condition_message(
                f.message@,
                "should be empty"@,
                ActualMapper::DebugWithSpace,
                None,
            ),
    ;

    /// Check that the generated sequence contains at least one element.
    fn should_not_be_empty(self) -> (r: Result<(), PredicateFailed>)
        ensures
            self.obeys_prophetic_iter_laws() ==> ((r is Ok) <==> self.remaining().len() > 0),
            r matches Err(f) ==> is_failed_condition_message(
                f.message@,
                "should not be empty"@,
                ActualMapper::DebugWithSpace,
                None,
            ),
    ;

    /// Check that the generated sequence is of the given 'size'.
    fn should_be_size(self, size: usize) -> (r: Result<(), PredicateFailed>)
        ensures
            self.obeys_prophetic_iter_laws() && self.remaining().len() <= usize::MAX ==> ((
            r is Ok) <==> self.remaining().len() == size),
            r matches Err(f) ==> is_message_with_verb(
                f.message@,
                "should be size "@ + dec_digits(size as nat),
                None,
            ),
    ;

    /// Check that the generated sequence contains the specified 'item',
    /// under the item type's own equality.
    fn should_contain(self, item: &Self::Item) -> (r: Result<(), PredicateFailed>)
        ensures
            self.obeys_prophetic_iter_laws() && self.remaining().len() <= usize::MAX
                && <Self::Item as PartialEqSpec>::obeys_eq_spec() ==> ((r is Ok) <==> exists|
                i: int,
            |
                0 <= i < self.remaining().len() && (#[trigger] self.remaining()[i]).eq_spec(
                    item,
                )),
            r matches Err(f) ==> is_expected_vs_actual_message(
                f.message@,
                "should contain"@,
                ActualMapper::DebugWithSpace,
                None,
            ),
    ;

    /// Check that the generated sequence does not contain the specified
    /// 'item', under the item type's own equality.
    fn should_not_contain(self, item: &Self::Item) -> (r: Result<(), PredicateFailed>)
        ensures
            self.obeys_prophetic_iter_laws() && self.remaining().len() <= usize::MAX
                && <Self::Item as PartialEqSpec>::obeys_eq_spec() ==> ((r is Ok) <==> !exists|
                i: int,
            |
                0 <= i < self.remaining().len() && (#[trigger] self.remaining()[i]).eq_spec(
                    item,
                )),
            r matches Err(f) ==> is_expected_vs_actual_message(
                f.message@,
                "should not contain"@,
                ActualMapper::DebugWithSpace,
                None,
            ),
    ;

    /// Check that the generated sequence has at least one element which
    /// satisfies the given 'matcher'. In other words, the given 'matcher'
    /// must return 'true' for at least one element in the generated
    /// sequence.
    fn should_any_satisfy<F: Fn(Self::Item) -> bool>(
        self,
        matcher: F,
        custom_message: Option<String>,
    ) -> (r: Result<(), PredicateFailed>)
        requires
            forall|x: Self::Item| #[trigger] call_requires(matcher, (x,)),
        ensures
            self.obeys_prophetic_iter_laws() && self.remaining().len() <= usize::MAX ==> {
                &&& (r is Ok) ==> exists|i: int|
                    0 <= i < self.remaining().len() && #[trigger] call_ensures(
                        matcher,
                        (self.remaining()[i],),
                        true,
                    )
                &&& (r is Err) ==> forall|i: int|
                    0 <= i < self.remaining().len() ==> #[trigger] call_ensures(
                        matcher,
                        (self.remaining()[i],),
                        false,
                    )
            },
            r matches Err(f) ==> is_failed_condition_message(
                f.message@,
                "should satisfy the predicate for at least one element"@,
                ActualMapper::DebugWithSpace,
                view_custom(custom_message),
            ),
    ;

    /// Check that all elements in the generated sequence satisfy the
    /// given 'matcher'. In other words, the given 'matcher' must return
    /// 'true' for all elements in the generated sequence.
    fn should_all_satisfy<F: Fn(Self::Item) -> bool>(
        self,
        matcher: F,
        custom_message: Option<String>,
    ) -> (r: Result<(), PredicateFailed>)
        requires
            forall|x: Self::Item| #[trigger] call_requires(matcher, (x,)),
        ensures
            self.obeys_prophetic_iter_laws() && self.remaining().len() <= usize::MAX ==> {
                &&& (r is Ok) ==> forall|i: int|
                    0 <= i < self.remaining().len() ==> #[trigger] call_ensures(
                        matcher,
                        (self.remaining()[i],),
                        true,
                    )
                &&& (r is Err) ==> exists|i: int|
                    0 <= i < self.remaining().len() && #[trigger] call_ensures(
                        matcher,
                        (self.remaining()[i],),
                        false,
                    )
            },
            r matches Err(f) ==> is_failed_condition_message(
                f.message@,
                "should satisfy the predicate for all elements"@,
                ActualMapper::DebugWithSpace,
                view_custom(custom_message),
            ),
    ;
}

impl<T: Iterator + Clone + core::fmt::Debug> ShouldBeIntoIterExtension for T where
    T::Item: Eq + core::fmt::Debug,
 {
    fn should_be_empty(self) -> (r: Result<(), PredicateFailed>) {
        let cloned = self.clone();
        assert_unary(
            self,
            (|iter: T| -> (b: bool)
                ensures
                    iter.obeys_prophetic_iter_laws() ==> (b <==> iter.remaining().len() == 0),
                {
                    let mut it = iter;
                    it.next().is_none()
                }),
            cloned,
            AssertionContextBuilder::new().verb("should be empty"),
        )
    }

    fn should_not_be_empty(self) -> (r: Result<(), PredicateFailed>) {
        let cloned = self.clone();
        assert_unary(
            self,
            (|iter: T| -> (b: bool)
                ensures
                    iter.obeys_prophetic_iter_laws() ==> (b <==> iter.remaining().len() > 0),
                {
                    let mut it = iter;
                    it.next().is_some()
                }),
            cloned,
            AssertionContextBuilder::new().verb("should not be empty"),
        )
    }

    fn should_be_size(self, size: usize) -> (r: Result<(), PredicateFailed>) {
        let cloned = self.clone();
        let for_display = self.clone();
        let counted = collect_items(self.clone(), usize::MAX);
        let mut verb = String::from_str("should be size ");
        verb.append(usize_to_string(size).as_str());
        let mut shown = String::from_str(" size ");
        shown.append(usize_to_string(counted.len()).as_str());
        shown.append(": ");
        shown.append(debug_repr(&for_display).as_str());
        let outcome = assert_unary(
            self,
            (|iter: T| -> (b: bool)
                ensures
                    iter.obeys_prophetic_iter_laws() && iter.remaining().len() <= usize::MAX
                        ==> (b <==> iter.remaining().len() == size),
                {
                    let items = collect_items(iter, usize::MAX);
                    items.len() == size
                }),
            cloned,
            AssertionContextBuilder::new().verb(verb.as_str()).actual_mapper(
                ActualMapper::Exact(shown),
            ),
        );
        proof {
            if outcome is Err {
                let msg = outcome->Err_0.message@;
                let repr = choose|repr: Seq<char>|
                    msg == crate::message_generator::spec_failed_condition(
                        verb@,
                        crate::message_generator::spec_mapped_actual(
                            ActualMapper::Exact(shown),
                            repr,
                        ),
                        None,
                    );
                assert(is_message_with_verb(msg, "should be size "@ + dec_digits(size as nat),
                    None));
            }
        }
        outcome
    }

    fn should_contain(self, item: &Self::Item) -> (r: Result<(), PredicateFailed>) {
        let cloned = self.clone();
        assert_comparison(
            self,
            (|iter: T| -> (b: bool)
                ensures
                    iter.obeys_prophetic_iter_laws() && iter.remaining().len() <= usize::MAX
                        && <T::Item as PartialEqSpec>::obeys_eq_spec() ==> (b <==> exists|
                        i: int,
                    |
                        0 <= i < iter.remaining().len() && (
                        #[trigger] iter.remaining()[i]).eq_spec(item)),
                {
                    let items = collect_items(iter, usize::MAX);
                    vec_contains(&items, item)
                }),
            cloned,
            item,
            AssertionContextBuilder::new().verb("should contain"),
        )
    }

    fn should_not_contain(self, item: &Self::Item) -> (r: Result<(), PredicateFailed>) {
        let cloned = self.clone();
        assert_comparison(
            self,
            (|iter: T| -> (b: bool)
                ensures
                    iter.obeys_prophetic_iter_laws() && iter.remaining().len() <= usize::MAX
                        && <T::Item as PartialEqSpec>::obeys_eq_spec() ==> (b <==> !exists|
                        i: int,
                    |
                        0 <= i < iter.remaining().len() && (
                        #[trigger] iter.remaining()[i]).eq_spec(item)),
                {
                    let items = collect_items(iter, usize::MAX);
                    !vec_contains(&items, item)
                }),
            cloned,
            item,
            AssertionContextBuilder::new().verb("should not contain"),
        )
    }

    fn should_any_satisfy<F: Fn(Self::Item) -> bool>(
        self,
        matcher: F,
        custom_message: Option<String>,
    ) -> (r: Result<(), PredicateFailed>) {
        let cloned = self.clone();
        assert_unary(
            self,
            (|iter: T| -> (b: bool)
                requires
                    forall|x: T::Item| #[trigger] call_requires(matcher, (x,)),
                ensures
                    iter.obeys_prophetic_iter_laws() && iter.remaining().len() <= usize::MAX
                        ==> {
                        &&& b ==> exists|i: int|
                            0 <= i < iter.remaining().len() && #[trigger] call_ensures(
                                matcher,
                                (iter.remaining()[i],),
                                true,
                            )
                        &&& !b ==> forall|i: int|
                            0 <= i < iter.remaining().len() ==> #[trigger] call_ensures(
                                matcher,
                                (iter.remaining()[i],),
                                false,
                            )
                    },
                {
                    let items = collect_items(iter, usize::MAX);
                    any_in_vec(items, matcher)
                }),
            cloned,
            AssertionContextBuilder::new().verb(
                "should satisfy the predicate for at least one element",
            ).custom_message(custom_message),
        )
    }

    fn should_all_satisfy<F: Fn(Self::Item) -> bool>(
        self,
        matcher: F,
        custom_message: Option<String>,
    ) -> (r: Result<(), PredicateFailed>) {
        let cloned = self.clone();
        assert_unary(
            self,
            (|iter: T| -> (b: bool)
                requires
                    forall|x: T::Item| #[trigger] call_requires(matcher, (x,)),
                ensures
                    iter.obeys_prophetic_iter_laws() && iter.remaining().len() <= usize::MAX
                        ==> {
                        &&& b ==> forall|i: int|
                            0 <= i < iter.remaining().len() ==> #[trigger] call_ensures(
                                matcher,
                                (iter.remaining()[i],),
                                true,
                            )
                        &&& !b ==> exists|i: int|
                            0 <= i < iter.remaining().len() && #[trigger] call_ensures(
                                matcher,
                                (iter.remaining()[i],),
                                false,
                            )
                    },
                {
                    let items = collect_items(iter, usize::MAX);
                    all_in_vec(items, matcher)
                }),
            cloned,
            AssertionContextBuilder::new().verb(
                "should satisfy the predicate for all elements",
            ).custom_message(custom_message),
        )
    }
}

} // verus!

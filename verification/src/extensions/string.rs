//! The string matchers, for `str` and `String`.
//!
//! Contracts speak of the character sequence a string denotes; lengths
//! are counted in bytes of its UTF-8 encoding, as `str::len` counts them.

use vstd::prelude::*;
use vstd::string::StrSliceExecFns;
use vstd::string::StringExecFns;

use crate::assertions::assert_comparison;
use crate::assertions::assert_unary;
use crate::assertions::PredicateFailed;
use crate::context::ActualMapper;
use crate::context::AssertionContextBuilder;
use crate::message_generator::expected_vs_actual_message;
use crate::message_generator::is_expected_vs_actual_message;
use crate::message_generator::is_failed_condition_message;
use crate::message_generator::spec_expected_vs_actual;
use crate::numbers::dec_digits;
use crate::numbers::usize_to_string;
use crate::text::contains_seq;
use crate::text::contains_sub;

verus! {

pub trait ShouldBeStringExtension {
    /// The characters this string denotes.
    spec fn str_chars(&self) -> Seq<char>;

    /// The length in bytes of this string's UTF-8 encoding.
    spec fn str_byte_len(&self) -> nat;

    /// Check that this string is empty.
    fn should_be_empty(&self) -> (r: Result<(), PredicateFailed>)
        ensures
            (r is Ok) <==> self.str_chars().len() == 0,
            r matches Err(f) ==> is_failed_condition_message(
                f.message@,
                "should be empty"@,
                ActualMapper::DebugWithSpace,
                None,
            ),
    ;

    /// Check that this string is not empty.
    fn should_not_be_empty(&self) -> (r: Result<(), PredicateFailed>)
        ensures
            (r is Ok) <==> self.str_chars().len() > 0,
            r matches Err(f) ==> is_failed_condition_message(
                f.message@,
                "should not be empty"@,
                ActualMapper::DebugWithSpace,
                None,
            ),
    ;

    /// Check that this string has the given 'length', in bytes of its
    /// UTF-8 encoding. A failure message names the wanted length in its
    /// verb and shows the string's own length and text.
    fn should_be_len(&self, length: usize) -> (r: Result<(), PredicateFailed>)
        ensures
            (r is Ok) <==> self.str_byte_len() == length,
            r matches Err(f) ==> f.message@ == spec_expected_vs_actual(
                "should be length "@ + dec_digits(length as nat),
                dec_digits(length as nat),
                " length "@ + dec_digits(self.str_byte_len()) + ", actual="@
                    + self.str_chars(),
                None,
            ),
    ;

    /// Check that this string contains the given 'pattern'.
    fn should_contain(&self, pattern: &str) -> (r: Result<(), PredicateFailed>)
        ensures
            (r is Ok) <==> contains_seq(self.str_chars(), pattern@),
            r matches Err(f) ==> is_expected_vs_actual_message(
                f.message@,
                "should contain"@,
                ActualMapper::DebugWithSpace,
                None,
            ),
    ;

    /// Check that this string does not contain the given 'pattern'.
    fn should_not_contain(&self, pattern: &str) -> (r: Result<(), PredicateFailed>)
        ensures
            (r is Ok) <==> !contains_seq(self.str_chars(), pattern@),
            r matches Err(f) ==> is_expected_vs_actual_message(
                f.message@,
                "should not contain"@,
                ActualMapper::DebugWithSpace,
                None,
            ),
    ;
}

impl ShouldBeStringExtension for str {
    open spec fn str_chars(&self) -> Seq<char> {
        self@
    }

    open spec fn str_byte_len(&self) -> nat {
        vstd::utf8::encode_utf8(self@).len()
    }

    fn should_be_empty(&self) -> (r: Result<(), PredicateFailed>) {
        assert_unary(
            self,
            (|x: &str| -> (b: bool)
                ensures
                    b <==> x@.len() == 0,
                { x.is_empty() }),
            self,
            AssertionContextBuilder::new().verb("should be empty"),
        )
    }

    fn should_not_be_empty(&self) -> (r: Result<(), PredicateFailed>) {
        assert_unary(
            self,
            (|x: &str| -> (b: bool)
                ensures
                    b <==> x@.len() > 0,
                { !x.is_empty() }),
            self,
            AssertionContextBuilder::new().verb("should not be empty"),
        )
    }

    fn should_be_len(&self, length: usize) -> (r: Result<(), PredicateFailed>) {
        let byte_len = self.as_bytes().len();
        if byte_len == length {
            return Ok(());
        }
        let mut verb = String::from_str("should be length ");
        verb.append(usize_to_string(length).as_str());
        let mut shown = String::from_str(" length ");
        shown.append(usize_to_string(byte_len).as_str());
        shown.append(", actual=");
        shown.append(self);
        let context = AssertionContextBuilder::new().verb(verb.as_str()).actual_mapper(
            ActualMapper::Exact(shown),
        ).build();
        let expected_repr = usize_to_string(length);
        let message = expected_vs_actual_message("", expected_repr.as_str(), context);
        Err(PredicateFailed { message })
    }

    fn should_contain(&self, pattern: &str) -> (r: Result<(), PredicateFailed>) {
        assert_comparison(
            self,
            (|x: &str| -> (b: bool)
                ensures
                    b <==> contains_seq(x@, pattern@),
                { contains_sub(x, pattern) }),
            self,
            pattern,
            AssertionContextBuilder::new().verb("should contain"),
        )
    }

    fn should_not_contain(&self, pattern: &str) -> (r: Result<(), PredicateFailed>) {
        assert_comparison(
            self,
            (|x: &str| -> (b: bool)
                ensures
                    b <==> !contains_seq(x@, pattern@),
                { !contains_sub(x, pattern) }),
            self,
            pattern,
            AssertionContextBuilder::new().verb("should not contain"),
        )
    }
}

impl ShouldBeStringExtension for String {
    open spec fn str_chars(&self) -> Seq<char> {
        self@
    }

    open spec fn str_byte_len(&self) -> nat {
        vstd::utf8::encode_utf8(self@).len()
    }

    fn should_be_empty(&self) -> (r: Result<(), PredicateFailed>) {
        self.as_str().should_be_empty()
    }

    fn should_not_be_empty(&self) -> (r: Result<(), PredicateFailed>) {
        self.as_str().should_not_be_empty()
    }

    fn should_be_len(&self, length: usize) -> (r: Result<(), PredicateFailed>) {
        self.as_str().should_be_len(length)
    }

    fn should_contain(&self, pattern: &str) -> (r: Result<(), PredicateFailed>) {
        self.as_str().should_contain(pattern)
    }

    fn should_not_contain(&self, pattern: &str) -> (r: Result<(), PredicateFailed>) {
        self.as_str().should_not_contain(pattern)
    }
}

} // verus!

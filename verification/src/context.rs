//! How a failure should be phrased: the assertion context and its builder.

use vstd::prelude::*;
use vstd::string::StringExecFns;

verus! {

/// How the actual value is rendered inside a failure message.
pub enum ActualMapper {
    /// A space followed by the value's debug rendering (the default).
    DebugWithSpace,
    /// Nothing at all.
    Empty,
    /// A pre-rendered text, used exactly as given.
    Exact(String),
}

/// Describes how a failed assertion should be phrased. Built once per
/// assertion call, consumed by message generation.
pub struct AssertionContext {
    /// Display label for the asserted expression.
    pub asserted_expression: String,
    /// Verb phrase, such as "should be".
    pub verb: String,
    /// Rendering of the actual value for the message.
    pub actual_mapper: ActualMapper,
    /// Extra details appended to the message, when present.
    pub custom_message: Option<String>,
}

/// The default display label for an asserted expression.
pub open spec fn default_expression_label() -> Seq<char> {
    "Placeholder code"@
}

/// The default verb phrase.
pub open spec fn verb_should_be() -> Seq<char> {
    "should be"@
}

/// The default context: default verb and label, debug-rendered actual
/// value, no custom message.
pub open spec fn is_default_context(c: AssertionContext) -> bool {
    &&& c.asserted_expression@ == default_expression_label()
    &&& c.verb@ == verb_should_be()
    &&& c.actual_mapper is DebugWithSpace
    &&& c.custom_message is None
}

impl Default for AssertionContext {
    fn default() -> (r: Self)
        ensures
            is_default_context(r),
    {
        AssertionContext {
            asserted_expression: String::from_str("Placeholder code"),
            verb: String::from_str("should be"),
            actual_mapper: ActualMapper::DebugWithSpace,
            custom_message: None,
        }
    }
}

/// Builds an [`AssertionContext`], starting from the defaults and
/// overriding selected fields.
pub struct AssertionContextBuilder {
    pub context: AssertionContext,
}

impl AssertionContextBuilder {
    /// A builder holding the default context.
    pub fn new() -> (r: Self)
        ensures
            is_default_context(r.context),
    {
        AssertionContextBuilder { context: AssertionContext::default() }
    }

    /// Overrides the verb phrase.
    pub fn verb(self, value: &str) -> (r: Self)
        ensures
            r.context.verb@ == value@,
            r.context.asserted_expression == self.context.asserted_expression,
            r.context.actual_mapper == self.context.actual_mapper,
            r.context.custom_message == self.context.custom_message,
    {
        let mut this = self;
        this.context.verb = String::from_str(value);
        this
    }

    /// Overrides how the actual value is rendered.
    pub fn actual_mapper(self, value: ActualMapper) -> (r: Self)
        ensures
            r.context.actual_mapper == value,
            r.context.asserted_expression == self.context.asserted_expression,
            r.context.verb == self.context.verb,
            r.context.custom_message == self.context.custom_message,
    {
        let mut this = self;
        this.context.actual_mapper = value;
        this
    }

    /// Sets or clears the custom message.
    pub fn custom_message(self, custom_message: Option<String>) -> (r: Self)
        ensures
            r.context.custom_message == custom_message,
            r.context.asserted_expression == self.context.asserted_expression,
            r.context.verb == self.context.verb,
            r.context.actual_mapper == self.context.actual_mapper,
    {
        let mut this = self;
        this.context.custom_message = custom_message;
        this
    }

    /// The finished context.
    pub fn build(self) -> (r: AssertionContext)
        ensures
            r == self.context,
    {
        self.context
    }
}

} // verus!

//! Pure generation of failure messages from a context and rendered values.

use vstd::prelude::*;
use vstd::string::StringExecFns;

use crate::context::ActualMapper;
use crate::context::AssertionContext;
use crate::text::contains_seq;
use crate::text::occurs_at;

verus! {

/// The character sequence a `String` option denotes.
pub open spec fn view_custom(custom: Option<String>) -> Option<Seq<char>> {
    match custom {
        Some(m) => Some(m@),
        None => None,
    }
}

/// The extra-details section: empty without a custom message, otherwise a
/// blank line and the message under an "Extra details: " header.
pub open spec fn spec_extra_details(custom: Option<Seq<char>>) -> Seq<char> {
    match custom {
        Some(m) => "\n\nExtra details: "@ + m,
        None => Seq::<char>::empty(),
    }
}

/// The rendering of the actual value under the given mapper, where
/// `actual_repr` is the debug rendering of the value.
pub open spec fn spec_mapped_actual(m: ActualMapper, actual_repr: Seq<char>) -> Seq<char> {
    match m {
        ActualMapper::DebugWithSpace => " "@ + actual_repr,
        ActualMapper::Empty => Seq::<char>::empty(),
        ActualMapper::Exact(s) => s@,
    }
}

/// The full text of an expected-versus-actual failure message.
pub open spec fn spec_expected_vs_actual(
    verb: Seq<char>,
    expected_repr: Seq<char>,
    mapped_actual: Seq<char>,
    custom: Option<Seq<char>>,
) -> Seq<char> {
    " "@ + verb + " "@ + expected_repr + " but was"@ + mapped_actual + spec_extra_details(custom)
}

/// The full text of a failed-condition message (no expected value).
pub open spec fn spec_failed_condition(
    verb: Seq<char>,
    mapped_actual: Seq<char>,
    custom: Option<Seq<char>>,
) -> Seq<char> {
    " "@ + verb + " but was"@ + mapped_actual + spec_extra_details(custom)
}

/// `msg` is a failed-condition message for the given verb, mapper and
/// custom message, for some rendering of the actual value.
pub open spec fn is_failed_condition_message(
    msg: Seq<char>,
    verb: Seq<char>,
    mapper: ActualMapper,
    custom: Option<Seq<char>>,
) -> bool {
    exists|actual_repr: Seq<char>|
        msg == spec_failed_condition(verb, spec_mapped_actual(mapper, actual_repr), custom)
}

/// `msg` is an expected-versus-actual message for the given verb, mapper
/// and custom message, for some renderings of the two values.
pub open spec fn is_expected_vs_actual_message(
    msg: Seq<char>,
    verb: Seq<char>,
    mapper: ActualMapper,
    custom: Option<Seq<char>>,
) -> bool {
    exists|actual_repr: Seq<char>, expected_repr: Seq<char>|
        msg == spec_expected_vs_actual(
            verb,
            expected_repr,
            spec_mapped_actual(mapper, actual_repr),
            custom,
        )
}

/// `msg` is a failed-condition message for the given verb and custom
/// message, for some rendering of the actual value under some mapper.
pub open spec fn is_message_with_verb(
    msg: Seq<char>,
    verb: Seq<char>,
    custom: Option<Seq<char>>,
) -> bool {
    exists|mapped: Seq<char>| msg == spec_failed_condition(verb, mapped, custom)
}

fn extra_details(custom: &Option<String>) -> (r: String)
    ensures
        r@ == spec_extra_details(view_custom(*custom)),
{
    match custom {
        Some(m) => {
            let mut s = String::from_str("\n\nExtra details: ");
            s.append(m.as_str());
            s
        },
        None => String::new(),
    }
}

fn mapped_actual(m: &ActualMapper, actual_repr: &str) -> (r: String)
    ensures
        r@ == spec_mapped_actual(*m, actual_repr@),
{
    match m {
        ActualMapper::DebugWithSpace => {
            let mut s = String::from_str(" ");
            s.append(actual_repr);
            s
        },
        ActualMapper::Empty => String::new(),
        ActualMapper::Exact(text) => text.clone(),
    }
}

/// Renders "{verb} {expected} but was{actual}{extra}" from the debug
/// renderings of the two compared values and the context.
pub fn expected_vs_actual_message(
    actual_repr: &str,
    expected_repr: &str,
    context: AssertionContext,
) -> (r: String)
    ensures
        r@ == spec_expected_vs_actual(
            context.verb@,
            expected_repr@,
            spec_mapped_actual(context.actual_mapper, actual_repr@),
            view_custom(context.custom_message),
        ),
{
    let mapped = mapped_actual(&context.actual_mapper, actual_repr);
    let extra = extra_details(&context.custom_message);
    let mut s = String::from_str(" ");
    s.append(context.verb.as_str());
    s.append(" ");
    s.append(expected_repr);
    s.append(" but was");
    s.append(mapped.as_str());
    s.append(extra.as_str());
    s
}

/// Renders "{verb} but was{actual}{extra}" from the debug rendering of the
/// asserted value and the context.
pub fn failed_condition_message(actual_repr: &str, context: AssertionContext) -> (r: String)
    ensures
        r@ == spec_failed_condition(
            context.verb@,
            spec_mapped_actual(context.actual_mapper, actual_repr@),
            view_custom(context.custom_message),
        ),
{
    let mapped = mapped_actual(&context.actual_mapper, actual_repr);
    let extra = extra_details(&context.custom_message);
    let mut s = String::from_str(" ");
    s.append(context.verb.as_str());
    s.append(" but was");
    s.append(mapped.as_str());
    s.append(extra.as_str());
    s
}

/// A message renders the custom message verbatim: with a custom message
/// `m`, the output contains the literal text "Extra details: " followed by
/// `m`; without one, the output is exactly the bare message, with no
/// extra-details section.
pub proof fn lemma_custom_message_round_trip(
    verb: Seq<char>,
    expected_repr: Seq<char>,
    mapped: Seq<char>,
    m: Seq<char>,
)
    ensures
        contains_seq(spec_expected_vs_actual(verb, expected_repr, mapped, Some(m)),
            "Extra details: "@ + m),
        spec_expected_vs_actual(verb, expected_repr, mapped, None) == " "@ + verb + " "@
            + expected_repr + " but was"@ + mapped,
        contains_seq(spec_failed_condition(verb, mapped, Some(m)), "Extra details: "@ + m),
        spec_failed_condition(verb, mapped, None) == " "@ + verb + " but was"@ + mapped,
{
    reveal_strlit("\n\nExtra details: ");
    reveal_strlit("Extra details: ");
    let header = "Extra details: "@ + m;
    let full = spec_expected_vs_actual(verb, expected_repr, mapped, Some(m));
    let start = full.len() - header.len();
    assert(full.subrange(start as int, full.len() as int) =~= header);
    assert(occurs_at(full, header, start as int));
    let full2 = spec_failed_condition(verb, mapped, Some(m));
    let start2 = full2.len() - header.len();
    assert(full2.subrange(start2 as int, full2.len() as int) =~= header);
    assert(occurs_at(full2, header, start2 as int));
}

/// A failure message is never empty and always contains the verb phrase.
pub proof fn lemma_message_contains_verb(
    verb: Seq<char>,
    expected_repr: Seq<char>,
    mapped: Seq<char>,
    custom: Option<Seq<char>>,
)
    ensures
        contains_seq(spec_expected_vs_actual(verb, expected_repr, mapped, custom), verb),
        spec_expected_vs_actual(verb, expected_repr, mapped, custom).len() > 0,
        contains_seq(spec_failed_condition(verb, mapped, custom), verb),
        spec_failed_condition(verb, mapped, custom).len() > 0,
{
    reveal_strlit(" ");
    let full = spec_expected_vs_actual(verb, expected_repr, mapped, custom);
    assert(full.subrange(1, 1 + verb.len() as int) =~= verb);
    assert(occurs_at(full, verb, 1));
    let full2 = spec_failed_condition(verb, mapped, custom);
    assert(full2.subrange(1, 1 + verb.len() as int) =~= verb);
    assert(occurs_at(full2, verb, 1));
}

/// Whatever shape a failure outcome's message has, it contains the verb
/// phrase it was configured with, and it is never empty.
pub proof fn lemma_failure_message_has_verb(
    msg: Seq<char>,
    verb: Seq<char>,
    mapper: ActualMapper,
    custom: Option<Seq<char>>,
)
    requires
        is_failed_condition_message(msg, verb, mapper, custom) || is_expected_vs_actual_message(
            msg,
            verb,
            mapper,
            custom,
        ) || is_message_with_verb(msg, verb, custom),
    ensures
        contains_seq(msg, verb),
        msg.len() > 0,
{
    if is_failed_condition_message(msg, verb, mapper, custom) {
        let repr = choose|repr: Seq<char>|
            msg == spec_failed_condition(verb, spec_mapped_actual(mapper, repr), custom);
        lemma_message_contains_verb(verb, Seq::empty(), spec_mapped_actual(mapper, repr), custom);
    } else if is_expected_vs_actual_message(msg, verb, mapper, custom) {
        let (repr, expected_repr) = choose|repr: Seq<char>, expected_repr: Seq<char>|
            msg == spec_expected_vs_actual(
                verb,
                expected_repr,
                spec_mapped_actual(mapper, repr),
                custom,
            );
        lemma_message_contains_verb(verb, expected_repr, spec_mapped_actual(mapper, repr), custom);
    } else {
        let mapped = choose|mapped: Seq<char>|
            msg == spec_failed_condition(verb, mapped, custom);
        lemma_message_contains_verb(verb, Seq::empty(), mapped, custom);
    }
}

} // verus!

//! Stack-frame boundary detection and failure-report rendering.
//!
//! A captured stack snapshot is modelled as a sequence of frames, each
//! exposing zero or more symbols, each optionally named. The filter looks
//! for the first frame whose symbol name contains the library's internal
//! call marker: if none matches, the failure is not ours and the previous
//! hook must handle it; otherwise the frames strictly below the matched
//! one are the user's stack, and the report is rendered from them.

use vstd::prelude::*;
use vstd::string::StringExecFns;

use crate::text::between;
use crate::text::contains_seq;
use crate::text::contains_sub;
use crate::text::spec_between;

verus! {

/// A named entity associated with a stack frame.
pub struct Symbol {
    /// The displayable name, when the symbol has one.
    pub name: Option<String>,
}

/// One activation record of a captured stack snapshot.
pub struct Frame {
    /// The symbols the frame exposes; possibly none.
    pub symbols: Vec<Symbol>,
}

/// Whether the symbol has a name containing `marker`.
pub open spec fn symbol_matches(s: Symbol, marker: Seq<char>) -> bool {
    s.name matches Some(n) && contains_seq(n@, marker)
}

/// Whether any of the frame's symbols has a name containing `marker`.
pub open spec fn frame_matches(f: Frame, marker: Seq<char>) -> bool {
    exists|i: int| 0 <= i < f.symbols@.len() && symbol_matches(#[trigger] f.symbols@[i], marker)
}

/// Whether any of `frame`'s symbol names contains `marker`.
pub fn frame_matches_marker(frame: &Frame, marker: &str) -> (r: bool)
    ensures
        r == frame_matches(*frame, marker@),
{
    let n = frame.symbols.len();
    let mut i: usize = 0;
    while i < n
        invariant
            n == frame.symbols@.len(),
            0 <= i <= n,
            forall|j: int| 0 <= j < i ==> !symbol_matches(#[trigger] frame.symbols@[j], marker@),
        decreases n - i,
    {
        let sym = &frame.symbols[i];
        match &sym.name {
            Some(name) => {
                if contains_sub(name.as_str(), marker) {
                    return true;
                }
            },
            None => {},
        }
        i = i + 1;
    }
    false
}

/// Index of the first frame whose symbol name contains `marker`: the
/// boundary frame where control entered this library, or `None` when the
/// failure did not come through this library at all.
pub fn find_boundary(frames: &Vec<Frame>, marker: &str) -> (r: Option<usize>)
    ensures
        match r {
            Some(i) => {
                &&& i < frames@.len()
                &&& frame_matches(frames@[i as int], marker@)
                &&& forall|j: int| 0 <= j < i ==> !frame_matches(#[trigger] frames@[j], marker@)
            },
            None => forall|j: int|
                0 <= j < frames@.len() ==> !frame_matches(#[trigger] frames@[j], marker@),
        },
{
    let n = frames.len();
    let mut i: usize = 0;
    while i < n
        invariant
            n == frames@.len(),
            0 <= i <= n,
            forall|j: int| 0 <= j < i ==> !frame_matches(#[trigger] frames@[j], marker@),
        decreases n - i,
    {
        if frame_matches_marker(&frames[i], marker) {
            return Some(i);
        }
        i = i + 1;
    }
    None
}

/// What the failure hook is to do with a captured snapshot.
pub enum HookDecision {
    /// No frame matched: the failure is not this library's; the
    /// previously installed hook runs unmodified.
    Delegate,
    /// A frame matched: report, rendering only the frames from
    /// `trim_start` on (the user's call stack below the boundary).
    Report { trim_start: usize },
}

/// Decides whether a failure is this library's, and where the user's
/// frames start: one past the first frame whose symbol name contains
/// `marker`.
pub fn decide_hook(frames: &Vec<Frame>, marker: &str) -> (d: HookDecision)
    ensures
        match d {
            HookDecision::Delegate => forall|j: int|
                0 <= j < frames@.len() ==> !frame_matches(#[trigger] frames@[j], marker@),
            HookDecision::Report { trim_start } => {
                &&& 1 <= trim_start <= frames@.len()
                &&& frame_matches(frames@[trim_start - 1], marker@)
                &&& forall|j: int|
                    0 <= j < trim_start - 1 ==> !frame_matches(#[trigger] frames@[j], marker@)
            },
        },
{
    let n = frames.len();
    match find_boundary(frames, marker) {
        None => HookDecision::Delegate,
        Some(i) => {
            assert(i < n);
            HookDecision::Report { trim_start: i + 1 }
        },
    }
}

/// The marker identifying this library's per-type assertion
/// implementations within a rendered symbol name.
pub open spec fn spec_internal_marker() -> Seq<char> {
    "<T as should::extensions::"@
}

/// The marker identifying this library's per-type assertion
/// implementations within a rendered symbol name.
pub fn internal_marker() -> (r: &'static str)
    ensures
        r@ == spec_internal_marker(),
{
    "<T as should::extensions::"
}

/// The payload a failure signal carries: its text, when it has one.
pub enum PanicPayload {
    /// A textual payload.
    Text(String),
    /// A payload of any other shape.
    Opaque,
}

/// The text that a failure payload displays as.
pub open spec fn spec_payload_text(p: PanicPayload) -> Seq<char> {
    match p {
        PanicPayload::Text(s) => s@,
        PanicPayload::Opaque => "Box<dyn Any>"@,
    }
}

/// The payload's text, or a fixed placeholder for an opaque payload.
pub fn payload_as_str(payload: &PanicPayload) -> (r: &str)
    ensures
        r@ == spec_payload_text(*payload),
{
    match payload {
        PanicPayload::Text(s) => s.as_str(),
        PanicPayload::Opaque => "Box<dyn Any>",
    }
}

/// The location the report addresses: the first `at <location>` token of
/// the rendered backtrace, or the native failure location if the
/// rendering carries none.
pub open spec fn spec_report_location(backtrace_text: Seq<char>, native: Seq<char>) -> Seq<
    char,
> {
    match spec_between(backtrace_text, "at "@, "\n"@) {
        Some(l) => l,
        None => native,
    }
}

/// Picks the location for the report out of the rendered backtrace,
/// falling back to the native failure location.
pub fn choose_location(backtrace_text: &str, native_location: &str) -> (r: String)
    ensures
        r@ == spec_report_location(backtrace_text@, native_location@),
{
    match between(backtrace_text, "at ", "\n") {
        Some(l) => l.to_owned(),
        None => String::from_str(native_location),
    }
}

/// The header line placed above the trimmed stack rendering.
pub open spec fn spec_backtrace_section(rendered: Seq<char>) -> Seq<char> {
    "Assertion failed:\n"@ + rendered
}

/// Places the assertion-failure header above a rendered stack.
pub fn backtrace_section(rendered: &str) -> (r: String)
    ensures
        r@ == spec_backtrace_section(rendered@),
{
    let mut s = String::from_str("Assertion failed:\n");
    s.append(rendered);
    s
}

/// The full text of a failure report.
pub open spec fn spec_report(
    thread_name: Seq<char>,
    location: Seq<char>,
    snippet: Seq<char>,
    message: Seq<char>,
    backtrace_text: Seq<char>,
) -> Seq<char> {
    "Assertion failed on thread '"@ + thread_name + "' at "@ + location + ":\n'"@ + snippet
        + "'"@ + message + "\n\n"@ + backtrace_text
}

/// Renders the composite failure report: thread name, location, quoted
/// snippet, the failure message, and the trimmed stack.
pub fn render_report(
    thread_name: &str,
    location: &str,
    snippet: &str,
    message: &str,
    backtrace_text: &str,
) -> (r: String)
    ensures
        r@ == spec_report(thread_name@, location@, snippet@, message@, backtrace_text@),
{
    let mut s = String::from_str("Assertion failed on thread '");
    s.append(thread_name);
    s.append("' at ");
    s.append(location);
    s.append(":\n'");
    s.append(snippet);
    s.append("'");
    s.append(message);
    s.append("\n\n");
    s.append(backtrace_text);
    s
}

} // verus!

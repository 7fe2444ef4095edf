//! Location parsing and source-snippet extraction.
//!
//! A location token has the shape `<file-path>:<line>:<column>`, where the
//! path may itself contain colons: the two trailing colon-delimited groups
//! of digits are split off from the right. Given the text of the
//! referenced source file, the extractor recovers the literal text of the
//! asserted expression: the substring of the addressed line between the
//! column and the last occurrence of the assertion function's name.

use vstd::prelude::*;
use vstd::string::StrSliceExecFns;
use vstd::string::StringExecFns;

use crate::numbers::all_digits;
use crate::numbers::dec_digits;
use crate::numbers::digits_val;
use crate::numbers::is_digit;
use crate::numbers::lemma_dec_digits_round_trip;
use crate::numbers::parse_digits;
use crate::text::contains_seq;
use crate::text::find_last;
use crate::text::is_last_occurrence;
use crate::text::last_char_at_or_before;
use crate::text::last_occ_index;
use crate::text::lemma_last_char_value;
use crate::text::lemma_last_occ_value;
use crate::text::nth_line;
use crate::text::rfind_char;
use crate::text::spec_lines;

verus! {

/// A parsed source position: file path with 1-based line and column.
pub struct CodeLocator {
    pub file_path: String,
    pub line_number: usize,
    pub column: usize,
}

/// Why a code snippet could not be recovered. Every variant degrades the
/// report to a placeholder; none aborts the enclosing diagnostic attempt.
#[derive(Clone, Copy, Debug, PartialEq, Eq, Structural)]
pub enum SnippetError {
    /// The location token lacks the two trailing integer groups, or one of
    /// them is zero or out of machine range.
    MalformedLocation,
    /// The referenced source file could not be read.
    SourceUnavailable,
    /// The file has fewer lines than the locator addresses.
    LineOutOfRange,
    /// The addressed line is too short for the locator's column, or the
    /// assertion call starts before the column.
    ColumnOutOfRange,
    /// The addressed line nowhere names the assertion function.
    AssertionFunctionNotFound,
}

/// Index of the last colon of a location token, or `-1`.
pub open spec fn loc_c2(s: Seq<char>) -> int {
    last_char_at_or_before(s, ':', s.len() - 1)
}

/// Index of the second-to-last colon of a location token, or `-1`.
pub open spec fn loc_c1(s: Seq<char>) -> int {
    last_char_at_or_before(s, ':', loc_c2(s) - 1)
}

/// Whether `s` has the shape `<path>:<line>:<column>` with positive line
/// and column that fit the machine.
pub open spec fn locator_well_formed(s: Seq<char>) -> bool {
    let c2 = loc_c2(s);
    let c1 = loc_c1(s);
    &&& c1 >= 0
    &&& c1 + 1 < c2
    &&& c2 + 1 < s.len()
    &&& all_digits(s.subrange(c1 + 1, c2))
    &&& all_digits(s.subrange(c2 + 1, s.len() as int))
    &&& 1 <= digits_val(s.subrange(c1 + 1, c2)) <= usize::MAX
    &&& 1 <= digits_val(s.subrange(c2 + 1, s.len() as int)) <= usize::MAX
}

/// The path part of a well-formed location token.
pub open spec fn loc_path(s: Seq<char>) -> Seq<char> {
    s.subrange(0, loc_c1(s))
}

/// The line part of a well-formed location token.
pub open spec fn loc_line(s: Seq<char>) -> nat {
    digits_val(s.subrange(loc_c1(s) + 1, loc_c2(s)))
}

/// The column part of a well-formed location token.
pub open spec fn loc_col(s: Seq<char>) -> nat {
    digits_val(s.subrange(loc_c2(s) + 1, s.len() as int))
}

/// `loc` holds exactly the parts of the well-formed location token `s`.
pub open spec fn spec_parse_ok(s: Seq<char>, loc: CodeLocator) -> bool {
    &&& locator_well_formed(s)
    &&& loc.file_path@ == loc_path(s)
    &&& loc.line_number as nat == loc_line(s)
    &&& loc.column as nat == loc_col(s)
}

/// Parses `<path>:<line>:<column>`, splitting the two trailing digit
/// groups off from the right; the path may contain colons. Rejected are
/// exactly the inputs without that shape, with a zero line or column, and
/// with a line or column beyond machine range.
pub fn parse_locator(message: &str) -> (r: Result<CodeLocator, SnippetError>)
    ensures
        match r {
            Ok(loc) => spec_parse_ok(message@, loc),
            Err(e) => e is MalformedLocation && !locator_well_formed(message@),
        },
{
    let len = message.unicode_len();
    let c2 = match rfind_char(message, ':', len) {
        Some(i) => i,
        None => {
            proof {
                lemma_last_char_value(message@, ':', len - 1, -1);
            }
            return Err(SnippetError::MalformedLocation);
        },
    };
    proof {
        lemma_last_char_value(message@, ':', len - 1, c2 as int);
    }
    let c1 = match rfind_char(message, ':', c2) {
        Some(i) => i,
        None => {
            proof {
                lemma_last_char_value(message@, ':', c2 - 1, -1);
            }
            return Err(SnippetError::MalformedLocation);
        },
    };
    proof {
        lemma_last_char_value(message@, ':', c2 - 1, c1 as int);
    }
    let line_number = match parse_digits(message, c1 + 1, c2) {
        Some(v) => v,
        None => {
            return Err(SnippetError::MalformedLocation);
        },
    };
    let column = match parse_digits(message, c2 + 1, len) {
        Some(v) => v,
        None => {
            return Err(SnippetError::MalformedLocation);
        },
    };
    if line_number == 0 || column == 0 {
        return Err(SnippetError::MalformedLocation);
    }
    let file_path = message.substring_char(0, c1).to_owned();
    Ok(CodeLocator { file_path, line_number, column })
}

impl CodeLocator {
    /// Parses a location token; see [`parse_locator`].
    pub fn new(message: &str) -> (r: Result<CodeLocator, SnippetError>)
        ensures
            match r {
                Ok(loc) => spec_parse_ok(message@, loc),
                Err(e) => e is MalformedLocation && !locator_well_formed(message@),
            },
    {
        parse_locator(message)
    }
}

/// The text after the last `::` in a rendered symbol name: the bare name
/// of the assertion function.
pub fn get_assertion_function(message: &str) -> (r: String)
    requires
        contains_seq(message@, "::"@),
    ensures
        exists|i: int|
            is_last_occurrence(message@, "::"@, i) && r@ == message@.subrange(
                i + 2,
                message@.len() as int,
            ),
{
    let len = message.unicode_len();
    match find_last(message, "::") {
        Some(i) => {
            proof {
                reveal_strlit("::");
            }
            message.substring_char(i + 2, len).to_owned()
        },
        None => {
            proof {
                assert(false);
            }
            String::new()
        },
    }
}

/// What snippet extraction yields on the given file text and locator
/// parts: the line's text between the column and the last occurrence of
/// the assertion function's name, or the reason that fails.
pub open spec fn spec_extract_snippet(
    source: Seq<char>,
    line_number: int,
    column: int,
    assertion_fn: Seq<char>,
) -> Result<Seq<char>, SnippetError> {
    let lines = spec_lines(source);
    if line_number > lines.len() {
        Err(SnippetError::LineOutOfRange)
    } else {
        let line = lines[line_number - 1];
        if line.len() <= column {
            Err(SnippetError::ColumnOutOfRange)
        } else {
            let pos = last_occ_index(line, assertion_fn);
            if pos < 0 {
                Err(SnippetError::AssertionFunctionNotFound)
            } else if pos < column {
                Err(SnippetError::ColumnOutOfRange)
            } else {
                Ok(line.subrange(column - 1, pos - 1))
            }
        }
    }
}

/// Extracts from `source` the asserted expression that `locator` and
/// `assertion_fn` address: the addressed line's text strictly between the
/// column and the character before the last occurrence of the assertion
/// function's name.
pub fn extract_snippet(source: &str, locator: &CodeLocator, assertion_fn: &str) -> (r: Result<
    String,
    SnippetError,
>)
    requires
        locator.line_number >= 1,
        locator.column >= 1,
    ensures
        ({
            let outcome = spec_extract_snippet(
                source@,
                locator.line_number as int,
                locator.column as int,
                assertion_fn@,
            );
            match r {
                Ok(snip) => outcome == Ok::<Seq<char>, SnippetError>(snip@),
                Err(e) => outcome == Err::<Seq<char>, SnippetError>(e),
            }
        }),
{
    let line = match nth_line(source, locator.line_number - 1) {
        Some(l) => l,
        None => {
            return Err(SnippetError::LineOutOfRange);
        },
    };
    let line_len = line.unicode_len();
    if line_len <= locator.column {
        return Err(SnippetError::ColumnOutOfRange);
    }
    match find_last(line, assertion_fn) {
        None => {
            proof {
                lemma_last_occ_value(line@, assertion_fn@, -1);
            }
            Err(SnippetError::AssertionFunctionNotFound)
        },
        Some(pos) => {
            proof {
                lemma_last_occ_value(line@, assertion_fn@, pos as int);
            }
            if pos < locator.column {
                Err(SnippetError::ColumnOutOfRange)
            } else {
                Ok(line.substring_char(locator.column - 1, pos - 1).to_owned())
            }
        },
    }
}

/// The reason text a snippet placeholder carries for each failure.
pub open spec fn spec_reason(e: SnippetError) -> Seq<char> {
    match e {
        SnippetError::MalformedLocation => "malformed location"@,
        SnippetError::SourceUnavailable => "source unavailable"@,
        SnippetError::LineOutOfRange => "line out of range"@,
        SnippetError::ColumnOutOfRange => "column out of range"@,
        SnippetError::AssertionFunctionNotFound => "assertion function not found"@,
    }
}

/// The placeholder text reported in place of an unavailable snippet.
pub open spec fn spec_placeholder(e: SnippetError) -> Seq<char> {
    "(could not get source: "@ + spec_reason(e) + ")"@
}

/// The placeholder string noting why no snippet could be recovered.
pub fn snippet_placeholder(e: SnippetError) -> (r: String)
    ensures
        r@ == spec_placeholder(e),
{
    let reason: &str = match e {
        SnippetError::MalformedLocation => "malformed location",
        SnippetError::SourceUnavailable => "source unavailable",
        SnippetError::LineOutOfRange => "line out of range",
        SnippetError::ColumnOutOfRange => "column out of range",
        SnippetError::AssertionFunctionNotFound => "assertion function not found",
    };
    let mut s = String::from_str("(could not get source: ");
    s.append(reason);
    s.append(")");
    s
}

/// What `get_code_snippet` yields: the extracted snippet, or a placeholder
/// naming the step that failed. `source` is the text of the file the
/// location token addresses, or nothing if it could not be read.
pub open spec fn spec_code_snippet(
    message: Seq<char>,
    assertion_fn: Seq<char>,
    source: Option<Seq<char>>,
) -> Seq<char> {
    if !locator_well_formed(message) {
        spec_placeholder(SnippetError::MalformedLocation)
    } else {
        match source {
            None => spec_placeholder(SnippetError::SourceUnavailable),
            Some(text) => match spec_extract_snippet(
                text,
                loc_line(message) as int,
                loc_col(message) as int,
                assertion_fn,
            ) {
                Ok(s) => s,
                Err(e) => spec_placeholder(e),
            },
        }
    }
}

/// The asserted expression that the location token `message` and
/// `assertion_fn` address within `source`, or a placeholder noting why it
/// could not be recovered. `source` carries the text of the addressed
/// file, or `None` if that file could not be read.
pub fn get_code_snippet(message: &str, assertion_fn: &str, source: Option<&str>) -> (r: String)
    ensures
        r@ == spec_code_snippet(
            message@,
            assertion_fn@,
            match source {
                Some(text) => Some(text@),
                None => None,
            },
        ),
{
    let locator = match parse_locator(message) {
        Ok(loc) => loc,
        Err(e) => {
            return snippet_placeholder(SnippetError::MalformedLocation);
        },
    };
    match source {
        None => snippet_placeholder(SnippetError::SourceUnavailable),
        Some(text) => match extract_snippet(text, &locator, assertion_fn) {
            Ok(snip) => snip,
            Err(e) => snippet_placeholder(e),
        },
    }
}


/// The canonical text of a locator: `path:line:column` with the two
/// numbers rendered in decimal.
pub open spec fn spec_render_locator(path: Seq<char>, line: nat, col: nat) -> Seq<char> {
    path + ":"@ + dec_digits(line) + ":"@ + dec_digits(col)
}

/// Location parsing inverts rendering: every locator string
/// `path:line:column` with positive, machine-range line and column parses
/// back to exactly its parts, whatever colons the path itself contains.
pub proof fn lemma_locator_round_trip(path: Seq<char>, line: nat, col: nat)
    requires
        1 <= line <= usize::MAX,
        1 <= col <= usize::MAX,
    ensures
        locator_well_formed(spec_render_locator(path, line, col)),
        loc_path(spec_render_locator(path, line, col)) == path,
        loc_line(spec_render_locator(path, line, col)) == line,
        loc_col(spec_render_locator(path, line, col)) == col,
{
    reveal_strlit(":");
    lemma_dec_digits_round_trip(line);
    lemma_dec_digits_round_trip(col);
    let dl = dec_digits(line);
    let dc = dec_digits(col);
    let s = spec_render_locator(path, line, col);
    let p = path.len() as int;
    let c1 = p;
    let c2 = p + 1 + dl.len() as int;
    assert(s.len() == p + 2 + dl.len() + dc.len());
    assert(s[c1] == ':');
    assert(s[c2] == ':');
    assert forall|j: int| c2 < j < s.len() implies s[j] != ':' by {
        assert(s[j] == dc[j - (c2 + 1)]);
        assert(is_digit(dc[j - (c2 + 1)]));
    }
    assert forall|j: int| c1 < j < c2 implies s[j] != ':' by {
        assert(s[j] == dl[j - (c1 + 1)]);
        assert(is_digit(dl[j - (c1 + 1)]));
    }
    lemma_last_char_value(s, ':', s.len() - 1, c2);
    lemma_last_char_value(s, ':', c2 - 1, c1);
    assert(s.subrange(c1 + 1, c2) =~= dl);
    assert(s.subrange(c2 + 1, s.len() as int) =~= dc);
    assert(s.subrange(0, c1) =~= path);
}

} // verus!

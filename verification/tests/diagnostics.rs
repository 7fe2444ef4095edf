use should::code_grabber::get_assertion_function;
use should::code_grabber::get_code_snippet;
use should::code_grabber::parse_locator;
use should::code_grabber::CodeLocator;
use should::code_grabber::SnippetError;
use should::context::AssertionContextBuilder;
use should::message_generator::expected_vs_actual_message;
use should::message_generator::failed_condition_message;
use should::report::backtrace_section;
use should::report::choose_location;
use should::report::decide_hook;
use should::report::internal_marker;
use should::report::payload_as_str;
use should::report::render_report;
use should::report::Frame;
use should::report::HookDecision;
use should::report::PanicPayload;
use should::report::Symbol;
use should::text::between;
use should::ShouldBePartialOrdExtension;

#[test]
fn parse_locator_well_formed() {
    let loc = parse_locator("src/a.rs:12:5").unwrap();
    assert_eq!(loc.file_path, "src/a.rs");
    assert_eq!(loc.line_number, 12);
    assert_eq!(loc.column, 5);
}

#[test]
fn parse_locator_path_with_colons() {
    let loc = parse_locator("C:\\work\\a.rs:3:7").unwrap();
    assert_eq!(loc.file_path, "C:\\work\\a.rs");
    assert_eq!(loc.line_number, 3);
    assert_eq!(loc.column, 7);
}

#[test]
fn parse_locator_malformed() {
    assert!(matches!(
        parse_locator("not-a-location"),
        Err(SnippetError::MalformedLocation)
    ));
    assert!(matches!(
        parse_locator("missing:colon"),
        Err(SnippetError::MalformedLocation)
    ));
    assert!(matches!(
        parse_locator("src/a.rs:x:5"),
        Err(SnippetError::MalformedLocation)
    ));
    assert!(matches!(
        parse_locator(""),
        Err(SnippetError::MalformedLocation)
    ));
}

#[test]
fn parse_locator_rejects_zero() {
    assert!(matches!(
        parse_locator("src/a.rs:0:5"),
        Err(SnippetError::MalformedLocation)
    ));
    assert!(matches!(
        parse_locator("src/a.rs:12:0"),
        Err(SnippetError::MalformedLocation)
    ));
}

#[test]
fn code_locator_new_parses() {
    let loc = CodeLocator::new("lib/m.rs:44:9").unwrap();
    assert_eq!(loc.file_path, "lib/m.rs");
    assert_eq!(loc.line_number, 44);
    assert_eq!(loc.column, 9);
}

#[test]
fn assertion_function_after_last_separator() {
    let name = get_assertion_function("should::extensions::partial_ord::should_be_gt");
    assert_eq!(name, "should_be_gt");
}

#[test]
fn snippet_from_fixture_line() {
    let source = "fn main() {\n    points.should_be_gt(&0);\n}\n";
    let snippet = get_code_snippet("tests/fixture.rs:2:5", "should_be_gt", Some(source));
    assert_eq!(snippet, "points");
}

#[test]
fn snippet_source_unavailable() {
    let snippet = get_code_snippet("tests/fixture.rs:2:5", "should_be_gt", None);
    assert_eq!(snippet, "(could not get source: source unavailable)");
}

#[test]
fn snippet_malformed_location() {
    let snippet = get_code_snippet("nonsense", "should_be_gt", Some("text"));
    assert_eq!(snippet, "(could not get source: malformed location)");
}

#[test]
fn snippet_line_out_of_range() {
    let source = "only\ntwo lines here\n";
    let snippet = get_code_snippet("a.rs:5:1", "should_be_gt", Some(source));
    assert_eq!(snippet, "(could not get source: line out of range)");
}

#[test]
fn snippet_column_out_of_range() {
    let source = "short.should_be_gt(&0);\n";
    let snippet = get_code_snippet("a.rs:1:90", "should_be_gt", Some(source));
    assert_eq!(snippet, "(could not get source: column out of range)");
}

#[test]
fn snippet_function_not_found() {
    let source = "    a line without the call\n";
    let snippet = get_code_snippet("a.rs:1:5", "should_be_eq", Some(source));
    assert_eq!(snippet, "(could not get source: assertion function not found)");
}

#[test]
fn between_basic() {
    let text = "prefix at src/a.rs:1:2\nrest";
    assert_eq!(between(text, "at ", "\n"), Some("src/a.rs:1:2"));
    assert_eq!(between("no markers here", "at ", "\n"), None);
    assert_eq!(between("an at without end", "at ", "\n"), None);
}

#[test]
fn location_prefers_backtrace_token() {
    let rendered = "  1: my_test::check\n       at src/my_test.rs:10:13\n";
    let picked = choose_location(rendered, "native.rs:1:1");
    assert_eq!(picked, "src/my_test.rs:10:13");

    let picked = choose_location("no token here", "native.rs:1:1");
    assert_eq!(picked, "native.rs:1:1");
}

fn named_frame(names: &[Option<&str>]) -> Frame {
    Frame {
        symbols: names
            .iter()
            .map(|n| Symbol {
                name: n.map(|s| s.to_string()),
            })
            .collect(),
    }
}

#[test]
fn boundary_found_after_marker_frame() {
    let marker = internal_marker();
    let marked = format!("{}partial_ord::ShouldBePartialOrdExtension>::should_be_gt", marker);
    let frames = vec![
        named_frame(&[Some("std::panicking::begin_panic")]),
        named_frame(&[Some("should::assertions::assert_comparison")]),
        named_frame(&[None, Some("alloc::alloc")]),
        named_frame(&[Some(marked.as_str())]),
        named_frame(&[Some("my_crate::my_test")]),
        named_frame(&[Some("test::run_test")]),
    ];
    match decide_hook(&frames, marker) {
        HookDecision::Report { trim_start } => assert_eq!(trim_start, 4),
        HookDecision::Delegate => panic!("expected a report decision"),
    }
}

#[test]
fn boundary_absent_delegates() {
    let marker = internal_marker();
    let frames = vec![
        named_frame(&[Some("std::panicking::begin_panic")]),
        named_frame(&[Some("my_crate::my_test")]),
        named_frame(&[None]),
    ];
    assert!(matches!(decide_hook(&frames, marker), HookDecision::Delegate));
}

#[test]
fn payload_text_passes_through() {
    let p = PanicPayload::Text("an assertion message".to_string());
    assert_eq!(payload_as_str(&p), "an assertion message");
    assert_eq!(payload_as_str(&PanicPayload::Opaque), "Box<dyn Any>");
}

#[test]
fn expected_vs_actual_round_trips_custom_message() {
    let context = AssertionContextBuilder::new()
        .custom_message(Some("X".to_string()))
        .build();
    let message = expected_vs_actual_message("10", "20", context);
    assert_eq!(message, " should be 20 but was 10\n\nExtra details: X");
    assert!(message.contains("Extra details: X"));

    let context = AssertionContextBuilder::new().custom_message(None).build();
    let message = expected_vs_actual_message("10", "20", context);
    assert_eq!(message, " should be 20 but was 10");
    assert!(!message.contains("Extra details"));
}

#[test]
fn failed_condition_message_shape() {
    let context = AssertionContextBuilder::new()
        .verb("should satisfy the given predicate")
        .build();
    let message = failed_condition_message("7", context);
    assert_eq!(message, " should satisfy the given predicate but was 7");
}

#[test]
fn report_has_expected_layout() {
    let body = render_report(
        "worker-1",
        "src/a.rs:2:5",
        "points",
        " should be greater than 0 but was -3",
        "Assertion failed:\n  1: my_crate::my_test\n",
    );
    let expected = format!(
        "Assertion failed on thread '{}' at {}:\n'{}'{}\n\n{}",
        "worker-1",
        "src/a.rs:2:5",
        "points",
        " should be greater than 0 but was -3",
        "Assertion failed:\n  1: my_crate::my_test\n",
    );
    assert_eq!(body, expected);
}

#[test]
fn backtrace_section_is_prefixed() {
    let section = backtrace_section("  1: a\n  2: b\n");
    assert_eq!(section, "Assertion failed:\n  1: a\n  2: b\n");
}

#[test]
fn end_to_end_greater_than_report() {
    let outcome = 10.should_be_gt(&20);
    let failure = outcome.unwrap_err();
    assert_eq!(failure.message, " should be greater than 20 but was 10");
    assert!(failure.message.contains("should be greater than"));
    assert!(failure.message.contains("20"));
    assert!(failure.message.contains("10"));

    let source = "10.should_be_gt(&20);\n";
    let snippet = get_code_snippet("tests/demo.rs:1:1", "should_be_gt", Some(source));
    assert_eq!(snippet, "10");

    let report = render_report(
        "main",
        "tests/demo.rs:1:1",
        &snippet,
        &failure.message,
        "Assertion failed:\n",
    );
    assert!(report.contains("'10'"));
    assert!(!report.contains("'10.should_be_gt(&20)'"));
    assert!(report.starts_with("Assertion failed on thread 'main' at tests/demo.rs:1:1:"));
}

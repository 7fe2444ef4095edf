//! A fluent assertion library with rich failure diagnostics.
//!
//! Matcher extension traits (`should_be_eq`, `should_be_gt`, ...) evaluate a
//! predicate and, on failure, report a structured outcome carrying a
//! human-readable message. The diagnostics engine can then parse a
//! `path:line:column` locator, recover the literal source text of the
//! asserted expression, and trim library-internal frames from a captured
//! stack snapshot, so that a failure report pinpoints the user's call site.

pub mod assertions;
pub mod code_grabber;
pub mod context;
pub mod extensions;
pub mod message_generator;
pub mod numbers;
pub mod report;
pub mod text;

pub use extensions::base::ShouldSatisfyExtension;
pub use extensions::eq::ShouldBeEqExtension;
pub use extensions::iter::ShouldBeIntoIterExtension;
pub use extensions::partial_ord::ShouldBePartialOrdExtension;
pub use extensions::string::ShouldBeStringExtension;

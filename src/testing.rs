//! Test runs: their options and failures.

use vstd::prelude::*;

verus! {

/// How to run the test suite.
#[derive(Debug, Clone)]
pub struct TestOptions {
    pub filter: Option<String>,
    pub coverage: bool,
    pub verbose: bool,
    pub no_fail_fast: bool,
}

/// A failed test.
#[derive(Debug, Clone)]
pub struct TestFailure {
    pub test_name: String,
    pub message: String,
    pub stack_trace: String,
    pub location: TestLocation,
}

/// A place in a test file.
#[derive(Debug, Clone)]
pub struct TestLocation {
    pub file: String,
    pub line: u32,
    pub column: u32,
}

/// A request to run the tests.
#[derive(Debug, Clone)]
pub struct TestRequest {
    pub options: TestOptions,
}

} // verus!

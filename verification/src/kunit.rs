//! Normalising the results of test functions.

use vstd::prelude::*;

verus! {

/// Test results: a test may return `()` or a `Result`.
pub trait TestResult {
    /// The result counts as a pass.
    spec fn passed(&self) -> bool;

    /// Returns `true` if the test passed.
    fn is_test_ok(&self) -> (ok: bool)
        ensures
            ok == self.passed(),
    ;
}

impl TestResult for () {
    /// A test that returns nothing passed.
    open spec fn passed(&self) -> bool {
        true
    }

    fn is_test_ok(&self) -> (ok: bool) {
        true
    }
}

impl<T, E> TestResult for Result<T, E> {
    /// A test that returns a `Result` passed when it is `Ok`.
    open spec fn passed(&self) -> bool {
        self.is_ok()
    }

    fn is_test_ok(&self) -> (ok: bool) {
        self.is_ok()
    }
}

/// Whether a test result indicates success.
pub fn is_test_result_ok<R: TestResult>(t: &R) -> (ok: bool)
    ensures
        ok == t.passed(),
{
    t.is_test_ok()
}

} // verus!

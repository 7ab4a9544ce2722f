//! The parsed data model of a suite: the suite-level configuration and the
//! individual test cases.  Parsing a configuration document into these types
//! is the caller's business; once built they are read-only for the whole run.

use vstd::prelude::*;

verus! {

/// The `(low, mid, timeout)` millisecond triple: `low` and `mid` classify a
/// response time into Green/Yellow/Red, `timeout` bounds how long a request
/// may stay in flight.
#[derive(Clone, Copy, Debug, PartialEq, Eq, Structural)]
pub struct TimeBoundaries {
    pub low: u128,
    pub mid: u128,
    pub timeout: u128,
}

impl TimeBoundaries {
    /// A meaningful triple is ordered: `low <= mid <= timeout`.
    pub open spec fn wf(self) -> bool {
        self.low <= self.mid <= self.timeout
    }
}

/// The boundaries a suite falls back to when its document names none.
pub fn standard_boundaries() -> (r: TimeBoundaries)
    ensures
        r == (TimeBoundaries { low: 500u128, mid: 1000u128, timeout: 10000u128 }),
        r.wf(),
{
    TimeBoundaries { low: 500, mid: 1000, timeout: 10000 }
}

/// One declared HTTP assertion.  Ordering in the suite is significant: later
/// tests may reference variables captured by earlier ones.
pub struct TestCase {
    /// Text printed above the test; when absent, a description may be
    /// generated from the method, route and expected status.
    pub description: Option<String>,
    /// Whether to generate a description when none is given; absent means
    /// yes.
    pub auto_describe: Option<bool>,
    /// A critical test aborts the rest of the suite when it fails; absent
    /// means false.
    pub critical: Option<bool>,
    /// Appended to the suite's base address to form the request URL.
    pub route: String,
    /// The HTTP method name, matched case-insensitively against the seven
    /// supported verbs.
    pub method: String,
    /// The exact status code the response must carry for the test to pass.
    pub expected_status: u16,
    /// When present, serialized as a flat JSON object of string pairs and
    /// sent as the request body.
    pub json_body: Option<Vec<(String, String)>>,
    /// `(variable name, field name)` pairs extracted from a JSON response
    /// body into the variable store.
    pub capture: Option<Vec<(String, String)>>,
    /// Names a store variable whose value is sent as a bearer token.
    pub bearer_token_var: Option<String>,
    /// Names a store variable whose value is sent as a session cookie.
    pub session_id_var: Option<String>,
    /// Overrides the running time boundaries, for this test and every later
    /// one that does not override them again.
    pub time_boundaries: Option<TimeBoundaries>,
    /// Overrides the suite's default verbosity for this test alone.
    pub verbose: Option<bool>,
}

impl TestCase {
    /// Whether this test's failure cancels the rest of the suite.
    pub open spec fn spec_critical(&self) -> bool {
        match self.critical {
            Some(c) => c,
            None => false,
        }
    }

    /// The effective verbosity of this test under suite default `default`.
    pub open spec fn spec_verbose(&self, default: bool) -> bool {
        match self.verbose {
            Some(v) => v,
            None => default,
        }
    }

    /// The set of variable names this test's capture directives may write.
    pub open spec fn spec_capture_keys(&self) -> Set<Seq<char>> {
        match self.capture {
            Some(ref pairs) => Set::new(
                |k: Seq<char>|
                    exists|i: int|
                        0 <= i < pairs@.len() && (#[trigger] pairs@[i]).0@ == k,
            ),
            None => Set::empty(),
        }
    }
}

/// The whole suite: defaults, the ordered tests, and where (if anywhere) a
/// textual log should end up.
pub struct SuiteConfig {
    /// Prefix of every request URL.
    pub base_address: String,
    /// Verbosity for tests that do not set their own.
    pub default_verbose: bool,
    /// Boundaries the run starts with; a test's override becomes the new
    /// running default.
    pub default_time_boundaries: TimeBoundaries,
    /// The tests, in execution order.
    pub tests: Vec<TestCase>,
    /// When present, log lines are also accumulated into a buffer the caller
    /// may persist at this destination.
    pub log_destination: Option<String>,
}

} // verus!

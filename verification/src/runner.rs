//! The suite runner: the state machine that walks the declared tests in
//! order.  The runner never touches the network itself; `next_request` hands
//! the caller a fully formed request (or a fatal error, or the final report),
//! and `submit_response` consumes whatever the transport produced — a
//! response or a failure — updating counts, captured variables, latency
//! classification and the log, and deciding whether a critical failure ends
//! the run early.

use vstd::prelude::*;
use vstd::string::StringExecFns;

use crate::capture::parse_json_response;
use crate::capture::spec_json_guard;
use crate::capture::spec_parse_error_line;
use crate::capture::spec_untouched_outside;
use crate::classify::classify_response_time;
use crate::classify::spec_classify;
use crate::classify::TimeClass;
use crate::config::SuiteConfig;
use crate::config::TestCase;
use crate::config::TimeBoundaries;
use crate::method::spec_resolve_method;
use crate::outside::json_parse_err;
use crate::outside::lossy_string;
use crate::outside::lossy_text;
use crate::outside::uri_ok;
use crate::request::build_request;
use crate::request::spec_auth_header;
use crate::request::spec_body_text;
use crate::request::spec_builder_lines;
use crate::request::spec_builder_text;
use crate::request::spec_cookie_header;
use crate::request::HttpRequestSpec;
use crate::request::RunError;
use crate::sink::LogSink;
use crate::store::VarStore;
use crate::text::spec_digits;
use crate::text::u128_to_string;
use crate::text::u16_to_string;
use crate::text::usize_to_string;

verus! {

/// Where the run stands.
#[derive(Clone, Copy, Debug, PartialEq, Eq, Structural)]
pub enum RunPhase {
    /// The next test (if any) may be started.
    Ready,
    /// A request was handed out and its outcome has not come back yet.
    AwaitingResponse,
    /// Every test was walked and the final count was reported.
    Finished,
    /// A fatal error or a failed critical test ended the run early.
    Aborted,
}

/// What the transport did with one request.
pub enum TransportEvent {
    /// A response arrived: its status, the measured time to its arrival in
    /// milliseconds, and the fully drained body.
    Response { status: u16, response_time: u128, body: Vec<u8> },
    /// The request failed or timed out; `message` describes how.
    Failed { message: String },
}

/// What the response processor concluded about one completed test.
#[derive(Clone, Copy, Debug, PartialEq, Eq, Structural)]
pub struct Outcome {
    /// Whether the response status equalled the expectation.
    pub status_match: bool,
    /// The latency tier of the response.
    pub response_time_class: TimeClass,
}

/// The accumulated result of a run.
pub struct RunReport {
    /// The declared suite length — fixed up front, never shrunk by an abort.
    pub total: usize,
    /// How many tests matched their expected status.
    pub passed: usize,
    /// The accumulated log, present iff a log destination was configured.
    pub log_buffer: Option<String>,
}

/// What the caller must do next.
pub enum NextStep {
    /// Put this request on the wire and hand the outcome back.
    Send(HttpRequestSpec),
    /// A fatal configuration error: surface it and halt; no further test
    /// runs and no final count is reported.
    Fatal(RunError),
    /// The run is over; here is the report.
    Done(RunReport),
}

/// The `Test i/n` heading, for the 0-based index `i`.
pub open spec fn spec_test_header_line(i: nat, n: nat) -> Seq<char> {
    "Test "@ + spec_digits(i + 1) + "/"@ + spec_digits(n) + "\n"@
}

/// The generated stand-in for a missing test description.
pub open spec fn spec_generated_description(status: u16, method: Seq<char>, route: Seq<char>) -> Seq<
    char,
> {
    "gets a Status "@ + spec_digits(status as nat) + " when sending a "@ + method
        + " request to the "@ + route + " route."@
}

/// The description a test prints under its heading: its own text, or a
/// generated one unless generation was switched off.
pub open spec fn spec_description_lines(test: TestCase) -> Seq<Seq<char>> {
    match test.description {
        Some(d) => seq![d@ + "\n"@],
        None => match test.auto_describe {
            Some(false) => Seq::empty(),
            _ => seq![
                spec_generated_description(test.expected_status, test.method@, test.route@),
            ],
        },
    }
}

/// Heading plus description: what every started test logs first.
pub open spec fn spec_prelude_lines(test: TestCase, i: nat, n: nat) -> Seq<Seq<char>> {
    seq![spec_test_header_line(i, n)] + spec_description_lines(test)
}

/// The prelude as the flat text the log buffer accumulates.
pub open spec fn spec_prelude_text(test: TestCase, i: nat, n: nat) -> Seq<char> {
    spec_test_header_line(i, n) + (match test.description {
        Some(d) => d@ + "\n"@,
        None => match test.auto_describe {
            Some(false) => Seq::empty(),
            _ => spec_generated_description(test.expected_status, test.method@, test.route@),
        },
    })
}

/// The closing `passed out of total` line.
pub open spec fn spec_final_line(passed: nat, total: nat) -> Seq<char> {
    spec_digits(passed) + " out of "@ + spec_digits(total) + " tests passed."@
}

/// The line logged when the transport reports a failure.
pub open spec fn spec_send_error_line(msg: Seq<char>) -> Seq<char> {
    "Error while sending request: "@ + msg + "\n"@
}

/// The cancellation notice of a failed critical test.
pub open spec fn spec_cancel_text() -> Seq<char> {
    "Test marked as 'critical' failed, cancelling all further tests."@
}

/// What a transport failure logs: the error, then — for a critical test —
/// the cancellation notice.
pub open spec fn spec_failure_lines(msg: Seq<char>, critical: bool) -> Seq<Seq<char>> {
    if critical {
        seq![spec_send_error_line(msg), spec_cancel_text() + "\n"@]
    } else {
        seq![spec_send_error_line(msg)]
    }
}

/// The transport-failure log as flat buffer text.
pub open spec fn spec_failure_text(msg: Seq<char>, critical: bool) -> Seq<char> {
    if critical {
        spec_send_error_line(msg) + spec_cancel_text() + "\n"@
    } else {
        spec_send_error_line(msg)
    }
}

/// The `Response Status` line.
pub open spec fn spec_status_line(status: u16) -> Seq<char> {
    "Response Status: "@ + spec_digits(status as nat) + "\n"@
}

/// The `Response time` line.
pub open spec fn spec_time_line(response_time: u128) -> Seq<char> {
    "Response time: "@ + spec_digits(response_time as nat) + " ms\n"@
}

/// The `Expected Status` line.
pub open spec fn spec_expected_line(status: u16) -> Seq<char> {
    "Expected Status: "@ + spec_digits(status as nat) + "\n"@
}

/// What a response logs before capture runs: its status, then — verbose and
/// non-empty — the echoed body.
pub open spec fn spec_response_pre_lines(status: u16, body: Seq<u8>, verbose: bool) -> Seq<
    Seq<char>,
> {
    seq![spec_status_line(status)] + (if body.len() > 0 && verbose {
        seq!["Response Body: "@, lossy_text(body) + "\n"@]
    } else {
        Seq::empty()
    })
}

/// The same, as flat buffer text.
pub open spec fn spec_response_pre_text(status: u16, body: Seq<u8>, verbose: bool) -> Seq<char> {
    spec_status_line(status) + (if body.len() > 0 && verbose {
        "Response Body: "@ + lossy_text(body) + "\n"@
    } else {
        Seq::empty()
    })
}

/// What capture contributes to the log buffer: exactly the parse-error line
/// when a body that opened with `{` failed to parse, and nothing otherwise —
/// per-field warnings stay on the console.
pub open spec fn spec_capture_buffer_text(body: Seq<u8>) -> Seq<char> {
    if spec_json_guard(body) && json_parse_err(lossy_text(body)) is Some {
        spec_parse_error_line(json_parse_err(lossy_text(body))->0)
    } else {
        Seq::empty()
    }
}

/// What a response logs after capture: timing, expectation, and the verdict
/// — or, for a critical mismatch, the console-only cancellation notice.
pub open spec fn spec_response_post_lines(
    response_time: u128,
    expected: u16,
    status: u16,
    critical: bool,
) -> Seq<Seq<char>> {
    seq![spec_time_line(response_time), spec_expected_line(expected)] + (if status == expected {
        seq!["TEST PASSED\n\n"@]
    } else if !critical {
        seq!["TEST FAILED\n\n"@]
    } else {
        seq![spec_cancel_text()]
    })
}

/// The same, as flat buffer text; a critical mismatch contributes no verdict
/// line to the buffer.
pub open spec fn spec_response_post_text(
    response_time: u128,
    expected: u16,
    status: u16,
    critical: bool,
) -> Seq<char> {
    spec_time_line(response_time) + spec_expected_line(expected) + (if status == expected {
        "TEST PASSED\n\n"@
    } else if !critical {
        "TEST FAILED\n\n"@
    } else {
        Seq::empty()
    })
}

/// `rep` reports `total` and `passed` and carries a copy of the log buffer.
pub open spec fn spec_report_matches(
    rep: RunReport,
    total: nat,
    passed: nat,
    buffer: Option<Seq<char>>,
) -> bool {
    &&& rep.total == total
    &&& rep.passed == passed
    &&& match rep.log_buffer {
        Some(b) => buffer == Some(b@),
        None => buffer is None,
    }
}

/// Generates the stand-in description for a test without one.
pub fn generate_description(status: u16, method: &String, route: &String) -> (r: String)
    ensures
        r@ == spec_generated_description(status, method@, route@),
{
    let mut s = String::from_str("gets a Status ");
    let st = u16_to_string(status);
    s.append(st.as_str());
    s.append(" when sending a ");
    s.append(method.as_str());
    s.append(" request to the ");
    s.append(route.as_str());
    s.append(" route.");
    s
}

/// The engine's whole state: configuration, position, counts, the running
/// boundary default, captured variables, the log, and the per-test outcomes.
pub struct SuiteRunner {
    /// The parsed suite; read-only for the whole run.
    pub config: SuiteConfig,
    /// The next test to start (or the one in flight).
    pub index: usize,
    /// How many tests matched their expected status so far.
    pub passed: usize,
    /// The running time-boundary default: a test's override becomes the new
    /// default for every later test.
    pub boundaries: TimeBoundaries,
    /// The captured variables.
    pub store: VarStore,
    /// The console and log-buffer lines so far.
    pub sink: LogSink,
    /// One entry per completed test, in order.
    pub outcomes: Vec<Outcome>,
    /// Where the run stands.
    pub phase: RunPhase,
}

impl SuiteRunner {
    /// The declared tests.
    pub open spec fn tests(&self) -> Seq<TestCase> {
        self.config.tests@
    }

    /// The test at the current index.
    pub open spec fn current_test(&self) -> TestCase
        recommends
            self.index < self.tests().len(),
    {
        self.tests()[self.index as int]
    }

    /// The state invariant: the position is inside the suite, the pass count
    /// never exceeds the number of tests walked, and a request can only be
    /// in flight for an existing test.
    pub open spec fn wf(&self) -> bool {
        &&& self.index <= self.tests().len()
        &&& self.passed <= self.index
        &&& (self.phase is AwaitingResponse ==> self.index < self.tests().len())
    }

    /// A fresh runner at the head of the suite, with an empty store and an
    /// empty log that keeps a buffer iff a destination is configured.
    pub fn new(config: SuiteConfig) -> (r: SuiteRunner)
        ensures
            r.wf(),
            r.config == config,
            r.index == 0,
            r.passed == 0,
            r.boundaries == config.default_time_boundaries,
            r.store@ == Map::<Seq<char>, Seq<char>>::empty(),
            r.outcomes@ == Seq::<Outcome>::empty(),
            r.phase is Ready,
            r.sink.console_lines() == Seq::<Seq<char>>::empty(),
            r.sink.buffer_text() == if config.log_destination is Some {
                Some(Seq::<char>::empty())
            } else {
                None::<Seq<char>>
            },
    {
        let keep = config.log_destination.is_some();
        let boundaries = config.default_time_boundaries;
        SuiteRunner {
            index: 0,
            passed: 0,
            boundaries,
            store: VarStore::new(),
            sink: LogSink::new(keep),
            outcomes: Vec::new(),
            phase: RunPhase::Ready,
            config,
        }
    }

    /// Moves the run forward to its next request.  In a terminal phase
    /// nothing happens and the report comes back — an aborted run never
    /// starts another test.  At the end of the suite the final count is
    /// logged and the run finishes.  Otherwise the current test's boundary
    /// override is folded into the running default (effective for this very
    /// test), the heading and description are logged, and the request is
    /// built: an unknown method or a malformed URL aborts the run fatally,
    /// with no final count ever reported.
    #[verifier::rlimit(60)]
    pub fn next_request(&mut self) -> (r: NextStep)
        requires
            old(self).wf(),
            !(old(self).phase is AwaitingResponse),
        ensures
            final(self).wf(),
            final(self).config == old(self).config,
            (old(self).phase is Finished || old(self).phase is Aborted) ==> {
                &&& *final(self) == *old(self)
                &&& r matches NextStep::Done(rep) && spec_report_matches(
                    rep,
                    old(self).tests().len(),
                    old(self).passed as nat,
                    old(self).sink.buffer_text(),
                )
            },
            (old(self).phase is Ready && old(self).index == old(self).tests().len()) ==> {
                &&& final(self).phase is Finished
                &&& final(self).index == old(self).index
                &&& final(self).passed == old(self).passed
                &&& final(self).boundaries == old(self).boundaries
                &&& final(self).store == old(self).store
                &&& final(self).outcomes == old(self).outcomes
                &&& final(self).sink.console_lines() == old(self).sink.console_lines().push(
                    spec_final_line(old(self).passed as nat, old(self).tests().len()),
                )
                &&& final(self).sink.buffer_text() == crate::sink::spec_buffer_after(
                    old(self).sink.buffer_text(),
                    spec_final_line(old(self).passed as nat, old(self).tests().len()),
                )
                &&& r matches NextStep::Done(rep) && spec_report_matches(
                    rep,
                    old(self).tests().len(),
                    old(self).passed as nat,
                    final(self).sink.buffer_text(),
                )
            },
            (old(self).phase is Ready && old(self).index < old(self).tests().len()) ==> {
                let test = old(self).current_test();
                let bounds = match test.time_boundaries {
                    Some(b) => b,
                    None => old(self).boundaries,
                };
                let verbose = test.spec_verbose(old(self).config.default_verbose);
                let url = old(self).config.base_address@ + test.route@;
                &&& final(self).boundaries == bounds
                &&& final(self).index == old(self).index
                &&& final(self).passed == old(self).passed
                &&& final(self).store == old(self).store
                &&& final(self).outcomes == old(self).outcomes
                &&& match r {
                    NextStep::Send(req) => {
                        &&& final(self).phase is AwaitingResponse
                        &&& spec_resolve_method(test.method@) is Some
                        &&& req.method == spec_resolve_method(test.method@)->0
                        &&& uri_ok(url)
                        &&& req.url@ == url
                        &&& req.body@ == spec_body_text(test.json_body.deep_view())
                        &&& match req.authorization {
                            Some(a) => spec_auth_header(test.bearer_token_var, old(self).store@)
                                == Some(a@),
                            None => spec_auth_header(
                                test.bearer_token_var,
                                old(self).store@,
                            ) is None,
                        }
                        &&& match req.cookie {
                            Some(c) => spec_cookie_header(test.session_id_var, old(self).store@)
                                == Some(c@),
                            None => spec_cookie_header(
                                test.session_id_var,
                                old(self).store@,
                            ) is None,
                        }
                        &&& req.content_type_json == (test.json_body is Some)
                        &&& req.timeout_ms == bounds.timeout
                        &&& req.verbose == verbose
                        &&& final(self).sink.console_lines() == old(self).sink.console_lines()
                            + spec_prelude_lines(
                            test,
                            old(self).index as nat,
                            old(self).tests().len(),
                        ) + spec_builder_lines(test, old(self).store@, verbose)
                        &&& final(self).sink.buffer_text() == crate::sink::spec_buffer_after(
                            old(self).sink.buffer_text(),
                            spec_prelude_text(test, old(self).index as nat, old(self).tests().len())
                                + spec_builder_text(test, old(self).store@, verbose),
                        )
                    },
                    NextStep::Fatal(e) => {
                        &&& final(self).phase is Aborted
                        &&& match e {
                            RunError::UnknownMethod { method } => {
                                &&& spec_resolve_method(test.method@) is None
                                &&& method@ == test.method@
                            },
                            RunError::MalformedUrl { url: u } => {
                                &&& spec_resolve_method(test.method@) is Some
                                &&& !uri_ok(url)
                                &&& u@ == url
                            },
                        }
                        &&& final(self).sink.console_lines() == old(self).sink.console_lines()
                            + spec_prelude_lines(
                            test,
                            old(self).index as nat,
                            old(self).tests().len(),
                        )
                        &&& final(self).sink.buffer_text() == crate::sink::spec_buffer_after(
                            old(self).sink.buffer_text(),
                            spec_prelude_text(
                                test,
                                old(self).index as nat,
                                old(self).tests().len(),
                            ),
                        )
                    },
                    NextStep::Done(_) => false,
                }
            },
    {
        match self.phase {
            RunPhase::Finished => {
                return NextStep::Done(self.report());
            },
            RunPhase::Aborted => {
                return NextStep::Done(self.report());
            },
            _ => {},
        }
        let ghost pre = *self;
        let n = self.config.tests.len();
        if self.index == n {
            let mut line = usize_to_string(self.passed);
            line.append(" out of ");
            let ns = usize_to_string(n);
            line.append(ns.as_str());
            line.append(" tests passed.");
            self.sink.emit(line, true);
            self.phase = RunPhase::Finished;
            return NextStep::Done(self.report());
        }
        let test = &self.config.tests[self.index];
        match test.time_boundaries {
            Some(b) => {
                self.boundaries = b;
            },
            None => {},
        }
        let verbose = match test.verbose {
            Some(v) => v,
            None => self.config.default_verbose,
        };

        let mut header = String::from_str("Test ");
        let idx1 = usize_to_string(self.index + 1);
        header.append(idx1.as_str());
        header.append("/");
        let ns = usize_to_string(n);
        header.append(ns.as_str());
        header.append("\n");
        self.sink.emit(header, true);

        match &test.description {
            Some(d) => {
                let mut l = d.clone();
                l.append("\n");
                self.sink.emit(l, true);
            },
            None => {
                let auto = match test.auto_describe {
                    Some(a) => a,
                    None => true,
                };
                if auto {
                    let g = generate_description(test.expected_status, &test.method, &test.route);
                    self.sink.emit(g, true);
                }
            },
        }
        let ghost mid_console = self.sink.console_lines();
        let ghost mid_buffer = self.sink.buffer_text();
        proof {
            assert(mid_console =~= pre.sink.console_lines() + spec_prelude_lines(
                pre.current_test(),
                pre.index as nat,
                pre.tests().len(),
            ));
            if pre.sink.buffer_text() is Some {
                assert(mid_buffer->0 =~= pre.sink.buffer_text()->0 + spec_prelude_text(
                    pre.current_test(),
                    pre.index as nat,
                    pre.tests().len(),
                ));
            }
        }

        let built = build_request(
            test,
            &self.store,
            &self.config.base_address,
            &self.boundaries,
            verbose,
            &mut self.sink,
        );
        match built {
            Result::Ok(req) => {
                self.phase = RunPhase::AwaitingResponse;
                proof {
                    assert(self.sink.console_lines() =~= pre.sink.console_lines()
                        + spec_prelude_lines(pre.current_test(), pre.index as nat, pre.tests().len())
                        + spec_builder_lines(pre.current_test(), pre.store@, verbose));
                    if pre.sink.buffer_text() is Some {
                        assert(self.sink.buffer_text()->0 =~= pre.sink.buffer_text()->0
                            + (spec_prelude_text(
                            pre.current_test(),
                            pre.index as nat,
                            pre.tests().len(),
                        ) + spec_builder_text(pre.current_test(), pre.store@, verbose)));
                    }
                }
                NextStep::Send(req)
            },
            Result::Err(e) => {
                self.phase = RunPhase::Aborted;
                NextStep::Fatal(e)
            },
        }
    }

    /// Consumes the transport's outcome for the request in flight.  A
    /// failure is logged and — for a critical test — aborts the run.  A
    /// response is processed: status logged, body captured, latency
    /// classified (display only: it never decides pass or fail), the outcome
    /// recorded, and `passed` incremented exactly when the status matched;
    /// a mismatch on a critical test aborts the run, anything else moves on
    /// to the next test.
    #[verifier::rlimit(100)]
    pub fn submit_response(&mut self, event: TransportEvent)
        requires
            old(self).wf(),
            old(self).phase is AwaitingResponse,
        ensures
            final(self).wf(),
            final(self).config == old(self).config,
            final(self).boundaries == old(self).boundaries,
            !(final(self).phase is AwaitingResponse),
            event matches TransportEvent::Failed { message } ==> {
                let critical = old(self).current_test().spec_critical();
                &&& final(self).store == old(self).store
                &&& final(self).outcomes == old(self).outcomes
                &&& final(self).passed == old(self).passed
                &&& (critical ==> final(self).phase is Aborted && final(self).index == old(
                    self,
                ).index)
                &&& (!critical ==> final(self).phase is Ready && final(self).index == old(
                    self,
                ).index + 1)
                &&& final(self).sink.console_lines() == old(self).sink.console_lines()
                    + spec_failure_lines(message@, critical)
                &&& final(self).sink.buffer_text() == crate::sink::spec_buffer_after(
                    old(self).sink.buffer_text(),
                    spec_failure_text(message@, critical),
                )
            },
            event matches TransportEvent::Response { status, response_time, body } ==> {
                let test = old(self).current_test();
                let critical = test.spec_critical();
                let verbose = test.spec_verbose(old(self).config.default_verbose);
                let status_match = status == test.expected_status;
                let class = spec_classify(
                    response_time,
                    old(self).boundaries.low,
                    old(self).boundaries.mid,
                );
                &&& final(self).outcomes@ == old(self).outcomes@.push(
                    Outcome { status_match, response_time_class: class },
                )
                &&& (status_match ==> final(self).passed == old(self).passed + 1
                    && final(self).phase is Ready && final(self).index == old(self).index + 1)
                &&& (!status_match ==> final(self).passed == old(self).passed)
                &&& (!status_match && !critical ==> final(self).phase is Ready && final(self).index
                    == old(self).index + 1)
                &&& (!status_match && critical ==> final(self).phase is Aborted && final(self).index
                    == old(self).index)
                &&& spec_untouched_outside(
                    old(self).store@,
                    final(self).store@,
                    test.spec_capture_keys(),
                )
                &&& (!spec_json_guard(body@) ==> final(self).store == old(self).store)
                &&& exists|cap: Seq<Seq<char>>|
                    {
                        &&& final(self).sink.console_lines() == old(self).sink.console_lines()
                            + spec_response_pre_lines(status, body@, verbose) + cap
                            + spec_response_post_lines(
                            response_time,
                            test.expected_status,
                            status,
                            critical,
                        )
                        &&& (!spec_json_guard(body@) ==> cap == Seq::<Seq<char>>::empty())
                        &&& (spec_json_guard(body@) && json_parse_err(lossy_text(body@)) is Some
                            ==> cap == seq![
                            spec_parse_error_line(json_parse_err(lossy_text(body@))->0),
                        ])
                    }
                &&& final(self).sink.buffer_text() == crate::sink::spec_buffer_after(
                    old(self).sink.buffer_text(),
                    spec_response_pre_text(status, body@, verbose) + spec_capture_buffer_text(body@)
                        + spec_response_post_text(
                        response_time,
                        test.expected_status,
                        status,
                        critical,
                    ),
                )
            },
    {
        match event {
            TransportEvent::Failed { message } => {
                self.note_failure(message);
            },
            TransportEvent::Response { status, response_time, body } => {
                self.process_response(status, response_time, body);
            },
        }
    }

    /// Logs a transport failure; a critical test aborts the run, any other
    /// moves on to the next test, and the failed test counts as neither
    /// passed nor processed.
    fn note_failure(&mut self, message: String)
        requires
            old(self).wf(),
            old(self).phase is AwaitingResponse,
        ensures
            final(self).wf(),
            final(self).config == old(self).config,
            final(self).boundaries == old(self).boundaries,
            final(self).store == old(self).store,
            final(self).outcomes == old(self).outcomes,
            final(self).passed == old(self).passed,
            ({
                let critical = old(self).current_test().spec_critical();
                &&& (critical ==> final(self).phase is Aborted && final(self).index == old(
                    self,
                ).index)
                &&& (!critical ==> final(self).phase is Ready && final(self).index == old(
                    self,
                ).index + 1)
                &&& final(self).sink.console_lines() == old(self).sink.console_lines()
                    + spec_failure_lines(message@, critical)
                &&& final(self).sink.buffer_text() == crate::sink::spec_buffer_after(
                    old(self).sink.buffer_text(),
                    spec_failure_text(message@, critical),
                )
            }),
    {
        let ghost pre = *self;
        let n = self.config.tests.len();
        let test = &self.config.tests[self.index];
        let critical = match test.critical {
            Some(c) => c,
            None => false,
        };
        let mut l = String::from_str("Error while sending request: ");
        l.append(message.as_str());
        l.append("\n");
        self.sink.emit(l, true);
        if critical {
            let mut cancel = String::from_str(
                "Test marked as 'critical' failed, cancelling all further tests.",
            );
            cancel.append("\n");
            self.sink.emit(cancel, true);
            self.phase = RunPhase::Aborted;
        } else {
            self.index = self.index + 1;
            self.phase = RunPhase::Ready;
        }
        proof {
            assert(self.sink.console_lines() =~= pre.sink.console_lines() + spec_failure_lines(
                message@,
                critical,
            ));
            if pre.sink.buffer_text() is Some {
                assert(self.sink.buffer_text()->0 =~= pre.sink.buffer_text()->0
                    + spec_failure_text(message@, critical));
            }
        }
    }

    /// Logs an arrived response's status, echoes the body at the test's
    /// verbosity, and runs the test's capture directives against it.  The
    /// returned ghost sequence is what capture put on the console.
    fn absorb_response(&mut self, status: u16, body: &Vec<u8>) -> (cap: Ghost<Seq<Seq<char>>>)
        requires
            old(self).wf(),
            old(self).phase is AwaitingResponse,
        ensures
            final(self).wf(),
            final(self).config == old(self).config,
            final(self).index == old(self).index,
            final(self).passed == old(self).passed,
            final(self).phase == old(self).phase,
            final(self).boundaries == old(self).boundaries,
            final(self).outcomes == old(self).outcomes,
            spec_untouched_outside(
                old(self).store@,
                final(self).store@,
                old(self).current_test().spec_capture_keys(),
            ),
            !spec_json_guard(body@) ==> final(self).store == old(self).store,
            !spec_json_guard(body@) ==> cap@ == Seq::<Seq<char>>::empty(),
            (spec_json_guard(body@) && json_parse_err(lossy_text(body@)) is Some) ==> cap@ == seq![
                spec_parse_error_line(json_parse_err(lossy_text(body@))->0),
            ],
            final(self).sink.console_lines() == old(self).sink.console_lines()
                + spec_response_pre_lines(
                status,
                body@,
                old(self).current_test().spec_verbose(old(self).config.default_verbose),
            ) + cap@,
            final(self).sink.buffer_text() == crate::sink::spec_buffer_after(
                old(self).sink.buffer_text(),
                spec_response_pre_text(
                    status,
                    body@,
                    old(self).current_test().spec_verbose(old(self).config.default_verbose),
                ) + spec_capture_buffer_text(body@),
            ),
    {
        let ghost pre = *self;
        let test = &self.config.tests[self.index];
        let verbose = match test.verbose {
            Some(v) => v,
            None => self.config.default_verbose,
        };
        let mut sl = String::from_str("Response Status: ");
        let ss = u16_to_string(status);
        sl.append(ss.as_str());
        sl.append("\n");
        self.sink.emit(sl, true);
        if body.len() > 0 && verbose {
            self.sink.emit(String::from_str("Response Body: "), true);
            let mut bl = lossy_string(body.as_slice());
            bl.append("\n");
            self.sink.emit(bl, true);
        }
        let ghost mid_console = self.sink.console_lines();
        proof {
            assert(mid_console =~= pre.sink.console_lines() + spec_response_pre_lines(
                status,
                body@,
                verbose,
            ));
        }
        parse_json_response(body, &mut self.store, test, &mut self.sink);
        let ghost cap = self.sink.console_lines().skip(mid_console.len() as int);
        proof {
            assert(self.sink.console_lines() =~= mid_console + cap);
            assert(self.sink.console_lines() =~= pre.sink.console_lines()
                + spec_response_pre_lines(status, body@, verbose) + cap);
            if !spec_json_guard(body@) {
                assert(cap =~= Seq::<Seq<char>>::empty());
            } else if json_parse_err(lossy_text(body@)) is Some {
                assert(cap =~= seq![
                    spec_parse_error_line(json_parse_err(lossy_text(body@))->0),
                ]);
            }
            if pre.sink.buffer_text() is Some {
                assert(self.sink.buffer_text()->0 =~= pre.sink.buffer_text()->0 + (
                spec_response_pre_text(status, body@, verbose) + spec_capture_buffer_text(body@)));
            }
        }
        Ghost(cap)
    }

    /// Processes one arrived response: logs its status, echoes the body at
    /// the test's verbosity, runs capture, classifies the latency, records
    /// the outcome, and settles pass or fail — a mismatch on a critical test
    /// aborts the run.
    #[verifier::rlimit(100)]
    fn process_response(&mut self, status: u16, response_time: u128, body: Vec<u8>)
        requires
            old(self).wf(),
            old(self).phase is AwaitingResponse,
        ensures
            final(self).wf(),
            final(self).config == old(self).config,
            final(self).boundaries == old(self).boundaries,
            !(final(self).phase is AwaitingResponse),
            ({
                let test = old(self).current_test();
                let critical = test.spec_critical();
                let verbose = test.spec_verbose(old(self).config.default_verbose);
                let status_match = status == test.expected_status;
                let class = spec_classify(
                    response_time,
                    old(self).boundaries.low,
                    old(self).boundaries.mid,
                );
                &&& final(self).outcomes@ == old(self).outcomes@.push(
                    Outcome { status_match, response_time_class: class },
                )
                &&& (status_match ==> final(self).passed == old(self).passed + 1
                    && final(self).phase is Ready && final(self).index == old(self).index + 1)
                &&& (!status_match ==> final(self).passed == old(self).passed)
                &&& (!status_match && !critical ==> final(self).phase is Ready && final(self).index
                    == old(self).index + 1)
                &&& (!status_match && critical ==> final(self).phase is Aborted && final(self).index
                    == old(self).index)
                &&& spec_untouched_outside(
                    old(self).store@,
                    final(self).store@,
                    test.spec_capture_keys(),
                )
                &&& (!spec_json_guard(body@) ==> final(self).store == old(self).store)
                &&& exists|cap: Seq<Seq<char>>|
                    {
                        &&& final(self).sink.console_lines() == old(self).sink.console_lines()
                            + spec_response_pre_lines(status, body@, verbose) + cap
                            + spec_response_post_lines(
                            response_time,
                            test.expected_status,
                            status,
                            critical,
                        )
                        &&& (!spec_json_guard(body@) ==> cap == Seq::<Seq<char>>::empty())
                        &&& (spec_json_guard(body@) && json_parse_err(lossy_text(body@)) is Some
                            ==> cap == seq![
                            spec_parse_error_line(json_parse_err(lossy_text(body@))->0),
                        ])
                    }
                &&& final(self).sink.buffer_text() == crate::sink::spec_buffer_after(
                    old(self).sink.buffer_text(),
                    spec_response_pre_text(status, body@, verbose) + spec_capture_buffer_text(body@)
                        + spec_response_post_text(
                        response_time,
                        test.expected_status,
                        status,
                        critical,
                    ),
                )
            }),
    {
        let ghost pre = *self;
        let ghost verbose = pre.current_test().spec_verbose(pre.config.default_verbose);
        let cap = self.absorb_response(status, &body);
        let ghost mid_console = self.sink.console_lines();
        let ghost mid_buffer = self.sink.buffer_text();

        let n = self.config.tests.len();
        let test = &self.config.tests[self.index];
        let critical = match test.critical {
            Some(c) => c,
            None => false,
        };
        let class = classify_response_time(response_time, self.boundaries.low, self.boundaries.mid);
        let mut tl = String::from_str("Response time: ");
        let ts = u128_to_string(response_time);
        tl.append(ts.as_str());
        tl.append(" ms\n");
        self.sink.emit(tl, true);
        let mut el = String::from_str("Expected Status: ");
        let es = u16_to_string(test.expected_status);
        el.append(es.as_str());
        el.append("\n");
        self.sink.emit(el, true);
        let status_match = status == test.expected_status;
        self.outcomes.push(Outcome { status_match, response_time_class: class });
        if status_match {
            self.passed = self.passed + 1;
            self.sink.emit(String::from_str("TEST PASSED\n\n"), true);
            self.index = self.index + 1;
            self.phase = RunPhase::Ready;
        } else if critical {
            let cancel = String::from_str(
                "Test marked as 'critical' failed, cancelling all further tests.",
            );
            self.sink.print_line(cancel);
            self.phase = RunPhase::Aborted;
        } else {
            self.sink.emit(String::from_str("TEST FAILED\n\n"), true);
            self.index = self.index + 1;
            self.phase = RunPhase::Ready;
        }
        proof {
            assert(self.sink.console_lines() =~= mid_console + spec_response_post_lines(
                response_time,
                pre.current_test().expected_status,
                status,
                critical,
            ));
            assert(self.sink.console_lines() =~= pre.sink.console_lines()
                + spec_response_pre_lines(status, body@, verbose) + cap@
                + spec_response_post_lines(
                response_time,
                pre.current_test().expected_status,
                status,
                critical,
            ));
            if pre.sink.buffer_text() is Some {
                assert(self.sink.buffer_text()->0 =~= mid_buffer->0 + spec_response_post_text(
                    response_time,
                    pre.current_test().expected_status,
                    status,
                    critical,
                ));
                assert(self.sink.buffer_text()->0 =~= pre.sink.buffer_text()->0 + (
                spec_response_pre_text(status, body@, verbose) + spec_capture_buffer_text(body@)
                    + spec_response_post_text(
                    response_time,
                    pre.current_test().expected_status,
                    status,
                    critical,
                )));
            }
        }
    }

    /// The report as it stands: the fixed suite length, the passes so far,
    /// and a copy of the log buffer.  `total` equals the declared number of
    /// tests whatever happened — an abort never shrinks the denominator.
    pub fn report(&self) -> (r: RunReport)
        ensures
            spec_report_matches(r, self.tests().len(), self.passed as nat, self.sink.buffer_text()),
    {
        RunReport {
            total: self.config.tests.len(),
            passed: self.passed,
            log_buffer: self.sink.buffer_copy(),
        }
    }
}

} // verus!

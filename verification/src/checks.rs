//! The verdicts of the behavioural smoke checks run against a service
//! (liveness, auth gate, manifest), the local health ping, and the tally that
//! decides the exit status of a verify run.

use vstd::prelude::*;
use crate::calls::{parses_as_json, render_json};
use crate::text::{decimal, decimal_digits, pad_end, padded_end};

verus! {

/// How a piece of terminal output is styled.
#[derive(PartialEq, Eq, Structural, Clone, Copy, Debug)]
pub enum Tint {
    Plain,
    Bold,
    Dimmed,
    Green,
    Yellow,
    Red,
    RedBold,
}

/// What came back from one HTTP probe of a local service.
#[derive(Clone, Debug)]
pub enum ProbeOutcome {
    /// The service answered; `status_text` is the status as it reads, e.g. `200 OK`.
    Reply { code: u16, status_text: String },
    /// The request failed: `connect` when no connection could be made, `timeout`
    /// when it timed out (both may hold), `message` the error as it reads.
    Failed { connect: bool, timeout: bool, message: String },
}

/// A status code in the success class (2xx).
pub open spec fn is_success(code: u16) -> bool {
    200 <= code <= 299
}

/// The three verdicts a check can reach.
#[derive(PartialEq, Eq, Structural, Clone, Copy, Debug)]
pub enum CheckKind {
    Pass,
    Fail,
    Skip,
}

/// A verdict with its kind and its message, as the model of a `CheckResult`.
pub struct CheckView {
    pub kind: CheckKind,
    pub text: Seq<char>,
}

/// The result of one smoke check, with the message shown beside it.
#[derive(Clone, Debug, PartialEq, Eq)]
pub enum CheckResult {
    Pass(String),
    Fail(String),
    Skip(String),
}

impl View for CheckResult {
    type V = CheckView;

    open spec fn view(&self) -> CheckView {
        match self {
            CheckResult::Pass(m) => CheckView { kind: CheckKind::Pass, text: m@ },
            CheckResult::Fail(m) => CheckView { kind: CheckKind::Fail, text: m@ },
            CheckResult::Skip(m) => CheckView { kind: CheckKind::Skip, text: m@ },
        }
    }
}

/// A verdict of the given kind and message.
pub open spec fn verdict(kind: CheckKind, text: Seq<char>) -> CheckView {
    CheckView { kind, text }
}

impl CheckResult {
    /// Whether the check failed.
    pub fn is_fail(&self) -> (r: bool)
        ensures
            r == (self@.kind == CheckKind::Fail),
    {
        match self {
            CheckResult::Fail(_) => true,
            _ => false,
        }
    }

    /// The line shown for this result: its mark, two spaces, then the message.
    pub fn label(&self) -> (r: String)
        ensures
            r@ == (match self@.kind {
                CheckKind::Pass => "✓  "@,
                CheckKind::Fail => "✗  "@,
                CheckKind::Skip => "–  "@,
            }) + self@.text,
    {
        match self {
            CheckResult::Pass(m) => {
                let mut out = "✓  ".to_owned();
                out.append(m.as_str());
                out
            },
            CheckResult::Fail(m) => {
                let mut out = "✗  ".to_owned();
                out.append(m.as_str());
                out
            },
            CheckResult::Skip(m) => {
                let mut out = "–  ".to_owned();
                out.append(m.as_str());
                out
            },
        }
    }

    /// The style of this result: green for a pass, bold red for a failure, dimmed
    /// for a skip.
    pub fn tint(&self) -> (r: Tint)
        ensures
            r == (match self@.kind {
                CheckKind::Pass => Tint::Green,
                CheckKind::Fail => Tint::RedBold,
                CheckKind::Skip => Tint::Dimmed,
            }),
    {
        match self {
            CheckResult::Pass(_) => Tint::Green,
            CheckResult::Fail(_) => Tint::RedBold,
            CheckResult::Skip(_) => Tint::Dimmed,
        }
    }
}

/// The verdict for a request that did not get an answer, shared by the checks
/// that tolerate a stopped service: a refused connection is a skip, a timeout
/// a failure, any other error a failure with its message.
pub open spec fn unreachable_verdict(connect: bool, timeout: bool, message: Seq<char>) -> CheckView {
    if connect {
        verdict(CheckKind::Skip, "service not running"@)
    } else if timeout {
        verdict(CheckKind::Fail, "timeout"@)
    } else {
        verdict(CheckKind::Fail, message)
    }
}

/// Liveness: a 2xx answer passes with its status; any other answer, or no
/// answer, fails.
pub open spec fn liveness_verdict(o: ProbeOutcome) -> CheckView {
    match o {
        ProbeOutcome::Reply { code, status_text } => if is_success(code) {
            verdict(CheckKind::Pass, status_text@)
        } else {
            verdict(CheckKind::Fail, "unexpected status "@ + status_text@)
        },
        ProbeOutcome::Failed { connect, timeout, message } => if connect {
            verdict(CheckKind::Fail, "connection refused"@)
        } else if timeout {
            verdict(CheckKind::Fail, "timeout"@)
        } else {
            verdict(CheckKind::Fail, message@)
        },
    }
}

/// Auth gate: an unauthenticated POST to `probe_path` must be refused with 401 or
/// 403. A 404 is a skip (the path does not exist). A 5xx is a failure (the auth
/// middleware errs on such requests), and so is any other answer (the request
/// was not refused).
pub open spec fn auth_gate_verdict(o: ProbeOutcome, probe_path: Seq<char>) -> CheckView {
    match o {
        ProbeOutcome::Reply { code, status_text } => if code == 401 || code == 403 {
            verdict(CheckKind::Pass, decimal_digits(code as nat) + " (auth rejected as expected)"@)
        } else if code == 404 {
            verdict(CheckKind::Skip, "404 on "@ + probe_path + " — endpoint path may differ"@)
        } else if code >= 500 {
            verdict(
                CheckKind::Fail,
                decimal_digits(code as nat) + " — middleware may be panicking on unauthenticated requests"@,
            )
        } else {
            verdict(
                CheckKind::Fail,
                decimal_digits(code as nat) + " — expected 401/403; auth may be bypassed or disabled"@,
            )
        },
        ProbeOutcome::Failed { connect, timeout, message } => unreachable_verdict(connect, timeout, message@),
    }
}

/// Manifest: a 2xx answer passes when its body is JSON and fails otherwise; 404
/// (not exposed) and 401/403 (needs auth) are skips; any other answer fails.
pub open spec fn manifest_verdict(o: ProbeOutcome, body_is_json: bool) -> CheckView {
    match o {
        ProbeOutcome::Reply { code, status_text } => if is_success(code) {
            if body_is_json {
                verdict(CheckKind::Pass, "200 OK, valid JSON"@)
            } else {
                verdict(CheckKind::Fail, "200 OK but response is not valid JSON"@)
            }
        } else if code == 404 {
            verdict(CheckKind::Skip, "endpoint not exposed"@)
        } else if code == 401 || code == 403 {
            verdict(CheckKind::Skip, "requires auth (not probing further)"@)
        } else {
            verdict(CheckKind::Fail, "unexpected status "@ + status_text@)
        },
        ProbeOutcome::Failed { connect, timeout, message } => unreachable_verdict(connect, timeout, message@),
    }
}

fn text_then(first: &str, second: &str) -> (r: String)
    ensures
        r@ == first@ + second@,
{
    let mut out = first.to_owned();
    out.append(second);
    out
}

fn unreachable_check(connect: bool, timeout: bool, message: &String) -> (r: CheckResult)
    ensures
        r@ == unreachable_verdict(connect, timeout, message@),
{
    if connect {
        CheckResult::Skip("service not running".to_owned())
    } else if timeout {
        CheckResult::Fail("timeout".to_owned())
    } else {
        CheckResult::Fail(message.clone())
    }
}

/// The liveness verdict for the answer to `GET <health_path>`.
pub fn liveness_check(outcome: &ProbeOutcome) -> (r: CheckResult)
    ensures
        r@ == liveness_verdict(*outcome),
{
    match outcome {
        ProbeOutcome::Reply { code, status_text } => {
            if 200 <= *code && *code <= 299 {
                CheckResult::Pass(status_text.clone())
            } else {
                CheckResult::Fail(text_then("unexpected status ", status_text.as_str()))
            }
        },
        ProbeOutcome::Failed { connect, timeout, message } => {
            if *connect {
                CheckResult::Fail("connection refused".to_owned())
            } else if *timeout {
                CheckResult::Fail("timeout".to_owned())
            } else {
                CheckResult::Fail(message.clone())
            }
        },
    }
}

/// The auth-gate verdict for the answer to an unauthenticated `POST <probe_path>`.
pub fn auth_gate_check(outcome: &ProbeOutcome, probe_path: &str) -> (r: CheckResult)
    ensures
        r@ == auth_gate_verdict(*outcome, probe_path@),
{
    match outcome {
        ProbeOutcome::Reply { code, status_text: _ } => {
            let s = *code;
            if s == 401 || s == 403 {
                let n = decimal(s as u64);
                CheckResult::Pass(text_then(n.as_str(), " (auth rejected as expected)"))
            } else if s == 404 {
                let head = text_then("404 on ", probe_path);
                CheckResult::Skip(text_then(head.as_str(), " — endpoint path may differ"))
            } else if s >= 500 {
                let n = decimal(s as u64);
                CheckResult::Fail(
                    text_then(n.as_str(), " — middleware may be panicking on unauthenticated requests"),
                )
            } else {
                let n = decimal(s as u64);
                CheckResult::Fail(
                    text_then(n.as_str(), " — expected 401/403; auth may be bypassed or disabled"),
                )
            }
        },
        ProbeOutcome::Failed { connect, timeout, message } => unreachable_check(*connect, *timeout, message),
    }
}

/// The manifest verdict for the answer to `GET /v1/control/manifest`, given
/// whether the body of a 2xx answer is JSON.
pub fn manifest_verdict_for(outcome: &ProbeOutcome, body_is_json: bool) -> (r: CheckResult)
    ensures
        r@ == manifest_verdict(*outcome, body_is_json),
{
    match outcome {
        ProbeOutcome::Reply { code, status_text } => {
            let s = *code;
            if 200 <= s && s <= 299 {
                if body_is_json {
                    CheckResult::Pass("200 OK, valid JSON".to_owned())
                } else {
                    CheckResult::Fail("200 OK but response is not valid JSON".to_owned())
                }
            } else if s == 404 {
                CheckResult::Skip("endpoint not exposed".to_owned())
            } else if s == 401 || s == 403 {
                CheckResult::Skip("requires auth (not probing further)".to_owned())
            } else {
                CheckResult::Fail(text_then("unexpected status ", status_text.as_str()))
            }
        },
        ProbeOutcome::Failed { connect, timeout, message } => unreachable_check(*connect, *timeout, message),
    }
}

/// The manifest verdict for an answer and its body: the body of a 2xx answer is
/// parsed with serde_json to learn whether it is JSON.
pub fn manifest_check(outcome: &ProbeOutcome, body: &str) -> (r: CheckResult)
    ensures
        r@ == manifest_verdict(*outcome, parses_as_json(body@)),
{
    let is_json = match outcome {
        ProbeOutcome::Reply { code, status_text: _ } => {
            if 200 <= *code && *code <= 299 {
                render_json(body).is_some()
            } else {
                false
            }
        },
        _ => false,
    };
    manifest_verdict_for(outcome, is_json)
}

/// How a local `/health` ping went.
#[derive(PartialEq, Eq, Structural, Clone, Copy, Debug)]
pub enum LocalHealth {
    Up,
    Down,
    Unknown,
}

/// The local health for a ping, or `None` when no request could be made: a 2xx
/// answer is up, another answer down; no answer because of a timeout or a
/// refused connection, or no request at all, is unknown; any other error is down.
pub open spec fn local_health_of(o: Option<ProbeOutcome>) -> LocalHealth {
    match o {
        None => LocalHealth::Unknown,
        Some(ProbeOutcome::Reply { code, status_text }) => if is_success(code) {
            LocalHealth::Up
        } else {
            LocalHealth::Down
        },
        Some(ProbeOutcome::Failed { connect, timeout, message }) => if timeout || connect {
            LocalHealth::Unknown
        } else {
            LocalHealth::Down
        },
    }
}

/// Classifies a local `/health` ping.
pub fn local_health(outcome: Option<&ProbeOutcome>) -> (r: LocalHealth)
    ensures
        r == local_health_of(match outcome { Some(o) => Some(*o), None => None }),
{
    match outcome {
        None => LocalHealth::Unknown,
        Some(ProbeOutcome::Reply { code, status_text: _ }) => {
            if 200 <= *code && *code <= 299 {
                LocalHealth::Up
            } else {
                LocalHealth::Down
            }
        },
        Some(ProbeOutcome::Failed { connect, timeout, message: _ }) => {
            if *timeout || *connect {
                LocalHealth::Unknown
            } else {
                LocalHealth::Down
            }
        },
    }
}

impl LocalHealth {
    /// The text shown for the health.
    pub fn label(&self) -> (r: String)
        ensures
            r@ == (match *self {
                LocalHealth::Up => "✓ up"@,
                LocalHealth::Down => "✗ down"@,
                LocalHealth::Unknown => "? no-response"@,
            }),
    {
        match self {
            LocalHealth::Up => "✓ up".to_owned(),
            LocalHealth::Down => "✗ down".to_owned(),
            LocalHealth::Unknown => "? no-response".to_owned(),
        }
    }

    /// The style of the health: green when up, red when down, yellow when unknown.
    pub fn tint(&self) -> (r: Tint)
        ensures
            r == (match *self {
                LocalHealth::Up => Tint::Green,
                LocalHealth::Down => Tint::Red,
                LocalHealth::Unknown => Tint::Yellow,
            }),
    {
        match self {
            LocalHealth::Up => Tint::Green,
            LocalHealth::Down => Tint::Red,
            LocalHealth::Unknown => Tint::Yellow,
        }
    }
}

/// The auth-gate verdict of a service: skipped when it declares no probe path,
/// else the verdict on the probe's outcome.
pub open spec fn auth_step_verdict(probe_path: Option<Seq<char>>, o: Option<ProbeOutcome>) -> CheckView {
    match (probe_path, o) {
        (Some(p), Some(o)) => auth_gate_verdict(o, p),
        _ => verdict(CheckKind::Skip, "no auth probe declared"@),
    }
}

/// The auth-gate step of a service's checks: `outcome` is the probe's outcome,
/// present exactly when a probe path was declared and probed.
pub fn auth_step(probe_path: Option<&str>, outcome: Option<&ProbeOutcome>) -> (r: CheckResult)
    ensures
        r@ == auth_step_verdict(
            match probe_path { Some(p) => Some(p@), None => None },
            match outcome { Some(o) => Some(*o), None => None },
        ),
{
    match (probe_path, outcome) {
        (Some(p), Some(o)) => auth_gate_check(o, p),
        _ => CheckResult::Skip("no auth probe declared".to_owned()),
    }
}

/// Whether any of a service's three checks failed.
pub fn any_check_failed(liveness: &CheckResult, auth: &CheckResult, manifest: &CheckResult) -> (r: bool)
    ensures
        r == (liveness@.kind == CheckKind::Fail || auth@.kind == CheckKind::Fail
            || manifest@.kind == CheckKind::Fail),
{
    liveness.is_fail() || auth.is_fail() || manifest.is_fail()
}

/// The heading of a service's block of results: `── <name> ─`.
pub fn report_heading(name: &str) -> (r: String)
    ensures
        r@ == "── "@ + name@ + " ─"@,
{
    let mut out = "── ".to_owned();
    out.append(name);
    out.append(" ─");
    out
}

/// The style of a service's heading: bold red when a check failed, else bold.
pub fn heading_tint(failed: bool) -> (r: Tint)
    ensures
        r == (if failed { Tint::RedBold } else { Tint::Bold }),
{
    if failed { Tint::RedBold } else { Tint::Bold }
}

/// The address of a probe of a local service: `http://localhost:<port><path>`.
pub fn probe_url(port: u16, path: &str) -> (r: String)
    ensures
        r@ == "http://localhost:"@ + decimal_digits(port as nat) + path@,
{
    let mut out = "http://localhost:".to_owned();
    out.append(decimal(port as u64).as_str());
    out.append(path);
    out
}

/// The block printed for one service: its heading, then one line per check with
/// the check's name left-aligned in twelve columns and the check's shown result.
pub open spec fn check_block_of(heading: Seq<char>, liveness: Seq<char>, auth: Seq<char>, manifest: Seq<char>) -> Seq<char> {
    heading + "\n  "@ + padded_end("liveness"@, 12) + " "@ + liveness + "\n  "@ + padded_end(
        "auth-gate"@,
        12,
    ) + " "@ + auth + "\n  "@ + padded_end("manifest"@, 12) + " "@ + manifest
}

/// Lays out the block printed for one service from its (styled) heading and the
/// (styled) results of its three checks.
pub fn check_block(heading: &str, liveness: &str, auth: &str, manifest: &str) -> (r: String)
    ensures
        r@ == check_block_of(heading@, liveness@, auth@, manifest@),
{
    let mut out = heading.to_owned();
    out.append("\n  ");
    out.append(pad_end("liveness", 12).as_str());
    out.append(" ");
    out.append(liveness);
    out.append("\n  ");
    out.append(pad_end("auth-gate", 12).as_str());
    out.append(" ");
    out.append(auth);
    out.append("\n  ");
    out.append(pad_end("manifest", 12).as_str());
    out.append(" ");
    out.append(manifest);
    out
}

/// How many of the flags are set.
pub open spec fn count_set(flags: Seq<bool>) -> nat
    decreases flags.len(),
{
    if flags.len() == 0 {
        0
    } else {
        count_set(flags.drop_last()) + if flags.last() { 1nat } else { 0nat }
    }
}

proof fn count_set_bounded(flags: Seq<bool>)
    ensures
        count_set(flags) <= flags.len(),
        count_set(flags) == 0 <==> forall|i: int| 0 <= i < flags.len() ==> !flags[i],
    decreases flags.len(),
{
    if flags.len() > 0 {
        count_set_bounded(flags.drop_last());
        assert forall|i: int| 0 <= i < flags.len() - 1 implies flags.drop_last()[i] == flags[i] by {}
    }
}

/// The outcome of a verify run over the per-service failure flags: whether any
/// service failed, and how many did.
pub fn verify_tally(failed: &Vec<bool>) -> (r: (bool, usize))
    ensures
        r.1 == count_set(failed@),
        r.1 <= failed@.len(),
        r.0 == (r.1 > 0),
        r.0 == exists|i: int| 0 <= i < failed@.len() && failed@[i],
{
    let mut n: usize = 0;
    let mut i: usize = 0;
    while i < failed.len()
        invariant
            i <= failed@.len(),
            n == count_set(failed@.take(i as int)),
            n <= i,
        decreases failed.len() - i,
    {
        assert(failed@.take(i + 1).drop_last() =~= failed@.take(i as int));
        proof { count_set_bounded(failed@.take(i as int)); }
        if failed[i] {
            n = n + 1;
        }
        i = i + 1;
    }
    assert(failed@.take(failed@.len() as int) =~= failed@);
    proof { count_set_bounded(failed@); }
    (n > 0, n)
}

/// The closing line of a verify run.
pub fn summary_line(failed: usize, total: usize) -> (r: String)
    ensures
        r@ == (if failed == 0 {
            "  all "@ + decimal_digits(total as nat) + " services passed"@
        } else {
            "  "@ + decimal_digits(failed as nat) + "/"@ + decimal_digits(total as nat)
                + " services have failing checks"@
        }),
{
    if failed == 0 {
        let mut out = "  all ".to_owned();
        out.append(decimal(total as u64).as_str());
        out.append(" services passed");
        out
    } else {
        let mut out = "  ".to_owned();
        out.append(decimal(failed as u64).as_str());
        out.append("/");
        out.append(decimal(total as u64).as_str());
        out.append(" services have failing checks");
        out
    }
}

/// A service that is not running (its connection is refused) fails liveness
/// only: the auth-gate and manifest checks are skipped, not failed.
pub proof fn stopped_service_fails_liveness_only(
    o: ProbeOutcome,
    probe_path: Seq<char>,
    body_is_json: bool,
)
    requires
        o matches ProbeOutcome::Failed { connect, .. } && connect,
    ensures
        liveness_verdict(o) == verdict(CheckKind::Fail, "connection refused"@),
        auth_gate_verdict(o, probe_path).kind == CheckKind::Skip,
        manifest_verdict(o, body_is_json).kind == CheckKind::Skip,
{
}

/// Liveness passes exactly on a 2xx answer.
pub proof fn liveness_passes_on_success(o: ProbeOutcome)
    ensures
        liveness_verdict(o).kind == CheckKind::Pass <==> (o matches ProbeOutcome::Reply { code, .. } && is_success(code)),
        liveness_verdict(o).kind != CheckKind::Skip,
{
}

/// The auth gate passes exactly when the unauthenticated request is refused with
/// 401 or 403; a 2xx answer (auth bypassed) and a 5xx answer (middleware
/// failing) are failures; a 404 is a skip.
pub proof fn auth_gate_pass_conditions(o: ProbeOutcome, probe_path: Seq<char>)
    ensures
        auth_gate_verdict(o, probe_path).kind == CheckKind::Pass
            <==> (o matches ProbeOutcome::Reply { code, .. } && (code == 401 || code == 403)),
        (o matches ProbeOutcome::Reply { code, .. } && (is_success(code) || code >= 500))
            ==> auth_gate_verdict(o, probe_path).kind == CheckKind::Fail,
        (o matches ProbeOutcome::Reply { code, .. } && code == 404)
            ==> auth_gate_verdict(o, probe_path).kind == CheckKind::Skip,
{
}

/// Every answer to the unauthenticated probe other than 401, 403 and 404 fails the
/// auth gate and so marks the service as failing; the skip is kept for 404 alone
/// and carries the probed path.
pub proof fn auth_gate_fails_every_other_answer(code: u16, status_text: String, probe_path: Seq<char>)
    ensures
        code != 401 && code != 403 && code != 404 ==> auth_gate_verdict(
            ProbeOutcome::Reply { code, status_text },
            probe_path,
        ).kind == CheckKind::Fail,
        auth_gate_verdict(ProbeOutcome::Reply { code, status_text }, probe_path).kind == CheckKind::Skip
            <==> code == 404,
        code == 404 ==> auth_gate_verdict(ProbeOutcome::Reply { code, status_text }, probe_path).text
            == "404 on "@ + probe_path + " — endpoint path may differ"@,
{
}

/// The manifest check passes exactly on a 2xx answer whose body is JSON; a 404
/// is a skip, and a 2xx answer whose body is not JSON fails.
pub proof fn manifest_pass_conditions(o: ProbeOutcome, body_is_json: bool)
    ensures
        manifest_verdict(o, body_is_json).kind == CheckKind::Pass
            <==> (o matches ProbeOutcome::Reply { code, .. } && is_success(code) && body_is_json),
        (o matches ProbeOutcome::Reply { code, .. } && code == 404)
            ==> manifest_verdict(o, body_is_json).kind == CheckKind::Skip,
        (o matches ProbeOutcome::Reply { code, .. } && is_success(code) && !body_is_json)
            ==> manifest_verdict(o, body_is_json).kind == CheckKind::Fail,
{
}

} // verus!

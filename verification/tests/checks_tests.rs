use s2_cli::health::{health_status_line, pretty_or_raw};
use s2_cli::checks::{
    any_check_failed, auth_gate_check, check_block, probe_url, auth_step, heading_tint, liveness_check, local_health,
    manifest_check, manifest_verdict_for, report_heading, summary_line, verify_tally, CheckResult,
    LocalHealth, ProbeOutcome, Tint,
};

fn reply(code: u16, text: &str) -> ProbeOutcome {
    ProbeOutcome::Reply { code, status_text: text.to_string() }
}

fn refused() -> ProbeOutcome {
    ProbeOutcome::Failed { connect: true, timeout: false, message: "error sending request".to_string() }
}

fn timed_out() -> ProbeOutcome {
    ProbeOutcome::Failed { connect: false, timeout: true, message: "operation timed out".to_string() }
}

fn other_error() -> ProbeOutcome {
    ProbeOutcome::Failed { connect: false, timeout: false, message: "builder error".to_string() }
}

#[test]
fn liveness_passes_on_2xx_with_status_text() {
    assert_eq!(liveness_check(&reply(200, "200 OK")), CheckResult::Pass("200 OK".to_string()));
    assert_eq!(liveness_check(&reply(204, "204 No Content")), CheckResult::Pass("204 No Content".to_string()));
}

#[test]
fn liveness_fails_otherwise() {
    assert_eq!(
        liveness_check(&reply(503, "503 Service Unavailable")),
        CheckResult::Fail("unexpected status 503 Service Unavailable".to_string())
    );
    assert_eq!(liveness_check(&reply(301, "301 Moved Permanently")).is_fail(), true);
    assert_eq!(liveness_check(&refused()), CheckResult::Fail("connection refused".to_string()));
    assert_eq!(liveness_check(&timed_out()), CheckResult::Fail("timeout".to_string()));
    assert_eq!(liveness_check(&other_error()), CheckResult::Fail("builder error".to_string()));
}

#[test]
fn liveness_connect_checked_before_timeout() {
    let both = ProbeOutcome::Failed { connect: true, timeout: true, message: "x".to_string() };
    assert_eq!(liveness_check(&both), CheckResult::Fail("connection refused".to_string()));
}

#[test]
fn auth_gate_passes_on_401_and_403() {
    assert_eq!(
        auth_gate_check(&reply(401, "401 Unauthorized"), "/v1/generate_text"),
        CheckResult::Pass("401 (auth rejected as expected)".to_string())
    );
    assert_eq!(
        auth_gate_check(&reply(403, "403 Forbidden"), "/v1/generate_text"),
        CheckResult::Pass("403 (auth rejected as expected)".to_string())
    );
}

#[test]
fn auth_gate_bypass_and_panics_fail() {
    assert_eq!(
        auth_gate_check(&reply(200, "200 OK"), "/v1/x"),
        CheckResult::Fail("200 — expected 401/403; auth may be bypassed or disabled".to_string())
    );
    assert_eq!(
        auth_gate_check(&reply(500, "500 Internal Server Error"), "/v1/x"),
        CheckResult::Fail("500 — middleware may be panicking on unauthenticated requests".to_string())
    );
    assert_eq!(
        auth_gate_check(&reply(422, "422 Unprocessable Entity"), "/v1/x"),
        CheckResult::Fail("422 — expected 401/403; auth may be bypassed or disabled".to_string())
    );
}

#[test]
fn auth_gate_404_and_unreachable() {
    assert_eq!(
        auth_gate_check(&reply(404, "404 Not Found"), "/coach/oauth/google/start"),
        CheckResult::Skip("404 on /coach/oauth/google/start — endpoint path may differ".to_string())
    );
    assert_eq!(auth_gate_check(&refused(), "/v1/x"), CheckResult::Skip("service not running".to_string()));
    assert_eq!(auth_gate_check(&timed_out(), "/v1/x"), CheckResult::Fail("timeout".to_string()));
    assert_eq!(auth_gate_check(&other_error(), "/v1/x"), CheckResult::Fail("builder error".to_string()));
}

#[test]
fn auth_step_without_probe_is_skipped() {
    assert_eq!(auth_step(None, None), CheckResult::Skip("no auth probe declared".to_string()));
    assert_eq!(
        auth_step(Some("/v1/x"), Some(&reply(401, "401 Unauthorized"))),
        CheckResult::Pass("401 (auth rejected as expected)".to_string())
    );
}

#[test]
fn manifest_json_body_decides_2xx() {
    assert_eq!(
        manifest_check(&reply(200, "200 OK"), "{\"tools\": [\"a\"]}"),
        CheckResult::Pass("200 OK, valid JSON".to_string())
    );
    assert_eq!(
        manifest_check(&reply(200, "200 OK"), "<html>hello</html>"),
        CheckResult::Fail("200 OK but response is not valid JSON".to_string())
    );
    assert_eq!(
        manifest_check(&reply(200, "200 OK"), ""),
        CheckResult::Fail("200 OK but response is not valid JSON".to_string())
    );
}

#[test]
fn manifest_other_answers() {
    assert_eq!(manifest_check(&reply(404, "404 Not Found"), ""), CheckResult::Skip("endpoint not exposed".to_string()));
    assert_eq!(
        manifest_check(&reply(401, "401 Unauthorized"), ""),
        CheckResult::Skip("requires auth (not probing further)".to_string())
    );
    assert_eq!(
        manifest_check(&reply(403, "403 Forbidden"), ""),
        CheckResult::Skip("requires auth (not probing further)".to_string())
    );
    assert_eq!(
        manifest_check(&reply(502, "502 Bad Gateway"), "{}"),
        CheckResult::Fail("unexpected status 502 Bad Gateway".to_string())
    );
    assert_eq!(manifest_check(&refused(), ""), CheckResult::Skip("service not running".to_string()));
    assert_eq!(manifest_check(&timed_out(), ""), CheckResult::Fail("timeout".to_string()));
    assert_eq!(manifest_verdict_for(&reply(200, "200 OK"), true), CheckResult::Pass("200 OK, valid JSON".to_string()));
}

#[test]
fn stopped_service_fails_only_liveness() {
    let o = refused();
    let liveness = liveness_check(&o);
    let auth = auth_gate_check(&o, "/v1/generate_text");
    let manifest = manifest_check(&o, "");
    assert!(liveness.is_fail());
    assert!(!auth.is_fail());
    assert!(!manifest.is_fail());
    assert!(any_check_failed(&liveness, &auth, &manifest));
}

#[test]
fn healthy_service_has_no_failure() {
    let liveness = liveness_check(&reply(200, "200 OK"));
    let auth = auth_gate_check(&reply(401, "401 Unauthorized"), "/v1/x");
    let manifest = manifest_check(&reply(404, "404 Not Found"), "");
    assert!(!any_check_failed(&liveness, &auth, &manifest));
}

#[test]
fn local_health_classification() {
    assert_eq!(local_health(None), LocalHealth::Unknown);
    assert_eq!(local_health(Some(&reply(200, "200 OK"))), LocalHealth::Up);
    assert_eq!(local_health(Some(&reply(500, "500 Internal Server Error"))), LocalHealth::Down);
    assert_eq!(local_health(Some(&timed_out())), LocalHealth::Unknown);
    assert_eq!(local_health(Some(&refused())), LocalHealth::Unknown);
    assert_eq!(local_health(Some(&other_error())), LocalHealth::Down);
}

#[test]
fn labels_and_tints() {
    assert_eq!(LocalHealth::Up.label(), "✓ up");
    assert_eq!(LocalHealth::Down.label(), "✗ down");
    assert_eq!(LocalHealth::Unknown.label(), "? no-response");
    assert_eq!(LocalHealth::Up.tint(), Tint::Green);
    assert_eq!(LocalHealth::Down.tint(), Tint::Red);
    assert_eq!(LocalHealth::Unknown.tint(), Tint::Yellow);
    assert_eq!(CheckResult::Pass("200 OK".to_string()).label(), "✓  200 OK");
    assert_eq!(CheckResult::Fail("timeout".to_string()).label(), "✗  timeout");
    assert_eq!(CheckResult::Skip("endpoint not exposed".to_string()).label(), "–  endpoint not exposed");
    assert_eq!(CheckResult::Pass(String::new()).tint(), Tint::Green);
    assert_eq!(CheckResult::Fail(String::new()).tint(), Tint::RedBold);
    assert_eq!(CheckResult::Skip(String::new()).tint(), Tint::Dimmed);
    assert_eq!(report_heading("text-runtime"), "── text-runtime ─");
    assert_eq!(heading_tint(true), Tint::RedBold);
    assert_eq!(heading_tint(false), Tint::Bold);
}

#[test]
fn tally_counts_failures() {
    assert_eq!(verify_tally(&vec![]), (false, 0));
    assert_eq!(verify_tally(&vec![false, false]), (false, 0));
    assert_eq!(verify_tally(&vec![false, true, true]), (true, 2));
}

#[test]
fn summary_lines() {
    assert_eq!(summary_line(0, 7), "  all 7 services passed");
    assert_eq!(summary_line(2, 12), "  2/12 services have failing checks");
    assert_eq!(summary_line(0, 0), "  all 0 services passed");
}

#[test]
fn health_status_lines() {
    let ok = health_status_line(&reply(200, "200 OK"));
    assert_eq!((ok.label.as_str(), ok.tint, ok.detail.as_str()), ("status:", Tint::Green, "200 OK"));
    let bad = health_status_line(&reply(500, "500 Internal Server Error"));
    assert_eq!((bad.label.as_str(), bad.tint, bad.detail.as_str()), ("status:", Tint::Red, "500 Internal Server Error"));
    let both = ProbeOutcome::Failed { connect: true, timeout: true, message: "x".to_string() };
    let t = health_status_line(&both);
    assert_eq!((t.label.as_str(), t.tint, t.detail.as_str()), ("status:", Tint::Yellow, "timed out"));
    let c = health_status_line(&refused());
    assert_eq!(c.detail, "connection refused — service not running locally");
    let e = health_status_line(&other_error());
    assert_eq!((e.label.as_str(), e.tint, e.detail.as_str()), ("error:", Tint::Red, "builder error"));
    assert_eq!(pretty_or_raw("not json"), "not json");
    assert_eq!(pretty_or_raw("{\"ok\":true}"), "{\n  \"ok\": true\n}");
}

#[test]
fn probe_urls_and_blocks() {
    assert_eq!(probe_url(8001, "/health"), "http://localhost:8001/health");
    assert_eq!(probe_url(3000, "/v1/control/manifest"), "http://localhost:3000/v1/control/manifest");
    assert_eq!(
        check_block("── svc ─", "✓  200 OK", "–  skip", "✗  timeout"),
        format!("── svc ─\n  {:<12} ✓  200 OK\n  {:<12} –  skip\n  {:<12} ✗  timeout", "liveness", "auth-gate", "manifest")
    );
}

#[test]
fn health_body_is_serde_pretty_rendering() {
    let body = "[1,{\"a\":null}]";
    let expected = serde_json::to_string_pretty(&serde_json::from_str::<serde_json::Value>(body).unwrap()).unwrap();
    assert_eq!(pretty_or_raw(body), expected);
}

use s2_cli::checks::Tint;
use s2_cli::fleet::{
    broker_display_name, collect_gaps, railway_cell, default_health_path, health_target, railway_status_tint,
    short_name, table_row, table_rule, tint_for_uppercase_status, Broker, ControlPlane,
    ProductService, Runtime,
};

fn broker(name: &str, port: u16, gaps: &[&str]) -> Broker {
    Broker {
        name: name.to_string(),
        port,
        language: "rust".to_string(),
        status: None,
        note: None,
        gaps: gaps.iter().map(|g| g.to_string()).collect(),
    }
}

fn runtime(name: &str, port: u16, lang: &str, gaps: &[&str]) -> Runtime {
    Runtime {
        name: name.to_string(),
        port,
        language: lang.to_string(),
        gaps: gaps.iter().map(|g| g.to_string()).collect(),
        tools: vec![],
        auth: None,
    }
}

fn fleet() -> ControlPlane {
    ControlPlane {
        brokers: vec![broker("coach-broker", 7001, &["no rate limit"]), broker("text", 7002, &[])],
        live_runtimes: vec![
            runtime("generation/text-runtime", 8001, "rust", &["streaming", "retries"]),
            runtime("text", 8002, "python", &[]),
        ],
        scaffolded_runtimes: vec![runtime("compute/vision-runtime", 8101, "go", &["all of it"])],
        product_services: vec![ProductService {
            name: "coach-web".to_string(),
            port: 3000,
            product: "Coach".to_string(),
            health_path: default_health_path(),
            probe: None,
            auth: None,
        }],
    }
}

#[test]
fn health_path_default() {
    assert_eq!(default_health_path(), "/health");
}

#[test]
fn health_target_prefers_brokers() {
    assert_eq!(health_target(&fleet(), "text"), Some((7002, "rust".to_string())));
    assert_eq!(health_target(&fleet(), "coach-broker"), Some((7001, "rust".to_string())));
}

#[test]
fn health_target_matches_runtime_short_and_full_names() {
    assert_eq!(health_target(&fleet(), "text-runtime"), Some((8001, "rust".to_string())));
    assert_eq!(health_target(&fleet(), "generation/text-runtime"), Some((8001, "rust".to_string())));
    assert_eq!(health_target(&fleet(), "vision-runtime"), Some((8101, "go".to_string())));
    assert_eq!(health_target(&fleet(), "missing"), None);
    assert_eq!(health_target(&fleet(), "generation"), None);
}

#[test]
fn gaps_listed_in_registry_order() {
    let gaps = collect_gaps(&fleet());
    let expected: Vec<(String, String)> = vec![
        ("coach-broker", "no rate limit"),
        ("generation/text-runtime", "streaming"),
        ("generation/text-runtime", "retries"),
        ("compute/vision-runtime", "all of it"),
    ]
    .into_iter()
    .map(|(a, b)| (a.to_string(), b.to_string()))
    .collect();
    assert_eq!(gaps, expected);
}

#[test]
fn no_gaps_when_none_recorded() {
    let mut cp = fleet();
    cp.brokers[0].gaps.clear();
    cp.live_runtimes[0].gaps.clear();
    cp.scaffolded_runtimes[0].gaps.clear();
    assert!(collect_gaps(&cp).is_empty());
}

#[test]
fn names_shown() {
    let mut b = broker("coach-broker", 7001, &[]);
    assert_eq!(broker_display_name(&b), "coach-broker");
    b.status = Some("planned".to_string());
    assert_eq!(broker_display_name(&b), "coach-broker [planned]");
    assert_eq!(short_name("generation/text-runtime"), "text-runtime");
    assert_eq!(short_name("plain"), "plain");
}

#[test]
fn railway_status_styles() {
    assert_eq!(railway_status_tint("SUCCESS"), Tint::Green);
    assert_eq!(railway_status_tint("success"), Tint::Green);
    assert_eq!(railway_status_tint("Failed"), Tint::RedBold);
    assert_eq!(railway_status_tint("CRASHED"), Tint::RedBold);
    assert_eq!(railway_status_tint("deploying"), Tint::Yellow);
    assert_eq!(railway_status_tint("BUILDING"), Tint::Yellow);
    assert_eq!(railway_status_tint("gql-error"), Tint::Plain);
    assert_eq!(tint_for_uppercase_status("success"), Tint::Plain);
    assert_eq!(railway_cell(None), ("—".to_string(), Tint::Dimmed));
    assert_eq!(railway_cell(Some("crashed")), ("crashed".to_string(), Tint::RedBold));
}

#[test]
fn table_layout() {
    let row = table_row("coach-broker", 7001, "rust", "SUCCESS", "✓ up");
    assert_eq!(row, format!("{:<38} {:>6}  {:<12} {:<16} {}", "coach-broker", 7001, "rust", "SUCCESS", "✓ up"));
    assert_eq!(table_rule(), "─".repeat(92));
}

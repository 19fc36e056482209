use s2_cli::fleet::{ControlPlane, ProductService, Runtime};
use s2_cli::plan::{plan_verify, product_check, runtime_check, service_selected, verify_heading};

fn runtime(name: &str, port: u16, tools: &[&str], auth: Option<&str>) -> Runtime {
    Runtime {
        name: name.to_string(),
        port,
        language: "rust".to_string(),
        gaps: vec![],
        tools: tools.iter().map(|t| t.to_string()).collect(),
        auth: auth.map(|a| a.to_string()),
    }
}

fn product(name: &str, port: u16, product: &str, health: &str, probe: Option<&str>) -> ProductService {
    ProductService {
        name: name.to_string(),
        port,
        product: product.to_string(),
        health_path: health.to_string(),
        probe: probe.map(|p| p.to_string()),
        auth: None,
    }
}

fn fleet() -> ControlPlane {
    ControlPlane {
        brokers: vec![],
        live_runtimes: vec![
            runtime("text-runtime", 8001, &["generate_text", "embed"], Some("bearer")),
            runtime("Snack-Runtime", 8002, &["snack"], Some("internal-only")),
            runtime("quiet-runtime", 8003, &[], None),
        ],
        scaffolded_runtimes: vec![runtime("future-runtime", 8100, &["x"], None)],
        product_services: vec![
            product("coach-web", 3000, "Coach", "/coach/health", Some("/coach/oauth/google/start")),
            product("book-api", 3100, "Book", "/health", None),
        ],
    }
}

#[test]
fn runtime_probe_paths() {
    let c = runtime_check(&runtime("text-runtime", 8001, &["generate_text", "embed"], None));
    assert_eq!(c.probe_path, Some("/v1/generate_text".to_string()));
    assert_eq!(c.health_path, "/health");
    assert_eq!(c.port, 8001);
    let internal = runtime_check(&runtime("snack", 8002, &["snack"], Some("internal-only")));
    assert_eq!(internal.probe_path, None);
    let no_tools = runtime_check(&runtime("quiet", 8003, &[], None));
    assert_eq!(no_tools.probe_path, None);
}

#[test]
fn product_probe_paths() {
    let c = product_check(&product("coach-web", 3000, "Coach", "/coach/health", Some("/coach/oauth/google/start")));
    assert_eq!(c.health_path, "/coach/health");
    assert_eq!(c.probe_path, Some("/coach/oauth/google/start".to_string()));
}

#[test]
fn unfiltered_plan_checks_everything_live() {
    let plan = plan_verify(&fleet(), None).unwrap();
    let names: Vec<&str> = plan.iter().map(|c| c.name.as_str()).collect();
    assert_eq!(names, vec!["text-runtime", "Snack-Runtime", "quiet-runtime", "coach-web", "book-api"]);
}

#[test]
fn filter_is_case_insensitive_on_name() {
    let plan = plan_verify(&fleet(), Some("SNACK")).unwrap();
    let names: Vec<&str> = plan.iter().map(|c| c.name.as_str()).collect();
    assert_eq!(names, vec!["Snack-Runtime"]);
}

#[test]
fn filter_matches_product() {
    let plan = plan_verify(&fleet(), Some("coach")).unwrap();
    let names: Vec<&str> = plan.iter().map(|c| c.name.as_str()).collect();
    assert_eq!(names, vec!["coach-web"]);
    let plan = plan_verify(&fleet(), Some("runtime")).unwrap();
    assert_eq!(plan.len(), 3);
}

#[test]
fn filter_matching_nothing_is_refused() {
    assert!(plan_verify(&fleet(), Some("future")).is_none());
    assert!(plan_verify(&fleet(), Some("nothing")).is_none());
}

#[test]
fn empty_registry_without_filter_plans_nothing() {
    let cp = ControlPlane { brokers: vec![], live_runtimes: vec![], scaffolded_runtimes: vec![], product_services: vec![] };
    assert_eq!(plan_verify(&cp, None).map(|p| p.len()), Some(0));
    assert!(plan_verify(&cp, Some("x")).is_none());
}

#[test]
fn selection_rule() {
    assert!(service_selected("anything", None, None));
    assert!(service_selected("coach-web", Some("coach"), Some("web")));
    assert!(service_selected("x", Some("coach"), Some("oac")));
    assert!(!service_selected("x", None, Some("oac")));
}

#[test]
fn headings() {
    assert_eq!(
        verify_heading(None),
        "── VERIFY: all live runtimes ──────────────────────────────────────────────"
    );
    assert_eq!(
        verify_heading(Some("coach")),
        "── VERIFY: coach ──────────────────────────────────────────────"
    );
}

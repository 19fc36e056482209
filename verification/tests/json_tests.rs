use s2_cli::json::{deployment_status, railway_status, webhook_echo, webhook_status, GraphqlReply, JsonValue};

fn obj(members: Vec<(&str, JsonValue)>) -> JsonValue {
    JsonValue::Object(members.into_iter().map(|(k, v)| (k.to_string(), v)).collect())
}

fn text(s: &str) -> JsonValue {
    JsonValue::Str(s.to_string())
}

fn railway_data(status: JsonValue) -> JsonValue {
    let deployment = obj(vec![("status", status), ("createdAt", text("2024-01-01"))]);
    let deployments = obj(vec![("edges", JsonValue::Array(vec![obj(vec![("node", deployment)])]))]);
    let service = obj(vec![("name", text("text-runtime")), ("deployments", deployments)]);
    obj(vec![("services", obj(vec![("edges", JsonValue::Array(vec![obj(vec![("node", service)])]))]))])
}

#[test]
fn member_lookup() {
    let v = obj(vec![("a", JsonValue::Null), ("b", text("x"))]);
    assert!(matches!(v.get("b"), Some(JsonValue::Str(s)) if s == "x"));
    assert!(v.get("c").is_none());
    assert!(text("x").get("a").is_none());
    assert_eq!(text("x").as_text(), Some(&"x".to_string()));
    assert!(JsonValue::Array(vec![]).first().is_none());
}

#[test]
fn latest_deployment_status() {
    assert_eq!(deployment_status(&railway_data(text("SUCCESS"))), Some("SUCCESS".to_string()));
    assert_eq!(deployment_status(&railway_data(JsonValue::Number("3".to_string()))), None);
    let no_services = obj(vec![("services", obj(vec![("edges", JsonValue::Array(vec![]))]))]);
    assert_eq!(deployment_status(&no_services), None);
    assert_eq!(deployment_status(&JsonValue::Null), None);
}

#[test]
fn railway_reply_status() {
    let ok = GraphqlReply { data: Some(railway_data(text("DEPLOYING"))), errors: vec![] };
    assert_eq!(railway_status(&ok), Some("DEPLOYING".to_string()));
    let failed = GraphqlReply { data: Some(railway_data(text("SUCCESS"))), errors: vec![text("boom")] };
    assert_eq!(railway_status(&failed), Some("gql-error".to_string()));
    let empty = GraphqlReply { data: None, errors: vec![] };
    assert_eq!(railway_status(&empty), None);
}

#[test]
fn webhook_status_line() {
    assert_eq!(webhook_status(&obj(vec![("status", text("SUCCESS"))])), Some("SUCCESS".to_string()));
    assert_eq!(webhook_status(&obj(vec![("status", JsonValue::Bool(true))])), Some("unknown".to_string()));
    assert_eq!(webhook_status(&obj(vec![("type", text("DEPLOY"))])), None);
    assert_eq!(webhook_status(&JsonValue::Array(vec![])), None);
}

#[test]
fn webhook_echo_pretty_prints_json() {
    let body = "{\"status\":\"SUCCESS\",\"service\":{\"name\":\"text\"}}";
    let expected = serde_json::to_string_pretty(&serde_json::from_str::<serde_json::Value>(body).unwrap()).unwrap();
    assert_eq!(webhook_echo(body), Some(expected));
    assert_ne!(webhook_echo(body), Some(body.to_string()));
    assert_eq!(webhook_echo("not json"), None);
    assert_eq!(webhook_echo(""), None);
}

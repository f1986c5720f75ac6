use inventory_api::commands::HttpMethod;
use inventory_api::commands::command_error;
use inventory_api::commands::parse_method;
use inventory_api::commands::prepare_query_request;
use inventory_api::commands::query_allowed;
use inventory_api::commands::resolve_url;
use inventory_api::contracts::HealthStatus;
use inventory_api::contracts::system_status_of;
use inventory_api::json::JsonValue;

fn health_with_db_status(status: Option<&str>) -> HealthStatus {
    let components = match status {
        Some(st) => vec![(
            "database".to_string(),
            JsonValue::Object(vec![("status".to_string(), JsonValue::Text(st.to_string()))]),
        )],
        None => vec![],
    };
    HealthStatus {
        status: "ok".to_string(),
        timestamp: "2024-03-01T10:00:00Z".to_string(),
        version: "1.4.2".to_string(),
        environment: "production".to_string(),
        uptime_seconds: 7200,
        checks_summary: vec![],
        components,
    }
}

#[test]
fn select_queries_pass_the_gate() {
    assert!(query_allowed("select * from items"));
    assert!(query_allowed("SELECT id FROM products"));
    assert!(query_allowed("  \t sElEcT 1 "));
}

#[test]
fn non_select_queries_are_rejected_with_the_fixed_message() {
    assert!(!query_allowed("DELETE FROM items"));
    assert!(!query_allowed("  drop table items"));
    assert!(!query_allowed(""));
    assert!(!query_allowed("selec t"));
    let err = prepare_query_request("UPDATE items SET price = 0").unwrap_err();
    assert_eq!(err, "Only SELECT queries are allowed for security reasons");
}

#[test]
fn accepted_query_becomes_the_request_body() {
    let body = prepare_query_request("select 1").expect("query accepted");
    match body {
        JsonValue::Object(fs) => {
            assert_eq!(fs.len(), 1);
            assert_eq!(fs[0].0, "query");
            match &fs[0].1 {
                JsonValue::Text(q) => assert_eq!(q, "select 1"),
                _ => panic!("query field is not text"),
            }
        },
        _ => panic!("body is not an object"),
    }
}

#[test]
fn method_names_fold_to_the_four_verbs() {
    assert_eq!(parse_method("get").unwrap(), HttpMethod::Get);
    assert_eq!(parse_method("POST").unwrap(), HttpMethod::Post);
    assert_eq!(parse_method("Put").unwrap(), HttpMethod::Put);
    assert_eq!(parse_method("delete").unwrap(), HttpMethod::Delete);
    assert_eq!(parse_method("PATCH").unwrap_err(), "Unsupported HTTP method");
}

#[test]
fn relative_paths_resolve_against_the_base() {
    assert_eq!(
        resolve_url("http://localhost:8000", "/api/v1/health"),
        "http://localhost:8000/api/v1/health"
    );
    assert_eq!(resolve_url("http://localhost:8000", "https://example.com/x"), "https://example.com/x");
    assert_eq!(resolve_url("http://localhost:8000", "http://other:1/y"), "http://other:1/y");
}

#[test]
fn command_errors_carry_operation_and_detail() {
    assert_eq!(
        command_error("Failed to fetch inventory: ", "connection refused"),
        "Failed to fetch inventory: connection refused"
    );
}

#[test]
fn failed_health_check_still_yields_a_status() {
    let now = "2024-03-01T12:00:00Z".to_string();
    let st = system_status_of(None, now);
    assert!(!st.api_connected);
    assert!(!st.database_healthy);
    assert_eq!(st.last_check, "2024-03-01T12:00:00Z");
    assert_eq!(st.version, "unknown");
    assert_eq!(st.environment, "unknown");
}

#[test]
fn healthy_database_component_sets_the_flag() {
    let st = system_status_of(Some(health_with_db_status(Some("healthy"))), "x".to_string());
    assert!(st.api_connected);
    assert!(st.database_healthy);
    assert_eq!(st.last_check, "2024-03-01T10:00:00Z");
    assert_eq!(st.version, "1.4.2");
    assert_eq!(st.environment, "production");
}

#[test]
fn unhealthy_or_missing_database_component_clears_the_flag() {
    let st = system_status_of(Some(health_with_db_status(Some("degraded"))), "x".to_string());
    assert!(st.api_connected);
    assert!(!st.database_healthy);
    let st = system_status_of(Some(health_with_db_status(None)), "x".to_string());
    assert!(!st.database_healthy);
}

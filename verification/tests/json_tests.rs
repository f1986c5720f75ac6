use inventory_api::json::JsonNumber;
use inventory_api::json::JsonValue;
use inventory_api::json::duplicate;
use inventory_api::json::get_bool;
use inventory_api::json::get_field;
use inventory_api::json::get_i32;
use inventory_api::json::get_i64;
use inventory_api::json::get_num_or_zero;
use inventory_api::json::get_opt_str;
use inventory_api::json::get_str;
use inventory_api::json::get_str_pairs;
use inventory_api::json::get_u64;
use inventory_api::json::json_eq;
use inventory_api::json::read_i32;
use inventory_api::json::read_i64;
use inventory_api::json::read_u64;
use inventory_api::json::str_eq;
use inventory_api::metrics::ApiDashboardMetrics;
use inventory_api::metrics::InventoryMetrics;
use inventory_api::metrics::PerformanceMetrics;
use inventory_api::metrics::SalesMetrics;
use inventory_api::metrics::SystemMetrics;
use inventory_api::metrics::dashboard_metrics_of;

fn text(x: &str) -> JsonValue {
    JsonValue::Text(x.to_string())
}

fn fields(pairs: Vec<(&str, JsonValue)>) -> Vec<(String, JsonValue)> {
    pairs.into_iter().map(|(k, v)| (k.to_string(), v)).collect()
}

#[test]
fn field_lookup_takes_the_first_match() {
    let fs = fields(vec![("a", text("first")), ("b", text("other")), ("a", text("second"))]);
    match get_field(&fs, "a") {
        Some(JsonValue::Text(s)) => assert_eq!(s, "first"),
        _ => panic!("field not found"),
    }
    assert!(get_field(&fs, "c").is_none());
}

#[test]
fn typed_getters_check_the_value_kind() {
    let fs = fields(vec![
        ("s", text("word")),
        ("b", JsonValue::Bool(true)),
        ("n", JsonValue::Number(JsonNumber::Unsigned(7))),
        ("m", JsonValue::Number(JsonNumber::Signed(-4))),
        ("x", JsonValue::Null),
    ]);
    assert_eq!(get_str(&fs, "s").unwrap(), "word");
    assert!(get_str(&fs, "b").is_none());
    assert_eq!(get_bool(&fs, "b"), Some(true));
    assert_eq!(get_u64(&fs, "n"), Some(7));
    assert_eq!(get_u64(&fs, "m"), None);
    assert_eq!(get_i64(&fs, "m"), Some(-4));
    assert_eq!(get_i32(&fs, "m"), Some(-4));
    assert_eq!(get_opt_str(&fs, "x"), Some(None));
    assert_eq!(get_opt_str(&fs, "absent"), Some(None));
    assert_eq!(get_opt_str(&fs, "s"), Some(Some("word".to_string())));
    assert_eq!(get_opt_str(&fs, "b"), None);
}

#[test]
fn number_projections_respect_ranges() {
    assert_eq!(read_i64(JsonNumber::Unsigned(u64::MAX)), None);
    assert_eq!(read_i64(JsonNumber::Unsigned(9)), Some(9));
    assert_eq!(read_i64(JsonNumber::Signed(-9)), Some(-9));
    assert_eq!(read_i64(JsonNumber::Fractional(1.5f64.to_bits())), None);
    assert_eq!(read_i32(JsonNumber::Signed(i64::from(i32::MAX) + 1)), None);
    assert_eq!(read_i32(JsonNumber::Signed(-1)), Some(-1));
    assert_eq!(read_u64(JsonNumber::Signed(-1)), None);
    assert_eq!(read_u64(JsonNumber::Unsigned(3)), Some(3));
}

#[test]
fn missing_number_defaults_to_a_zero_value() {
    let fs = fields(vec![("present", JsonValue::Number(JsonNumber::Unsigned(2)))]);
    assert_eq!(get_num_or_zero(&fs, "present"), Some(JsonNumber::Unsigned(2)));
    assert_eq!(get_num_or_zero(&fs, "absent"), Some(JsonNumber::Fractional(0)));
    let bad = fields(vec![("present", text("two"))]);
    assert_eq!(get_num_or_zero(&bad, "present"), None);
}

#[test]
fn string_maps_require_string_values() {
    let fs = fields(vec![(
        "checks",
        JsonValue::Object(fields(vec![("db", text("ok")), ("cache", text("ok"))])),
    )]);
    let pairs = get_str_pairs(&fs, "checks").expect("pairs");
    assert_eq!(pairs.len(), 2);
    assert_eq!(pairs[0], ("db".to_string(), "ok".to_string()));
    let bad = fields(vec![(
        "checks",
        JsonValue::Object(fields(vec![("db", JsonValue::Bool(true))])),
    )]);
    assert!(get_str_pairs(&bad, "checks").is_none());
}

#[test]
fn duplicate_copies_deeply_and_json_eq_compares_deeply() {
    let doc = JsonValue::Object(fields(vec![
        ("list", JsonValue::Array(vec![text("a"), JsonValue::Bool(false)])),
        ("inner", JsonValue::Object(fields(vec![("k", JsonValue::Null)]))),
    ]));
    let copy = duplicate(&doc);
    assert!(json_eq(&doc, &copy));
    let other = JsonValue::Object(fields(vec![
        ("list", JsonValue::Array(vec![text("a"), JsonValue::Bool(true)])),
        ("inner", JsonValue::Object(fields(vec![("k", JsonValue::Null)]))),
    ]));
    assert!(!json_eq(&doc, &other));
    assert!(!json_eq(&doc, &text("scalar")));
}

#[test]
fn str_eq_compares_characters() {
    assert!(str_eq("abc", "abc"));
    assert!(!str_eq("abc", "abd"));
    assert!(!str_eq("abc", "ab"));
    assert!(str_eq("", ""));
}

#[test]
fn dashboard_summary_keeps_value_and_listings_and_zeroes_the_rest() {
    let api = ApiDashboardMetrics {
        timestamp: "2024-03-01T10:00:00Z".to_string(),
        inventory: InventoryMetrics {
            total_items: 100,
            items_in_stock: 60,
            items_sold: 30,
            items_listed: 10,
            total_inventory_value: JsonNumber::Fractional(12345.5f64.to_bits()),
            average_purchase_price: JsonNumber::Fractional(123.4f64.to_bits()),
            top_brands: vec![],
            status_breakdown: vec![],
        },
        sales: SalesMetrics { recent_activity: vec![text("sale-1"), text("sale-2")] },
        system: SystemMetrics {
            status: "ok".to_string(),
            uptime_seconds: JsonNumber::Unsigned(3600),
            environment: "production".to_string(),
            version: "1.0".to_string(),
        },
        performance: PerformanceMetrics {
            total_requests: 5000,
            error_rate: JsonNumber::Fractional(0.01f64.to_bits()),
            avg_response_time: JsonNumber::Fractional(12.0f64.to_bits()),
        },
    };
    let flat = dashboard_metrics_of(api);
    assert_eq!(flat.total_inventory_value, JsonNumber::Fractional(12345.5f64.to_bits()));
    assert_eq!(flat.monthly_sales, JsonNumber::Fractional(0));
    assert_eq!(flat.profit_margin, JsonNumber::Fractional(0));
    assert_eq!(flat.active_listings, 10);
    assert_eq!(flat.pending_imports, 0);
    assert_eq!(flat.recent_transactions.len(), 2);
}

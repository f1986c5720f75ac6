use inventory_api::json::JsonNumber;
use inventory_api::json::JsonValue;
use inventory_api::metrics::parse_api_dashboard_metrics;
use inventory_api::pricing::parse_auto_listing_status;
use inventory_api::pricing::parse_dead_stock_item;
use inventory_api::pricing::parse_market_analysis;
use inventory_api::pricing::parse_market_trend_data;
use inventory_api::pricing::parse_pricing_recommendation;
use inventory_api::pricing::parse_sales_forecast;
use inventory_api::pricing::ForecastRequest;
use inventory_api::pricing::PricingRequest;
use inventory_api::pricing::encode_forecast_request;
use inventory_api::pricing::encode_pricing_request;
use inventory_api::json::json_eq;

fn text(x: &str) -> JsonValue {
    JsonValue::Text(x.to_string())
}

fn unsigned(x: u64) -> JsonValue {
    JsonValue::Number(JsonNumber::Unsigned(x))
}

fn fractional(x: f64) -> JsonValue {
    JsonValue::Number(JsonNumber::Fractional(x.to_bits()))
}

fn object(fields: Vec<(&str, JsonValue)>) -> JsonValue {
    JsonValue::Object(fields.into_iter().map(|(k, v)| (k.to_string(), v)).collect())
}

#[test]
fn market_analysis_decodes_with_optional_price() {
    let body = object(vec![
        ("product_id", text("p-1")),
        ("current_market_price", JsonValue::Null),
        ("price_trend", text("rising")),
        ("market_position", text("mid")),
        ("competitor_count", unsigned(4)),
        ("demand_score", fractional(0.8)),
        ("supply_score", fractional(0.3)),
        ("recommended_action", text("hold")),
    ]);
    let a = parse_market_analysis(&body).expect("decode");
    assert_eq!(a.product_id, "p-1");
    assert_eq!(a.current_market_price, None);
    assert_eq!(a.competitor_count, 4);
    assert_eq!(a.recommended_action, "hold");
}

#[test]
fn market_trend_data_requires_string_insights() {
    let body = object(vec![
        ("current_condition", text("bullish")),
        ("trend_strength", fractional(0.6)),
        ("volatility_level", text("low")),
        ("price_momentum", text("up")),
        ("recommended_action", text("list more")),
        ("confidence_score", fractional(0.9)),
        ("key_insights", JsonValue::Array(vec![text("demand up"), text("supply flat")])),
    ]);
    let t = parse_market_trend_data(&body).expect("decode");
    assert_eq!(t.key_insights, vec!["demand up".to_string(), "supply flat".to_string()]);

    let bad = object(vec![
        ("current_condition", text("bullish")),
        ("trend_strength", fractional(0.6)),
        ("volatility_level", text("low")),
        ("price_momentum", text("up")),
        ("recommended_action", text("list more")),
        ("confidence_score", fractional(0.9)),
        ("key_insights", JsonValue::Array(vec![unsigned(7)])),
    ]);
    assert!(parse_market_trend_data(&bad).is_none());
}

#[test]
fn pricing_recommendation_decodes_its_price_range() {
    let body = object(vec![
        ("product_id", text("p-2")),
        ("suggested_price", fractional(180.0)),
        ("strategy_used", text("aggressive")),
        ("confidence_score", fractional(0.7)),
        ("margin_percent", fractional(22.5)),
        ("markup_percent", fractional(30.0)),
        ("reasoning", JsonValue::Array(vec![text("comps are higher")])),
        ("market_position", JsonValue::Null),
        ("price_range", object(vec![("low", fractional(170.0)), ("high", fractional(195.0))])),
    ]);
    let r = parse_pricing_recommendation(&body).expect("decode");
    assert_eq!(r.product_id, "p-2");
    let range = r.price_range.expect("range present");
    assert_eq!(range.len(), 2);
    assert_eq!(range[0].0, "low");
    assert_eq!(range[1].1, JsonNumber::Fractional(195.0f64.to_bits()));
}

#[test]
fn sales_forecast_decodes_with_optional_scores() {
    let body = object(vec![
        ("target_id", text("brand-1")),
        ("target_type", text("brand")),
        ("forecast_date", text("2024-03-01")),
        ("horizon_days", unsigned(30)),
        ("predicted_sales", fractional(42.0)),
        ("predicted_revenue", fractional(9000.0)),
        ("confidence_interval_lower", fractional(30.0)),
        ("confidence_interval_upper", fractional(55.0)),
        ("model_used", text("seasonal")),
        ("accuracy_score", JsonValue::Null),
        ("trend", text("up")),
        ("seasonality_factor", fractional(1.2)),
    ]);
    let f = parse_sales_forecast(&body).expect("decode");
    assert_eq!(f.horizon_days, 30);
    assert_eq!(f.accuracy_score, None);
    assert_eq!(f.seasonality_factor, Some(JsonNumber::Fractional(1.2f64.to_bits())));
}

#[test]
fn dead_stock_item_decodes_with_actions() {
    let body = object(vec![
        ("item_id", text("i-1")),
        ("product_name", text("Runner")),
        ("brand_name", text("Apex")),
        ("size_value", text("42")),
        ("purchase_price", fractional(100.0)),
        ("current_market_price", fractional(80.0)),
        ("days_in_inventory", unsigned(200)),
        ("risk_score", fractional(0.85)),
        ("risk_level", text("high")),
        ("locked_capital", fractional(100.0)),
        ("potential_loss", fractional(20.0)),
        ("recommended_actions", JsonValue::Array(vec![text("discount 20%")])),
        ("market_trend", JsonValue::Null),
        ("velocity_score", JsonValue::Null),
    ]);
    let d = parse_dead_stock_item(&body).expect("decode");
    assert_eq!(d.risk_level, "high");
    assert_eq!(d.days_in_inventory, 200);
    assert_eq!(d.recommended_actions, vec!["discount 20%".to_string()]);
}

#[test]
fn auto_listing_status_decodes_its_rules() {
    let rule = object(vec![
        ("name", text("fresh-drops")),
        ("active", JsonValue::Bool(true)),
        ("priority", unsigned(1)),
        ("conditions_count", unsigned(3)),
        ("items_matched_today", JsonValue::Null),
    ]);
    let body = object(vec![
        ("enabled", JsonValue::Bool(true)),
        ("total_rules", unsigned(1)),
        ("active_rules", unsigned(1)),
        ("last_run", JsonValue::Null),
        ("next_scheduled_run", text("2024-03-02T00:00:00Z")),
        ("items_processed_today", unsigned(12)),
        ("items_listed_today", unsigned(5)),
        ("success_rate_percent", fractional(41.7)),
        ("rules", JsonValue::Array(vec![rule])),
    ]);
    let st = parse_auto_listing_status(&body).expect("decode");
    assert_eq!(st.rules.len(), 1);
    assert_eq!(st.rules[0].name, "fresh-drops");
    assert_eq!(st.rules[0].items_matched_today, None);

    let mut broken = body;
    if let JsonValue::Object(ref mut fs) = broken {
        fs[8].1 = JsonValue::Array(vec![text("not a rule")]);
    }
    assert!(parse_auto_listing_status(&broken).is_none());
}

#[test]
fn dashboard_report_decodes_its_sections() {
    let body = object(vec![
        ("timestamp", text("2024-03-01T10:00:00Z")),
        (
            "inventory",
            object(vec![
                ("total_items", unsigned(100)),
                ("items_in_stock", unsigned(60)),
                ("items_sold", unsigned(30)),
                ("items_listed", unsigned(10)),
                ("total_inventory_value", fractional(12345.5)),
                ("average_purchase_price", fractional(123.4)),
                ("top_brands", JsonValue::Array(vec![text("Apex")])),
                ("status_breakdown", object(vec![("in_stock", unsigned(60))])),
            ]),
        ),
        ("sales", object(vec![("recent_activity", JsonValue::Array(vec![]))])),
        (
            "system",
            object(vec![
                ("status", text("ok")),
                ("uptime_seconds", fractional(3600.5)),
                ("environment", text("production")),
                ("version", text("1.0")),
            ]),
        ),
        (
            "performance",
            object(vec![
                ("total_requests", unsigned(5000)),
                ("error_rate", fractional(0.01)),
                ("avg_response_time", fractional(12.0)),
            ]),
        ),
    ]);
    let m = parse_api_dashboard_metrics(&body).expect("decode");
    assert_eq!(m.inventory.items_listed, 10);
    assert_eq!(m.system.status, "ok");
    assert_eq!(m.performance.total_requests, 5000);
}

#[test]
fn request_bodies_render_their_options_as_null() {
    let p = PricingRequest {
        product_id: "p-1".to_string(),
        inventory_id: None,
        strategy: Some("balanced".to_string()),
        target_margin: Some(JsonNumber::Fractional(0.2f64.to_bits())),
        condition: "new".to_string(),
        size: None,
    };
    let expected = object(vec![
        ("product_id", text("p-1")),
        ("inventory_id", JsonValue::Null),
        ("strategy", text("balanced")),
        ("target_margin", fractional(0.2)),
        ("condition", text("new")),
        ("size", JsonValue::Null),
    ]);
    assert!(json_eq(&encode_pricing_request(&p), &expected));

    let f = ForecastRequest {
        product_id: Some("p-1".to_string()),
        brand_id: None,
        category_id: None,
        horizon_days: 30,
        model: None,
        confidence_level: JsonNumber::Fractional(0.95f64.to_bits()),
    };
    let expected = object(vec![
        ("product_id", text("p-1")),
        ("brand_id", JsonValue::Null),
        ("category_id", JsonValue::Null),
        ("horizon_days", JsonValue::Number(JsonNumber::Signed(30))),
        ("model", JsonValue::Null),
        ("confidence_level", fractional(0.95)),
    ]);
    assert!(json_eq(&encode_forecast_request(&f), &expected));
}

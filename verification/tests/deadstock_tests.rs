use inventory_api::deadstock::parse_clearance_execution;
use inventory_api::deadstock::parse_dead_stock_summary;
use inventory_api::deadstock::parse_dead_stock_trends;
use inventory_api::deadstock::parse_risk_level_definitions;
use inventory_api::executions::parse_auto_listing_execution;
use inventory_api::executions::parse_auto_listing_simulation;
use inventory_api::executions::parse_forecast_analysis;
use inventory_api::executions::parse_smart_pricing_optimization;
use inventory_api::insights::parse_enrichment_status;
use inventory_api::insights::parse_market_trend_list;
use inventory_api::insights::parse_restock_list;
use inventory_api::json::JsonNumber;
use inventory_api::json::JsonValue;

fn text(x: &str) -> JsonValue {
    JsonValue::Text(x.to_string())
}

fn unsigned(x: u64) -> JsonValue {
    JsonValue::Number(JsonNumber::Unsigned(x))
}

fn fractional(x: f64) -> JsonValue {
    JsonValue::Number(JsonNumber::Fractional(x.to_bits()))
}

fn object(fields: Vec<(&str, JsonValue)>) -> JsonValue {
    JsonValue::Object(fields.into_iter().map(|(k, v)| (k.to_string(), v)).collect())
}

fn dead_stock_item() -> JsonValue {
    object(vec![
        ("item_id", text("i-1")),
        ("product_name", text("Runner")),
        ("brand_name", text("Apex")),
        ("size_value", text("42")),
        ("purchase_price", fractional(100.0)),
        ("current_market_price", JsonValue::Null),
        ("days_in_inventory", unsigned(220)),
        ("risk_score", fractional(0.9)),
        ("risk_level", text("critical")),
        ("locked_capital", fractional(100.0)),
        ("potential_loss", fractional(30.0)),
        ("recommended_actions", JsonValue::Array(vec![text("clearance")])),
        ("market_trend", JsonValue::Null),
        ("velocity_score", JsonValue::Null),
    ])
}

#[test]
fn dead_stock_summary_decodes_breakdown_and_priorities() {
    let body = object(vec![
        ("total_items_at_risk", unsigned(7)),
        ("risk_breakdown", object(vec![("high", unsigned(3)), ("critical", unsigned(4))])),
        (
            "financial_impact",
            object(vec![
                ("locked_capital", fractional(700.0)),
                ("potential_loss", fractional(120.0)),
                ("loss_percentage", fractional(17.1)),
            ]),
        ),
        ("top_priorities", JsonValue::Array(vec![dead_stock_item()])),
        ("last_analysis", text("2024-03-01T10:00:00Z")),
    ]);
    let s = parse_dead_stock_summary(&body).expect("decode");
    assert_eq!(s.total_items_at_risk, 7);
    assert_eq!(s.risk_breakdown, vec![("high".to_string(), 3), ("critical".to_string(), 4)]);
    assert_eq!(s.top_priorities.len(), 1);
    assert_eq!(s.top_priorities[0].risk_level, "critical");

    let broken = object(vec![
        ("total_items_at_risk", unsigned(7)),
        ("risk_breakdown", object(vec![("high", text("three"))])),
        ("financial_impact", object(vec![])),
        ("top_priorities", JsonValue::Array(vec![])),
        ("last_analysis", text("t")),
    ]);
    assert!(parse_dead_stock_summary(&broken).is_none());
}

#[test]
fn risk_level_definitions_decode_as_named_records() {
    let definition = object(vec![
        ("name", text("critical")),
        ("description", text("locked for a year")),
        ("risk_score_range", text("0.8-1.0")),
        ("age_threshold_days", unsigned(365)),
        ("color", text("red")),
        ("icon", text("alert")),
        ("action_priority", text("immediate")),
    ]);
    let body = object(vec![
        ("risk_levels", object(vec![("critical", definition)])),
        ("calculation_factors", object(vec![("age", fractional(0.4))])),
        ("automation_triggers", object(vec![("clearance", fractional(0.8))])),
    ]);
    let defs = parse_risk_level_definitions(&body).expect("decode");
    assert_eq!(defs.risk_levels.len(), 1);
    assert_eq!(defs.risk_levels[0].0, "critical");
    assert_eq!(defs.risk_levels[0].1.age_threshold_days, 365);
    assert_eq!(defs.calculation_factors[0].0, "age");
}

#[test]
fn clearance_execution_decodes_actions_and_projection() {
    let action = object(vec![
        ("item_id", text("i-1")),
        ("product_name", text("Runner")),
        ("original_price", fractional(100.0)),
        ("new_price", fractional(80.0)),
        ("discount_percent", fractional(20.0)),
        ("action_type", text("price_cut")),
        ("estimated_sale_probability", fractional(0.6)),
        ("would_reduce_from", JsonValue::Null),
        ("would_reduce_to", JsonValue::Null),
        ("dry_run", JsonValue::Bool(false)),
    ]);
    let body = object(vec![
        ("execution_id", text("e-1")),
        ("started_at", text("2024-03-01T10:00:00Z")),
        ("success", JsonValue::Bool(true)),
        ("dry_run", JsonValue::Bool(false)),
        ("risk_levels_targeted", JsonValue::Array(vec![text("critical")])),
        ("items_processed", unsigned(1)),
        ("actions_taken", JsonValue::Array(vec![action])),
        ("total_price_reductions", fractional(20.0)),
        ("estimated_capital_freed", fractional(80.0)),
        (
            "projected_outcomes",
            object(vec![
                ("estimated_sales_within_30d", unsigned(1)),
                ("estimated_revenue", fractional(80.0)),
                ("capital_recovery_rate", fractional(0.8)),
            ]),
        ),
        ("execution_time", fractional(1.5)),
    ]);
    let e = parse_clearance_execution(&body).expect("decode");
    assert!(e.success);
    assert_eq!(e.actions_taken.len(), 1);
    assert_eq!(e.actions_taken[0].action_type, "price_cut");
    assert_eq!(e.projected_outcomes.estimated_sales_within_30d, 1);
}

#[test]
fn dead_stock_trends_decode_points_and_findings() {
    let body = object(vec![
        ("trend_period", text("90d")),
        (
            "trend_data",
            JsonValue::Array(vec![object(vec![
                ("date", text("2024-02-01")),
                ("total_dead_stock_items", unsigned(12)),
                ("locked_capital", fractional(1200.0)),
                ("items_liquidated", unsigned(3)),
                ("capital_freed", fractional(240.0)),
            ])]),
        ),
        (
            "insights",
            object(vec![
                ("trend_direction", text("improving")),
                ("avg_liquidation_success_rate", fractional(0.4)),
                ("most_problematic_category", text("runners")),
                ("most_problematic_brand", text("Apex")),
                ("seasonal_pattern", text("winter peak")),
            ]),
        ),
        ("recommendations", JsonValue::Array(vec![text("clear winter stock")])),
    ]);
    let t = parse_dead_stock_trends(&body).expect("decode");
    assert_eq!(t.trend_period, "90d");
    assert_eq!(t.trend_data.len(), 1);
    assert_eq!(t.trend_data[0].items_liquidated, 3);
    assert_eq!(t.insights.trend_direction, "improving");
}

#[test]
fn optimization_run_decodes_recommendations() {
    let body = object(vec![
        ("total_items_analyzed", unsigned(40)),
        ("items_optimized", unsigned(12)),
        ("potential_profit_increase", fractional(340.0)),
        ("pricing_strategy", text("balanced")),
        ("market_conditions", text("stable")),
        ("timestamp", text("2024-03-01T10:00:00Z")),
        (
            "recommendations",
            JsonValue::Array(vec![object(vec![
                ("product_name", text("Runner")),
                ("current_price", fractional(100.0)),
                ("recommended_price", fractional(120.0)),
                ("profit_increase", fractional(20.0)),
                ("confidence", fractional(0.75)),
            ])]),
        ),
    ]);
    let o = parse_smart_pricing_optimization(&body).expect("decode");
    assert_eq!(o.items_optimized, 12);
    assert_eq!(o.recommendations.len(), 1);
    assert_eq!(o.recommendations[0].product_name, "Runner");
}

#[test]
fn listing_execution_and_simulation_decode() {
    let body = object(vec![
        ("execution_id", text("e-2")),
        ("started_at", text("2024-03-01T10:00:00Z")),
        ("max_items", unsigned(10)),
        ("dry_run", JsonValue::Bool(true)),
        ("items_evaluated", unsigned(9)),
        ("items_listed", unsigned(0)),
        ("rules_matched", unsigned(4)),
        ("errors", unsigned(0)),
        ("skipped", unsigned(5)),
        ("execution_time", fractional(0.7)),
        (
            "listings_created",
            JsonValue::Array(vec![object(vec![
                ("item_id", text("i-2")),
                ("product_name", text("Runner")),
                ("rule_applied", text("fresh-drops")),
                ("price", JsonValue::Null),
                ("platform", JsonValue::Null),
                ("dry_run", JsonValue::Bool(true)),
                ("would_list", JsonValue::Bool(true)),
                ("estimated_price", fractional(140.0)),
            ])]),
        ),
    ]);
    let e = parse_auto_listing_execution(&body).expect("decode");
    assert_eq!(e.rules_matched, 4);
    assert_eq!(e.listings_created[0].would_list, Some(true));

    let sim = object(vec![
        ("simulation_complete", JsonValue::Bool(true)),
        ("rule_tested", text("fresh-drops")),
        ("items_evaluated", unsigned(9)),
        ("items_that_would_be_listed", unsigned(2)),
        ("rules_matched", unsigned(2)),
        ("potential_revenue", fractional(260.0)),
        ("average_markup_percent", fractional(30.0)),
        ("execution_time", fractional(0.2)),
        (
            "matched_items",
            JsonValue::Array(vec![object(vec![
                ("item_id", text("i-3")),
                ("product_name", text("Runner")),
                ("rule_matched", text("fresh-drops")),
                ("current_status", text("in_stock")),
                ("purchase_price", fractional(90.0)),
                ("estimated_listing_price", fractional(130.0)),
                ("profit_margin_percent", fractional(31.0)),
                ("confidence", fractional(0.8)),
            ])]),
        ),
    ]);
    let s = parse_auto_listing_simulation(&sim).expect("decode");
    assert_eq!(s.items_that_would_be_listed, 2);
    assert_eq!(s.matched_items[0].item_id, "i-3");
}

#[test]
fn forecast_analysis_requires_object_history() {
    let forecast = object(vec![
        ("target_id", text("brand-1")),
        ("target_type", text("brand")),
        ("forecast_date", text("2024-03-01")),
        ("horizon_days", unsigned(30)),
        ("predicted_sales", fractional(42.0)),
        ("predicted_revenue", fractional(9000.0)),
        ("confidence_interval_lower", fractional(30.0)),
        ("confidence_interval_upper", fractional(55.0)),
        ("model_used", text("seasonal")),
        ("accuracy_score", JsonValue::Null),
        ("trend", text("up")),
        ("seasonality_factor", JsonValue::Null),
    ]);
    let body = object(vec![
        ("forecast", forecast),
        (
            "historical_data",
            JsonValue::Array(vec![object(vec![("month", text("2024-01")), ("sales", unsigned(38))])]),
        ),
        ("key_insights", JsonValue::Array(vec![text("demand rising")])),
        ("recommendations", JsonValue::Array(vec![text("stock up")])),
        ("model_performance", object(vec![("mape", fractional(0.12))])),
    ]);
    let a = parse_forecast_analysis(&body).expect("decode");
    assert_eq!(a.forecast.horizon_days, 30);
    assert_eq!(a.historical_data.len(), 1);
    assert_eq!(a.historical_data[0][0].0, "month");

    let mut bad = body;
    if let JsonValue::Object(ref mut fs) = bad {
        fs[1].1 = JsonValue::Array(vec![text("not an object")]);
    }
    assert!(parse_forecast_analysis(&bad).is_none());
}

#[test]
fn enrichment_status_decodes_its_breakdown() {
    fn stats(completed: u64, missing: u64) -> JsonValue {
        object(vec![
            ("completed", unsigned(completed)),
            ("missing", unsigned(missing)),
            ("completion_percentage", fractional(50.0)),
        ])
    }
    let body = object(vec![
        ("timestamp", text("2024-03-01T10:00:00Z")),
        ("total_products", unsigned(80)),
        (
            "enrichment_stats",
            object(vec![
                ("sku", stats(40, 40)),
                ("description", stats(30, 50)),
                ("retail_price", stats(20, 60)),
                ("release_date", stats(10, 70)),
            ]),
        ),
        ("overall_completion", fractional(31.25)),
    ]);
    let st = parse_enrichment_status(&body).expect("decode");
    assert_eq!(st.total_products, 80);
    assert_eq!(st.enrichment_stats.sku.completed, 40);
    assert_eq!(st.enrichment_stats.release_date.missing, 70);
}

#[test]
fn bare_array_listings_decode_their_records() {
    let trends = JsonValue::Array(vec![object(vec![
        ("period", text("30d")),
        ("trend_direction", text("up")),
        ("strength", fractional(0.7)),
        ("key_drivers", JsonValue::Array(vec![text("demand")])),
        ("forecast_impact", text("positive")),
    ])]);
    let ts = parse_market_trend_list(&trends).expect("decode");
    assert_eq!(ts.len(), 1);
    assert_eq!(ts[0].period, "30d");
    assert!(parse_market_trend_list(&object(vec![])).is_none());

    let restocks = JsonValue::Array(vec![object(vec![
        ("product_id", text("p-1")),
        ("product_name", text("Runner")),
        ("current_stock", unsigned(2)),
        ("recommended_quantity", unsigned(10)),
        ("investment_required", fractional(900.0)),
        ("projected_revenue", fractional(1400.0)),
        ("projected_profit", fractional(500.0)),
        ("roi_estimate", fractional(0.55)),
        ("optimal_timing", text("now")),
        ("risk_level", text("low")),
        ("supporting_insights", JsonValue::Array(vec![text("sells fast")])),
    ])]);
    let rs = parse_restock_list(&restocks).expect("decode");
    assert_eq!(rs.len(), 1);
    assert_eq!(rs[0].recommended_quantity, 10);
}

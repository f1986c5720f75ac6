use inventory_api::contracts::EnrichmentResponse;
use inventory_api::contracts::HealthStatus;
use inventory_api::contracts::ImportRequest;
use inventory_api::contracts::ImportResponse;
use inventory_api::contracts::ImportStatus;
use inventory_api::contracts::StockXListingRequest;
use inventory_api::contracts::StockXListingResponse;
use inventory_api::contracts::SystemStatus;
use inventory_api::contracts::encode_enrichment_response;
use inventory_api::contracts::encode_health_status;
use inventory_api::contracts::encode_import_request;
use inventory_api::contracts::try_encode_import_response;
use inventory_api::contracts::try_encode_import_status;
use inventory_api::contracts::encode_listing_request_body;
use inventory_api::contracts::encode_listing_response;
use inventory_api::contracts::encode_system_status;
use inventory_api::contracts::parse_enrichment_response;
use inventory_api::contracts::parse_health_status;
use inventory_api::contracts::parse_import_request;
use inventory_api::contracts::parse_import_response;
use inventory_api::contracts::parse_import_status;
use inventory_api::contracts::parse_listing_response;
use inventory_api::contracts::parse_system_status;
use inventory_api::json::JsonNumber;
use inventory_api::json::JsonValue;
use inventory_api::pricing::AutoRepricingStatus;
use inventory_api::pricing::ListingRule;
use inventory_api::pricing::RiskLevelDefinition;
use inventory_api::pricing::RuleToggleResponse;
use inventory_api::pricing::encode_auto_repricing_status;
use inventory_api::pricing::encode_listing_rule;
use inventory_api::pricing::encode_risk_level_definition;
use inventory_api::pricing::encode_rule_toggle_response;
use inventory_api::pricing::parse_auto_repricing_status;
use inventory_api::pricing::parse_listing_rule;
use inventory_api::pricing::parse_risk_level_definition;
use inventory_api::pricing::parse_rule_toggle_response;

#[test]
fn system_status_round_trips() {
    let x = SystemStatus {
        api_connected: true,
        database_healthy: false,
        last_check: "2024-03-01T10:00:00Z".to_string(),
        version: "2.0.1".to_string(),
        environment: "staging".to_string(),
    };
    let v = encode_system_status(&x);
    assert_eq!(parse_system_status(&v).expect("decode"), x);
}

#[test]
fn import_request_round_trips() {
    let x = ImportRequest { from_date: "2024-01-01".to_string(), to_date: "2024-02-01".to_string() };
    let v = encode_import_request(&x);
    assert_eq!(parse_import_request(&v).expect("decode"), x);
}

#[test]
fn import_response_round_trips() {
    let x = ImportResponse {
        status: "queued".to_string(),
        message: "import started".to_string(),
        batch_id: "550e8400-e29b-41d4-a716-446655440000".to_string(),
    };
    let v = try_encode_import_response(&x).expect("valid batch id");
    assert_eq!(parse_import_response(&v).expect("decode"), x);
}

#[test]
fn import_status_round_trips() {
    let x = ImportStatus {
        id: "550e8400-e29b-41d4-a716-446655440000".to_string(),
        source_type: "stockx".to_string(),
        status: "running".to_string(),
        progress: JsonNumber::Fractional(0.25f64.to_bits()),
        records_processed: 40,
        records_failed: 2,
        created_at: "2024-03-01T10:00:00Z".to_string(),
        completed_at: None,
    };
    let v = try_encode_import_status(&x).expect("valid job id");
    assert_eq!(parse_import_status(&v).expect("decode"), x);
}

#[test]
fn enrichment_response_round_trips() {
    let x = EnrichmentResponse {
        message: "enrichment started".to_string(),
        target_products: "all".to_string(),
    };
    let v = encode_enrichment_response(&x);
    assert_eq!(parse_enrichment_response(&v).expect("decode"), x);
}

#[test]
fn listing_response_round_trips() {
    let x = StockXListingResponse {
        success: true,
        listing_id: Some("L-99".to_string()),
        message: "created".to_string(),
    };
    let v = encode_listing_response(&x);
    assert_eq!(parse_listing_response(&v).expect("decode"), x);

    let absent = StockXListingResponse { success: false, listing_id: None, message: "no".to_string() };
    let v = encode_listing_response(&absent);
    assert_eq!(parse_listing_response(&v).expect("decode"), absent);
}

#[test]
fn listing_request_body_carries_only_the_type() {
    let x = StockXListingRequest { item_id: "item-3".to_string(), listing_type: "presale".to_string() };
    match encode_listing_request_body(&x) {
        JsonValue::Object(fs) => {
            assert_eq!(fs.len(), 1);
            assert_eq!(fs[0].0, "listing_type");
        },
        _ => panic!("body is not an object"),
    }
}

#[test]
fn health_status_round_trips() {
    let x = HealthStatus {
        status: "ok".to_string(),
        timestamp: "2024-03-01T10:00:00Z".to_string(),
        version: "1.4.2".to_string(),
        environment: "production".to_string(),
        uptime_seconds: 86400,
        checks_summary: vec![("database".to_string(), "healthy".to_string())],
        components: vec![(
            "database".to_string(),
            JsonValue::Object(vec![("status".to_string(), JsonValue::Text("healthy".to_string()))]),
        )],
    };
    let v = encode_health_status(&x);
    let back = parse_health_status(&v).expect("decode");
    assert_eq!(back.status, x.status);
    assert_eq!(back.uptime_seconds, 86400);
    assert_eq!(back.checks_summary, x.checks_summary);
    assert_eq!(back.components.len(), 1);
    assert_eq!(back.components[0].0, "database");
}

#[test]
fn auto_repricing_status_round_trips() {
    let x = AutoRepricingStatus {
        enabled: true,
        last_run: Some("2024-02-29T23:00:00Z".to_string()),
        items_repriced: 17,
        strategy: "balanced".to_string(),
        next_run: None,
        rules_applied: 3,
    };
    let v = encode_auto_repricing_status(&x);
    assert_eq!(parse_auto_repricing_status(&v).expect("decode"), x);
}

#[test]
fn listing_rule_round_trips() {
    let x = ListingRule {
        name: "fresh-drops".to_string(),
        active: true,
        priority: 2,
        conditions_count: 4,
        items_matched_today: Some(11),
    };
    let v = encode_listing_rule(&x);
    assert_eq!(parse_listing_rule(&v).expect("decode"), x);

    let unmatched = ListingRule { items_matched_today: None, ..x };
    let v = encode_listing_rule(&unmatched);
    assert_eq!(parse_listing_rule(&v).expect("decode"), unmatched);
}

#[test]
fn rule_toggle_response_round_trips() {
    let x = RuleToggleResponse {
        success: true,
        rule_name: "fresh-drops".to_string(),
        previous_state: false,
        new_state: true,
        message: "rule enabled".to_string(),
        updated_at: "2024-03-01T10:00:00Z".to_string(),
    };
    let v = encode_rule_toggle_response(&x);
    assert_eq!(parse_rule_toggle_response(&v).expect("decode"), x);
}

#[test]
fn risk_level_definition_round_trips() {
    let x = RiskLevelDefinition {
        name: "critical".to_string(),
        description: "items locked for a year".to_string(),
        risk_score_range: "0.8-1.0".to_string(),
        age_threshold_days: 365,
        color: "red".to_string(),
        icon: "alert".to_string(),
        action_priority: "immediate".to_string(),
    };
    let v = encode_risk_level_definition(&x);
    assert_eq!(parse_risk_level_definition(&v).expect("decode"), x);
}

#[test]
fn required_field_of_wrong_type_fails_decoding() {
    let x = SystemStatus {
        api_connected: true,
        database_healthy: true,
        last_check: "t".to_string(),
        version: "v".to_string(),
        environment: "e".to_string(),
    };
    let v = encode_system_status(&x);
    if let JsonValue::Object(mut fs) = v {
        fs[0].1 = JsonValue::Text("yes".to_string());
        assert!(parse_system_status(&JsonValue::Object(fs)).is_none());
    } else {
        panic!("body is not an object");
    }
}

#[test]
fn missing_required_field_fails_decoding() {
    let x = EnrichmentResponse { message: "m".to_string(), target_products: "t".to_string() };
    let v = encode_enrichment_response(&x);
    if let JsonValue::Object(mut fs) = v {
        fs.remove(1);
        assert!(parse_enrichment_response(&JsonValue::Object(fs)).is_none());
    } else {
        panic!("body is not an object");
    }
}

#[test]
fn import_response_with_bad_batch_id_fails_decoding() {
    let v = JsonValue::Object(vec![
        ("status".to_string(), JsonValue::Text("queued".to_string())),
        ("message".to_string(), JsonValue::Text("m".to_string())),
        ("batch_id".to_string(), JsonValue::Text("not-a-uuid".to_string())),
    ]);
    assert!(parse_import_response(&v).is_none());
}

use inventory_api::numerals::i64_to_string;
use inventory_api::numerals::u64_to_string;
use inventory_api::urls::DEFAULT_BASE_URL;
use inventory_api::urls::auto_listing_simulate_url;
use inventory_api::urls::enrich_url;
use inventory_api::urls::export_csv_url;
use inventory_api::urls::health_url;
use inventory_api::urls::import_status_url;
use inventory_api::urls::inventory_forecasts_url;
use inventory_api::urls::market_analysis_url;
use inventory_api::urls::market_trends_url;
use inventory_api::urls::optimize_pricing_url;
use inventory_api::urls::predictive_insights_url;
use inventory_api::urls::restock_recommendations_url;
use inventory_api::urls::stockx_listings_url;
use inventory_api::urls::create_stockx_listing_url;

const BASE: &str = "http://localhost:8000";

#[test]
fn decimal_renderings_are_exact() {
    assert_eq!(u64_to_string(0), "0");
    assert_eq!(u64_to_string(907), "907");
    assert_eq!(u64_to_string(u64::MAX), "18446744073709551615");
    assert_eq!(i64_to_string(-123), "-123");
    assert_eq!(i64_to_string(0), "0");
    assert_eq!(i64_to_string(i64::MIN), "-9223372036854775808");
    assert_eq!(i64_to_string(i64::MAX), "9223372036854775807");
}

#[test]
fn fixed_paths_join_the_base() {
    assert_eq!(DEFAULT_BASE_URL, "http://localhost:8000");
    assert_eq!(health_url(BASE), "http://localhost:8000/health");
    assert_eq!(
        market_analysis_url(BASE, "prod-9"),
        "http://localhost:8000/api/v1/pricing/market-analysis/prod-9"
    );
    assert_eq!(
        create_stockx_listing_url(BASE, "item-1"),
        "http://localhost:8000/api/v1/inventory/items/item-1/stockx-listing"
    );
}

#[test]
fn listing_urls_order_status_before_limit() {
    assert_eq!(
        stockx_listings_url(BASE, None, None),
        "http://localhost:8000/api/v1/inventory/stockx-listings"
    );
    assert_eq!(
        stockx_listings_url(BASE, Some("active"), None),
        "http://localhost:8000/api/v1/inventory/stockx-listings?status=active"
    );
    assert_eq!(
        stockx_listings_url(BASE, None, Some(25)),
        "http://localhost:8000/api/v1/inventory/stockx-listings?limit=25"
    );
    assert_eq!(
        stockx_listings_url(BASE, Some("active"), Some(25)),
        "http://localhost:8000/api/v1/inventory/stockx-listings?status=active&limit=25"
    );
}

#[test]
fn export_url_joins_filters_with_ampersands() {
    let no_filters: Vec<(String, String)> = vec![];
    assert_eq!(
        export_csv_url(BASE, "inventory", &no_filters),
        "http://localhost:8000/api/v1/export/csv/inventory"
    );
    let filters = vec![
        ("status".to_string(), "sold".to_string()),
        ("brand".to_string(), "Apex".to_string()),
    ];
    assert_eq!(
        export_csv_url(BASE, "inventory", &filters),
        "http://localhost:8000/api/v1/export/csv/inventory?status=sold&brand=Apex"
    );
}

#[test]
fn enrichment_url_repeats_product_identifiers() {
    assert_eq!(enrich_url(BASE, None), "http://localhost:8000/api/v1/products/enrich");
    let none: Vec<String> = vec![];
    assert_eq!(enrich_url(BASE, Some(&none)), "http://localhost:8000/api/v1/products/enrich");
    let ids = vec!["a1".to_string(), "b2".to_string()];
    assert_eq!(
        enrich_url(BASE, Some(&ids)),
        "http://localhost:8000/api/v1/products/enrich?product_ids=a1&product_ids=b2"
    );
}

#[test]
fn parameterised_pricing_urls_render_their_numbers() {
    assert_eq!(
        optimize_pricing_url(BASE, "balanced", 50),
        "http://localhost:8000/api/v1/pricing/smart/optimize-inventory?strategy=balanced&limit=50"
    );
    assert_eq!(
        auto_listing_simulate_url(BASE, Some("fresh"), 10),
        "http://localhost:8000/api/v1/pricing/auto-listing/simulate?max_items=10&rule_name=fresh"
    );
    assert_eq!(
        auto_listing_simulate_url(BASE, None, 10),
        "http://localhost:8000/api/v1/pricing/auto-listing/simulate?max_items=10"
    );
    assert_eq!(
        predictive_insights_url(BASE, Some("restock"), 30, 5),
        "http://localhost:8000/api/v1/pricing/predictive/insights?days_ahead=30&limit=5&insight_types=restock"
    );
    assert_eq!(
        inventory_forecasts_url(BASE, None, 30),
        "http://localhost:8000/api/v1/pricing/predictive/forecasts?horizon_days=30"
    );
    assert_eq!(
        restock_recommendations_url(BASE, Some("1000.5"), "0.2", 10),
        "http://localhost:8000/api/v1/pricing/predictive/restock-recommendations?min_roi=0.2&max_products=10&investment_budget=1000.5"
    );
}

#[test]
fn market_trends_url_takes_an_optional_window() {
    assert_eq!(
        market_trends_url(BASE, Some(90)),
        "http://localhost:8000/api/v1/analytics/trends/market?days_back=90"
    );
    assert_eq!(
        market_trends_url(BASE, None),
        "http://localhost:8000/api/v1/analytics/trends/market"
    );
}

#[test]
fn import_status_url_canonicalises_the_job_identifier() {
    let url = import_status_url(BASE, "550E8400-E29B-41D4-A716-446655440000").expect("valid id");
    assert_eq!(
        url,
        "http://localhost:8000/api/v1/integration/import/550e8400-e29b-41d4-a716-446655440000/status"
    );
    let simple = import_status_url(BASE, "550e8400e29b41d4a716446655440000").expect("simple form");
    assert_eq!(
        simple,
        "http://localhost:8000/api/v1/integration/import/550e8400-e29b-41d4-a716-446655440000/status"
    );
}

#[test]
fn malformed_job_identifiers_are_rejected_before_any_call() {
    let err = import_status_url(BASE, "not-a-uuid").unwrap_err();
    assert_eq!(err, "Invalid batch ID: not a valid UUID");
    assert!(import_status_url(BASE, "").is_err());
    assert!(import_status_url(BASE, "550e8400-e29b-41d4-a716-44665544000").is_err());
}

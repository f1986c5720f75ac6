use inventory_api::json::JsonNumber;
use inventory_api::json::JsonValue;
use inventory_api::json::json_eq;
use inventory_api::listings::analyze_dead_stock_body;
use inventory_api::listings::auto_listing_execute_body;
use inventory_api::listings::clearance_body;
use inventory_api::listings::extract_listings;
use inventory_api::listings::extract_object_fields;
use inventory_api::listings::toggle_repricing_body;
use inventory_api::listings::toggle_rule_body;

fn text(x: &str) -> JsonValue {
    JsonValue::Text(x.to_string())
}

fn object(fields: Vec<(&str, JsonValue)>) -> JsonValue {
    JsonValue::Object(fields.into_iter().map(|(k, v)| (k.to_string(), v)).collect())
}

#[test]
fn listings_come_out_of_the_nested_array() {
    let body = object(vec![(
        "data",
        object(vec![(
            "listings",
            JsonValue::Array(vec![
                object(vec![("sku", text("A-1")), ("price", JsonValue::Number(JsonNumber::Unsigned(120)))]),
                object(vec![("sku", text("B-2"))]),
            ]),
        )]),
    )]);
    let out = extract_listings(&body);
    assert_eq!(out.len(), 2);
    match &out[0] {
        JsonValue::Object(fs) => {
            assert_eq!(fs.len(), 2);
            assert_eq!(fs[0].0, "sku");
        },
        _ => panic!("listing is not an object"),
    }
}

#[test]
fn missing_nested_array_yields_empty_collection() {
    assert!(extract_listings(&object(vec![])).is_empty());
    assert!(extract_listings(&object(vec![("data", object(vec![]))])).is_empty());
    assert!(extract_listings(&object(vec![("data", text("oops"))])).is_empty());
    assert!(extract_listings(&object(vec![("data", object(vec![("listings", text("oops"))]))]))
        .is_empty());
    assert!(extract_listings(&text("not even an object")).is_empty());
}

#[test]
fn non_object_entries_become_empty_objects() {
    let body = object(vec![(
        "data",
        object(vec![("listings", JsonValue::Array(vec![text("stray"), object(vec![("k", text("v"))])]))]),
    )]);
    let out = extract_listings(&body);
    assert_eq!(out.len(), 2);
    match &out[0] {
        JsonValue::Object(fs) => assert!(fs.is_empty()),
        _ => panic!("entry is not an object"),
    }
}

#[test]
fn sync_response_reduces_to_its_fields() {
    let body = object(vec![("synced", JsonValue::Bool(true)), ("count", JsonValue::Number(JsonNumber::Unsigned(4)))]);
    let fields = extract_object_fields(&body);
    assert_eq!(fields.len(), 2);
    assert_eq!(fields[0].0, "synced");
    assert!(extract_object_fields(&text("nope")).is_empty());
}

#[test]
fn toggle_and_execution_bodies_carry_their_flags() {
    let expected = object(vec![("enabled", JsonValue::Bool(true))]);
    assert!(json_eq(&toggle_repricing_body(true), &expected));

    let expected = object(vec![
        ("max_items", JsonValue::Number(JsonNumber::Signed(25))),
        ("dry_run", JsonValue::Bool(false)),
    ]);
    assert!(json_eq(&auto_listing_execute_body(25, false), &expected));

    let expected = object(vec![
        ("rule_name", text("fresh-drops")),
        ("active", JsonValue::Bool(true)),
    ]);
    assert!(json_eq(&toggle_rule_body("fresh-drops", true), &expected));
}

#[test]
fn analysis_and_clearance_bodies_carry_filters_and_levels() {
    let expected = object(vec![
        ("brand_filter", text("Apex")),
        ("category_filter", JsonValue::Null),
        ("min_risk_score", JsonValue::Number(JsonNumber::Fractional(0.7f64.to_bits()))),
    ]);
    let got = analyze_dead_stock_body(
        &Some("Apex".to_string()),
        &None,
        JsonNumber::Fractional(0.7f64.to_bits()),
    );
    assert!(json_eq(&got, &expected));

    let expected = object(vec![
        ("risk_levels", JsonValue::Array(vec![text("high"), text("critical")])),
        ("max_items", JsonValue::Number(JsonNumber::Signed(8))),
        ("dry_run", JsonValue::Bool(true)),
    ]);
    let got = clearance_body(&vec!["high".to_string(), "critical".to_string()], 8, true);
    assert!(json_eq(&got, &expected));
}

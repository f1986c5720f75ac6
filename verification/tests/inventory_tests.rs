use inventory_api::inventory::extract_inventory_items;
use inventory_api::inventory::parse_brand_stats;
use inventory_api::inventory::encode_brand_stats;
use inventory_api::inventory::parse_inventory_item;
use inventory_api::inventory::parse_product_stats;
use inventory_api::inventory::try_encode_inventory_item;
use inventory_api::inventory::BrandStats;
use inventory_api::inventory::InventoryItem;
use inventory_api::json::JsonNumber;
use inventory_api::json::JsonValue;
use inventory_api::urls::inventory_url;

fn text(x: &str) -> JsonValue {
    JsonValue::Text(x.to_string())
}

fn unsigned(x: u64) -> JsonValue {
    JsonValue::Number(JsonNumber::Unsigned(x))
}

fn fractional(x: f64) -> JsonValue {
    JsonValue::Number(JsonNumber::Fractional(x.to_bits()))
}

fn object(fields: Vec<(&str, JsonValue)>) -> JsonValue {
    JsonValue::Object(fields.into_iter().map(|(k, v)| (k.to_string(), v)).collect())
}

fn valid_item(n: u64) -> JsonValue {
    object(vec![
        ("id", text(&format!("00000000-0000-4000-8000-{:012}", n))),
        ("product_id", JsonValue::Null),
        ("product_name", text("Runner")),
        ("brand_name", text("Apex")),
        ("category_name", JsonValue::Null),
        ("size", text("42")),
        ("quantity", unsigned(3)),
        ("purchase_price", fractional(99.5)),
        ("purchase_date", JsonValue::Null),
        ("supplier", text("warehouse")),
        ("status", text("in_stock")),
        ("notes", JsonValue::Null),
        ("created_at", text("2024-01-01T00:00:00Z")),
        ("updated_at", text("2024-01-02T00:00:00Z")),
    ])
}

#[test]
fn nine_valid_records_decode_to_nine_items() {
    let items: Vec<JsonValue> = (0..9).map(valid_item).collect();
    let body = object(vec![("items", JsonValue::Array(items))]);
    let out = extract_inventory_items(&body);
    assert_eq!(out.len(), 9);
    assert_eq!(out[0].product_name, "Runner");
    assert_eq!(out[0].quantity, 3);
    assert_eq!(out[8].id, "00000000-0000-4000-8000-000000000008");
}

#[test]
fn items_field_that_is_not_an_array_yields_empty() {
    let body = object(vec![("items", text("not an array"))]);
    let out = extract_inventory_items(&body);
    assert!(out.is_empty());
}

#[test]
fn body_without_items_and_not_an_array_yields_empty() {
    let body = object(vec![("total", unsigned(3))]);
    let out = extract_inventory_items(&body);
    assert!(out.is_empty());
    let scalar = text("nothing here");
    assert!(extract_inventory_items(&scalar).is_empty());
}

#[test]
fn whole_body_array_decodes_without_items_field() {
    let body = JsonValue::Array(vec![valid_item(1), valid_item(2)]);
    let out = extract_inventory_items(&body);
    assert_eq!(out.len(), 2);
}

#[test]
fn one_bad_record_empties_the_whole_listing() {
    let mut bad = vec![valid_item(1)];
    bad.push(object(vec![("id", text("not-a-uuid"))]));
    let body = object(vec![("items", JsonValue::Array(bad))]);
    assert!(extract_inventory_items(&body).is_empty());
}

#[test]
fn item_with_invalid_identifier_does_not_decode() {
    let mut v = valid_item(1);
    if let JsonValue::Object(ref mut fs) = v {
        fs[0].1 = text("0123-not-a-uuid");
    }
    assert!(parse_inventory_item(&v).is_none());
}

#[test]
fn item_with_wrong_type_field_does_not_decode() {
    let mut v = valid_item(1);
    if let JsonValue::Object(ref mut fs) = v {
        fs[6].1 = text("three");
    }
    assert!(parse_inventory_item(&v).is_none());
}

#[test]
fn inventory_url_carries_the_limit() {
    assert_eq!(
        inventory_url("http://localhost:8000", Some(10)),
        "http://localhost:8000/api/v1/inventory?limit=10"
    );
    assert_eq!(
        inventory_url("http://localhost:8000", None),
        "http://localhost:8000/api/v1/inventory"
    );
    assert_eq!(
        inventory_url("http://localhost:8000", Some(-3)),
        "http://localhost:8000/api/v1/inventory?limit=-3"
    );
}

#[test]
fn inventory_item_round_trips() {
    let x = InventoryItem {
        id: "550e8400-e29b-41d4-a716-446655440000".to_string(),
        product_id: Some("00000000-0000-4000-8000-000000000001".to_string()),
        product_name: "Runner".to_string(),
        brand_name: None,
        category_name: Some("shoes".to_string()),
        size: "42".to_string(),
        quantity: -2,
        purchase_price: Some(JsonNumber::Fractional(99.5f64.to_bits())),
        purchase_date: None,
        supplier: "warehouse".to_string(),
        status: "in_stock".to_string(),
        notes: Some("scuffed box".to_string()),
        created_at: "2024-01-01T00:00:00Z".to_string(),
        updated_at: "2024-01-02T00:00:00Z".to_string(),
    };
    let v = try_encode_inventory_item(&x).expect("valid identifiers");
    assert_eq!(parse_inventory_item(&v).expect("decode"), x);

    let bad = InventoryItem { id: "nope".to_string(), ..x };
    assert!(try_encode_inventory_item(&bad).is_none());
}

#[test]
fn brand_stats_round_trip() {
    let x = BrandStats {
        name: "Apex".to_string(),
        total_products: 5,
        total_items: 9,
        avg_price: JsonNumber::Fractional(120.0f64.to_bits()),
        total_value: JsonNumber::Fractional(1080.0f64.to_bits()),
    };
    let v = encode_brand_stats(&x);
    assert_eq!(parse_brand_stats(&v).expect("decode"), x);
}

#[test]
fn product_stats_reads_the_renamed_field_and_defaults_the_margin() {
    let body = object(vec![
        ("total_products", unsigned(12)),
        ("total_inventory_value", fractional(250.75)),
        ("total_brands", unsigned(4)),
        ("top_brands", JsonValue::Array(vec![])),
    ]);
    let stats = parse_product_stats(&body).expect("stats decode");
    assert_eq!(stats.total_products, 12);
    assert_eq!(stats.total_value, JsonNumber::Fractional(250.75f64.to_bits()));
    assert_eq!(stats.avg_profit_margin, JsonNumber::Fractional(0));
    assert!(stats.top_brands.is_empty());

    let renamed_missing = object(vec![
        ("total_products", unsigned(12)),
        ("total_value", fractional(250.75)),
        ("total_brands", unsigned(4)),
        ("top_brands", JsonValue::Array(vec![])),
    ]);
    assert!(parse_product_stats(&renamed_missing).is_none());
}

#[test]
fn product_stats_decodes_brand_breakdown() {
    let brand = object(vec![
        ("name", text("Apex")),
        ("total_products", unsigned(5)),
        ("total_items", unsigned(9)),
        ("avg_price", fractional(120.0)),
        ("total_value", fractional(1080.0)),
    ]);
    let body = object(vec![
        ("total_products", unsigned(5)),
        ("total_inventory_value", fractional(1080.0)),
        ("total_brands", unsigned(1)),
        ("avg_profit_margin", fractional(0.4)),
        ("top_brands", JsonValue::Array(vec![brand])),
    ]);
    let stats = parse_product_stats(&body).expect("stats decode");
    assert_eq!(stats.top_brands.len(), 1);
    assert_eq!(stats.top_brands[0].name, "Apex");
    assert_eq!(stats.top_brands[0].total_items, 9);
}

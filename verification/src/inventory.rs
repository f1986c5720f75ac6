//! Inventory items, product statistics and dashboard metrics.
//!
//! The inventory listing applies a two-stage fallback: the `items` field of
//! the response is decoded as the item list; failing that, the whole body is
//! tried; and any decode failure yields an empty collection rather than an
//! error.  The product statistics contract renames one field and substitutes
//! a zero for a historically missing number.

use vstd::prelude::*;

use crate::ids::get_opt_uuid_str;
use crate::ids::uuid_of;
use crate::ids::get_uuid_str;
use crate::ids::opt_uuid_str_field;
use crate::ids::uuid_str_field;
use crate::json::JsonNumber;
use crate::json::JsonV;
use crate::json::JsonValue;
use crate::json::array_view;
use crate::json::decode_elements;
use crate::json::fields_view;
use crate::json::get_field;
use crate::json::get_i32;
use crate::json::get_i64;
use crate::json::get_num;
use crate::json::get_num_or_zero;
use crate::json::get_opt_num;
use crate::json::get_opt_str;
use crate::json::get_str;
use crate::json::i32_field;
use crate::json::i64_field;
use crate::json::lemma_array_view;
use crate::json::lemma_decode_elements;
use crate::json::lemma_lookup_found;
use crate::json::lookup_field;
use crate::json::opt_number_model;
use crate::json::opt_number_value;
use crate::json::opt_text_model;
use crate::json::opt_text_value;
use crate::json::push_field;
use crate::json::num_field;
use crate::json::num_or_zero_field;
use crate::json::opt_num_field;
use crate::json::opt_str_field;
use crate::json::opt_string_view;
use crate::json::array_field;
use crate::json::str_field;

verus! {

/// One inventory item.  The identifiers are kept as their incoming text,
/// which must parse as UUIDs for the record to decode.
#[derive(Debug, Clone, PartialEq)]
pub struct InventoryItem {
    pub id: String,
    pub product_id: Option<String>,
    pub product_name: String,
    pub brand_name: Option<String>,
    pub category_name: Option<String>,
    pub size: String,
    pub quantity: i32,
    pub purchase_price: Option<JsonNumber>,
    pub purchase_date: Option<String>,
    pub supplier: String,
    pub status: String,
    pub notes: Option<String>,
    pub created_at: String,
    pub updated_at: String,
}

/// The model of an inventory item.
pub ghost struct InventoryItemV {
    pub id: Seq<char>,
    pub product_id: Option<Seq<char>>,
    pub product_name: Seq<char>,
    pub brand_name: Option<Seq<char>>,
    pub category_name: Option<Seq<char>>,
    pub size: Seq<char>,
    pub quantity: i32,
    pub purchase_price: Option<JsonNumber>,
    pub purchase_date: Option<Seq<char>>,
    pub supplier: Seq<char>,
    pub status: Seq<char>,
    pub notes: Option<Seq<char>>,
    pub created_at: Seq<char>,
    pub updated_at: Seq<char>,
}

impl View for InventoryItem {
    type V = InventoryItemV;

    open spec fn view(&self) -> InventoryItemV {
        InventoryItemV {
            id: self.id@,
            product_id: opt_string_view(self.product_id),
            product_name: self.product_name@,
            brand_name: opt_string_view(self.brand_name),
            category_name: opt_string_view(self.category_name),
            size: self.size@,
            quantity: self.quantity,
            purchase_price: self.purchase_price,
            purchase_date: opt_string_view(self.purchase_date),
            supplier: self.supplier@,
            status: self.status@,
            notes: opt_string_view(self.notes),
            created_at: self.created_at@,
            updated_at: self.updated_at@,
        }
    }
}

/// Which documents decode as an inventory item, and to what.
pub open spec fn decode_inventory_item(v: JsonV) -> Option<InventoryItemV> {
    match v {
        JsonV::Object(fs) => match (
            uuid_str_field(fs, "id"@),
            opt_uuid_str_field(fs, "product_id"@),
            str_field(fs, "product_name"@),
            opt_str_field(fs, "brand_name"@),
            opt_str_field(fs, "category_name"@),
            str_field(fs, "size"@),
            i32_field(fs, "quantity"@),
        ) {
            (
                Some(id),
                Some(product_id),
                Some(product_name),
                Some(brand_name),
                Some(category_name),
                Some(size),
                Some(quantity),
            ) => match (
                opt_num_field(fs, "purchase_price"@),
                opt_str_field(fs, "purchase_date"@),
                str_field(fs, "supplier"@),
                str_field(fs, "status"@),
                opt_str_field(fs, "notes"@),
                str_field(fs, "created_at"@),
                str_field(fs, "updated_at"@),
            ) {
                (
                    Some(purchase_price),
                    Some(purchase_date),
                    Some(supplier),
                    Some(status),
                    Some(notes),
                    Some(created_at),
                    Some(updated_at),
                ) => Some(
                    InventoryItemV {
                        id,
                        product_id,
                        product_name,
                        brand_name,
                        category_name,
                        size,
                        quantity,
                        purchase_price,
                        purchase_date,
                        supplier,
                        status,
                        notes,
                        created_at,
                        updated_at,
                    },
                ),
                _ => None,
            },
            _ => None,
        },
        _ => None,
    }
}

/// Decodes an inventory item.
pub fn parse_inventory_item(v: &JsonValue) -> (r: Option<InventoryItem>)
    ensures
        match r {
            Some(x) => decode_inventory_item(v@) == Some(x@),
            None => decode_inventory_item(v@) is None,
        },
{
    let fields = match v {
        JsonValue::Object(fs) => fs,
        _ => {
            return None;
        },
    };
    let id = match get_uuid_str(fields, "id") {
        Some(x) => x,
        None => {
            return None;
        },
    };
    let product_id = match get_opt_uuid_str(fields, "product_id") {
        Some(x) => x,
        None => {
            return None;
        },
    };
    let product_name = match get_str(fields, "product_name") {
        Some(x) => x,
        None => {
            return None;
        },
    };
    let brand_name = match get_opt_str(fields, "brand_name") {
        Some(x) => x,
        None => {
            return None;
        },
    };
    let category_name = match get_opt_str(fields, "category_name") {
        Some(x) => x,
        None => {
            return None;
        },
    };
    let size = match get_str(fields, "size") {
        Some(x) => x,
        None => {
            return None;
        },
    };
    let quantity = match get_i32(fields, "quantity") {
        Some(x) => x,
        None => {
            return None;
        },
    };
    let purchase_price = match get_opt_num(fields, "purchase_price") {
        Some(x) => x,
        None => {
            return None;
        },
    };
    let purchase_date = match get_opt_str(fields, "purchase_date") {
        Some(x) => x,
        None => {
            return None;
        },
    };
    let supplier = match get_str(fields, "supplier") {
        Some(x) => x,
        None => {
            return None;
        },
    };
    let status = match get_str(fields, "status") {
        Some(x) => x,
        None => {
            return None;
        },
    };
    let notes = match get_opt_str(fields, "notes") {
        Some(x) => x,
        None => {
            return None;
        },
    };
    let created_at = match get_str(fields, "created_at") {
        Some(x) => x,
        None => {
            return None;
        },
    };
    let updated_at = match get_str(fields, "updated_at") {
        Some(x) => x,
        None => {
            return None;
        },
    };
    Some(
        InventoryItem {
            id,
            product_id,
            product_name,
            brand_name,
            category_name,
            size,
            quantity,
            purchase_price,
            purchase_date,
            supplier,
            status,
            notes,
            created_at,
            updated_at,
        },
    )
}

/// Encodes an inventory item; decoding the result gives the item back, so
/// every field round-trips unchanged.  The identifiers must be well-formed.
pub fn encode_inventory_item(x: &InventoryItem) -> (v: JsonValue)
    requires
        uuid_of(x.id@) is Some,
        x@.product_id matches Some(s) ==> uuid_of(s) is Some,
    ensures
        decode_inventory_item(v@) == Some(x@),
{
    let mut fields: Vec<(String, JsonValue)> = Vec::new();
    push_field(&mut fields, "id", JsonValue::Text(x.id.clone()));
    push_field(&mut fields, "product_id", opt_text_value(&x.product_id));
    push_field(&mut fields, "product_name", JsonValue::Text(x.product_name.clone()));
    push_field(&mut fields, "brand_name", opt_text_value(&x.brand_name));
    push_field(&mut fields, "category_name", opt_text_value(&x.category_name));
    push_field(&mut fields, "size", JsonValue::Text(x.size.clone()));
    push_field(&mut fields, "quantity", JsonValue::Number(JsonNumber::Signed(
        x.quantity as i64,
    )));
    push_field(&mut fields, "purchase_price", opt_number_value(&x.purchase_price));
    push_field(&mut fields, "purchase_date", opt_text_value(&x.purchase_date));
    push_field(&mut fields, "supplier", JsonValue::Text(x.supplier.clone()));
    push_field(&mut fields, "status", JsonValue::Text(x.status.clone()));
    push_field(&mut fields, "notes", opt_text_value(&x.notes));
    push_field(&mut fields, "created_at", JsonValue::Text(x.created_at.clone()));
    push_field(&mut fields, "updated_at", JsonValue::Text(x.updated_at.clone()));
    let ghost fv = fields_view(fields@);
    let v = JsonValue::Object(fields);
    proof {
        reveal_strlit("id");
        reveal_strlit("product_id");
        reveal_strlit("product_name");
        reveal_strlit("brand_name");
        reveal_strlit("category_name");
        reveal_strlit("size");
        reveal_strlit("quantity");
        reveal_strlit("purchase_price");
        reveal_strlit("purchase_date");
        reveal_strlit("supplier");
        reveal_strlit("status");
        reveal_strlit("notes");
        reveal_strlit("created_at");
        reveal_strlit("updated_at");
        assert(fv =~= seq![
            ("id"@, JsonV::Text(x.id@)),
            ("product_id"@, opt_text_model(opt_string_view(x.product_id))),
            ("product_name"@, JsonV::Text(x.product_name@)),
            ("brand_name"@, opt_text_model(opt_string_view(x.brand_name))),
            ("category_name"@, opt_text_model(opt_string_view(x.category_name))),
            ("size"@, JsonV::Text(x.size@)),
            ("quantity"@, JsonV::Number(JsonNumber::Signed(x.quantity as i64))),
            ("purchase_price"@, opt_number_model(x.purchase_price)),
            ("purchase_date"@, opt_text_model(opt_string_view(x.purchase_date))),
            ("supplier"@, JsonV::Text(x.supplier@)),
            ("status"@, JsonV::Text(x.status@)),
            ("notes"@, opt_text_model(opt_string_view(x.notes))),
            ("created_at"@, JsonV::Text(x.created_at@)),
            ("updated_at"@, JsonV::Text(x.updated_at@)),
        ]);
        assert(fv[0].0 == "id"@);
        assert(fv[1].0 == "product_id"@);
        assert(fv[2].0 == "product_name"@);
        assert(fv[3].0 == "brand_name"@);
        assert(fv[4].0 == "category_name"@);
        assert(fv[5].0 == "size"@);
        assert(fv[6].0 == "quantity"@);
        assert(fv[7].0 == "purchase_price"@);
        assert(fv[8].0 == "purchase_date"@);
        assert(fv[9].0 == "supplier"@);
        assert(fv[10].0 == "status"@);
        assert(fv[11].0 == "notes"@);
        assert(fv[12].0 == "created_at"@);
        assert(fv[13].0 == "updated_at"@);
        assert("product_id"@[0] != "brand_name"@[0] && "product_id"@ != "brand_name"@);
        assert("product_id"@[0] != "created_at"@[0] && "product_id"@ != "created_at"@);
        assert("product_id"@[0] != "updated_at"@[0] && "product_id"@ != "updated_at"@);
        assert("brand_name"@[0] != "created_at"@[0] && "brand_name"@ != "created_at"@);
        assert("brand_name"@[0] != "updated_at"@[0] && "brand_name"@ != "updated_at"@);
        assert("created_at"@[0] != "updated_at"@[0] && "created_at"@ != "updated_at"@);
        assert("category_name"@[0] != "purchase_date"@[0] && "category_name"@
            != "purchase_date"@);
        assert("quantity"@[0] != "supplier"@[0] && "quantity"@ != "supplier"@);
        lemma_lookup_found(fv, 0, "id"@);
        lemma_lookup_found(fv, 1, "product_id"@);
        lemma_lookup_found(fv, 2, "product_name"@);
        lemma_lookup_found(fv, 3, "brand_name"@);
        lemma_lookup_found(fv, 4, "category_name"@);
        lemma_lookup_found(fv, 5, "size"@);
        lemma_lookup_found(fv, 6, "quantity"@);
        lemma_lookup_found(fv, 7, "purchase_price"@);
        lemma_lookup_found(fv, 8, "purchase_date"@);
        lemma_lookup_found(fv, 9, "supplier"@);
        lemma_lookup_found(fv, 10, "status"@);
        lemma_lookup_found(fv, 11, "notes"@);
        lemma_lookup_found(fv, 12, "created_at"@);
        lemma_lookup_found(fv, 13, "updated_at"@);
        assert(decode_inventory_item(v@) == Some(x@));
    }
    v
}

/// Encodes an inventory item after checking its identifiers: the encoding
/// when both parse as UUIDs, nothing otherwise.
pub fn try_encode_inventory_item(x: &InventoryItem) -> (r: Option<JsonValue>)
    ensures
        match r {
            Some(v) => decode_inventory_item(v@) == Some(x@),
            None => uuid_of(x.id@) is None || (x@.product_id matches Some(s) && uuid_of(s)
                is None),
        },
{
    if crate::ids::parse_uuid(x.id.as_str()).is_none() {
        return None;
    }
    match &x.product_id {
        Some(p) => {
            if crate::ids::parse_uuid(p.as_str()).is_none() {
                return None;
            }
        },
        None => {},
    }
    Some(encode_inventory_item(x))
}

/// The item list of an element list in which every element decodes.
pub open spec fn decode_item_elements(els: Seq<JsonV>) -> Option<Seq<InventoryItemV>> {
    decode_elements(els, |e: JsonV| decode_inventory_item(e))
}

/// The items of one candidate document: an array whose every element decodes
/// gives its items; anything else gives the empty collection.
pub open spec fn items_or_empty(v: JsonV) -> Seq<InventoryItemV> {
    match v {
        JsonV::Array(els) => match decode_item_elements(els) {
            Some(xs) => xs,
            None => Seq::empty(),
        },
        _ => Seq::empty(),
    }
}

/// The items of an inventory listing response: the `items` field when the
/// body carries one, else the whole body, and the empty collection on any
/// decode failure — never an error.
pub open spec fn inventory_items_of(body: JsonV) -> Seq<InventoryItemV> {
    match body {
        JsonV::Object(fs) => match lookup_field(fs, "items"@) {
            Some(itemsv) => items_or_empty(itemsv),
            None => items_or_empty(body),
        },
        _ => items_or_empty(body),
    }
}

/// Decodes one candidate document as an item list, yielding the empty
/// collection on any failure.
fn parse_items_or_empty(v: &JsonValue) -> (r: Vec<InventoryItem>)
    ensures
        r@.map_values(|x: InventoryItem| x@) == items_or_empty(v@),
{
    let els = match v {
        JsonValue::Array(els) => els,
        _ => {
            let r = Vec::new();
            proof {
                assert(r@.map_values(|x: InventoryItem| x@) =~= items_or_empty(v@));
            }
            return r;
        },
    };
    proof {
        lemma_array_view(els@);
    }
    let ghost av = array_view(els@);
    let ghost f = |e: JsonV| decode_inventory_item(e);
    let n = els.len();
    let mut out: Vec<InventoryItem> = Vec::new();
    let mut i: usize = 0;
    while i < n
        invariant
            i <= n,
            n == els@.len(),
            av == array_view(els@),
            f == (|e: JsonV| decode_inventory_item(e)),
            v@ == JsonV::Array(av),
            av.len() == n,
            forall|j: int| #![trigger av[j]] 0 <= j < n ==> av[j] == els@[j]@,
            out@.len() == i,
            forall|j: int| #![trigger av[j]] 0 <= j < i ==> f(av[j]) == Some(out@[j]@),
        decreases n - i,
    {
        match parse_inventory_item(&els[i]) {
            Some(x) => {
                out.push(x);
            },
            None => {
                proof {
                    assert(f(av[i as int]) is None);
                    lemma_decode_elements(av, f);
                    assert(decode_item_elements(av) is None);
                }
                let r = Vec::new();
                proof {
                    assert(r@.map_values(|x: InventoryItem| x@) =~= items_or_empty(v@));
                }
                return r;
            },
        }
        i += 1;
    }
    proof {
        lemma_decode_elements(av, f);
        assert(decode_elements(av, f) matches Some(xs) && xs =~= out@.map_values(
            |x: InventoryItem| x@,
        ));
    }
    out
}

/// The inventory listing policy: try the `items` field, then the whole body,
/// and swallow any decode failure into an empty collection.
pub fn extract_inventory_items(body: &JsonValue) -> (r: Vec<InventoryItem>)
    ensures
        r@.map_values(|x: InventoryItem| x@) == inventory_items_of(body@),
{
    match body {
        JsonValue::Object(fs) => match get_field(fs, "items") {
            Some(itemsv) => parse_items_or_empty(itemsv),
            None => {
                let r = Vec::new();
                proof {
                    assert(r@.map_values(|x: InventoryItem| x@) =~= items_or_empty(body@));
                }
                r
            },
        },
        _ => parse_items_or_empty(body),
    }
}

/// The statistics of one brand.
#[derive(Debug, Clone, PartialEq)]
pub struct BrandStats {
    pub name: String,
    pub total_products: i64,
    pub total_items: i64,
    pub avg_price: JsonNumber,
    pub total_value: JsonNumber,
}

/// The model of one brand's statistics.
pub ghost struct BrandStatsV {
    pub name: Seq<char>,
    pub total_products: i64,
    pub total_items: i64,
    pub avg_price: JsonNumber,
    pub total_value: JsonNumber,
}

impl View for BrandStats {
    type V = BrandStatsV;

    open spec fn view(&self) -> BrandStatsV {
        BrandStatsV {
            name: self.name@,
            total_products: self.total_products,
            total_items: self.total_items,
            avg_price: self.avg_price,
            total_value: self.total_value,
        }
    }
}

/// Which documents decode as one brand's statistics, and to what.
pub open spec fn decode_brand_stats(v: JsonV) -> Option<BrandStatsV> {
    match v {
        JsonV::Object(fs) => match (
            str_field(fs, "name"@),
            i64_field(fs, "total_products"@),
            i64_field(fs, "total_items"@),
            num_field(fs, "avg_price"@),
            num_field(fs, "total_value"@),
        ) {
            (Some(name), Some(total_products), Some(total_items), Some(avg_price), Some(
                total_value,
            )) => Some(BrandStatsV { name, total_products, total_items, avg_price, total_value }),
            _ => None,
        },
        _ => None,
    }
}

/// Decodes one brand's statistics.
pub fn parse_brand_stats(v: &JsonValue) -> (r: Option<BrandStats>)
    ensures
        match r {
            Some(x) => decode_brand_stats(v@) == Some(x@),
            None => decode_brand_stats(v@) is None,
        },
{
    let fields = match v {
        JsonValue::Object(fs) => fs,
        _ => {
            return None;
        },
    };
    let name = match get_str(fields, "name") {
        Some(x) => x,
        None => {
            return None;
        },
    };
    let total_products = match get_i64(fields, "total_products") {
        Some(x) => x,
        None => {
            return None;
        },
    };
    let total_items = match get_i64(fields, "total_items") {
        Some(x) => x,
        None => {
            return None;
        },
    };
    let avg_price = match get_num(fields, "avg_price") {
        Some(x) => x,
        None => {
            return None;
        },
    };
    let total_value = match get_num(fields, "total_value") {
        Some(x) => x,
        None => {
            return None;
        },
    };
    Some(BrandStats { name, total_products, total_items, avg_price, total_value })
}

/// Encodes one brand's statistics; decoding the result gives them back.
pub fn encode_brand_stats(x: &BrandStats) -> (v: JsonValue)
    ensures
        decode_brand_stats(v@) == Some(x@),
{
    let mut fields: Vec<(String, JsonValue)> = Vec::new();
    push_field(&mut fields, "name", JsonValue::Text(x.name.clone()));
    push_field(&mut fields, "total_products", JsonValue::Number(JsonNumber::Signed(
        x.total_products,
    )));
    push_field(&mut fields, "total_items", JsonValue::Number(JsonNumber::Signed(x.total_items)));
    push_field(&mut fields, "avg_price", JsonValue::Number(x.avg_price));
    push_field(&mut fields, "total_value", JsonValue::Number(x.total_value));
    let ghost fv = fields_view(fields@);
    let v = JsonValue::Object(fields);
    proof {
        reveal_strlit("name");
        reveal_strlit("total_products");
        reveal_strlit("total_items");
        reveal_strlit("avg_price");
        reveal_strlit("total_value");
        assert(fv =~= seq![
            ("name"@, JsonV::Text(x.name@)),
            ("total_products"@, JsonV::Number(JsonNumber::Signed(x.total_products))),
            ("total_items"@, JsonV::Number(JsonNumber::Signed(x.total_items))),
            ("avg_price"@, JsonV::Number(x.avg_price)),
            ("total_value"@, JsonV::Number(x.total_value)),
        ]);
        assert(fv[0].0 == "name"@);
        assert(fv[1].0 == "total_products"@);
        assert(fv[2].0 == "total_items"@);
        assert(fv[3].0 == "avg_price"@);
        assert(fv[4].0 == "total_value"@);
        assert("total_items"@[6] != "total_value"@[6] && "total_items"@ != "total_value"@);
        lemma_lookup_found(fv, 0, "name"@);
        lemma_lookup_found(fv, 1, "total_products"@);
        lemma_lookup_found(fv, 2, "total_items"@);
        lemma_lookup_found(fv, 3, "avg_price"@);
        lemma_lookup_found(fv, 4, "total_value"@);
        assert(decode_brand_stats(v@) == Some(x@));
    }
    v
}

/// The brand list of an element list in which every element decodes.
pub open spec fn decode_brand_elements(els: Seq<JsonV>) -> Option<Seq<BrandStatsV>> {
    decode_elements(els, |e: JsonV| decode_brand_stats(e))
}

/// Aggregate statistics over all products.  `total_value` arrives under the
/// name `total_inventory_value`, and a missing `avg_profit_margin` decodes to
/// zero.
#[derive(Debug, Clone, PartialEq)]
pub struct ProductStats {
    pub total_products: i64,
    pub total_value: JsonNumber,
    pub total_brands: i64,
    pub avg_profit_margin: JsonNumber,
    pub top_brands: Vec<BrandStats>,
}

/// The model of the aggregate statistics.
pub ghost struct ProductStatsV {
    pub total_products: i64,
    pub total_value: JsonNumber,
    pub total_brands: i64,
    pub avg_profit_margin: JsonNumber,
    pub top_brands: Seq<BrandStatsV>,
}

impl View for ProductStats {
    type V = ProductStatsV;

    open spec fn view(&self) -> ProductStatsV {
        ProductStatsV {
            total_products: self.total_products,
            total_value: self.total_value,
            total_brands: self.total_brands,
            avg_profit_margin: self.avg_profit_margin,
            top_brands: self.top_brands@.map_values(|b: BrandStats| b@),
        }
    }
}

/// Which documents decode as the aggregate statistics, and to what.
pub open spec fn decode_product_stats(v: JsonV) -> Option<ProductStatsV> {
    match v {
        JsonV::Object(fs) => match (
            i64_field(fs, "total_products"@),
            num_field(fs, "total_inventory_value"@),
            i64_field(fs, "total_brands"@),
            num_or_zero_field(fs, "avg_profit_margin"@),
            array_field(fs, "top_brands"@),
        ) {
            (Some(total_products), Some(total_value), Some(total_brands), Some(
                avg_profit_margin,
            ), Some(brand_els)) => match decode_brand_elements(brand_els) {
                Some(top_brands) => Some(
                    ProductStatsV {
                        total_products,
                        total_value,
                        total_brands,
                        avg_profit_margin,
                        top_brands,
                    },
                ),
                None => None,
            },
            _ => None,
        },
        _ => None,
    }
}

/// Decodes the aggregate statistics.
pub fn parse_product_stats(v: &JsonValue) -> (r: Option<ProductStats>)
    ensures
        match r {
            Some(x) => decode_product_stats(v@) == Some(x@),
            None => decode_product_stats(v@) is None,
        },
{
    let fields = match v {
        JsonValue::Object(fs) => fs,
        _ => {
            return None;
        },
    };
    let total_products = match get_i64(fields, "total_products") {
        Some(x) => x,
        None => {
            return None;
        },
    };
    let total_value = match get_num(fields, "total_inventory_value") {
        Some(x) => x,
        None => {
            return None;
        },
    };
    let total_brands = match get_i64(fields, "total_brands") {
        Some(x) => x,
        None => {
            return None;
        },
    };
    let avg_profit_margin = match get_num_or_zero(fields, "avg_profit_margin") {
        Some(x) => x,
        None => {
            return None;
        },
    };
    let brand_values = match get_field(fields, "top_brands") {
        Some(JsonValue::Array(els)) => els,
        _ => {
            return None;
        },
    };
    proof {
        lemma_array_view(brand_values@);
    }
    let ghost av = array_view(brand_values@);
    let ghost f = |e: JsonV| decode_brand_stats(e);
    let n = brand_values.len();
    let mut top_brands: Vec<BrandStats> = Vec::new();
    let mut i: usize = 0;
    while i < n
        invariant
            i <= n,
            n == brand_values@.len(),
            av == array_view(brand_values@),
            f == (|e: JsonV| decode_brand_stats(e)),
            v@ == JsonV::Object(fields_view(fields@)),
            array_field(fields_view(fields@), "top_brands"@) == Some(av),
            av.len() == n,
            forall|j: int| #![trigger av[j]] 0 <= j < n ==> av[j] == brand_values@[j]@,
            top_brands@.len() == i,
            forall|j: int| #![trigger av[j]] 0 <= j < i ==> f(av[j]) == Some(top_brands@[j]@),
        decreases n - i,
    {
        match parse_brand_stats(&brand_values[i]) {
            Some(x) => {
                top_brands.push(x);
            },
            None => {
                proof {
                    assert(f(av[i as int]) is None);
                    lemma_decode_elements(av, f);
                    assert(decode_brand_elements(av) is None);
                }
                return None;
            },
        }
        i += 1;
    }
    proof {
        lemma_decode_elements(av, f);
        assert(decode_elements(av, f) matches Some(xs) && xs =~= top_brands@.map_values(
            |b: BrandStats| b@,
        ));
    }
    Some(ProductStats { total_products, total_value, total_brands, avg_profit_margin, top_brands })
}

} // verus!

//! Marketplace listing queries and the request bodies of the smart pricing,
//! automatic listing and dead stock endpoints.
//!
//! A listing query answers with a `data.listings` array of open-ended
//! objects.  When that nested array is absent — whether the response is
//! malformed or simply carries no data yet — the result is the empty
//! collection, never an error.

use vstd::prelude::*;

use crate::json::JsonNumber;
use crate::json::JsonV;
use crate::json::JsonValue;
use crate::json::array_view;
use crate::json::duplicate_fields;
use crate::json::fields_view;
use crate::json::get_field;
use crate::json::lemma_array_view;
use crate::json::lookup_field;
use crate::json::opt_string_view;
use crate::json::opt_text_model;
use crate::json::opt_text_value;
use crate::json::push_field;

verus! {

/// A listing entry as handed to the display layer: its fields when it is an
/// object, nothing otherwise.
pub open spec fn normalize_listing(e: JsonV) -> JsonV {
    match e {
        JsonV::Object(_) => e,
        _ => JsonV::Object(Seq::empty()),
    }
}

/// The listings of a marketplace query response: the `data.listings` array,
/// each entry reduced to its object fields, and the empty collection when the
/// nested array is absent.
pub open spec fn listing_objects_of(body: JsonV) -> Seq<JsonV> {
    match body {
        JsonV::Object(fs) => match lookup_field(fs, "data"@) {
            Some(JsonV::Object(dfs)) => match lookup_field(dfs, "listings"@) {
                Some(JsonV::Array(els)) => els.map_values(|e: JsonV| normalize_listing(e)),
                _ => Seq::empty(),
            },
            _ => Seq::empty(),
        },
        _ => Seq::empty(),
    }
}

/// The marketplace listing policy: extract `data.listings`, keep each entry's
/// object fields, and yield the empty collection when the array is absent.
pub fn extract_listings(body: &JsonValue) -> (r: Vec<JsonValue>)
    ensures
        array_view(r@) == listing_objects_of(body@),
{
    let empty_case: Vec<JsonValue> = Vec::new();
    proof {
        assert(array_view(empty_case@) =~= Seq::<JsonV>::empty());
    }
    let fs = match body {
        JsonValue::Object(fs) => fs,
        _ => {
            return empty_case;
        },
    };
    let dfs = match get_field(fs, "data") {
        Some(JsonValue::Object(dfs)) => dfs,
        _ => {
            return empty_case;
        },
    };
    let els = match get_field(dfs, "listings") {
        Some(JsonValue::Array(els)) => els,
        _ => {
            return empty_case;
        },
    };
    proof {
        lemma_array_view(els@);
    }
    let ghost av = array_view(els@);
    let ghost target = listing_objects_of(body@);
    let n = els.len();
    let mut out: Vec<JsonValue> = Vec::new();
    let mut i: usize = 0;
    while i < n
        invariant
            i <= n,
            n == els@.len(),
            av == array_view(els@),
            target == av.map_values(|e: JsonV| normalize_listing(e)),
            av.len() == n,
            forall|j: int| #![trigger av[j]] 0 <= j < n ==> av[j] == els@[j]@,
            out@.len() == i,
            forall|j: int| #![trigger out@[j]] 0 <= j < i ==> out@[j]@ == normalize_listing(av[j]),
        decreases n - i,
    {
        let entry = match &els[i] {
            JsonValue::Object(efs) => JsonValue::Object(duplicate_fields(efs)),
            _ => JsonValue::Object(Vec::new()),
        };
        proof {
            if !(els@[i as int]@ is Object) {
                assert(fields_view(Seq::<(String, JsonValue)>::empty())
                    =~= Seq::<(Seq<char>, JsonV)>::empty());
            }
            assert(entry@ == normalize_listing(av[i as int]));
        }
        out.push(entry);
        i += 1;
    }
    proof {
        lemma_array_view(out@);
        assert(array_view(out@) =~= target);
    }
    out
}

/// The fields of a synchronisation response: the body's object fields, or
/// nothing when the body is not an object.
pub open spec fn object_fields_of(v: JsonV) -> Seq<(Seq<char>, JsonV)> {
    match v {
        JsonV::Object(fs) => fs,
        _ => Seq::empty(),
    }
}

/// Reduces a synchronisation response to its object fields.
pub fn extract_object_fields(v: &JsonValue) -> (r: Vec<(String, JsonValue)>)
    ensures
        fields_view(r@) == object_fields_of(v@),
{
    match v {
        JsonValue::Object(fs) => duplicate_fields(fs),
        _ => {
            let r: Vec<(String, JsonValue)> = Vec::new();
            proof {
                assert(fields_view(r@) =~= Seq::<(Seq<char>, JsonV)>::empty());
            }
            r
        },
    }
}

/// The body of the automatic repricing toggle.
pub fn toggle_repricing_body(enabled: bool) -> (v: JsonValue)
    ensures
        v@ == JsonV::Object(seq![("enabled"@, JsonV::Bool(enabled))]),
{
    let mut fields: Vec<(String, JsonValue)> = Vec::new();
    push_field(&mut fields, "enabled", JsonValue::Bool(enabled));
    let ghost fv = fields_view(fields@);
    let v = JsonValue::Object(fields);
    proof {
        assert(fv =~= seq![("enabled"@, JsonV::Bool(enabled))]);
    }
    v
}

/// The body of an automatic listing execution.
pub fn auto_listing_execute_body(max_items: i32, dry_run: bool) -> (v: JsonValue)
    ensures
        v@ == JsonV::Object(
            seq![
                ("max_items"@, JsonV::Number(JsonNumber::Signed(max_items as i64))),
                ("dry_run"@, JsonV::Bool(dry_run)),
            ],
        ),
{
    let mut fields: Vec<(String, JsonValue)> = Vec::new();
    push_field(&mut fields, "max_items", JsonValue::Number(JsonNumber::Signed(max_items as i64)));
    push_field(&mut fields, "dry_run", JsonValue::Bool(dry_run));
    let ghost fv = fields_view(fields@);
    let v = JsonValue::Object(fields);
    proof {
        assert(fv =~= seq![
            ("max_items"@, JsonV::Number(JsonNumber::Signed(max_items as i64))),
            ("dry_run"@, JsonV::Bool(dry_run)),
        ]);
    }
    v
}

/// The body of a listing rule toggle.
pub fn toggle_rule_body(rule_name: &str, active: bool) -> (v: JsonValue)
    ensures
        v@ == JsonV::Object(
            seq![("rule_name"@, JsonV::Text(rule_name@)), ("active"@, JsonV::Bool(active))],
        ),
{
    let mut fields: Vec<(String, JsonValue)> = Vec::new();
    push_field(&mut fields, "rule_name", JsonValue::Text(rule_name.to_owned()));
    push_field(&mut fields, "active", JsonValue::Bool(active));
    let ghost fv = fields_view(fields@);
    let v = JsonValue::Object(fields);
    proof {
        assert(fv =~= seq![
            ("rule_name"@, JsonV::Text(rule_name@)),
            ("active"@, JsonV::Bool(active)),
        ]);
    }
    v
}

/// The body of a dead stock analysis: optional brand and category filters and
/// a minimum risk score.
pub fn analyze_dead_stock_body(
    brand_filter: &Option<String>,
    category_filter: &Option<String>,
    min_risk_score: JsonNumber,
) -> (v: JsonValue)
    ensures
        v@ == JsonV::Object(
            seq![
                ("brand_filter"@, opt_text_model(opt_string_view(*brand_filter))),
                ("category_filter"@, opt_text_model(opt_string_view(*category_filter))),
                ("min_risk_score"@, JsonV::Number(min_risk_score)),
            ],
        ),
{
    let mut fields: Vec<(String, JsonValue)> = Vec::new();
    push_field(&mut fields, "brand_filter", opt_text_value(brand_filter));
    push_field(&mut fields, "category_filter", opt_text_value(category_filter));
    push_field(&mut fields, "min_risk_score", JsonValue::Number(min_risk_score));
    let ghost fv = fields_view(fields@);
    let v = JsonValue::Object(fields);
    proof {
        assert(fv =~= seq![
            ("brand_filter"@, opt_text_model(opt_string_view(*brand_filter))),
            ("category_filter"@, opt_text_model(opt_string_view(*category_filter))),
            ("min_risk_score"@, JsonV::Number(min_risk_score)),
        ]);
    }
    v
}

/// The body of a clearance execution: the targeted risk levels, an item cap
/// and the rehearsal flag.
pub fn clearance_body(risk_levels: &Vec<String>, max_items: i32, dry_run: bool) -> (v: JsonValue)
    ensures
        v@ == JsonV::Object(
            seq![
                (
                    "risk_levels"@,
                    JsonV::Array(risk_levels@.map_values(|s: String| JsonV::Text(s@))),
                ),
                ("max_items"@, JsonV::Number(JsonNumber::Signed(max_items as i64))),
                ("dry_run"@, JsonV::Bool(dry_run)),
            ],
        ),
{
    let n = risk_levels.len();
    let mut levels: Vec<JsonValue> = Vec::new();
    let mut i: usize = 0;
    while i < n
        invariant
            i <= n,
            n == risk_levels@.len(),
            levels@.len() == i,
            forall|j: int|
                #![trigger levels@[j]]
                0 <= j < i ==> levels@[j]@ == JsonV::Text(risk_levels@[j]@),
        decreases n - i,
    {
        levels.push(JsonValue::Text(risk_levels[i].clone()));
        i += 1;
    }
    proof {
        lemma_array_view(levels@);
        assert(array_view(levels@) =~= risk_levels@.map_values(|s: String| JsonV::Text(s@)));
    }
    let mut fields: Vec<(String, JsonValue)> = Vec::new();
    push_field(&mut fields, "risk_levels", JsonValue::Array(levels));
    push_field(&mut fields, "max_items", JsonValue::Number(JsonNumber::Signed(max_items as i64)));
    push_field(&mut fields, "dry_run", JsonValue::Bool(dry_run));
    let ghost fv = fields_view(fields@);
    let v = JsonValue::Object(fields);
    proof {
        assert(fv =~= seq![
            ("risk_levels"@, JsonV::Array(risk_levels@.map_values(|s: String| JsonV::Text(s@)))),
            ("max_items"@, JsonV::Number(JsonNumber::Signed(max_items as i64))),
            ("dry_run"@, JsonV::Bool(dry_run)),
        ]);
    }
    v
}

} // verus!

//! Execution reports: smart pricing optimisation, automatic listing runs and
//! rehearsals, and the full forecast analysis.

use vstd::prelude::*;

use crate::json::JsonNumber;
use crate::json::JsonV;
use crate::json::JsonValue;
use crate::json::array_field;
use crate::json::array_view;
use crate::json::bool_field;
use crate::json::decode_elements;
use crate::json::duplicate_fields;
use crate::json::fields_view;
use crate::json::get_bool;
use crate::json::get_field;
use crate::json::get_i32;
use crate::json::get_num;
use crate::json::get_obj;
use crate::json::get_opt_bool;
use crate::json::get_opt_num;
use crate::json::get_opt_str;
use crate::json::get_str;
use crate::json::get_str_array;
use crate::json::i32_field;
use crate::json::lemma_array_view;
use crate::json::lemma_decode_elements;
use crate::json::lookup_field;
use crate::json::num_field;
use crate::json::obj_field;
use crate::json::opt_bool_field;
use crate::json::opt_num_field;
use crate::json::opt_str_field;
use crate::json::opt_string_view;
use crate::json::str_array_field;
use crate::json::str_field;
use crate::pricing::SalesForecast;
use crate::pricing::SalesForecastV;
use crate::pricing::decode_sales_forecast;
use crate::pricing::parse_sales_forecast;

verus! {

/// One repricing suggestion of the optimiser.
#[derive(Debug, Clone, PartialEq)]
pub struct PricingOptimizationRecommendation {
    pub product_name: String,
    pub current_price: JsonNumber,
    pub recommended_price: JsonNumber,
    pub profit_increase: JsonNumber,
    pub confidence: JsonNumber,
}

/// The model of one repricing suggestion.
pub ghost struct PricingOptimizationRecommendationV {
    pub product_name: Seq<char>,
    pub current_price: JsonNumber,
    pub recommended_price: JsonNumber,
    pub profit_increase: JsonNumber,
    pub confidence: JsonNumber,
}

impl View for PricingOptimizationRecommendation {
    type V = PricingOptimizationRecommendationV;

    open spec fn view(&self) -> PricingOptimizationRecommendationV {
        PricingOptimizationRecommendationV {
            product_name: self.product_name@,
            current_price: self.current_price,
            recommended_price: self.recommended_price,
            profit_increase: self.profit_increase,
            confidence: self.confidence,
        }
    }
}

/// Which documents decode as one repricing suggestion.
pub open spec fn decode_optimization_recommendation(v: JsonV) -> Option<
    PricingOptimizationRecommendationV,
> {
    match v {
        JsonV::Object(fs) => match (
            str_field(fs, "product_name"@),
            num_field(fs, "current_price"@),
            num_field(fs, "recommended_price"@),
            num_field(fs, "profit_increase"@),
            num_field(fs, "confidence"@),
        ) {
            (Some(product_name), Some(current_price), Some(recommended_price), Some(
                profit_increase,
            ), Some(confidence)) => Some(
                PricingOptimizationRecommendationV {
                    product_name,
                    current_price,
                    recommended_price,
                    profit_increase,
                    confidence,
                },
            ),
            _ => None,
        },
        _ => None,
    }
}

/// Decodes one repricing suggestion.
pub fn parse_optimization_recommendation(v: &JsonValue) -> (r: Option<
    PricingOptimizationRecommendation,
>)
    ensures
        match r {
            Some(x) => decode_optimization_recommendation(v@) == Some(x@),
            None => decode_optimization_recommendation(v@) is None,
        },
{
    let fields = match v {
        JsonValue::Object(fs) => fs,
        _ => {
            return None;
        },
    };
    let product_name = match get_str(fields, "product_name") {
        Some(x) => x,
        None => {
            return None;
        },
    };
    let current_price = match get_num(fields, "current_price") {
        Some(x) => x,
        None => {
            return None;
        },
    };
    let recommended_price = match get_num(fields, "recommended_price") {
        Some(x) => x,
        None => {
            return None;
        },
    };
    let profit_increase = match get_num(fields, "profit_increase") {
        Some(x) => x,
        None => {
            return None;
        },
    };
    let confidence = match get_num(fields, "confidence") {
        Some(x) => x,
        None => {
            return None;
        },
    };
    Some(
        PricingOptimizationRecommendation {
            product_name,
            current_price,
            recommended_price,
            profit_increase,
            confidence,
        },
    )
}

/// The report of one smart pricing optimisation run.
#[derive(Debug, Clone, PartialEq)]
pub struct SmartPricingOptimization {
    pub total_items_analyzed: i32,
    pub items_optimized: i32,
    pub potential_profit_increase: JsonNumber,
    pub pricing_strategy: String,
    pub market_conditions: String,
    pub timestamp: String,
    pub recommendations: Vec<PricingOptimizationRecommendation>,
}

/// The model of one optimisation run.
pub ghost struct SmartPricingOptimizationV {
    pub total_items_analyzed: i32,
    pub items_optimized: i32,
    pub potential_profit_increase: JsonNumber,
    pub pricing_strategy: Seq<char>,
    pub market_conditions: Seq<char>,
    pub timestamp: Seq<char>,
    pub recommendations: Seq<PricingOptimizationRecommendationV>,
}

impl View for SmartPricingOptimization {
    type V = SmartPricingOptimizationV;

    open spec fn view(&self) -> SmartPricingOptimizationV {
        SmartPricingOptimizationV {
            total_items_analyzed: self.total_items_analyzed,
            items_optimized: self.items_optimized,
            potential_profit_increase: self.potential_profit_increase,
            pricing_strategy: self.pricing_strategy@,
            market_conditions: self.market_conditions@,
            timestamp: self.timestamp@,
            recommendations: self.recommendations@.map_values(
                |x: PricingOptimizationRecommendation| x@,
            ),
        }
    }
}

/// Which documents decode as one optimisation run.
pub open spec fn decode_smart_pricing_optimization(v: JsonV) -> Option<SmartPricingOptimizationV> {
    match v {
        JsonV::Object(fs) => match (
            i32_field(fs, "total_items_analyzed"@),
            i32_field(fs, "items_optimized"@),
            num_field(fs, "potential_profit_increase"@),
            str_field(fs, "pricing_strategy"@),
            str_field(fs, "market_conditions"@),
            str_field(fs, "timestamp"@),
            array_field(fs, "recommendations"@),
        ) {
            (
                Some(total_items_analyzed),
                Some(items_optimized),
                Some(potential_profit_increase),
                Some(pricing_strategy),
                Some(market_conditions),
                Some(timestamp),
                Some(els),
            ) => match decode_elements(els, |e: JsonV| decode_optimization_recommendation(e)) {
                Some(recommendations) => Some(
                    SmartPricingOptimizationV {
                        total_items_analyzed,
                        items_optimized,
                        potential_profit_increase,
                        pricing_strategy,
                        market_conditions,
                        timestamp,
                        recommendations,
                    },
                ),
                None => None,
            },
            _ => None,
        },
        _ => None,
    }
}

/// Decodes one optimisation run.
pub fn parse_smart_pricing_optimization(v: &JsonValue) -> (r: Option<SmartPricingOptimization>)
    ensures
        match r {
            Some(x) => decode_smart_pricing_optimization(v@) == Some(x@),
            None => decode_smart_pricing_optimization(v@) is None,
        },
{
    let fields = match v {
        JsonValue::Object(fs) => fs,
        _ => {
            return None;
        },
    };
    let total_items_analyzed = match get_i32(fields, "total_items_analyzed") {
        Some(x) => x,
        None => {
            return None;
        },
    };
    let items_optimized = match get_i32(fields, "items_optimized") {
        Some(x) => x,
        None => {
            return None;
        },
    };
    let potential_profit_increase = match get_num(fields, "potential_profit_increase") {
        Some(x) => x,
        None => {
            return None;
        },
    };
    let pricing_strategy = match get_str(fields, "pricing_strategy") {
        Some(x) => x,
        None => {
            return None;
        },
    };
    let market_conditions = match get_str(fields, "market_conditions") {
        Some(x) => x,
        None => {
            return None;
        },
    };
    let timestamp = match get_str(fields, "timestamp") {
        Some(x) => x,
        None => {
            return None;
        },
    };
    let rec_values = match get_field(fields, "recommendations") {
        Some(JsonValue::Array(els)) => els,
        _ => {
            return None;
        },
    };
    proof {
        lemma_array_view(rec_values@);
    }
    let ghost av = array_view(rec_values@);
    let ghost f = |e: JsonV| decode_optimization_recommendation(e);
    let n = rec_values.len();
    let mut recommendations: Vec<PricingOptimizationRecommendation> = Vec::new();
    let mut i: usize = 0;
    while i < n
        invariant
            i <= n,
            n == rec_values@.len(),
            av == array_view(rec_values@),
            f == (|e: JsonV| decode_optimization_recommendation(e)),
            v@ == JsonV::Object(fields_view(fields@)),
            array_field(fields_view(fields@), "recommendations"@) == Some(av),
            av.len() == n,
            forall|j: int| #![trigger av[j]] 0 <= j < n ==> av[j] == rec_values@[j]@,
            recommendations@.len() == i,
            forall|j: int|
                #![trigger av[j]]
                0 <= j < i ==> f(av[j]) == Some(recommendations@[j]@),
        decreases n - i,
    {
        match parse_optimization_recommendation(&rec_values[i]) {
            Some(x) => {
                recommendations.push(x);
            },
            None => {
                proof {
                    assert(f(av[i as int]) is None);
                    lemma_decode_elements(av, f);
                }
                return None;
            },
        }
        i += 1;
    }
    proof {
        lemma_decode_elements(av, f);
        assert(decode_elements(av, f) matches Some(xs) && xs =~= recommendations@.map_values(
            |x: PricingOptimizationRecommendation| x@,
        ));
    }
    Some(
        SmartPricingOptimization {
            total_items_analyzed,
            items_optimized,
            potential_profit_increase,
            pricing_strategy,
            market_conditions,
            timestamp,
            recommendations,
        },
    )
}

/// One listing created or rehearsed by the automatic listing engine.
#[derive(Debug, Clone, PartialEq)]
pub struct ListingCreated {
    pub item_id: String,
    pub product_name: String,
    pub rule_applied: String,
    pub price: Option<JsonNumber>,
    pub platform: Option<String>,
    pub dry_run: Option<bool>,
    pub would_list: Option<bool>,
    pub estimated_price: Option<JsonNumber>,
}

/// The model of one created listing.
pub ghost struct ListingCreatedV {
    pub item_id: Seq<char>,
    pub product_name: Seq<char>,
    pub rule_applied: Seq<char>,
    pub price: Option<JsonNumber>,
    pub platform: Option<Seq<char>>,
    pub dry_run: Option<bool>,
    pub would_list: Option<bool>,
    pub estimated_price: Option<JsonNumber>,
}

impl View for ListingCreated {
    type V = ListingCreatedV;

    open spec fn view(&self) -> ListingCreatedV {
        ListingCreatedV {
            item_id: self.item_id@,
            product_name: self.product_name@,
            rule_applied: self.rule_applied@,
            price: self.price,
            platform: opt_string_view(self.platform),
            dry_run: self.dry_run,
            would_list: self.would_list,
            estimated_price: self.estimated_price,
        }
    }
}

/// Which documents decode as one created listing.
pub open spec fn decode_listing_created(v: JsonV) -> Option<ListingCreatedV> {
    match v {
        JsonV::Object(fs) => match (
            str_field(fs, "item_id"@),
            str_field(fs, "product_name"@),
            str_field(fs, "rule_applied"@),
            opt_num_field(fs, "price"@),
            opt_str_field(fs, "platform"@),
            opt_bool_field(fs, "dry_run"@),
            opt_bool_field(fs, "would_list"@),
            opt_num_field(fs, "estimated_price"@),
        ) {
            (
                Some(item_id),
                Some(product_name),
                Some(rule_applied),
                Some(price),
                Some(platform),
                Some(dry_run),
                Some(would_list),
                Some(estimated_price),
            ) => Some(
                ListingCreatedV {
                    item_id,
                    product_name,
                    rule_applied,
                    price,
                    platform,
                    dry_run,
                    would_list,
                    estimated_price,
                },
            ),
            _ => None,
        },
        _ => None,
    }
}

/// Decodes one created listing.
pub fn parse_listing_created(v: &JsonValue) -> (r: Option<ListingCreated>)
    ensures
        match r {
            Some(x) => decode_listing_created(v@) == Some(x@),
            None => decode_listing_created(v@) is None,
        },
{
    let fields = match v {
        JsonValue::Object(fs) => fs,
        _ => {
            return None;
        },
    };
    let item_id = match get_str(fields, "item_id") {
        Some(x) => x,
        None => {
            return None;
        },
    };
    let product_name = match get_str(fields, "product_name") {
        Some(x) => x,
        None => {
            return None;
        },
    };
    let rule_applied = match get_str(fields, "rule_applied") {
        Some(x) => x,
        None => {
            return None;
        },
    };
    let price = match get_opt_num(fields, "price") {
        Some(x) => x,
        None => {
            return None;
        },
    };
    let platform = match get_opt_str(fields, "platform") {
        Some(x) => x,
        None => {
            return None;
        },
    };
    let dry_run = match get_opt_bool(fields, "dry_run") {
        Some(x) => x,
        None => {
            return None;
        },
    };
    let would_list = match get_opt_bool(fields, "would_list") {
        Some(x) => x,
        None => {
            return None;
        },
    };
    let estimated_price = match get_opt_num(fields, "estimated_price") {
        Some(x) => x,
        None => {
            return None;
        },
    };
    Some(
        ListingCreated {
            item_id,
            product_name,
            rule_applied,
            price,
            platform,
            dry_run,
            would_list,
            estimated_price,
        },
    )
}

/// The report of one automatic listing run.
#[derive(Debug, Clone, PartialEq)]
pub struct AutoListingExecution {
    pub execution_id: String,
    pub started_at: String,
    pub max_items: i32,
    pub dry_run: bool,
    pub items_evaluated: i32,
    pub items_listed: i32,
    pub rules_matched: i32,
    pub errors: i32,
    pub skipped: i32,
    pub execution_time: JsonNumber,
    pub listings_created: Vec<ListingCreated>,
}

/// The model of one automatic listing run.
pub ghost struct AutoListingExecutionV {
    pub execution_id: Seq<char>,
    pub started_at: Seq<char>,
    pub max_items: i32,
    pub dry_run: bool,
    pub items_evaluated: i32,
    pub items_listed: i32,
    pub rules_matched: i32,
    pub errors: i32,
    pub skipped: i32,
    pub execution_time: JsonNumber,
    pub listings_created: Seq<ListingCreatedV>,
}

impl View for AutoListingExecution {
    type V = AutoListingExecutionV;

    open spec fn view(&self) -> AutoListingExecutionV {
        AutoListingExecutionV {
            execution_id: self.execution_id@,
            started_at: self.started_at@,
            max_items: self.max_items,
            dry_run: self.dry_run,
            items_evaluated: self.items_evaluated,
            items_listed: self.items_listed,
            rules_matched: self.rules_matched,
            errors: self.errors,
            skipped: self.skipped,
            execution_time: self.execution_time,
            listings_created: self.listings_created@.map_values(|x: ListingCreated| x@),
        }
    }
}

/// Which documents decode as one automatic listing run.
pub open spec fn decode_auto_listing_execution(v: JsonV) -> Option<AutoListingExecutionV> {
    match v {
        JsonV::Object(fs) => match (
            str_field(fs, "execution_id"@),
            str_field(fs, "started_at"@),
            i32_field(fs, "max_items"@),
            bool_field(fs, "dry_run"@),
            i32_field(fs, "items_evaluated"@),
            i32_field(fs, "items_listed"@),
        ) {
            (Some(execution_id), Some(started_at), Some(max_items), Some(dry_run), Some(
                items_evaluated,
            ), Some(items_listed)) => match (
                i32_field(fs, "rules_matched"@),
                i32_field(fs, "errors"@),
                i32_field(fs, "skipped"@),
                num_field(fs, "execution_time"@),
                array_field(fs, "listings_created"@),
            ) {
                (Some(rules_matched), Some(errors), Some(skipped), Some(execution_time), Some(
                    els,
                )) => match decode_elements(els, |e: JsonV| decode_listing_created(e)) {
                    Some(listings_created) => Some(
                        AutoListingExecutionV {
                            execution_id,
                            started_at,
                            max_items,
                            dry_run,
                            items_evaluated,
                            items_listed,
                            rules_matched,
                            errors,
                            skipped,
                            execution_time,
                            listings_created,
                        },
                    ),
                    None => None,
                },
                _ => None,
            },
            _ => None,
        },
        _ => None,
    }
}

/// Decodes one automatic listing run.
pub fn parse_auto_listing_execution(v: &JsonValue) -> (r: Option<AutoListingExecution>)
    ensures
        match r {
            Some(x) => decode_auto_listing_execution(v@) == Some(x@),
            None => decode_auto_listing_execution(v@) is None,
        },
{
    let fields = match v {
        JsonValue::Object(fs) => fs,
        _ => {
            return None;
        },
    };
    let execution_id = match get_str(fields, "execution_id") {
        Some(x) => x,
        None => {
            return None;
        },
    };
    let started_at = match get_str(fields, "started_at") {
        Some(x) => x,
        None => {
            return None;
        },
    };
    let max_items = match get_i32(fields, "max_items") {
        Some(x) => x,
        None => {
            return None;
        },
    };
    let dry_run = match get_bool(fields, "dry_run") {
        Some(x) => x,
        None => {
            return None;
        },
    };
    let items_evaluated = match get_i32(fields, "items_evaluated") {
        Some(x) => x,
        None => {
            return None;
        },
    };
    let items_listed = match get_i32(fields, "items_listed") {
        Some(x) => x,
        None => {
            return None;
        },
    };
    let rules_matched = match get_i32(fields, "rules_matched") {
        Some(x) => x,
        None => {
            return None;
        },
    };
    let errors = match get_i32(fields, "errors") {
        Some(x) => x,
        None => {
            return None;
        },
    };
    let skipped = match get_i32(fields, "skipped") {
        Some(x) => x,
        None => {
            return None;
        },
    };
    let execution_time = match get_num(fields, "execution_time") {
        Some(x) => x,
        None => {
            return None;
        },
    };
    let created_values = match get_field(fields, "listings_created") {
        Some(JsonValue::Array(els)) => els,
        _ => {
            return None;
        },
    };
    proof {
        lemma_array_view(created_values@);
    }
    let ghost av = array_view(created_values@);
    let ghost f = |e: JsonV| decode_listing_created(e);
    let n = created_values.len();
    let mut listings_created: Vec<ListingCreated> = Vec::new();
    let mut i: usize = 0;
    while i < n
        invariant
            i <= n,
            n == created_values@.len(),
            av == array_view(created_values@),
            f == (|e: JsonV| decode_listing_created(e)),
            v@ == JsonV::Object(fields_view(fields@)),
            array_field(fields_view(fields@), "listings_created"@) == Some(av),
            av.len() == n,
            forall|j: int| #![trigger av[j]] 0 <= j < n ==> av[j] == created_values@[j]@,
            listings_created@.len() == i,
            forall|j: int|
                #![trigger av[j]]
                0 <= j < i ==> f(av[j]) == Some(listings_created@[j]@),
        decreases n - i,
    {
        match parse_listing_created(&created_values[i]) {
            Some(x) => {
                listings_created.push(x);
            },
            None => {
                proof {
                    assert(f(av[i as int]) is None);
                    lemma_decode_elements(av, f);
                }
                return None;
            },
        }
        i += 1;
    }
    proof {
        lemma_decode_elements(av, f);
        assert(decode_elements(av, f) matches Some(xs) && xs =~= listings_created@.map_values(
            |x: ListingCreated| x@,
        ));
    }
    Some(
        AutoListingExecution {
            execution_id,
            started_at,
            max_items,
            dry_run,
            items_evaluated,
            items_listed,
            rules_matched,
            errors,
            skipped,
            execution_time,
            listings_created,
        },
    )
}

/// One item matched during a listing rehearsal.
#[derive(Debug, Clone, PartialEq)]
pub struct SimulatedListingItem {
    pub item_id: String,
    pub product_name: String,
    pub rule_matched: String,
    pub current_status: String,
    pub purchase_price: JsonNumber,
    pub estimated_listing_price: JsonNumber,
    pub profit_margin_percent: JsonNumber,
    pub confidence: JsonNumber,
}

/// The model of one rehearsed listing.
pub ghost struct SimulatedListingItemV {
    pub item_id: Seq<char>,
    pub product_name: Seq<char>,
    pub rule_matched: Seq<char>,
    pub current_status: Seq<char>,
    pub purchase_price: JsonNumber,
    pub estimated_listing_price: JsonNumber,
    pub profit_margin_percent: JsonNumber,
    pub confidence: JsonNumber,
}

impl View for SimulatedListingItem {
    type V = SimulatedListingItemV;

    open spec fn view(&self) -> SimulatedListingItemV {
        SimulatedListingItemV {
            item_id: self.item_id@,
            product_name: self.product_name@,
            rule_matched: self.rule_matched@,
            current_status: self.current_status@,
            purchase_price: self.purchase_price,
            estimated_listing_price: self.estimated_listing_price,
            profit_margin_percent: self.profit_margin_percent,
            confidence: self.confidence,
        }
    }
}

/// Which documents decode as one rehearsed listing.
pub open spec fn decode_simulated_item(v: JsonV) -> Option<SimulatedListingItemV> {
    match v {
        JsonV::Object(fs) => match (
            str_field(fs, "item_id"@),
            str_field(fs, "product_name"@),
            str_field(fs, "rule_matched"@),
            str_field(fs, "current_status"@),
            num_field(fs, "purchase_price"@),
            num_field(fs, "estimated_listing_price"@),
            num_field(fs, "profit_margin_percent"@),
            num_field(fs, "confidence"@),
        ) {
            (
                Some(item_id),
                Some(product_name),
                Some(rule_matched),
                Some(current_status),
                Some(purchase_price),
                Some(estimated_listing_price),
                Some(profit_margin_percent),
                Some(confidence),
            ) => Some(
                SimulatedListingItemV {
                    item_id,
                    product_name,
                    rule_matched,
                    current_status,
                    purchase_price,
                    estimated_listing_price,
                    profit_margin_percent,
                    confidence,
                },
            ),
            _ => None,
        },
        _ => None,
    }
}

/// Decodes one rehearsed listing.
pub fn parse_simulated_item(v: &JsonValue) -> (r: Option<SimulatedListingItem>)
    ensures
        match r {
            Some(x) => decode_simulated_item(v@) == Some(x@),
            None => decode_simulated_item(v@) is None,
        },
{
    let fields = match v {
        JsonValue::Object(fs) => fs,
        _ => {
            return None;
        },
    };
    let item_id = match get_str(fields, "item_id") {
        Some(x) => x,
        None => {
            return None;
        },
    };
    let product_name = match get_str(fields, "product_name") {
        Some(x) => x,
        None => {
            return None;
        },
    };
    let rule_matched = match get_str(fields, "rule_matched") {
        Some(x) => x,
        None => {
            return None;
        },
    };
    let current_status = match get_str(fields, "current_status") {
        Some(x) => x,
        None => {
            return None;
        },
    };
    let purchase_price = match get_num(fields, "purchase_price") {
        Some(x) => x,
        None => {
            return None;
        },
    };
    let estimated_listing_price = match get_num(fields, "estimated_listing_price") {
        Some(x) => x,
        None => {
            return None;
        },
    };
    let profit_margin_percent = match get_num(fields, "profit_margin_percent") {
        Some(x) => x,
        None => {
            return None;
        },
    };
    let confidence = match get_num(fields, "confidence") {
        Some(x) => x,
        None => {
            return None;
        },
    };
    Some(
        SimulatedListingItem {
            item_id,
            product_name,
            rule_matched,
            current_status,
            purchase_price,
            estimated_listing_price,
            profit_margin_percent,
            confidence,
        },
    )
}

/// The report of one listing rehearsal.
#[derive(Debug, Clone, PartialEq)]
pub struct AutoListingSimulation {
    pub simulation_complete: bool,
    pub rule_tested: String,
    pub items_evaluated: i32,
    pub items_that_would_be_listed: i32,
    pub rules_matched: i32,
    pub potential_revenue: JsonNumber,
    pub average_markup_percent: JsonNumber,
    pub execution_time: JsonNumber,
    pub matched_items: Vec<SimulatedListingItem>,
}

/// The model of one listing rehearsal.
pub ghost struct AutoListingSimulationV {
    pub simulation_complete: bool,
    pub rule_tested: Seq<char>,
    pub items_evaluated: i32,
    pub items_that_would_be_listed: i32,
    pub rules_matched: i32,
    pub potential_revenue: JsonNumber,
    pub average_markup_percent: JsonNumber,
    pub execution_time: JsonNumber,
    pub matched_items: Seq<SimulatedListingItemV>,
}

impl View for AutoListingSimulation {
    type V = AutoListingSimulationV;

    open spec fn view(&self) -> AutoListingSimulationV {
        AutoListingSimulationV {
            simulation_complete: self.simulation_complete,
            rule_tested: self.rule_tested@,
            items_evaluated: self.items_evaluated,
            items_that_would_be_listed: self.items_that_would_be_listed,
            rules_matched: self.rules_matched,
            potential_revenue: self.potential_revenue,
            average_markup_percent: self.average_markup_percent,
            execution_time: self.execution_time,
            matched_items: self.matched_items@.map_values(|x: SimulatedListingItem| x@),
        }
    }
}

/// Which documents decode as one listing rehearsal.
pub open spec fn decode_auto_listing_simulation(v: JsonV) -> Option<AutoListingSimulationV> {
    match v {
        JsonV::Object(fs) => match (
            bool_field(fs, "simulation_complete"@),
            str_field(fs, "rule_tested"@),
            i32_field(fs, "items_evaluated"@),
            i32_field(fs, "items_that_would_be_listed"@),
            i32_field(fs, "rules_matched"@),
            num_field(fs, "potential_revenue"@),
            num_field(fs, "average_markup_percent"@),
            num_field(fs, "execution_time"@),
        ) {
            (
                Some(simulation_complete),
                Some(rule_tested),
                Some(items_evaluated),
                Some(items_that_would_be_listed),
                Some(rules_matched),
                Some(potential_revenue),
                Some(average_markup_percent),
                Some(execution_time),
            ) => match array_field(fs, "matched_items"@) {
                Some(els) => match decode_elements(els, |e: JsonV| decode_simulated_item(e)) {
                    Some(matched_items) => Some(
                        AutoListingSimulationV {
                            simulation_complete,
                            rule_tested,
                            items_evaluated,
                            items_that_would_be_listed,
                            rules_matched,
                            potential_revenue,
                            average_markup_percent,
                            execution_time,
                            matched_items,
                        },
                    ),
                    None => None,
                },
                None => None,
            },
            _ => None,
        },
        _ => None,
    }
}

/// Decodes one listing rehearsal.
pub fn parse_auto_listing_simulation(v: &JsonValue) -> (r: Option<AutoListingSimulation>)
    ensures
        match r {
            Some(x) => decode_auto_listing_simulation(v@) == Some(x@),
            None => decode_auto_listing_simulation(v@) is None,
        },
{
    let fields = match v {
        JsonValue::Object(fs) => fs,
        _ => {
            return None;
        },
    };
    let simulation_complete = match get_bool(fields, "simulation_complete") {
        Some(x) => x,
        None => {
            return None;
        },
    };
    let rule_tested = match get_str(fields, "rule_tested") {
        Some(x) => x,
        None => {
            return None;
        },
    };
    let items_evaluated = match get_i32(fields, "items_evaluated") {
        Some(x) => x,
        None => {
            return None;
        },
    };
    let items_that_would_be_listed = match get_i32(fields, "items_that_would_be_listed") {
        Some(x) => x,
        None => {
            return None;
        },
    };
    let rules_matched = match get_i32(fields, "rules_matched") {
        Some(x) => x,
        None => {
            return None;
        },
    };
    let potential_revenue = match get_num(fields, "potential_revenue") {
        Some(x) => x,
        None => {
            return None;
        },
    };
    let average_markup_percent = match get_num(fields, "average_markup_percent") {
        Some(x) => x,
        None => {
            return None;
        },
    };
    let execution_time = match get_num(fields, "execution_time") {
        Some(x) => x,
        None => {
            return None;
        },
    };
    let item_values = match get_field(fields, "matched_items") {
        Some(JsonValue::Array(els)) => els,
        _ => {
            return None;
        },
    };
    proof {
        lemma_array_view(item_values@);
    }
    let ghost av = array_view(item_values@);
    let ghost f = |e: JsonV| decode_simulated_item(e);
    let n = item_values.len();
    let mut matched_items: Vec<SimulatedListingItem> = Vec::new();
    let mut i: usize = 0;
    while i < n
        invariant
            i <= n,
            n == item_values@.len(),
            av == array_view(item_values@),
            f == (|e: JsonV| decode_simulated_item(e)),
            v@ == JsonV::Object(fields_view(fields@)),
            array_field(fields_view(fields@), "matched_items"@) == Some(av),
            av.len() == n,
            forall|j: int| #![trigger av[j]] 0 <= j < n ==> av[j] == item_values@[j]@,
            matched_items@.len() == i,
            forall|j: int|
                #![trigger av[j]]
                0 <= j < i ==> f(av[j]) == Some(matched_items@[j]@),
        decreases n - i,
    {
        match parse_simulated_item(&item_values[i]) {
            Some(x) => {
                matched_items.push(x);
            },
            None => {
                proof {
                    assert(f(av[i as int]) is None);
                    lemma_decode_elements(av, f);
                }
                return None;
            },
        }
        i += 1;
    }
    proof {
        lemma_decode_elements(av, f);
        assert(decode_elements(av, f) matches Some(xs) && xs =~= matched_items@.map_values(
            |x: SimulatedListingItem| x@,
        ));
    }
    Some(
        AutoListingSimulation {
            simulation_complete,
            rule_tested,
            items_evaluated,
            items_that_would_be_listed,
            rules_matched,
            potential_revenue,
            average_markup_percent,
            execution_time,
            matched_items,
        },
    )
}

/// The value an element carries when an open-ended object is expected.
pub open spec fn as_obj_value(v: JsonV) -> Option<Seq<(Seq<char>, JsonV)>> {
    match v {
        JsonV::Object(o) => Some(o),
        _ => None,
    }
}

/// The full forecast analysis around one sales forecast.
#[derive(Debug)]
pub struct ForecastAnalysis {
    pub forecast: SalesForecast,
    pub historical_data: Vec<Vec<(String, JsonValue)>>,
    pub key_insights: Vec<String>,
    pub recommendations: Vec<String>,
    pub model_performance: Vec<(String, JsonValue)>,
}

/// The model of the full forecast analysis.
pub ghost struct ForecastAnalysisV {
    pub forecast: SalesForecastV,
    pub historical_data: Seq<Seq<(Seq<char>, JsonV)>>,
    pub key_insights: Seq<Seq<char>>,
    pub recommendations: Seq<Seq<char>>,
    pub model_performance: Seq<(Seq<char>, JsonV)>,
}

impl View for ForecastAnalysis {
    type V = ForecastAnalysisV;

    open spec fn view(&self) -> ForecastAnalysisV {
        ForecastAnalysisV {
            forecast: self.forecast@,
            historical_data: self.historical_data@.map_values(
                |o: Vec<(String, JsonValue)>| fields_view(o@),
            ),
            key_insights: self.key_insights@.map_values(|s: String| s@),
            recommendations: self.recommendations@.map_values(|s: String| s@),
            model_performance: fields_view(self.model_performance@),
        }
    }
}

/// Which documents decode as the full forecast analysis.
pub open spec fn decode_forecast_analysis(v: JsonV) -> Option<ForecastAnalysisV> {
    match v {
        JsonV::Object(fs) => match (
            lookup_field(fs, "forecast"@),
            array_field(fs, "historical_data"@),
            str_array_field(fs, "key_insights"@),
            str_array_field(fs, "recommendations"@),
            obj_field(fs, "model_performance"@),
        ) {
            (Some(fv), Some(els), Some(key_insights), Some(recommendations), Some(
                model_performance,
            )) => match (
                decode_sales_forecast(fv),
                decode_elements(els, |e: JsonV| as_obj_value(e)),
            ) {
                (Some(forecast), Some(historical_data)) => Some(
                    ForecastAnalysisV {
                        forecast,
                        historical_data,
                        key_insights,
                        recommendations,
                        model_performance,
                    },
                ),
                _ => None,
            },
            _ => None,
        },
        _ => None,
    }
}

/// Decodes the full forecast analysis.
pub fn parse_forecast_analysis(v: &JsonValue) -> (r: Option<ForecastAnalysis>)
    ensures
        match r {
            Some(x) => decode_forecast_analysis(v@) == Some(x@),
            None => decode_forecast_analysis(v@) is None,
        },
{
    let fields = match v {
        JsonValue::Object(fs) => fs,
        _ => {
            return None;
        },
    };
    let forecast = match get_field(fields, "forecast") {
        Some(f2) => match parse_sales_forecast(f2) {
            Some(x) => x,
            None => {
                return None;
            },
        },
        None => {
            return None;
        },
    };
    let history_values = match get_field(fields, "historical_data") {
        Some(JsonValue::Array(els)) => els,
        _ => {
            return None;
        },
    };
    proof {
        lemma_array_view(history_values@);
    }
    let ghost av = array_view(history_values@);
    let ghost f = |e: JsonV| as_obj_value(e);
    let n = history_values.len();
    let mut historical_data: Vec<Vec<(String, JsonValue)>> = Vec::new();
    let mut i: usize = 0;
    while i < n
        invariant
            i <= n,
            n == history_values@.len(),
            av == array_view(history_values@),
            f == (|e: JsonV| as_obj_value(e)),
            v@ == JsonV::Object(fields_view(fields@)),
            array_field(fields_view(fields@), "historical_data"@) == Some(av),
            av.len() == n,
            forall|j: int| #![trigger av[j]] 0 <= j < n ==> av[j] == history_values@[j]@,
            historical_data@.len() == i,
            forall|j: int|
                #![trigger av[j]]
                0 <= j < i ==> f(av[j]) == Some(fields_view(historical_data@[j]@)),
        decreases n - i,
    {
        match &history_values[i] {
            JsonValue::Object(o) => {
                historical_data.push(duplicate_fields(o));
            },
            _ => {
                proof {
                    assert(f(av[i as int]) is None);
                    lemma_decode_elements(av, f);
                }
                return None;
            },
        }
        i += 1;
    }
    proof {
        lemma_decode_elements(av, f);
        assert(decode_elements(av, f) matches Some(xs) && xs =~= historical_data@.map_values(
            |o: Vec<(String, JsonValue)>| fields_view(o@),
        ));
    }
    let key_insights = match get_str_array(fields, "key_insights") {
        Some(x) => x,
        None => {
            return None;
        },
    };
    let recommendations = match get_str_array(fields, "recommendations") {
        Some(x) => x,
        None => {
            return None;
        },
    };
    let model_performance = match get_obj(fields, "model_performance") {
        Some(x) => x,
        None => {
            return None;
        },
    };
    Some(
        ForecastAnalysis {
            forecast,
            historical_data,
            key_insights,
            recommendations,
            model_performance,
        },
    )
}

} // verus!

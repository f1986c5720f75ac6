//! Pricing, automatic listing and dead stock contracts.
//!
//! Flat report records mirroring the smart-pricing endpoints: repricing and
//! listing-rule state, market analyses, pricing recommendations, sales
//! forecasts and dead stock records.

use vstd::prelude::*;

use crate::json::JsonNumber;
use crate::json::JsonV;
use crate::json::JsonValue;
use crate::json::array_field;
use crate::json::array_view;
use crate::json::decode_elements;
use crate::json::bool_field;
use crate::json::fields_view;
use crate::json::get_bool;
use crate::json::get_field;
use crate::json::get_i32;
use crate::json::get_num;
use crate::json::get_opt_i32;
use crate::json::get_opt_num;
use crate::json::get_opt_num_pairs;
use crate::json::get_opt_str;
use crate::json::get_str;
use crate::json::get_str_array;
use crate::json::i32_field;
use crate::json::lemma_array_view;
use crate::json::lemma_decode_elements;
use crate::json::lemma_lookup_found;
use crate::json::num_field;
use crate::json::opt_i32_field;
use crate::json::opt_num_field;
use crate::json::opt_num_pairs_field;
use crate::json::opt_str_field;
use crate::json::opt_string_view;
use crate::json::opt_text_model;
use crate::json::opt_text_value;
use crate::json::push_field;
use crate::json::str_array_field;
use crate::json::str_field;

verus! {

/// The state of the automatic repricing engine.
#[derive(Debug, Clone, PartialEq)]
pub struct AutoRepricingStatus {
    pub enabled: bool,
    pub last_run: Option<String>,
    pub items_repriced: i32,
    pub strategy: String,
    pub next_run: Option<String>,
    pub rules_applied: i32,
}

/// The model of the repricing state.
pub ghost struct AutoRepricingStatusV {
    pub enabled: bool,
    pub last_run: Option<Seq<char>>,
    pub items_repriced: i32,
    pub strategy: Seq<char>,
    pub next_run: Option<Seq<char>>,
    pub rules_applied: i32,
}

impl View for AutoRepricingStatus {
    type V = AutoRepricingStatusV;

    open spec fn view(&self) -> AutoRepricingStatusV {
        AutoRepricingStatusV {
            enabled: self.enabled,
            last_run: opt_string_view(self.last_run),
            items_repriced: self.items_repriced,
            strategy: self.strategy@,
            next_run: opt_string_view(self.next_run),
            rules_applied: self.rules_applied,
        }
    }
}

/// Which documents decode as the repricing state, and to what.
pub open spec fn decode_auto_repricing_status(v: JsonV) -> Option<AutoRepricingStatusV> {
    match v {
        JsonV::Object(fs) => match (
            bool_field(fs, "enabled"@),
            opt_str_field(fs, "last_run"@),
            i32_field(fs, "items_repriced"@),
            str_field(fs, "strategy"@),
            opt_str_field(fs, "next_run"@),
            i32_field(fs, "rules_applied"@),
        ) {
            (Some(enabled), Some(last_run), Some(items_repriced), Some(strategy), Some(
                next_run,
            ), Some(rules_applied)) => Some(
                AutoRepricingStatusV {
                    enabled,
                    last_run,
                    items_repriced,
                    strategy,
                    next_run,
                    rules_applied,
                },
            ),
            _ => None,
        },
        _ => None,
    }
}

/// Decodes the repricing state.
pub fn parse_auto_repricing_status(v: &JsonValue) -> (r: Option<AutoRepricingStatus>)
    ensures
        match r {
            Some(x) => decode_auto_repricing_status(v@) == Some(x@),
            None => decode_auto_repricing_status(v@) is None,
        },
{
    let fields = match v {
        JsonValue::Object(fs) => fs,
        _ => {
            return None;
        },
    };
    let enabled = match get_bool(fields, "enabled") {
        Some(x) => x,
        None => {
            return None;
        },
    };
    let last_run = match get_opt_str(fields, "last_run") {
        Some(x) => x,
        None => {
            return None;
        },
    };
    let items_repriced = match get_i32(fields, "items_repriced") {
        Some(x) => x,
        None => {
            return None;
        },
    };
    let strategy = match get_str(fields, "strategy") {
        Some(x) => x,
        None => {
            return None;
        },
    };
    let next_run = match get_opt_str(fields, "next_run") {
        Some(x) => x,
        None => {
            return None;
        },
    };
    let rules_applied = match get_i32(fields, "rules_applied") {
        Some(x) => x,
        None => {
            return None;
        },
    };
    Some(
        AutoRepricingStatus {
            enabled,
            last_run,
            items_repriced,
            strategy,
            next_run,
            rules_applied,
        },
    )
}

/// Encodes the repricing state; decoding the result gives it back.
pub fn encode_auto_repricing_status(x: &AutoRepricingStatus) -> (v: JsonValue)
    ensures
        decode_auto_repricing_status(v@) == Some(x@),
{
    let mut fields: Vec<(String, JsonValue)> = Vec::new();
    push_field(&mut fields, "enabled", JsonValue::Bool(x.enabled));
    push_field(&mut fields, "last_run", opt_text_value(&x.last_run));
    push_field(&mut fields, "items_repriced", JsonValue::Number(JsonNumber::Signed(
        x.items_repriced as i64,
    )));
    push_field(&mut fields, "strategy", JsonValue::Text(x.strategy.clone()));
    push_field(&mut fields, "next_run", opt_text_value(&x.next_run));
    push_field(&mut fields, "rules_applied", JsonValue::Number(JsonNumber::Signed(
        x.rules_applied as i64,
    )));
    let ghost fv = fields_view(fields@);
    let v = JsonValue::Object(fields);
    proof {
        reveal_strlit("enabled");
        reveal_strlit("last_run");
        reveal_strlit("items_repriced");
        reveal_strlit("strategy");
        reveal_strlit("next_run");
        reveal_strlit("rules_applied");
        assert(fv =~= seq![
            ("enabled"@, JsonV::Bool(x.enabled)),
            ("last_run"@, opt_text_model(opt_string_view(x.last_run))),
            ("items_repriced"@, JsonV::Number(JsonNumber::Signed(x.items_repriced as i64))),
            ("strategy"@, JsonV::Text(x.strategy@)),
            ("next_run"@, opt_text_model(opt_string_view(x.next_run))),
            ("rules_applied"@, JsonV::Number(JsonNumber::Signed(x.rules_applied as i64))),
        ]);
        assert(fv[0].0 == "enabled"@);
        assert(fv[1].0 == "last_run"@);
        assert(fv[2].0 == "items_repriced"@);
        assert(fv[3].0 == "strategy"@);
        assert(fv[4].0 == "next_run"@);
        assert(fv[5].0 == "rules_applied"@);
        assert("last_run"@[0] != "next_run"@[0]);
        assert("last_run"@ != "next_run"@);
        lemma_lookup_found(fv, 0, "enabled"@);
        lemma_lookup_found(fv, 1, "last_run"@);
        lemma_lookup_found(fv, 2, "items_repriced"@);
        lemma_lookup_found(fv, 3, "strategy"@);
        lemma_lookup_found(fv, 4, "next_run"@);
        lemma_lookup_found(fv, 5, "rules_applied"@);
        assert(decode_auto_repricing_status(v@) == Some(x@));
    }
    v
}

/// One automatic listing rule.
#[derive(Debug, Clone, PartialEq)]
pub struct ListingRule {
    pub name: String,
    pub active: bool,
    pub priority: i32,
    pub conditions_count: i32,
    pub items_matched_today: Option<i32>,
}

/// The model of one listing rule.
pub ghost struct ListingRuleV {
    pub name: Seq<char>,
    pub active: bool,
    pub priority: i32,
    pub conditions_count: i32,
    pub items_matched_today: Option<i32>,
}

impl View for ListingRule {
    type V = ListingRuleV;

    open spec fn view(&self) -> ListingRuleV {
        ListingRuleV {
            name: self.name@,
            active: self.active,
            priority: self.priority,
            conditions_count: self.conditions_count,
            items_matched_today: self.items_matched_today,
        }
    }
}

/// Which documents decode as one listing rule, and to what.
pub open spec fn decode_listing_rule(v: JsonV) -> Option<ListingRuleV> {
    match v {
        JsonV::Object(fs) => match (
            str_field(fs, "name"@),
            bool_field(fs, "active"@),
            i32_field(fs, "priority"@),
            i32_field(fs, "conditions_count"@),
            opt_i32_field(fs, "items_matched_today"@),
        ) {
            (Some(name), Some(active), Some(priority), Some(conditions_count), Some(
                items_matched_today,
            )) => Some(
                ListingRuleV { name, active, priority, conditions_count, items_matched_today },
            ),
            _ => None,
        },
        _ => None,
    }
}

/// Decodes one listing rule.
pub fn parse_listing_rule(v: &JsonValue) -> (r: Option<ListingRule>)
    ensures
        match r {
            Some(x) => decode_listing_rule(v@) == Some(x@),
            None => decode_listing_rule(v@) is None,
        },
{
    let fields = match v {
        JsonValue::Object(fs) => fs,
        _ => {
            return None;
        },
    };
    let name = match get_str(fields, "name") {
        Some(x) => x,
        None => {
            return None;
        },
    };
    let active = match get_bool(fields, "active") {
        Some(x) => x,
        None => {
            return None;
        },
    };
    let priority = match get_i32(fields, "priority") {
        Some(x) => x,
        None => {
            return None;
        },
    };
    let conditions_count = match get_i32(fields, "conditions_count") {
        Some(x) => x,
        None => {
            return None;
        },
    };
    let items_matched_today = match get_opt_i32(fields, "items_matched_today") {
        Some(x) => x,
        None => {
            return None;
        },
    };
    Some(ListingRule { name, active, priority, conditions_count, items_matched_today })
}

/// Encodes one listing rule; decoding the result gives it back.
pub fn encode_listing_rule(x: &ListingRule) -> (v: JsonValue)
    ensures
        decode_listing_rule(v@) == Some(x@),
{
    let mut fields: Vec<(String, JsonValue)> = Vec::new();
    push_field(&mut fields, "name", JsonValue::Text(x.name.clone()));
    push_field(&mut fields, "active", JsonValue::Bool(x.active));
    push_field(&mut fields, "priority", JsonValue::Number(JsonNumber::Signed(
        x.priority as i64,
    )));
    push_field(&mut fields, "conditions_count", JsonValue::Number(JsonNumber::Signed(
        x.conditions_count as i64,
    )));
    let matched = match x.items_matched_today {
        Some(m) => JsonValue::Number(JsonNumber::Signed(m as i64)),
        None => JsonValue::Null,
    };
    push_field(&mut fields, "items_matched_today", matched);
    let ghost fv = fields_view(fields@);
    let v = JsonValue::Object(fields);
    proof {
        reveal_strlit("name");
        reveal_strlit("active");
        reveal_strlit("priority");
        reveal_strlit("conditions_count");
        reveal_strlit("items_matched_today");
        assert(fv =~= seq![
            ("name"@, JsonV::Text(x.name@)),
            ("active"@, JsonV::Bool(x.active)),
            ("priority"@, JsonV::Number(JsonNumber::Signed(x.priority as i64))),
            ("conditions_count"@, JsonV::Number(JsonNumber::Signed(x.conditions_count as i64))),
            (
                "items_matched_today"@,
                match x.items_matched_today {
                    Some(m) => JsonV::Number(JsonNumber::Signed(m as i64)),
                    None => JsonV::Null,
                },
            ),
        ]);
        assert(fv[0].0 == "name"@);
        assert(fv[1].0 == "active"@);
        assert(fv[2].0 == "priority"@);
        assert(fv[3].0 == "conditions_count"@);
        assert(fv[4].0 == "items_matched_today"@);
        lemma_lookup_found(fv, 0, "name"@);
        lemma_lookup_found(fv, 1, "active"@);
        lemma_lookup_found(fv, 2, "priority"@);
        lemma_lookup_found(fv, 3, "conditions_count"@);
        lemma_lookup_found(fv, 4, "items_matched_today"@);
        assert(decode_listing_rule(v@) == Some(x@));
    }
    v
}

/// The rule list of an element list in which every element decodes.
pub open spec fn decode_rule_elements(els: Seq<JsonV>) -> Option<Seq<ListingRuleV>> {
    decode_elements(els, |e: JsonV| decode_listing_rule(e))
}

/// The state of the automatic listing engine.
#[derive(Debug, Clone, PartialEq)]
pub struct AutoListingStatus {
    pub enabled: bool,
    pub total_rules: i32,
    pub active_rules: i32,
    pub last_run: Option<String>,
    pub next_scheduled_run: Option<String>,
    pub items_processed_today: i32,
    pub items_listed_today: i32,
    pub success_rate_percent: JsonNumber,
    pub rules: Vec<ListingRule>,
}

/// The model of the listing engine's state.
pub ghost struct AutoListingStatusV {
    pub enabled: bool,
    pub total_rules: i32,
    pub active_rules: i32,
    pub last_run: Option<Seq<char>>,
    pub next_scheduled_run: Option<Seq<char>>,
    pub items_processed_today: i32,
    pub items_listed_today: i32,
    pub success_rate_percent: JsonNumber,
    pub rules: Seq<ListingRuleV>,
}

impl View for AutoListingStatus {
    type V = AutoListingStatusV;

    open spec fn view(&self) -> AutoListingStatusV {
        AutoListingStatusV {
            enabled: self.enabled,
            total_rules: self.total_rules,
            active_rules: self.active_rules,
            last_run: opt_string_view(self.last_run),
            next_scheduled_run: opt_string_view(self.next_scheduled_run),
            items_processed_today: self.items_processed_today,
            items_listed_today: self.items_listed_today,
            success_rate_percent: self.success_rate_percent,
            rules: self.rules@.map_values(|b: ListingRule| b@),
        }
    }
}

/// Which documents decode as the listing engine's state, and to what.
pub open spec fn decode_auto_listing_status(v: JsonV) -> Option<AutoListingStatusV> {
    match v {
        JsonV::Object(fs) => match (
            bool_field(fs, "enabled"@),
            i32_field(fs, "total_rules"@),
            i32_field(fs, "active_rules"@),
            opt_str_field(fs, "last_run"@),
            opt_str_field(fs, "next_scheduled_run"@),
            i32_field(fs, "items_processed_today"@),
            i32_field(fs, "items_listed_today"@),
            num_field(fs, "success_rate_percent"@),
        ) {
            (
                Some(enabled),
                Some(total_rules),
                Some(active_rules),
                Some(last_run),
                Some(next_scheduled_run),
                Some(items_processed_today),
                Some(items_listed_today),
                Some(success_rate_percent),
            ) => match array_field(fs, "rules"@) {
                Some(rule_els) => match decode_rule_elements(rule_els) {
                    Some(rules) => Some(
                        AutoListingStatusV {
                            enabled,
                            total_rules,
                            active_rules,
                            last_run,
                            next_scheduled_run,
                            items_processed_today,
                            items_listed_today,
                            success_rate_percent,
                            rules,
                        },
                    ),
                    None => None,
                },
                None => None,
            },
            _ => None,
        },
        _ => None,
    }
}

/// Decodes the listing engine's state.
pub fn parse_auto_listing_status(v: &JsonValue) -> (r: Option<AutoListingStatus>)
    ensures
        match r {
            Some(x) => decode_auto_listing_status(v@) == Some(x@),
            None => decode_auto_listing_status(v@) is None,
        },
{
    let fields = match v {
        JsonValue::Object(fs) => fs,
        _ => {
            return None;
        },
    };
    let enabled = match get_bool(fields, "enabled") {
        Some(x) => x,
        None => {
            return None;
        },
    };
    let total_rules = match get_i32(fields, "total_rules") {
        Some(x) => x,
        None => {
            return None;
        },
    };
    let active_rules = match get_i32(fields, "active_rules") {
        Some(x) => x,
        None => {
            return None;
        },
    };
    let last_run = match get_opt_str(fields, "last_run") {
        Some(x) => x,
        None => {
            return None;
        },
    };
    let next_scheduled_run = match get_opt_str(fields, "next_scheduled_run") {
        Some(x) => x,
        None => {
            return None;
        },
    };
    let items_processed_today = match get_i32(fields, "items_processed_today") {
        Some(x) => x,
        None => {
            return None;
        },
    };
    let items_listed_today = match get_i32(fields, "items_listed_today") {
        Some(x) => x,
        None => {
            return None;
        },
    };
    let success_rate_percent = match get_num(fields, "success_rate_percent") {
        Some(x) => x,
        None => {
            return None;
        },
    };
    let rule_values = match get_field(fields, "rules") {
        Some(JsonValue::Array(els)) => els,
        _ => {
            return None;
        },
    };
    proof {
        lemma_array_view(rule_values@);
    }
    let ghost av = array_view(rule_values@);
    let ghost f = |e: JsonV| decode_listing_rule(e);
    let n = rule_values.len();
    let mut rules: Vec<ListingRule> = Vec::new();
    let mut i: usize = 0;
    while i < n
        invariant
            i <= n,
            n == rule_values@.len(),
            av == array_view(rule_values@),
            f == (|e: JsonV| decode_listing_rule(e)),
            v@ == JsonV::Object(fields_view(fields@)),
            array_field(fields_view(fields@), "rules"@) == Some(av),
            av.len() == n,
            forall|j: int| #![trigger av[j]] 0 <= j < n ==> av[j] == rule_values@[j]@,
            rules@.len() == i,
            forall|j: int| #![trigger av[j]] 0 <= j < i ==> f(av[j]) == Some(rules@[j]@),
        decreases n - i,
    {
        match parse_listing_rule(&rule_values[i]) {
            Some(x) => {
                rules.push(x);
            },
            None => {
                proof {
                    assert(f(av[i as int]) is None);
                    lemma_decode_elements(av, f);
                    assert(decode_rule_elements(av) is None);
                }
                return None;
            },
        }
        i += 1;
    }
    proof {
        lemma_decode_elements(av, f);
        assert(decode_elements(av, f) matches Some(xs) && xs =~= rules@.map_values(
            |b: ListingRule| b@,
        ));
    }
    Some(
        AutoListingStatus {
            enabled,
            total_rules,
            active_rules,
            last_run,
            next_scheduled_run,
            items_processed_today,
            items_listed_today,
            success_rate_percent,
            rules,
        },
    )
}

/// The acknowledgement of a listing rule toggle.
#[derive(Debug, Clone, PartialEq, Eq)]
pub struct RuleToggleResponse {
    pub success: bool,
    pub rule_name: String,
    pub previous_state: bool,
    pub new_state: bool,
    pub message: String,
    pub updated_at: String,
}

/// The model of a toggle acknowledgement.
pub ghost struct RuleToggleResponseV {
    pub success: bool,
    pub rule_name: Seq<char>,
    pub previous_state: bool,
    pub new_state: bool,
    pub message: Seq<char>,
    pub updated_at: Seq<char>,
}

impl View for RuleToggleResponse {
    type V = RuleToggleResponseV;

    open spec fn view(&self) -> RuleToggleResponseV {
        RuleToggleResponseV {
            success: self.success,
            rule_name: self.rule_name@,
            previous_state: self.previous_state,
            new_state: self.new_state,
            message: self.message@,
            updated_at: self.updated_at@,
        }
    }
}

/// Which documents decode as a toggle acknowledgement, and to what.
pub open spec fn decode_rule_toggle_response(v: JsonV) -> Option<RuleToggleResponseV> {
    match v {
        JsonV::Object(fs) => match (
            bool_field(fs, "success"@),
            str_field(fs, "rule_name"@),
            bool_field(fs, "previous_state"@),
            bool_field(fs, "new_state"@),
            str_field(fs, "message"@),
            str_field(fs, "updated_at"@),
        ) {
            (Some(success), Some(rule_name), Some(previous_state), Some(new_state), Some(
                message,
            ), Some(updated_at)) => Some(
                RuleToggleResponseV {
                    success,
                    rule_name,
                    previous_state,
                    new_state,
                    message,
                    updated_at,
                },
            ),
            _ => None,
        },
        _ => None,
    }
}

/// Decodes a toggle acknowledgement.
pub fn parse_rule_toggle_response(v: &JsonValue) -> (r: Option<RuleToggleResponse>)
    ensures
        match r {
            Some(x) => decode_rule_toggle_response(v@) == Some(x@),
            None => decode_rule_toggle_response(v@) is None,
        },
{
    let fields = match v {
        JsonValue::Object(fs) => fs,
        _ => {
            return None;
        },
    };
    let success = match get_bool(fields, "success") {
        Some(x) => x,
        None => {
            return None;
        },
    };
    let rule_name = match get_str(fields, "rule_name") {
        Some(x) => x,
        None => {
            return None;
        },
    };
    let previous_state = match get_bool(fields, "previous_state") {
        Some(x) => x,
        None => {
            return None;
        },
    };
    let new_state = match get_bool(fields, "new_state") {
        Some(x) => x,
        None => {
            return None;
        },
    };
    let message = match get_str(fields, "message") {
        Some(x) => x,
        None => {
            return None;
        },
    };
    let updated_at = match get_str(fields, "updated_at") {
        Some(x) => x,
        None => {
            return None;
        },
    };
    Some(
        RuleToggleResponse { success, rule_name, previous_state, new_state, message, updated_at },
    )
}

/// Encodes a toggle acknowledgement; decoding the result gives it back.
pub fn encode_rule_toggle_response(x: &RuleToggleResponse) -> (v: JsonValue)
    ensures
        decode_rule_toggle_response(v@) == Some(x@),
{
    let mut fields: Vec<(String, JsonValue)> = Vec::new();
    push_field(&mut fields, "success", JsonValue::Bool(x.success));
    push_field(&mut fields, "rule_name", JsonValue::Text(x.rule_name.clone()));
    push_field(&mut fields, "previous_state", JsonValue::Bool(x.previous_state));
    push_field(&mut fields, "new_state", JsonValue::Bool(x.new_state));
    push_field(&mut fields, "message", JsonValue::Text(x.message.clone()));
    push_field(&mut fields, "updated_at", JsonValue::Text(x.updated_at.clone()));
    let ghost fv = fields_view(fields@);
    let v = JsonValue::Object(fields);
    proof {
        reveal_strlit("success");
        reveal_strlit("rule_name");
        reveal_strlit("previous_state");
        reveal_strlit("new_state");
        reveal_strlit("message");
        reveal_strlit("updated_at");
        assert(fv =~= seq![
            ("success"@, JsonV::Bool(x.success)),
            ("rule_name"@, JsonV::Text(x.rule_name@)),
            ("previous_state"@, JsonV::Bool(x.previous_state)),
            ("new_state"@, JsonV::Bool(x.new_state)),
            ("message"@, JsonV::Text(x.message@)),
            ("updated_at"@, JsonV::Text(x.updated_at@)),
        ]);
        assert(fv[0].0 == "success"@);
        assert(fv[1].0 == "rule_name"@);
        assert(fv[2].0 == "previous_state"@);
        assert(fv[3].0 == "new_state"@);
        assert(fv[4].0 == "message"@);
        assert(fv[5].0 == "updated_at"@);
        assert("success"@[0] != "message"@[0]);
        assert("success"@ != "message"@);
        assert("rule_name"@[0] != "new_state"@[0]);
        assert("rule_name"@ != "new_state"@);
        lemma_lookup_found(fv, 0, "success"@);
        lemma_lookup_found(fv, 1, "rule_name"@);
        lemma_lookup_found(fv, 2, "previous_state"@);
        lemma_lookup_found(fv, 3, "new_state"@);
        lemma_lookup_found(fv, 4, "message"@);
        lemma_lookup_found(fv, 5, "updated_at"@);
        assert(decode_rule_toggle_response(v@) == Some(x@));
    }
    v
}

/// One risk level's definition.
#[derive(Debug, Clone, PartialEq, Eq)]
pub struct RiskLevelDefinition {
    pub name: String,
    pub description: String,
    pub risk_score_range: String,
    pub age_threshold_days: i32,
    pub color: String,
    pub icon: String,
    pub action_priority: String,
}

/// The model of one risk level's definition.
pub ghost struct RiskLevelDefinitionV {
    pub name: Seq<char>,
    pub description: Seq<char>,
    pub risk_score_range: Seq<char>,
    pub age_threshold_days: i32,
    pub color: Seq<char>,
    pub icon: Seq<char>,
    pub action_priority: Seq<char>,
}

impl View for RiskLevelDefinition {
    type V = RiskLevelDefinitionV;

    open spec fn view(&self) -> RiskLevelDefinitionV {
        RiskLevelDefinitionV {
            name: self.name@,
            description: self.description@,
            risk_score_range: self.risk_score_range@,
            age_threshold_days: self.age_threshold_days,
            color: self.color@,
            icon: self.icon@,
            action_priority: self.action_priority@,
        }
    }
}

/// Which documents decode as one risk level's definition, and to what.
pub open spec fn decode_risk_level_definition(v: JsonV) -> Option<RiskLevelDefinitionV> {
    match v {
        JsonV::Object(fs) => match (
            str_field(fs, "name"@),
            str_field(fs, "description"@),
            str_field(fs, "risk_score_range"@),
            i32_field(fs, "age_threshold_days"@),
            str_field(fs, "color"@),
            str_field(fs, "icon"@),
            str_field(fs, "action_priority"@),
        ) {
            (
                Some(name),
                Some(description),
                Some(risk_score_range),
                Some(age_threshold_days),
                Some(color),
                Some(icon),
                Some(action_priority),
            ) => Some(
                RiskLevelDefinitionV {
                    name,
                    description,
                    risk_score_range,
                    age_threshold_days,
                    color,
                    icon,
                    action_priority,
                },
            ),
            _ => None,
        },
        _ => None,
    }
}

/// Decodes one risk level's definition.
pub fn parse_risk_level_definition(v: &JsonValue) -> (r: Option<RiskLevelDefinition>)
    ensures
        match r {
            Some(x) => decode_risk_level_definition(v@) == Some(x@),
            None => decode_risk_level_definition(v@) is None,
        },
{
    let fields = match v {
        JsonValue::Object(fs) => fs,
        _ => {
            return None;
        },
    };
    let name = match get_str(fields, "name") {
        Some(x) => x,
        None => {
            return None;
        },
    };
    let description = match get_str(fields, "description") {
        Some(x) => x,
        None => {
            return None;
        },
    };
    let risk_score_range = match get_str(fields, "risk_score_range") {
        Some(x) => x,
        None => {
            return None;
        },
    };
    let age_threshold_days = match get_i32(fields, "age_threshold_days") {
        Some(x) => x,
        None => {
            return None;
        },
    };
    let color = match get_str(fields, "color") {
        Some(x) => x,
        None => {
            return None;
        },
    };
    let icon = match get_str(fields, "icon") {
        Some(x) => x,
        None => {
            return None;
        },
    };
    let action_priority = match get_str(fields, "action_priority") {
        Some(x) => x,
        None => {
            return None;
        },
    };
    Some(
        RiskLevelDefinition {
            name,
            description,
            risk_score_range,
            age_threshold_days,
            color,
            icon,
            action_priority,
        },
    )
}

/// Encodes one risk level's definition; decoding the result gives it back.
pub fn encode_risk_level_definition(x: &RiskLevelDefinition) -> (v: JsonValue)
    ensures
        decode_risk_level_definition(v@) == Some(x@),
{
    let mut fields: Vec<(String, JsonValue)> = Vec::new();
    push_field(&mut fields, "name", JsonValue::Text(x.name.clone()));
    push_field(&mut fields, "description", JsonValue::Text(x.description.clone()));
    push_field(&mut fields, "risk_score_range", JsonValue::Text(x.risk_score_range.clone()));
    push_field(&mut fields, "age_threshold_days", JsonValue::Number(JsonNumber::Signed(
        x.age_threshold_days as i64,
    )));
    push_field(&mut fields, "color", JsonValue::Text(x.color.clone()));
    push_field(&mut fields, "icon", JsonValue::Text(x.icon.clone()));
    push_field(&mut fields, "action_priority", JsonValue::Text(x.action_priority.clone()));
    let ghost fv = fields_view(fields@);
    let v = JsonValue::Object(fields);
    proof {
        reveal_strlit("name");
        reveal_strlit("description");
        reveal_strlit("risk_score_range");
        reveal_strlit("age_threshold_days");
        reveal_strlit("color");
        reveal_strlit("icon");
        reveal_strlit("action_priority");
        assert(fv =~= seq![
            ("name"@, JsonV::Text(x.name@)),
            ("description"@, JsonV::Text(x.description@)),
            ("risk_score_range"@, JsonV::Text(x.risk_score_range@)),
            ("age_threshold_days"@, JsonV::Number(JsonNumber::Signed(x.age_threshold_days as i64))),
            ("color"@, JsonV::Text(x.color@)),
            ("icon"@, JsonV::Text(x.icon@)),
            ("action_priority"@, JsonV::Text(x.action_priority@)),
        ]);
        assert(fv[0].0 == "name"@);
        assert(fv[1].0 == "description"@);
        assert(fv[2].0 == "risk_score_range"@);
        assert(fv[3].0 == "age_threshold_days"@);
        assert(fv[4].0 == "color"@);
        assert(fv[5].0 == "icon"@);
        assert(fv[6].0 == "action_priority"@);
        assert("name"@[0] != "icon"@[0]);
        assert("name"@ != "icon"@);
        lemma_lookup_found(fv, 0, "name"@);
        lemma_lookup_found(fv, 1, "description"@);
        lemma_lookup_found(fv, 2, "risk_score_range"@);
        lemma_lookup_found(fv, 3, "age_threshold_days"@);
        lemma_lookup_found(fv, 4, "color"@);
        lemma_lookup_found(fv, 5, "icon"@);
        lemma_lookup_found(fv, 6, "action_priority"@);
        assert(decode_risk_level_definition(v@) == Some(x@));
    }
    v
}

/// The market analysis of one product.
#[derive(Debug, Clone, PartialEq)]
pub struct MarketAnalysis {
    pub product_id: String,
    pub current_market_price: Option<JsonNumber>,
    pub price_trend: String,
    pub market_position: String,
    pub competitor_count: i32,
    pub demand_score: JsonNumber,
    pub supply_score: JsonNumber,
    pub recommended_action: String,
}

/// The model of one product's market analysis.
pub ghost struct MarketAnalysisV {
    pub product_id: Seq<char>,
    pub current_market_price: Option<JsonNumber>,
    pub price_trend: Seq<char>,
    pub market_position: Seq<char>,
    pub competitor_count: i32,
    pub demand_score: JsonNumber,
    pub supply_score: JsonNumber,
    pub recommended_action: Seq<char>,
}

impl View for MarketAnalysis {
    type V = MarketAnalysisV;

    open spec fn view(&self) -> MarketAnalysisV {
        MarketAnalysisV {
            product_id: self.product_id@,
            current_market_price: self.current_market_price,
            price_trend: self.price_trend@,
            market_position: self.market_position@,
            competitor_count: self.competitor_count,
            demand_score: self.demand_score,
            supply_score: self.supply_score,
            recommended_action: self.recommended_action@,
        }
    }
}

/// Which documents decode as a market analysis, and to what.
pub open spec fn decode_market_analysis(v: JsonV) -> Option<MarketAnalysisV> {
    match v {
        JsonV::Object(fs) => match (
            str_field(fs, "product_id"@),
            opt_num_field(fs, "current_market_price"@),
            str_field(fs, "price_trend"@),
            str_field(fs, "market_position"@),
            i32_field(fs, "competitor_count"@),
            num_field(fs, "demand_score"@),
            num_field(fs, "supply_score"@),
            str_field(fs, "recommended_action"@),
        ) {
            (
                Some(product_id),
                Some(current_market_price),
                Some(price_trend),
                Some(market_position),
                Some(competitor_count),
                Some(demand_score),
                Some(supply_score),
                Some(recommended_action),
            ) => Some(
                MarketAnalysisV {
                    product_id,
                    current_market_price,
                    price_trend,
                    market_position,
                    competitor_count,
                    demand_score,
                    supply_score,
                    recommended_action,
                },
            ),
            _ => None,
        },
        _ => None,
    }
}

/// Decodes a market analysis.
pub fn parse_market_analysis(v: &JsonValue) -> (r: Option<MarketAnalysis>)
    ensures
        match r {
            Some(x) => decode_market_analysis(v@) == Some(x@),
            None => decode_market_analysis(v@) is None,
        },
{
    let fields = match v {
        JsonValue::Object(fs) => fs,
        _ => {
            return None;
        },
    };
    let product_id = match get_str(fields, "product_id") {
        Some(x) => x,
        None => {
            return None;
        },
    };
    let current_market_price = match get_opt_num(fields, "current_market_price") {
        Some(x) => x,
        None => {
            return None;
        },
    };
    let price_trend = match get_str(fields, "price_trend") {
        Some(x) => x,
        None => {
            return None;
        },
    };
    let market_position = match get_str(fields, "market_position") {
        Some(x) => x,
        None => {
            return None;
        },
    };
    let competitor_count = match get_i32(fields, "competitor_count") {
        Some(x) => x,
        None => {
            return None;
        },
    };
    let demand_score = match get_num(fields, "demand_score") {
        Some(x) => x,
        None => {
            return None;
        },
    };
    let supply_score = match get_num(fields, "supply_score") {
        Some(x) => x,
        None => {
            return None;
        },
    };
    let recommended_action = match get_str(fields, "recommended_action") {
        Some(x) => x,
        None => {
            return None;
        },
    };
    Some(
        MarketAnalysis {
            product_id,
            current_market_price,
            price_trend,
            market_position,
            competitor_count,
            demand_score,
            supply_score,
            recommended_action,
        },
    )
}

/// The smart market trend report.
#[derive(Debug, Clone, PartialEq)]
pub struct MarketTrendData {
    pub current_condition: String,
    pub trend_strength: JsonNumber,
    pub volatility_level: String,
    pub price_momentum: String,
    pub recommended_action: String,
    pub confidence_score: JsonNumber,
    pub key_insights: Vec<String>,
}

/// The model of the smart market trend report.
pub ghost struct MarketTrendDataV {
    pub current_condition: Seq<char>,
    pub trend_strength: JsonNumber,
    pub volatility_level: Seq<char>,
    pub price_momentum: Seq<char>,
    pub recommended_action: Seq<char>,
    pub confidence_score: JsonNumber,
    pub key_insights: Seq<Seq<char>>,
}

impl View for MarketTrendData {
    type V = MarketTrendDataV;

    open spec fn view(&self) -> MarketTrendDataV {
        MarketTrendDataV {
            current_condition: self.current_condition@,
            trend_strength: self.trend_strength,
            volatility_level: self.volatility_level@,
            price_momentum: self.price_momentum@,
            recommended_action: self.recommended_action@,
            confidence_score: self.confidence_score,
            key_insights: self.key_insights@.map_values(|s: String| s@),
        }
    }
}

/// Which documents decode as the smart market trend report, and to what.
pub open spec fn decode_market_trend_data(v: JsonV) -> Option<MarketTrendDataV> {
    match v {
        JsonV::Object(fs) => match (
            str_field(fs, "current_condition"@),
            num_field(fs, "trend_strength"@),
            str_field(fs, "volatility_level"@),
            str_field(fs, "price_momentum"@),
            str_field(fs, "recommended_action"@),
            num_field(fs, "confidence_score"@),
            str_array_field(fs, "key_insights"@),
        ) {
            (
                Some(current_condition),
                Some(trend_strength),
                Some(volatility_level),
                Some(price_momentum),
                Some(recommended_action),
                Some(confidence_score),
                Some(key_insights),
            ) => Some(
                MarketTrendDataV {
                    current_condition,
                    trend_strength,
                    volatility_level,
                    price_momentum,
                    recommended_action,
                    confidence_score,
                    key_insights,
                },
            ),
            _ => None,
        },
        _ => None,
    }
}

/// Decodes the smart market trend report.
pub fn parse_market_trend_data(v: &JsonValue) -> (r: Option<MarketTrendData>)
    ensures
        match r {
            Some(x) => decode_market_trend_data(v@) == Some(x@),
            None => decode_market_trend_data(v@) is None,
        },
{
    let fields = match v {
        JsonValue::Object(fs) => fs,
        _ => {
            return None;
        },
    };
    let current_condition = match get_str(fields, "current_condition") {
        Some(x) => x,
        None => {
            return None;
        },
    };
    let trend_strength = match get_num(fields, "trend_strength") {
        Some(x) => x,
        None => {
            return None;
        },
    };
    let volatility_level = match get_str(fields, "volatility_level") {
        Some(x) => x,
        None => {
            return None;
        },
    };
    let price_momentum = match get_str(fields, "price_momentum") {
        Some(x) => x,
        None => {
            return None;
        },
    };
    let recommended_action = match get_str(fields, "recommended_action") {
        Some(x) => x,
        None => {
            return None;
        },
    };
    let confidence_score = match get_num(fields, "confidence_score") {
        Some(x) => x,
        None => {
            return None;
        },
    };
    let key_insights = match get_str_array(fields, "key_insights") {
        Some(x) => x,
        None => {
            return None;
        },
    };
    Some(
        MarketTrendData {
            current_condition,
            trend_strength,
            volatility_level,
            price_momentum,
            recommended_action,
            confidence_score,
            key_insights,
        },
    )
}

/// A pricing recommendation for one product.
#[derive(Debug, Clone, PartialEq)]
pub struct PricingRecommendation {
    pub product_id: String,
    pub suggested_price: JsonNumber,
    pub strategy_used: String,
    pub confidence_score: JsonNumber,
    pub margin_percent: JsonNumber,
    pub markup_percent: JsonNumber,
    pub reasoning: Vec<String>,
    pub market_position: Option<String>,
    pub price_range: Option<Vec<(String, JsonNumber)>>,
}

/// The model of a pricing recommendation.
pub ghost struct PricingRecommendationV {
    pub product_id: Seq<char>,
    pub suggested_price: JsonNumber,
    pub strategy_used: Seq<char>,
    pub confidence_score: JsonNumber,
    pub margin_percent: JsonNumber,
    pub markup_percent: JsonNumber,
    pub reasoning: Seq<Seq<char>>,
    pub market_position: Option<Seq<char>>,
    pub price_range: Option<Seq<(Seq<char>, JsonNumber)>>,
}

impl View for PricingRecommendation {
    type V = PricingRecommendationV;

    open spec fn view(&self) -> PricingRecommendationV {
        PricingRecommendationV {
            product_id: self.product_id@,
            suggested_price: self.suggested_price,
            strategy_used: self.strategy_used@,
            confidence_score: self.confidence_score,
            margin_percent: self.margin_percent,
            markup_percent: self.markup_percent,
            reasoning: self.reasoning@.map_values(|s: String| s@),
            market_position: opt_string_view(self.market_position),
            price_range: match self.price_range {
                Some(ps) => Some(ps@.map_values(|p: (String, JsonNumber)| (p.0@, p.1))),
                None => None,
            },
        }
    }
}

/// Which documents decode as a pricing recommendation, and to what.
pub open spec fn decode_pricing_recommendation(v: JsonV) -> Option<PricingRecommendationV> {
    match v {
        JsonV::Object(fs) => match (
            str_field(fs, "product_id"@),
            num_field(fs, "suggested_price"@),
            str_field(fs, "strategy_used"@),
            num_field(fs, "confidence_score"@),
            num_field(fs, "margin_percent"@),
            num_field(fs, "markup_percent"@),
            str_array_field(fs, "reasoning"@),
            opt_str_field(fs, "market_position"@),
        ) {
            (
                Some(product_id),
                Some(suggested_price),
                Some(strategy_used),
                Some(confidence_score),
                Some(margin_percent),
                Some(markup_percent),
                Some(reasoning),
                Some(market_position),
            ) => match opt_num_pairs_field(fs, "price_range"@) {
                Some(price_range) => Some(
                    PricingRecommendationV {
                        product_id,
                        suggested_price,
                        strategy_used,
                        confidence_score,
                        margin_percent,
                        markup_percent,
                        reasoning,
                        market_position,
                        price_range,
                    },
                ),
                None => None,
            },
            _ => None,
        },
        _ => None,
    }
}

/// Decodes a pricing recommendation.
pub fn parse_pricing_recommendation(v: &JsonValue) -> (r: Option<PricingRecommendation>)
    ensures
        match r {
            Some(x) => decode_pricing_recommendation(v@) == Some(x@),
            None => decode_pricing_recommendation(v@) is None,
        },
{
    let fields = match v {
        JsonValue::Object(fs) => fs,
        _ => {
            return None;
        },
    };
    let product_id = match get_str(fields, "product_id") {
        Some(x) => x,
        None => {
            return None;
        },
    };
    let suggested_price = match get_num(fields, "suggested_price") {
        Some(x) => x,
        None => {
            return None;
        },
    };
    let strategy_used = match get_str(fields, "strategy_used") {
        Some(x) => x,
        None => {
            return None;
        },
    };
    let confidence_score = match get_num(fields, "confidence_score") {
        Some(x) => x,
        None => {
            return None;
        },
    };
    let margin_percent = match get_num(fields, "margin_percent") {
        Some(x) => x,
        None => {
            return None;
        },
    };
    let markup_percent = match get_num(fields, "markup_percent") {
        Some(x) => x,
        None => {
            return None;
        },
    };
    let reasoning = match get_str_array(fields, "reasoning") {
        Some(x) => x,
        None => {
            return None;
        },
    };
    let market_position = match get_opt_str(fields, "market_position") {
        Some(x) => x,
        None => {
            return None;
        },
    };
    let price_range = match get_opt_num_pairs(fields, "price_range") {
        Some(x) => x,
        None => {
            return None;
        },
    };
    Some(
        PricingRecommendation {
            product_id,
            suggested_price,
            strategy_used,
            confidence_score,
            margin_percent,
            markup_percent,
            reasoning,
            market_position,
            price_range,
        },
    )
}

/// A pricing recommendation request.
#[derive(Debug, Clone, PartialEq)]
pub struct PricingRequest {
    pub product_id: String,
    pub inventory_id: Option<String>,
    pub strategy: Option<String>,
    pub target_margin: Option<JsonNumber>,
    pub condition: String,
    pub size: Option<String>,
}

/// The model of a pricing recommendation request.
pub ghost struct PricingRequestV {
    pub product_id: Seq<char>,
    pub inventory_id: Option<Seq<char>>,
    pub strategy: Option<Seq<char>>,
    pub target_margin: Option<JsonNumber>,
    pub condition: Seq<char>,
    pub size: Option<Seq<char>>,
}

impl View for PricingRequest {
    type V = PricingRequestV;

    open spec fn view(&self) -> PricingRequestV {
        PricingRequestV {
            product_id: self.product_id@,
            inventory_id: opt_string_view(self.inventory_id),
            strategy: opt_string_view(self.strategy),
            target_margin: self.target_margin,
            condition: self.condition@,
            size: opt_string_view(self.size),
        }
    }
}

/// The body of a pricing recommendation call; absent options travel as null.
pub fn encode_pricing_request(x: &PricingRequest) -> (v: JsonValue)
    ensures
        v@ == JsonV::Object(
            seq![
                ("product_id"@, JsonV::Text(x.product_id@)),
                ("inventory_id"@, opt_text_model(opt_string_view(x.inventory_id))),
                ("strategy"@, opt_text_model(opt_string_view(x.strategy))),
                ("target_margin"@, crate::json::opt_number_model(x.target_margin)),
                ("condition"@, JsonV::Text(x.condition@)),
                ("size"@, opt_text_model(opt_string_view(x.size))),
            ],
        ),
{
    let mut fields: Vec<(String, JsonValue)> = Vec::new();
    push_field(&mut fields, "product_id", JsonValue::Text(x.product_id.clone()));
    push_field(&mut fields, "inventory_id", opt_text_value(&x.inventory_id));
    push_field(&mut fields, "strategy", opt_text_value(&x.strategy));
    push_field(&mut fields, "target_margin", crate::json::opt_number_value(&x.target_margin));
    push_field(&mut fields, "condition", JsonValue::Text(x.condition.clone()));
    push_field(&mut fields, "size", opt_text_value(&x.size));
    let ghost fv = fields_view(fields@);
    let v = JsonValue::Object(fields);
    proof {
        assert(fv =~= seq![
            ("product_id"@, JsonV::Text(x.product_id@)),
            ("inventory_id"@, opt_text_model(opt_string_view(x.inventory_id))),
            ("strategy"@, opt_text_model(opt_string_view(x.strategy))),
            ("target_margin"@, crate::json::opt_number_model(x.target_margin)),
            ("condition"@, JsonV::Text(x.condition@)),
            ("size"@, opt_text_model(opt_string_view(x.size))),
        ]);
    }
    v
}

/// A sales forecast request.
#[derive(Debug, Clone, PartialEq)]
pub struct ForecastRequest {
    pub product_id: Option<String>,
    pub brand_id: Option<String>,
    pub category_id: Option<String>,
    pub horizon_days: i32,
    pub model: Option<String>,
    pub confidence_level: JsonNumber,
}

/// The model of a forecast request.
pub ghost struct ForecastRequestV {
    pub product_id: Option<Seq<char>>,
    pub brand_id: Option<Seq<char>>,
    pub category_id: Option<Seq<char>>,
    pub horizon_days: i32,
    pub model: Option<Seq<char>>,
    pub confidence_level: JsonNumber,
}

impl View for ForecastRequest {
    type V = ForecastRequestV;

    open spec fn view(&self) -> ForecastRequestV {
        ForecastRequestV {
            product_id: opt_string_view(self.product_id),
            brand_id: opt_string_view(self.brand_id),
            category_id: opt_string_view(self.category_id),
            horizon_days: self.horizon_days,
            model: opt_string_view(self.model),
            confidence_level: self.confidence_level,
        }
    }
}

/// The body of a sales forecast call; absent options travel as null.
pub fn encode_forecast_request(x: &ForecastRequest) -> (v: JsonValue)
    ensures
        v@ == JsonV::Object(
            seq![
                ("product_id"@, opt_text_model(opt_string_view(x.product_id))),
                ("brand_id"@, opt_text_model(opt_string_view(x.brand_id))),
                ("category_id"@, opt_text_model(opt_string_view(x.category_id))),
                ("horizon_days"@, JsonV::Number(JsonNumber::Signed(x.horizon_days as i64))),
                ("model"@, opt_text_model(opt_string_view(x.model))),
                ("confidence_level"@, JsonV::Number(x.confidence_level)),
            ],
        ),
{
    let mut fields: Vec<(String, JsonValue)> = Vec::new();
    push_field(&mut fields, "product_id", opt_text_value(&x.product_id));
    push_field(&mut fields, "brand_id", opt_text_value(&x.brand_id));
    push_field(&mut fields, "category_id", opt_text_value(&x.category_id));
    push_field(&mut fields, "horizon_days", JsonValue::Number(JsonNumber::Signed(
        x.horizon_days as i64,
    )));
    push_field(&mut fields, "model", opt_text_value(&x.model));
    push_field(&mut fields, "confidence_level", JsonValue::Number(x.confidence_level));
    let ghost fv = fields_view(fields@);
    let v = JsonValue::Object(fields);
    proof {
        assert(fv =~= seq![
            ("product_id"@, opt_text_model(opt_string_view(x.product_id))),
            ("brand_id"@, opt_text_model(opt_string_view(x.brand_id))),
            ("category_id"@, opt_text_model(opt_string_view(x.category_id))),
            ("horizon_days"@, JsonV::Number(JsonNumber::Signed(x.horizon_days as i64))),
            ("model"@, opt_text_model(opt_string_view(x.model))),
            ("confidence_level"@, JsonV::Number(x.confidence_level)),
        ]);
    }
    v
}

/// A sales forecast for one target.
#[derive(Debug, Clone, PartialEq)]
pub struct SalesForecast {
    pub target_id: String,
    pub target_type: String,
    pub forecast_date: String,
    pub horizon_days: i32,
    pub predicted_sales: JsonNumber,
    pub predicted_revenue: JsonNumber,
    pub confidence_interval_lower: JsonNumber,
    pub confidence_interval_upper: JsonNumber,
    pub model_used: String,
    pub accuracy_score: Option<JsonNumber>,
    pub trend: String,
    pub seasonality_factor: Option<JsonNumber>,
}

/// The model of a sales forecast.
pub ghost struct SalesForecastV {
    pub target_id: Seq<char>,
    pub target_type: Seq<char>,
    pub forecast_date: Seq<char>,
    pub horizon_days: i32,
    pub predicted_sales: JsonNumber,
    pub predicted_revenue: JsonNumber,
    pub confidence_interval_lower: JsonNumber,
    pub confidence_interval_upper: JsonNumber,
    pub model_used: Seq<char>,
    pub accuracy_score: Option<JsonNumber>,
    pub trend: Seq<char>,
    pub seasonality_factor: Option<JsonNumber>,
}

impl View for SalesForecast {
    type V = SalesForecastV;

    open spec fn view(&self) -> SalesForecastV {
        SalesForecastV {
            target_id: self.target_id@,
            target_type: self.target_type@,
            forecast_date: self.forecast_date@,
            horizon_days: self.horizon_days,
            predicted_sales: self.predicted_sales,
            predicted_revenue: self.predicted_revenue,
            confidence_interval_lower: self.confidence_interval_lower,
            confidence_interval_upper: self.confidence_interval_upper,
            model_used: self.model_used@,
            accuracy_score: self.accuracy_score,
            trend: self.trend@,
            seasonality_factor: self.seasonality_factor,
        }
    }
}

/// Which documents decode as a sales forecast, and to what.
pub open spec fn decode_sales_forecast(v: JsonV) -> Option<SalesForecastV> {
    match v {
        JsonV::Object(fs) => match (
            str_field(fs, "target_id"@),
            str_field(fs, "target_type"@),
            str_field(fs, "forecast_date"@),
            i32_field(fs, "horizon_days"@),
            num_field(fs, "predicted_sales"@),
            num_field(fs, "predicted_revenue"@),
        ) {
            (Some(target_id), Some(target_type), Some(forecast_date), Some(horizon_days), Some(
                predicted_sales,
            ), Some(predicted_revenue)) => match (
                num_field(fs, "confidence_interval_lower"@),
                num_field(fs, "confidence_interval_upper"@),
                str_field(fs, "model_used"@),
                opt_num_field(fs, "accuracy_score"@),
                str_field(fs, "trend"@),
                opt_num_field(fs, "seasonality_factor"@),
            ) {
                (
                    Some(confidence_interval_lower),
                    Some(confidence_interval_upper),
                    Some(model_used),
                    Some(accuracy_score),
                    Some(trend),
                    Some(seasonality_factor),
                ) => Some(
                    SalesForecastV {
                        target_id,
                        target_type,
                        forecast_date,
                        horizon_days,
                        predicted_sales,
                        predicted_revenue,
                        confidence_interval_lower,
                        confidence_interval_upper,
                        model_used,
                        accuracy_score,
                        trend,
                        seasonality_factor,
                    },
                ),
                _ => None,
            },
            _ => None,
        },
        _ => None,
    }
}

/// Decodes a sales forecast.
pub fn parse_sales_forecast(v: &JsonValue) -> (r: Option<SalesForecast>)
    ensures
        match r {
            Some(x) => decode_sales_forecast(v@) == Some(x@),
            None => decode_sales_forecast(v@) is None,
        },
{
    let fields = match v {
        JsonValue::Object(fs) => fs,
        _ => {
            return None;
        },
    };
    let target_id = match get_str(fields, "target_id") {
        Some(x) => x,
        None => {
            return None;
        },
    };
    let target_type = match get_str(fields, "target_type") {
        Some(x) => x,
        None => {
            return None;
        },
    };
    let forecast_date = match get_str(fields, "forecast_date") {
        Some(x) => x,
        None => {
            return None;
        },
    };
    let horizon_days = match get_i32(fields, "horizon_days") {
        Some(x) => x,
        None => {
            return None;
        },
    };
    let predicted_sales = match get_num(fields, "predicted_sales") {
        Some(x) => x,
        None => {
            return None;
        },
    };
    let predicted_revenue = match get_num(fields, "predicted_revenue") {
        Some(x) => x,
        None => {
            return None;
        },
    };
    let confidence_interval_lower = match get_num(fields, "confidence_interval_lower") {
        Some(x) => x,
        None => {
            return None;
        },
    };
    let confidence_interval_upper = match get_num(fields, "confidence_interval_upper") {
        Some(x) => x,
        None => {
            return None;
        },
    };
    let model_used = match get_str(fields, "model_used") {
        Some(x) => x,
        None => {
            return None;
        },
    };
    let accuracy_score = match get_opt_num(fields, "accuracy_score") {
        Some(x) => x,
        None => {
            return None;
        },
    };
    let trend = match get_str(fields, "trend") {
        Some(x) => x,
        None => {
            return None;
        },
    };
    let seasonality_factor = match get_opt_num(fields, "seasonality_factor") {
        Some(x) => x,
        None => {
            return None;
        },
    };
    Some(
        SalesForecast {
            target_id,
            target_type,
            forecast_date,
            horizon_days,
            predicted_sales,
            predicted_revenue,
            confidence_interval_lower,
            confidence_interval_upper,
            model_used,
            accuracy_score,
            trend,
            seasonality_factor,
        },
    )
}

/// One item at risk of becoming dead stock.
#[derive(Debug, Clone, PartialEq)]
pub struct DeadStockItem {
    pub item_id: String,
    pub product_name: String,
    pub brand_name: String,
    pub size_value: String,
    pub purchase_price: JsonNumber,
    pub current_market_price: Option<JsonNumber>,
    pub days_in_inventory: i32,
    pub risk_score: JsonNumber,
    pub risk_level: String,
    pub locked_capital: JsonNumber,
    pub potential_loss: JsonNumber,
    pub recommended_actions: Vec<String>,
    pub market_trend: Option<String>,
    pub velocity_score: Option<JsonNumber>,
}

/// The model of one dead stock record.
pub ghost struct DeadStockItemV {
    pub item_id: Seq<char>,
    pub product_name: Seq<char>,
    pub brand_name: Seq<char>,
    pub size_value: Seq<char>,
    pub purchase_price: JsonNumber,
    pub current_market_price: Option<JsonNumber>,
    pub days_in_inventory: i32,
    pub risk_score: JsonNumber,
    pub risk_level: Seq<char>,
    pub locked_capital: JsonNumber,
    pub potential_loss: JsonNumber,
    pub recommended_actions: Seq<Seq<char>>,
    pub market_trend: Option<Seq<char>>,
    pub velocity_score: Option<JsonNumber>,
}

impl View for DeadStockItem {
    type V = DeadStockItemV;

    open spec fn view(&self) -> DeadStockItemV {
        DeadStockItemV {
            item_id: self.item_id@,
            product_name: self.product_name@,
            brand_name: self.brand_name@,
            size_value: self.size_value@,
            purchase_price: self.purchase_price,
            current_market_price: self.current_market_price,
            days_in_inventory: self.days_in_inventory,
            risk_score: self.risk_score,
            risk_level: self.risk_level@,
            locked_capital: self.locked_capital,
            potential_loss: self.potential_loss,
            recommended_actions: self.recommended_actions@.map_values(|s: String| s@),
            market_trend: opt_string_view(self.market_trend),
            velocity_score: self.velocity_score,
        }
    }
}

/// Which documents decode as one dead stock record, and to what.
pub open spec fn decode_dead_stock_item(v: JsonV) -> Option<DeadStockItemV> {
    match v {
        JsonV::Object(fs) => match (
            str_field(fs, "item_id"@),
            str_field(fs, "product_name"@),
            str_field(fs, "brand_name"@),
            str_field(fs, "size_value"@),
            num_field(fs, "purchase_price"@),
            opt_num_field(fs, "current_market_price"@),
            i32_field(fs, "days_in_inventory"@),
        ) {
            (
                Some(item_id),
                Some(product_name),
                Some(brand_name),
                Some(size_value),
                Some(purchase_price),
                Some(current_market_price),
                Some(days_in_inventory),
            ) => match (
                num_field(fs, "risk_score"@),
                str_field(fs, "risk_level"@),
                num_field(fs, "locked_capital"@),
                num_field(fs, "potential_loss"@),
                str_array_field(fs, "recommended_actions"@),
                opt_str_field(fs, "market_trend"@),
                opt_num_field(fs, "velocity_score"@),
            ) {
                (
                    Some(risk_score),
                    Some(risk_level),
                    Some(locked_capital),
                    Some(potential_loss),
                    Some(recommended_actions),
                    Some(market_trend),
                    Some(velocity_score),
                ) => Some(
                    DeadStockItemV {
                        item_id,
                        product_name,
                        brand_name,
                        size_value,
                        purchase_price,
                        current_market_price,
                        days_in_inventory,
                        risk_score,
                        risk_level,
                        locked_capital,
                        potential_loss,
                        recommended_actions,
                        market_trend,
                        velocity_score,
                    },
                ),
                _ => None,
            },
            _ => None,
        },
        _ => None,
    }
}

/// Decodes one dead stock record.
pub fn parse_dead_stock_item(v: &JsonValue) -> (r: Option<DeadStockItem>)
    ensures
        match r {
            Some(x) => decode_dead_stock_item(v@) == Some(x@),
            None => decode_dead_stock_item(v@) is None,
        },
{
    let fields = match v {
        JsonValue::Object(fs) => fs,
        _ => {
            return None;
        },
    };
    let item_id = match get_str(fields, "item_id") {
        Some(x) => x,
        None => {
            return None;
        },
    };
    let product_name = match get_str(fields, "product_name") {
        Some(x) => x,
        None => {
            return None;
        },
    };
    let brand_name = match get_str(fields, "brand_name") {
        Some(x) => x,
        None => {
            return None;
        },
    };
    let size_value = match get_str(fields, "size_value") {
        Some(x) => x,
        None => {
            return None;
        },
    };
    let purchase_price = match get_num(fields, "purchase_price") {
        Some(x) => x,
        None => {
            return None;
        },
    };
    let current_market_price = match get_opt_num(fields, "current_market_price") {
        Some(x) => x,
        None => {
            return None;
        },
    };
    let days_in_inventory = match get_i32(fields, "days_in_inventory") {
        Some(x) => x,
        None => {
            return None;
        },
    };
    let risk_score = match get_num(fields, "risk_score") {
        Some(x) => x,
        None => {
            return None;
        },
    };
    let risk_level = match get_str(fields, "risk_level") {
        Some(x) => x,
        None => {
            return None;
        },
    };
    let locked_capital = match get_num(fields, "locked_capital") {
        Some(x) => x,
        None => {
            return None;
        },
    };
    let potential_loss = match get_num(fields, "potential_loss") {
        Some(x) => x,
        None => {
            return None;
        },
    };
    let recommended_actions = match get_str_array(fields, "recommended_actions") {
        Some(x) => x,
        None => {
            return None;
        },
    };
    let market_trend = match get_opt_str(fields, "market_trend") {
        Some(x) => x,
        None => {
            return None;
        },
    };
    let velocity_score = match get_opt_num(fields, "velocity_score") {
        Some(x) => x,
        None => {
            return None;
        },
    };
    Some(
        DeadStockItem {
            item_id,
            product_name,
            brand_name,
            size_value,
            purchase_price,
            current_market_price,
            days_in_inventory,
            risk_score,
            risk_level,
            locked_capital,
            potential_loss,
            recommended_actions,
            market_trend,
            velocity_score,
        },
    )
}

} // verus!

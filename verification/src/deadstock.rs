//! Dead stock reporting: summaries, analyses, clearance executions, risk
//! level definitions and trends.

use vstd::prelude::*;

use crate::json::JsonNumber;
use crate::json::JsonV;
use crate::json::JsonValue;
use crate::json::array_field;
use crate::json::array_view;
use crate::json::bool_field;
use crate::json::decode_elements;
use crate::json::decode_pairs;
use crate::json::fields_view;
use crate::json::get_bool;
use crate::json::get_field;
use crate::json::get_i32;
use crate::json::get_i32_pairs;
use crate::json::get_num;
use crate::json::get_num_pairs;
use crate::json::get_obj;
use crate::json::get_opt_bool;
use crate::json::get_opt_num;
use crate::json::get_str;
use crate::json::get_str_array;
use crate::json::i32_field;
use crate::json::i32_pairs_field;
use crate::json::lemma_array_view;
use crate::json::lemma_decode_elements;
use crate::json::lemma_decode_pairs;
use crate::json::lemma_fields_view;
use crate::json::lookup_field;
use crate::json::num_field;
use crate::json::num_pairs_field;
use crate::json::obj_field;
use crate::json::opt_bool_field;
use crate::json::opt_num_field;
use crate::json::str_array_field;
use crate::json::str_field;
use crate::pricing::DeadStockItem;
use crate::pricing::DeadStockItemV;
use crate::pricing::RiskLevelDefinition;
use crate::pricing::RiskLevelDefinitionV;
use crate::pricing::decode_dead_stock_item;
use crate::pricing::decode_risk_level_definition;
use crate::pricing::parse_dead_stock_item;
use crate::pricing::parse_risk_level_definition;

verus! {

/// The financial weight of the stock at risk.
#[derive(Debug, Clone, PartialEq)]
pub struct DeadStockFinancialImpact {
    pub locked_capital: JsonNumber,
    pub potential_loss: JsonNumber,
    pub loss_percentage: JsonNumber,
}

/// The model of the financial weight.
pub ghost struct DeadStockFinancialImpactV {
    pub locked_capital: JsonNumber,
    pub potential_loss: JsonNumber,
    pub loss_percentage: JsonNumber,
}

impl View for DeadStockFinancialImpact {
    type V = DeadStockFinancialImpactV;

    open spec fn view(&self) -> DeadStockFinancialImpactV {
        DeadStockFinancialImpactV {
            locked_capital: self.locked_capital,
            potential_loss: self.potential_loss,
            loss_percentage: self.loss_percentage,
        }
    }
}

/// Which documents decode as the financial weight.
pub open spec fn decode_financial_impact(v: JsonV) -> Option<DeadStockFinancialImpactV> {
    match v {
        JsonV::Object(fs) => match (
            num_field(fs, "locked_capital"@),
            num_field(fs, "potential_loss"@),
            num_field(fs, "loss_percentage"@),
        ) {
            (Some(locked_capital), Some(potential_loss), Some(loss_percentage)) => Some(
                DeadStockFinancialImpactV { locked_capital, potential_loss, loss_percentage },
            ),
            _ => None,
        },
        _ => None,
    }
}

/// Decodes the financial weight.
pub fn parse_financial_impact(v: &JsonValue) -> (r: Option<DeadStockFinancialImpact>)
    ensures
        match r {
            Some(x) => decode_financial_impact(v@) == Some(x@),
            None => decode_financial_impact(v@) is None,
        },
{
    let fields = match v {
        JsonValue::Object(fs) => fs,
        _ => {
            return None;
        },
    };
    let locked_capital = match get_num(fields, "locked_capital") {
        Some(x) => x,
        None => {
            return None;
        },
    };
    let potential_loss = match get_num(fields, "potential_loss") {
        Some(x) => x,
        None => {
            return None;
        },
    };
    let loss_percentage = match get_num(fields, "loss_percentage") {
        Some(x) => x,
        None => {
            return None;
        },
    };
    Some(DeadStockFinancialImpact { locked_capital, potential_loss, loss_percentage })
}

/// Which documents decode as a dead stock record listing.
pub open spec fn decode_dead_stock_items(els: Seq<JsonV>) -> Option<Seq<DeadStockItemV>> {
    decode_elements(els, |e: JsonV| decode_dead_stock_item(e))
}

/// Decodes the elements of a dead stock record listing.
pub fn parse_dead_stock_items(els: &Vec<JsonValue>) -> (r: Option<Vec<DeadStockItem>>)
    ensures
        match r {
            Some(ts) => decode_dead_stock_items(array_view(els@)) == Some(
                ts@.map_values(|t: DeadStockItem| t@),
            ),
            None => decode_dead_stock_items(array_view(els@)) is None,
        },
{
    proof {
        lemma_array_view(els@);
    }
    let ghost av = array_view(els@);
    let ghost f = |e: JsonV| decode_dead_stock_item(e);
    let n = els.len();
    let mut out: Vec<DeadStockItem> = Vec::new();
    let mut i: usize = 0;
    while i < n
        invariant
            i <= n,
            n == els@.len(),
            av == array_view(els@),
            f == (|e: JsonV| decode_dead_stock_item(e)),
            av.len() == n,
            forall|j: int| #![trigger av[j]] 0 <= j < n ==> av[j] == els@[j]@,
            out@.len() == i,
            forall|j: int| #![trigger av[j]] 0 <= j < i ==> f(av[j]) == Some(out@[j]@),
        decreases n - i,
    {
        match parse_dead_stock_item(&els[i]) {
            Some(x) => {
                out.push(x);
            },
            None => {
                proof {
                    assert(f(av[i as int]) is None);
                    lemma_decode_elements(av, f);
                }
                return None;
            },
        }
        i += 1;
    }
    proof {
        lemma_decode_elements(av, f);
        assert(decode_elements(av, f) matches Some(xs) && xs =~= out@.map_values(
            |t: DeadStockItem| t@,
        ));
    }
    Some(out)
}

/// The dead stock summary.
#[derive(Debug, Clone, PartialEq)]
pub struct DeadStockSummary {
    pub total_items_at_risk: i32,
    pub risk_breakdown: Vec<(String, i32)>,
    pub financial_impact: DeadStockFinancialImpact,
    pub top_priorities: Vec<DeadStockItem>,
    pub last_analysis: String,
}

/// The model of the dead stock summary.
pub ghost struct DeadStockSummaryV {
    pub total_items_at_risk: i32,
    pub risk_breakdown: Seq<(Seq<char>, i32)>,
    pub financial_impact: DeadStockFinancialImpactV,
    pub top_priorities: Seq<DeadStockItemV>,
    pub last_analysis: Seq<char>,
}

impl View for DeadStockSummary {
    type V = DeadStockSummaryV;

    open spec fn view(&self) -> DeadStockSummaryV {
        DeadStockSummaryV {
            total_items_at_risk: self.total_items_at_risk,
            risk_breakdown: self.risk_breakdown@.map_values(|p: (String, i32)| (p.0@, p.1)),
            financial_impact: self.financial_impact@,
            top_priorities: self.top_priorities@.map_values(|t: DeadStockItem| t@),
            last_analysis: self.last_analysis@,
        }
    }
}

/// Which documents decode as the dead stock summary.
pub open spec fn decode_dead_stock_summary(v: JsonV) -> Option<DeadStockSummaryV> {
    match v {
        JsonV::Object(fs) => match (
            i32_field(fs, "total_items_at_risk"@),
            i32_pairs_field(fs, "risk_breakdown"@),
            lookup_field(fs, "financial_impact"@),
            array_field(fs, "top_priorities"@),
            str_field(fs, "last_analysis"@),
        ) {
            (Some(total_items_at_risk), Some(risk_breakdown), Some(fv), Some(els), Some(
                last_analysis,
            )) => match (decode_financial_impact(fv), decode_dead_stock_items(els)) {
                (Some(financial_impact), Some(top_priorities)) => Some(
                    DeadStockSummaryV {
                        total_items_at_risk,
                        risk_breakdown,
                        financial_impact,
                        top_priorities,
                        last_analysis,
                    },
                ),
                _ => None,
            },
            _ => None,
        },
        _ => None,
    }
}

/// Decodes the dead stock summary.
pub fn parse_dead_stock_summary(v: &JsonValue) -> (r: Option<DeadStockSummary>)
    ensures
        match r {
            Some(x) => decode_dead_stock_summary(v@) == Some(x@),
            None => decode_dead_stock_summary(v@) is None,
        },
{
    let fields = match v {
        JsonValue::Object(fs) => fs,
        _ => {
            return None;
        },
    };
    let total_items_at_risk = match get_i32(fields, "total_items_at_risk") {
        Some(x) => x,
        None => {
            return None;
        },
    };
    let risk_breakdown = match get_i32_pairs(fields, "risk_breakdown") {
        Some(x) => x,
        None => {
            return None;
        },
    };
    let financial_impact = match get_field(fields, "financial_impact") {
        Some(f) => match parse_financial_impact(f) {
            Some(x) => x,
            None => {
                return None;
            },
        },
        None => {
            return None;
        },
    };
    let top_priorities = match get_field(fields, "top_priorities") {
        Some(JsonValue::Array(els)) => match parse_dead_stock_items(els) {
            Some(x) => x,
            None => {
                return None;
            },
        },
        _ => {
            return None;
        },
    };
    let last_analysis = match get_str(fields, "last_analysis") {
        Some(x) => x,
        None => {
            return None;
        },
    };
    Some(
        DeadStockSummary {
            total_items_at_risk,
            risk_breakdown,
            financial_impact,
            top_priorities,
            last_analysis,
        },
    )
}

/// The financial weight broken down by risk level.
#[derive(Debug, Clone, PartialEq)]
pub struct DeadStockDetailedFinancialImpact {
    pub total_locked_capital: JsonNumber,
    pub total_potential_loss: JsonNumber,
    pub loss_percentage: JsonNumber,
    pub locked_capital_by_risk: Vec<(String, JsonNumber)>,
}

/// The model of the broken-down financial weight.
pub ghost struct DeadStockDetailedFinancialImpactV {
    pub total_locked_capital: JsonNumber,
    pub total_potential_loss: JsonNumber,
    pub loss_percentage: JsonNumber,
    pub locked_capital_by_risk: Seq<(Seq<char>, JsonNumber)>,
}

impl View for DeadStockDetailedFinancialImpact {
    type V = DeadStockDetailedFinancialImpactV;

    open spec fn view(&self) -> DeadStockDetailedFinancialImpactV {
        DeadStockDetailedFinancialImpactV {
            total_locked_capital: self.total_locked_capital,
            total_potential_loss: self.total_potential_loss,
            loss_percentage: self.loss_percentage,
            locked_capital_by_risk: self.locked_capital_by_risk@.map_values(
                |p: (String, JsonNumber)| (p.0@, p.1),
            ),
        }
    }
}

/// Which documents decode as the broken-down financial weight.
pub open spec fn decode_detailed_impact(v: JsonV) -> Option<DeadStockDetailedFinancialImpactV> {
    match v {
        JsonV::Object(fs) => match (
            num_field(fs, "total_locked_capital"@),
            num_field(fs, "total_potential_loss"@),
            num_field(fs, "loss_percentage"@),
            num_pairs_field(fs, "locked_capital_by_risk"@),
        ) {
            (Some(total_locked_capital), Some(total_potential_loss), Some(loss_percentage), Some(
                locked_capital_by_risk,
            )) => Some(
                DeadStockDetailedFinancialImpactV {
                    total_locked_capital,
                    total_potential_loss,
                    loss_percentage,
                    locked_capital_by_risk,
                },
            ),
            _ => None,
        },
        _ => None,
    }
}

/// Decodes the broken-down financial weight.
pub fn parse_detailed_impact(v: &JsonValue) -> (r: Option<DeadStockDetailedFinancialImpact>)
    ensures
        match r {
            Some(x) => decode_detailed_impact(v@) == Some(x@),
            None => decode_detailed_impact(v@) is None,
        },
{
    let fields = match v {
        JsonValue::Object(fs) => fs,
        _ => {
            return None;
        },
    };
    let total_locked_capital = match get_num(fields, "total_locked_capital") {
        Some(x) => x,
        None => {
            return None;
        },
    };
    let total_potential_loss = match get_num(fields, "total_potential_loss") {
        Some(x) => x,
        None => {
            return None;
        },
    };
    let loss_percentage = match get_num(fields, "loss_percentage") {
        Some(x) => x,
        None => {
            return None;
        },
    };
    let locked_capital_by_risk = match get_num_pairs(fields, "locked_capital_by_risk") {
        Some(x) => x,
        None => {
            return None;
        },
    };
    Some(
        DeadStockDetailedFinancialImpact {
            total_locked_capital,
            total_potential_loss,
            loss_percentage,
            locked_capital_by_risk,
        },
    )
}

/// One full dead stock analysis.
#[derive(Debug)]
pub struct DeadStockAnalysis {
    pub analysis_id: String,
    pub started_at: String,
    pub total_items_analyzed: i32,
    pub filters_applied: Vec<(String, JsonValue)>,
    pub dead_stock_items: Vec<DeadStockItem>,
    pub risk_summary: Vec<(String, i32)>,
    pub financial_impact: DeadStockDetailedFinancialImpact,
    pub recommendations: Vec<String>,
    pub analysis_timestamp: String,
}

/// The model of one full dead stock analysis.
pub ghost struct DeadStockAnalysisV {
    pub analysis_id: Seq<char>,
    pub started_at: Seq<char>,
    pub total_items_analyzed: i32,
    pub filters_applied: Seq<(Seq<char>, JsonV)>,
    pub dead_stock_items: Seq<DeadStockItemV>,
    pub risk_summary: Seq<(Seq<char>, i32)>,
    pub financial_impact: DeadStockDetailedFinancialImpactV,
    pub recommendations: Seq<Seq<char>>,
    pub analysis_timestamp: Seq<char>,
}

impl View for DeadStockAnalysis {
    type V = DeadStockAnalysisV;

    open spec fn view(&self) -> DeadStockAnalysisV {
        DeadStockAnalysisV {
            analysis_id: self.analysis_id@,
            started_at: self.started_at@,
            total_items_analyzed: self.total_items_analyzed,
            filters_applied: fields_view(self.filters_applied@),
            dead_stock_items: self.dead_stock_items@.map_values(|t: DeadStockItem| t@),
            risk_summary: self.risk_summary@.map_values(|p: (String, i32)| (p.0@, p.1)),
            financial_impact: self.financial_impact@,
            recommendations: self.recommendations@.map_values(|s: String| s@),
            analysis_timestamp: self.analysis_timestamp@,
        }
    }
}

/// Which documents decode as one full dead stock analysis.
pub open spec fn decode_dead_stock_analysis(v: JsonV) -> Option<DeadStockAnalysisV> {
    match v {
        JsonV::Object(fs) => match (
            str_field(fs, "analysis_id"@),
            str_field(fs, "started_at"@),
            i32_field(fs, "total_items_analyzed"@),
            obj_field(fs, "filters_applied"@),
            array_field(fs, "dead_stock_items"@),
        ) {
            (Some(analysis_id), Some(started_at), Some(total_items_analyzed), Some(
                filters_applied,
            ), Some(els)) => match (
                decode_dead_stock_items(els),
                i32_pairs_field(fs, "risk_summary"@),
                lookup_field(fs, "financial_impact"@),
                str_array_field(fs, "recommendations"@),
                str_field(fs, "analysis_timestamp"@),
            ) {
                (Some(dead_stock_items), Some(risk_summary), Some(fv), Some(
                    recommendations,
                ), Some(analysis_timestamp)) => match decode_detailed_impact(fv) {
                    Some(financial_impact) => Some(
                        DeadStockAnalysisV {
                            analysis_id,
                            started_at,
                            total_items_analyzed,
                            filters_applied,
                            dead_stock_items,
                            risk_summary,
                            financial_impact,
                            recommendations,
                            analysis_timestamp,
                        },
                    ),
                    None => None,
                },
                _ => None,
            },
            _ => None,
        },
        _ => None,
    }
}

/// Decodes one full dead stock analysis.
pub fn parse_dead_stock_analysis(v: &JsonValue) -> (r: Option<DeadStockAnalysis>)
    ensures
        match r {
            Some(x) => decode_dead_stock_analysis(v@) == Some(x@),
            None => decode_dead_stock_analysis(v@) is None,
        },
{
    let fields = match v {
        JsonValue::Object(fs) => fs,
        _ => {
            return None;
        },
    };
    let analysis_id = match get_str(fields, "analysis_id") {
        Some(x) => x,
        None => {
            return None;
        },
    };
    let started_at = match get_str(fields, "started_at") {
        Some(x) => x,
        None => {
            return None;
        },
    };
    let total_items_analyzed = match get_i32(fields, "total_items_analyzed") {
        Some(x) => x,
        None => {
            return None;
        },
    };
    let filters_applied = match get_obj(fields, "filters_applied") {
        Some(x) => x,
        None => {
            return None;
        },
    };
    let dead_stock_items = match get_field(fields, "dead_stock_items") {
        Some(JsonValue::Array(els)) => match parse_dead_stock_items(els) {
            Some(x) => x,
            None => {
                return None;
            },
        },
        _ => {
            return None;
        },
    };
    let risk_summary = match get_i32_pairs(fields, "risk_summary") {
        Some(x) => x,
        None => {
            return None;
        },
    };
    let financial_impact = match get_field(fields, "financial_impact") {
        Some(f) => match parse_detailed_impact(f) {
            Some(x) => x,
            None => {
                return None;
            },
        },
        None => {
            return None;
        },
    };
    let recommendations = match get_str_array(fields, "recommendations") {
        Some(x) => x,
        None => {
            return None;
        },
    };
    let analysis_timestamp = match get_str(fields, "analysis_timestamp") {
        Some(x) => x,
        None => {
            return None;
        },
    };
    Some(
        DeadStockAnalysis {
            analysis_id,
            started_at,
            total_items_analyzed,
            filters_applied,
            dead_stock_items,
            risk_summary,
            financial_impact,
            recommendations,
            analysis_timestamp,
        },
    )
}

/// The full set of risk level definitions and tuning factors.
#[derive(Debug, Clone, PartialEq)]
pub struct RiskLevelDefinitions {
    pub risk_levels: Vec<(String, RiskLevelDefinition)>,
    pub calculation_factors: Vec<(String, JsonNumber)>,
    pub automation_triggers: Vec<(String, JsonNumber)>,
}

/// The model of the risk level definitions.
pub ghost struct RiskLevelDefinitionsV {
    pub risk_levels: Seq<(Seq<char>, RiskLevelDefinitionV)>,
    pub calculation_factors: Seq<(Seq<char>, JsonNumber)>,
    pub automation_triggers: Seq<(Seq<char>, JsonNumber)>,
}

impl View for RiskLevelDefinitions {
    type V = RiskLevelDefinitionsV;

    open spec fn view(&self) -> RiskLevelDefinitionsV {
        RiskLevelDefinitionsV {
            risk_levels: self.risk_levels@.map_values(
                |p: (String, RiskLevelDefinition)| (p.0@, p.1@),
            ),
            calculation_factors: self.calculation_factors@.map_values(
                |p: (String, JsonNumber)| (p.0@, p.1),
            ),
            automation_triggers: self.automation_triggers@.map_values(
                |p: (String, JsonNumber)| (p.0@, p.1),
            ),
        }
    }
}

/// Which documents decode as the risk level definitions.
pub open spec fn decode_risk_level_definitions(v: JsonV) -> Option<RiskLevelDefinitionsV> {
    match v {
        JsonV::Object(fs) => match (
            obj_field(fs, "risk_levels"@),
            num_pairs_field(fs, "calculation_factors"@),
            num_pairs_field(fs, "automation_triggers"@),
        ) {
            (Some(levels), Some(calculation_factors), Some(automation_triggers)) => match
                decode_pairs(levels, |e: JsonV| decode_risk_level_definition(e)) {
                Some(risk_levels) => Some(
                    RiskLevelDefinitionsV {
                        risk_levels,
                        calculation_factors,
                        automation_triggers,
                    },
                ),
                None => None,
            },
            _ => None,
        },
        _ => None,
    }
}

/// Decodes the risk level definitions.
pub fn parse_risk_level_definitions(v: &JsonValue) -> (r: Option<RiskLevelDefinitions>)
    ensures
        match r {
            Some(x) => decode_risk_level_definitions(v@) == Some(x@),
            None => decode_risk_level_definitions(v@) is None,
        },
{
    let fields = match v {
        JsonValue::Object(fs) => fs,
        _ => {
            return None;
        },
    };
    let level_fields = match get_field(fields, "risk_levels") {
        Some(JsonValue::Object(o)) => o,
        _ => {
            return None;
        },
    };
    proof {
        lemma_fields_view(level_fields@);
    }
    let ghost ov = fields_view(level_fields@);
    let ghost f = |e: JsonV| decode_risk_level_definition(e);
    let n = level_fields.len();
    let mut risk_levels: Vec<(String, RiskLevelDefinition)> = Vec::new();
    let mut i: usize = 0;
    while i < n
        invariant
            i <= n,
            n == level_fields@.len(),
            ov == fields_view(level_fields@),
            f == (|e: JsonV| decode_risk_level_definition(e)),
            obj_field(fields_view(fields@), "risk_levels"@) == Some(ov),
            v@ == JsonV::Object(fields_view(fields@)),
            ov.len() == n,
            forall|j: int|
                #![trigger ov[j]]
                0 <= j < n ==> ov[j] == (level_fields@[j].0@, level_fields@[j].1@),
            risk_levels@.len() == i,
            forall|j: int|
                #![trigger ov[j]]
                0 <= j < i ==> f(ov[j].1) == Some(risk_levels@[j].1@) && risk_levels@[j].0@
                    == ov[j].0,
        decreases n - i,
    {
        match parse_risk_level_definition(&level_fields[i].1) {
            Some(x) => {
                risk_levels.push((level_fields[i].0.clone(), x));
            },
            None => {
                proof {
                    assert(f(ov[i as int].1) is None);
                    lemma_decode_pairs(ov, f);
                }
                return None;
            },
        }
        i += 1;
    }
    proof {
        lemma_decode_pairs(ov, f);
        assert(decode_pairs(ov, f) matches Some(ps) && ps =~= risk_levels@.map_values(
            |p: (String, RiskLevelDefinition)| (p.0@, p.1@),
        ));
    }
    let calculation_factors = match get_num_pairs(fields, "calculation_factors") {
        Some(x) => x,
        None => {
            return None;
        },
    };
    let automation_triggers = match get_num_pairs(fields, "automation_triggers") {
        Some(x) => x,
        None => {
            return None;
        },
    };
    Some(RiskLevelDefinitions { risk_levels, calculation_factors, automation_triggers })
}

/// One price action taken or rehearsed during a clearance.
#[derive(Debug, Clone, PartialEq)]
pub struct ClearanceAction {
    pub item_id: String,
    pub product_name: String,
    pub original_price: Option<JsonNumber>,
    pub new_price: Option<JsonNumber>,
    pub discount_percent: JsonNumber,
    pub action_type: String,
    pub estimated_sale_probability: Option<JsonNumber>,
    pub would_reduce_from: Option<JsonNumber>,
    pub would_reduce_to: Option<JsonNumber>,
    pub dry_run: Option<bool>,
}

/// The model of one clearance action.
pub ghost struct ClearanceActionV {
    pub item_id: Seq<char>,
    pub product_name: Seq<char>,
    pub original_price: Option<JsonNumber>,
    pub new_price: Option<JsonNumber>,
    pub discount_percent: JsonNumber,
    pub action_type: Seq<char>,
    pub estimated_sale_probability: Option<JsonNumber>,
    pub would_reduce_from: Option<JsonNumber>,
    pub would_reduce_to: Option<JsonNumber>,
    pub dry_run: Option<bool>,
}

impl View for ClearanceAction {
    type V = ClearanceActionV;

    open spec fn view(&self) -> ClearanceActionV {
        ClearanceActionV {
            item_id: self.item_id@,
            product_name: self.product_name@,
            original_price: self.original_price,
            new_price: self.new_price,
            discount_percent: self.discount_percent,
            action_type: self.action_type@,
            estimated_sale_probability: self.estimated_sale_probability,
            would_reduce_from: self.would_reduce_from,
            would_reduce_to: self.would_reduce_to,
            dry_run: self.dry_run,
        }
    }
}

/// Which documents decode as one clearance action.
pub open spec fn decode_clearance_action(v: JsonV) -> Option<ClearanceActionV> {
    match v {
        JsonV::Object(fs) => match (
            str_field(fs, "item_id"@),
            str_field(fs, "product_name"@),
            opt_num_field(fs, "original_price"@),
            opt_num_field(fs, "new_price"@),
            num_field(fs, "discount_percent"@),
        ) {
            (Some(item_id), Some(product_name), Some(original_price), Some(new_price), Some(
                discount_percent,
            )) => match (
                str_field(fs, "action_type"@),
                opt_num_field(fs, "estimated_sale_probability"@),
                opt_num_field(fs, "would_reduce_from"@),
                opt_num_field(fs, "would_reduce_to"@),
                opt_bool_field(fs, "dry_run"@),
            ) {
                (Some(action_type), Some(estimated_sale_probability), Some(
                    would_reduce_from,
                ), Some(would_reduce_to), Some(dry_run)) => Some(
                    ClearanceActionV {
                        item_id,
                        product_name,
                        original_price,
                        new_price,
                        discount_percent,
                        action_type,
                        estimated_sale_probability,
                        would_reduce_from,
                        would_reduce_to,
                        dry_run,
                    },
                ),
                _ => None,
            },
            _ => None,
        },
        _ => None,
    }
}

/// Decodes one clearance action.
pub fn parse_clearance_action(v: &JsonValue) -> (r: Option<ClearanceAction>)
    ensures
        match r {
            Some(x) => decode_clearance_action(v@) == Some(x@),
            None => decode_clearance_action(v@) is None,
        },
{
    let fields = match v {
        JsonValue::Object(fs) => fs,
        _ => {
            return None;
        },
    };
    let item_id = match get_str(fields, "item_id") {
        Some(x) => x,
        None => {
            return None;
        },
    };
    let product_name = match get_str(fields, "product_name") {
        Some(x) => x,
        None => {
            return None;
        },
    };
    let original_price = match get_opt_num(fields, "original_price") {
        Some(x) => x,
        None => {
            return None;
        },
    };
    let new_price = match get_opt_num(fields, "new_price") {
        Some(x) => x,
        None => {
            return None;
        },
    };
    let discount_percent = match get_num(fields, "discount_percent") {
        Some(x) => x,
        None => {
            return None;
        },
    };
    let action_type = match get_str(fields, "action_type") {
        Some(x) => x,
        None => {
            return None;
        },
    };
    let estimated_sale_probability = match get_opt_num(fields, "estimated_sale_probability") {
        Some(x) => x,
        None => {
            return None;
        },
    };
    let would_reduce_from = match get_opt_num(fields, "would_reduce_from") {
        Some(x) => x,
        None => {
            return None;
        },
    };
    let would_reduce_to = match get_opt_num(fields, "would_reduce_to") {
        Some(x) => x,
        None => {
            return None;
        },
    };
    let dry_run = match get_opt_bool(fields, "dry_run") {
        Some(x) => x,
        None => {
            return None;
        },
    };
    Some(
        ClearanceAction {
            item_id,
            product_name,
            original_price,
            new_price,
            discount_percent,
            action_type,
            estimated_sale_probability,
            would_reduce_from,
            would_reduce_to,
            dry_run,
        },
    )
}

/// The projected outcome of a clearance.
#[derive(Debug, Clone, PartialEq)]
pub struct ClearanceProjection {
    pub estimated_sales_within_30d: i32,
    pub estimated_revenue: JsonNumber,
    pub capital_recovery_rate: JsonNumber,
}

/// The model of a clearance projection.
pub ghost struct ClearanceProjectionV {
    pub estimated_sales_within_30d: i32,
    pub estimated_revenue: JsonNumber,
    pub capital_recovery_rate: JsonNumber,
}

impl View for ClearanceProjection {
    type V = ClearanceProjectionV;

    open spec fn view(&self) -> ClearanceProjectionV {
        ClearanceProjectionV {
            estimated_sales_within_30d: self.estimated_sales_within_30d,
            estimated_revenue: self.estimated_revenue,
            capital_recovery_rate: self.capital_recovery_rate,
        }
    }
}

/// Which documents decode as a clearance projection.
pub open spec fn decode_clearance_projection(v: JsonV) -> Option<ClearanceProjectionV> {
    match v {
        JsonV::Object(fs) => match (
            i32_field(fs, "estimated_sales_within_30d"@),
            num_field(fs, "estimated_revenue"@),
            num_field(fs, "capital_recovery_rate"@),
        ) {
            (Some(estimated_sales_within_30d), Some(estimated_revenue), Some(
                capital_recovery_rate,
            )) => Some(
                ClearanceProjectionV {
                    estimated_sales_within_30d,
                    estimated_revenue,
                    capital_recovery_rate,
                },
            ),
            _ => None,
        },
        _ => None,
    }
}

/// Decodes a clearance projection.
pub fn parse_clearance_projection(v: &JsonValue) -> (r: Option<ClearanceProjection>)
    ensures
        match r {
            Some(x) => decode_clearance_projection(v@) == Some(x@),
            None => decode_clearance_projection(v@) is None,
        },
{
    let fields = match v {
        JsonValue::Object(fs) => fs,
        _ => {
            return None;
        },
    };
    let estimated_sales_within_30d = match get_i32(fields, "estimated_sales_within_30d") {
        Some(x) => x,
        None => {
            return None;
        },
    };
    let estimated_revenue = match get_num(fields, "estimated_revenue") {
        Some(x) => x,
        None => {
            return None;
        },
    };
    let capital_recovery_rate = match get_num(fields, "capital_recovery_rate") {
        Some(x) => x,
        None => {
            return None;
        },
    };
    Some(
        ClearanceProjection {
            estimated_sales_within_30d,
            estimated_revenue,
            capital_recovery_rate,
        },
    )
}

/// The record of a clearance execution.
#[derive(Debug, Clone, PartialEq)]
pub struct ClearanceExecution {
    pub execution_id: String,
    pub started_at: String,
    pub success: bool,
    pub dry_run: bool,
    pub risk_levels_targeted: Vec<String>,
    pub items_processed: i32,
    pub actions_taken: Vec<ClearanceAction>,
    pub total_price_reductions: JsonNumber,
    pub estimated_capital_freed: JsonNumber,
    pub projected_outcomes: ClearanceProjection,
    pub execution_time: JsonNumber,
}

/// The model of a clearance execution.
pub ghost struct ClearanceExecutionV {
    pub execution_id: Seq<char>,
    pub started_at: Seq<char>,
    pub success: bool,
    pub dry_run: bool,
    pub risk_levels_targeted: Seq<Seq<char>>,
    pub items_processed: i32,
    pub actions_taken: Seq<ClearanceActionV>,
    pub total_price_reductions: JsonNumber,
    pub estimated_capital_freed: JsonNumber,
    pub projected_outcomes: ClearanceProjectionV,
    pub execution_time: JsonNumber,
}

impl View for ClearanceExecution {
    type V = ClearanceExecutionV;

    open spec fn view(&self) -> ClearanceExecutionV {
        ClearanceExecutionV {
            execution_id: self.execution_id@,
            started_at: self.started_at@,
            success: self.success,
            dry_run: self.dry_run,
            risk_levels_targeted: self.risk_levels_targeted@.map_values(|s: String| s@),
            items_processed: self.items_processed,
            actions_taken: self.actions_taken@.map_values(|a: ClearanceAction| a@),
            total_price_reductions: self.total_price_reductions,
            estimated_capital_freed: self.estimated_capital_freed,
            projected_outcomes: self.projected_outcomes@,
            execution_time: self.execution_time,
        }
    }
}

/// Which documents decode as a clearance execution.
pub open spec fn decode_clearance_execution(v: JsonV) -> Option<ClearanceExecutionV> {
    match v {
        JsonV::Object(fs) => match (
            str_field(fs, "execution_id"@),
            str_field(fs, "started_at"@),
            bool_field(fs, "success"@),
            bool_field(fs, "dry_run"@),
            str_array_field(fs, "risk_levels_targeted"@),
            i32_field(fs, "items_processed"@),
        ) {
            (Some(execution_id), Some(started_at), Some(success), Some(dry_run), Some(
                risk_levels_targeted,
            ), Some(items_processed)) => match (
                array_field(fs, "actions_taken"@),
                num_field(fs, "total_price_reductions"@),
                num_field(fs, "estimated_capital_freed"@),
                lookup_field(fs, "projected_outcomes"@),
                num_field(fs, "execution_time"@),
            ) {
                (Some(els), Some(total_price_reductions), Some(estimated_capital_freed), Some(
                    pv,
                ), Some(execution_time)) => match (
                    decode_elements(els, |e: JsonV| decode_clearance_action(e)),
                    decode_clearance_projection(pv),
                ) {
                    (Some(actions_taken), Some(projected_outcomes)) => Some(
                        ClearanceExecutionV {
                            execution_id,
                            started_at,
                            success,
                            dry_run,
                            risk_levels_targeted,
                            items_processed,
                            actions_taken,
                            total_price_reductions,
                            estimated_capital_freed,
                            projected_outcomes,
                            execution_time,
                        },
                    ),
                    _ => None,
                },
                _ => None,
            },
            _ => None,
        },
        _ => None,
    }
}

/// Decodes a clearance execution.
pub fn parse_clearance_execution(v: &JsonValue) -> (r: Option<ClearanceExecution>)
    ensures
        match r {
            Some(x) => decode_clearance_execution(v@) == Some(x@),
            None => decode_clearance_execution(v@) is None,
        },
{
    let fields = match v {
        JsonValue::Object(fs) => fs,
        _ => {
            return None;
        },
    };
    let execution_id = match get_str(fields, "execution_id") {
        Some(x) => x,
        None => {
            return None;
        },
    };
    let started_at = match get_str(fields, "started_at") {
        Some(x) => x,
        None => {
            return None;
        },
    };
    let success = match get_bool(fields, "success") {
        Some(x) => x,
        None => {
            return None;
        },
    };
    let dry_run = match get_bool(fields, "dry_run") {
        Some(x) => x,
        None => {
            return None;
        },
    };
    let risk_levels_targeted = match get_str_array(fields, "risk_levels_targeted") {
        Some(x) => x,
        None => {
            return None;
        },
    };
    let items_processed = match get_i32(fields, "items_processed") {
        Some(x) => x,
        None => {
            return None;
        },
    };
    let action_values = match get_field(fields, "actions_taken") {
        Some(JsonValue::Array(els)) => els,
        _ => {
            return None;
        },
    };
    proof {
        lemma_array_view(action_values@);
    }
    let ghost av = array_view(action_values@);
    let ghost f = |e: JsonV| decode_clearance_action(e);
    let n = action_values.len();
    let mut actions_taken: Vec<ClearanceAction> = Vec::new();
    let mut i: usize = 0;
    while i < n
        invariant
            i <= n,
            n == action_values@.len(),
            av == array_view(action_values@),
            f == (|e: JsonV| decode_clearance_action(e)),
            v@ == JsonV::Object(fields_view(fields@)),
            array_field(fields_view(fields@), "actions_taken"@) == Some(av),
            av.len() == n,
            forall|j: int| #![trigger av[j]] 0 <= j < n ==> av[j] == action_values@[j]@,
            actions_taken@.len() == i,
            forall|j: int|
                #![trigger av[j]]
                0 <= j < i ==> f(av[j]) == Some(actions_taken@[j]@),
        decreases n - i,
    {
        match parse_clearance_action(&action_values[i]) {
            Some(x) => {
                actions_taken.push(x);
            },
            None => {
                proof {
                    assert(f(av[i as int]) is None);
                    lemma_decode_elements(av, f);
                }
                return None;
            },
        }
        i += 1;
    }
    proof {
        lemma_decode_elements(av, f);
        assert(decode_elements(av, f) matches Some(xs) && xs =~= actions_taken@.map_values(
            |a: ClearanceAction| a@,
        ));
    }
    let total_price_reductions = match get_num(fields, "total_price_reductions") {
        Some(x) => x,
        None => {
            return None;
        },
    };
    let estimated_capital_freed = match get_num(fields, "estimated_capital_freed") {
        Some(x) => x,
        None => {
            return None;
        },
    };
    let projected_outcomes = match get_field(fields, "projected_outcomes") {
        Some(f2) => match parse_clearance_projection(f2) {
            Some(x) => x,
            None => {
                return None;
            },
        },
        None => {
            return None;
        },
    };
    let execution_time = match get_num(fields, "execution_time") {
        Some(x) => x,
        None => {
            return None;
        },
    };
    Some(
        ClearanceExecution {
            execution_id,
            started_at,
            success,
            dry_run,
            risk_levels_targeted,
            items_processed,
            actions_taken,
            total_price_reductions,
            estimated_capital_freed,
            projected_outcomes,
            execution_time,
        },
    )
}

/// One sampling point of the dead stock trend.
#[derive(Debug, Clone, PartialEq)]
pub struct DeadStockTrendData {
    pub date: String,
    pub total_dead_stock_items: i32,
    pub locked_capital: JsonNumber,
    pub items_liquidated: i32,
    pub capital_freed: JsonNumber,
}

/// The model of one sampling point.
pub ghost struct DeadStockTrendDataV {
    pub date: Seq<char>,
    pub total_dead_stock_items: i32,
    pub locked_capital: JsonNumber,
    pub items_liquidated: i32,
    pub capital_freed: JsonNumber,
}

impl View for DeadStockTrendData {
    type V = DeadStockTrendDataV;

    open spec fn view(&self) -> DeadStockTrendDataV {
        DeadStockTrendDataV {
            date: self.date@,
            total_dead_stock_items: self.total_dead_stock_items,
            locked_capital: self.locked_capital,
            items_liquidated: self.items_liquidated,
            capital_freed: self.capital_freed,
        }
    }
}

/// Which documents decode as one sampling point.
pub open spec fn decode_trend_data(v: JsonV) -> Option<DeadStockTrendDataV> {
    match v {
        JsonV::Object(fs) => match (
            str_field(fs, "date"@),
            i32_field(fs, "total_dead_stock_items"@),
            num_field(fs, "locked_capital"@),
            i32_field(fs, "items_liquidated"@),
            num_field(fs, "capital_freed"@),
        ) {
            (Some(date), Some(total_dead_stock_items), Some(locked_capital), Some(
                items_liquidated,
            ), Some(capital_freed)) => Some(
                DeadStockTrendDataV {
                    date,
                    total_dead_stock_items,
                    locked_capital,
                    items_liquidated,
                    capital_freed,
                },
            ),
            _ => None,
        },
        _ => None,
    }
}

/// Decodes one sampling point.
pub fn parse_trend_data(v: &JsonValue) -> (r: Option<DeadStockTrendData>)
    ensures
        match r {
            Some(x) => decode_trend_data(v@) == Some(x@),
            None => decode_trend_data(v@) is None,
        },
{
    let fields = match v {
        JsonValue::Object(fs) => fs,
        _ => {
            return None;
        },
    };
    let date = match get_str(fields, "date") {
        Some(x) => x,
        None => {
            return None;
        },
    };
    let total_dead_stock_items = match get_i32(fields, "total_dead_stock_items") {
        Some(x) => x,
        None => {
            return None;
        },
    };
    let locked_capital = match get_num(fields, "locked_capital") {
        Some(x) => x,
        None => {
            return None;
        },
    };
    let items_liquidated = match get_i32(fields, "items_liquidated") {
        Some(x) => x,
        None => {
            return None;
        },
    };
    let capital_freed = match get_num(fields, "capital_freed") {
        Some(x) => x,
        None => {
            return None;
        },
    };
    Some(
        DeadStockTrendData {
            date,
            total_dead_stock_items,
            locked_capital,
            items_liquidated,
            capital_freed,
        },
    )
}

/// Findings drawn from the dead stock trend.
#[derive(Debug, Clone, PartialEq)]
pub struct DeadStockInsights {
    pub trend_direction: String,
    pub avg_liquidation_success_rate: JsonNumber,
    pub most_problematic_category: String,
    pub most_problematic_brand: String,
    pub seasonal_pattern: String,
}

/// The model of the trend findings.
pub ghost struct DeadStockInsightsV {
    pub trend_direction: Seq<char>,
    pub avg_liquidation_success_rate: JsonNumber,
    pub most_problematic_category: Seq<char>,
    pub most_problematic_brand: Seq<char>,
    pub seasonal_pattern: Seq<char>,
}

impl View for DeadStockInsights {
    type V = DeadStockInsightsV;

    open spec fn view(&self) -> DeadStockInsightsV {
        DeadStockInsightsV {
            trend_direction: self.trend_direction@,
            avg_liquidation_success_rate: self.avg_liquidation_success_rate,
            most_problematic_category: self.most_problematic_category@,
            most_problematic_brand: self.most_problematic_brand@,
            seasonal_pattern: self.seasonal_pattern@,
        }
    }
}

/// Which documents decode as the trend findings.
pub open spec fn decode_dead_stock_insights(v: JsonV) -> Option<DeadStockInsightsV> {
    match v {
        JsonV::Object(fs) => match (
            str_field(fs, "trend_direction"@),
            num_field(fs, "avg_liquidation_success_rate"@),
            str_field(fs, "most_problematic_category"@),
            str_field(fs, "most_problematic_brand"@),
            str_field(fs, "seasonal_pattern"@),
        ) {
            (Some(trend_direction), Some(avg_liquidation_success_rate), Some(
                most_problematic_category,
            ), Some(most_problematic_brand), Some(seasonal_pattern)) => Some(
                DeadStockInsightsV {
                    trend_direction,
                    avg_liquidation_success_rate,
                    most_problematic_category,
                    most_problematic_brand,
                    seasonal_pattern,
                },
            ),
            _ => None,
        },
        _ => None,
    }
}

/// Decodes the trend findings.
pub fn parse_dead_stock_insights(v: &JsonValue) -> (r: Option<DeadStockInsights>)
    ensures
        match r {
            Some(x) => decode_dead_stock_insights(v@) == Some(x@),
            None => decode_dead_stock_insights(v@) is None,
        },
{
    let fields = match v {
        JsonValue::Object(fs) => fs,
        _ => {
            return None;
        },
    };
    let trend_direction = match get_str(fields, "trend_direction") {
        Some(x) => x,
        None => {
            return None;
        },
    };
    let avg_liquidation_success_rate = match get_num(fields, "avg_liquidation_success_rate") {
        Some(x) => x,
        None => {
            return None;
        },
    };
    let most_problematic_category = match get_str(fields, "most_problematic_category") {
        Some(x) => x,
        None => {
            return None;
        },
    };
    let most_problematic_brand = match get_str(fields, "most_problematic_brand") {
        Some(x) => x,
        None => {
            return None;
        },
    };
    let seasonal_pattern = match get_str(fields, "seasonal_pattern") {
        Some(x) => x,
        None => {
            return None;
        },
    };
    Some(
        DeadStockInsights {
            trend_direction,
            avg_liquidation_success_rate,
            most_problematic_category,
            most_problematic_brand,
            seasonal_pattern,
        },
    )
}

/// The dead stock trend report.
#[derive(Debug, Clone, PartialEq)]
pub struct DeadStockTrends {
    pub trend_period: String,
    pub trend_data: Vec<DeadStockTrendData>,
    pub insights: DeadStockInsights,
    pub recommendations: Vec<String>,
}

/// The model of the trend report.
pub ghost struct DeadStockTrendsV {
    pub trend_period: Seq<char>,
    pub trend_data: Seq<DeadStockTrendDataV>,
    pub insights: DeadStockInsightsV,
    pub recommendations: Seq<Seq<char>>,
}

impl View for DeadStockTrends {
    type V = DeadStockTrendsV;

    open spec fn view(&self) -> DeadStockTrendsV {
        DeadStockTrendsV {
            trend_period: self.trend_period@,
            trend_data: self.trend_data@.map_values(|t: DeadStockTrendData| t@),
            insights: self.insights@,
            recommendations: self.recommendations@.map_values(|s: String| s@),
        }
    }
}

/// Which documents decode as the trend report.
pub open spec fn decode_dead_stock_trends(v: JsonV) -> Option<DeadStockTrendsV> {
    match v {
        JsonV::Object(fs) => match (
            str_field(fs, "trend_period"@),
            array_field(fs, "trend_data"@),
            lookup_field(fs, "insights"@),
            str_array_field(fs, "recommendations"@),
        ) {
            (Some(trend_period), Some(els), Some(iv), Some(recommendations)) => match (
                decode_elements(els, |e: JsonV| decode_trend_data(e)),
                decode_dead_stock_insights(iv),
            ) {
                (Some(trend_data), Some(insights)) => Some(
                    DeadStockTrendsV { trend_period, trend_data, insights, recommendations },
                ),
                _ => None,
            },
            _ => None,
        },
        _ => None,
    }
}

/// Decodes the trend report.
pub fn parse_dead_stock_trends(v: &JsonValue) -> (r: Option<DeadStockTrends>)
    ensures
        match r {
            Some(x) => decode_dead_stock_trends(v@) == Some(x@),
            None => decode_dead_stock_trends(v@) is None,
        },
{
    let fields = match v {
        JsonValue::Object(fs) => fs,
        _ => {
            return None;
        },
    };
    let trend_period = match get_str(fields, "trend_period") {
        Some(x) => x,
        None => {
            return None;
        },
    };
    let data_values = match get_field(fields, "trend_data") {
        Some(JsonValue::Array(els)) => els,
        _ => {
            return None;
        },
    };
    proof {
        lemma_array_view(data_values@);
    }
    let ghost av = array_view(data_values@);
    let ghost f = |e: JsonV| decode_trend_data(e);
    let n = data_values.len();
    let mut trend_data: Vec<DeadStockTrendData> = Vec::new();
    let mut i: usize = 0;
    while i < n
        invariant
            i <= n,
            n == data_values@.len(),
            av == array_view(data_values@),
            f == (|e: JsonV| decode_trend_data(e)),
            v@ == JsonV::Object(fields_view(fields@)),
            array_field(fields_view(fields@), "trend_data"@) == Some(av),
            av.len() == n,
            forall|j: int| #![trigger av[j]] 0 <= j < n ==> av[j] == data_values@[j]@,
            trend_data@.len() == i,
            forall|j: int| #![trigger av[j]] 0 <= j < i ==> f(av[j]) == Some(trend_data@[j]@),
        decreases n - i,
    {
        match parse_trend_data(&data_values[i]) {
            Some(x) => {
                trend_data.push(x);
            },
            None => {
                proof {
                    assert(f(av[i as int]) is None);
                    lemma_decode_elements(av, f);
                }
                return None;
            },
        }
        i += 1;
    }
    proof {
        lemma_decode_elements(av, f);
        assert(decode_elements(av, f) matches Some(xs) && xs =~= trend_data@.map_values(
            |t: DeadStockTrendData| t@,
        ));
    }
    let insights = match get_field(fields, "insights") {
        Some(f2) => match parse_dead_stock_insights(f2) {
            Some(x) => x,
            None => {
                return None;
            },
        },
        None => {
            return None;
        },
    };
    let recommendations = match get_str_array(fields, "recommendations") {
        Some(x) => x,
        None => {
            return None;
        },
    };
    Some(DeadStockTrends { trend_period, trend_data, insights, recommendations })
}

} // verus!

//! Analytics contracts: enrichment progress, pricing insights, market trends
//! and the predictive reports.
//!
//! Several endpoints answer with a bare array of records; their decoders
//! accept exactly the documents in which every element decodes.

use vstd::prelude::*;

use crate::json::JsonNumber;
use crate::json::JsonV;
use crate::json::JsonValue;
use crate::json::array_view;
use crate::json::decode_elements;
use crate::json::get_any;
use crate::json::get_array;
use crate::json::get_field;
use crate::json::get_i32;
use crate::json::get_i64;
use crate::json::get_num;
use crate::json::get_opt_i32;
use crate::json::get_opt_str;
use crate::json::get_str;
use crate::json::get_str_array;
use crate::json::i32_field;
use crate::json::i64_field;
use crate::json::lemma_array_view;
use crate::json::lemma_decode_elements;
use crate::json::lookup_field;
use crate::json::num_field;
use crate::json::opt_i32_field;
use crate::json::opt_str_field;
use crate::json::opt_string_view;
use crate::json::array_field;
use crate::json::str_array_field;
use crate::json::str_field;

verus! {

/// The enrichment completion of one attribute.
#[derive(Debug, Clone, PartialEq)]
pub struct EnrichmentStats {
    pub completed: i64,
    pub missing: i64,
    pub completion_percentage: JsonNumber,
}

/// The model of one attribute's enrichment completion.
pub ghost struct EnrichmentStatsV {
    pub completed: i64,
    pub missing: i64,
    pub completion_percentage: JsonNumber,
}

impl View for EnrichmentStats {
    type V = EnrichmentStatsV;

    open spec fn view(&self) -> EnrichmentStatsV {
        EnrichmentStatsV {
            completed: self.completed,
            missing: self.missing,
            completion_percentage: self.completion_percentage,
        }
    }
}

/// Which documents decode as one attribute's enrichment completion.
pub open spec fn decode_enrichment_stats(v: JsonV) -> Option<EnrichmentStatsV> {
    match v {
        JsonV::Object(fs) => match (
            i64_field(fs, "completed"@),
            i64_field(fs, "missing"@),
            num_field(fs, "completion_percentage"@),
        ) {
            (Some(completed), Some(missing), Some(completion_percentage)) => Some(
                EnrichmentStatsV { completed, missing, completion_percentage },
            ),
            _ => None,
        },
        _ => None,
    }
}

/// Decodes one attribute's enrichment completion.
pub fn parse_enrichment_stats(v: &JsonValue) -> (r: Option<EnrichmentStats>)
    ensures
        match r {
            Some(x) => decode_enrichment_stats(v@) == Some(x@),
            None => decode_enrichment_stats(v@) is None,
        },
{
    let fields = match v {
        JsonValue::Object(fs) => fs,
        _ => {
            return None;
        },
    };
    let completed = match get_i64(fields, "completed") {
        Some(x) => x,
        None => {
            return None;
        },
    };
    let missing = match get_i64(fields, "missing") {
        Some(x) => x,
        None => {
            return None;
        },
    };
    let completion_percentage = match get_num(fields, "completion_percentage") {
        Some(x) => x,
        None => {
            return None;
        },
    };
    Some(EnrichmentStats { completed, missing, completion_percentage })
}

/// The per-attribute breakdown of enrichment completion.
#[derive(Debug, Clone, PartialEq)]
pub struct EnrichmentStatsBreakdown {
    pub sku: EnrichmentStats,
    pub description: EnrichmentStats,
    pub retail_price: EnrichmentStats,
    pub release_date: EnrichmentStats,
}

/// The model of the per-attribute breakdown.
pub ghost struct EnrichmentStatsBreakdownV {
    pub sku: EnrichmentStatsV,
    pub description: EnrichmentStatsV,
    pub retail_price: EnrichmentStatsV,
    pub release_date: EnrichmentStatsV,
}

impl View for EnrichmentStatsBreakdown {
    type V = EnrichmentStatsBreakdownV;

    open spec fn view(&self) -> EnrichmentStatsBreakdownV {
        EnrichmentStatsBreakdownV {
            sku: self.sku@,
            description: self.description@,
            retail_price: self.retail_price@,
            release_date: self.release_date@,
        }
    }
}

/// Which documents decode as the per-attribute breakdown.
pub open spec fn decode_enrichment_breakdown(v: JsonV) -> Option<EnrichmentStatsBreakdownV> {
    match v {
        JsonV::Object(fs) => match (
            lookup_field(fs, "sku"@),
            lookup_field(fs, "description"@),
            lookup_field(fs, "retail_price"@),
            lookup_field(fs, "release_date"@),
        ) {
            (Some(sv), Some(dv), Some(rv), Some(lv)) => match (
                decode_enrichment_stats(sv),
                decode_enrichment_stats(dv),
                decode_enrichment_stats(rv),
                decode_enrichment_stats(lv),
            ) {
                (Some(sku), Some(description), Some(retail_price), Some(release_date)) => Some(
                    EnrichmentStatsBreakdownV { sku, description, retail_price, release_date },
                ),
                _ => None,
            },
            _ => None,
        },
        _ => None,
    }
}

/// Decodes the per-attribute breakdown.
pub fn parse_enrichment_breakdown(v: &JsonValue) -> (r: Option<EnrichmentStatsBreakdown>)
    ensures
        match r {
            Some(x) => decode_enrichment_breakdown(v@) == Some(x@),
            None => decode_enrichment_breakdown(v@) is None,
        },
{
    let fields = match v {
        JsonValue::Object(fs) => fs,
        _ => {
            return None;
        },
    };
    let sku = match get_field(fields, "sku") {
        Some(f) => match parse_enrichment_stats(f) {
            Some(x) => x,
            None => {
                return None;
            },
        },
        None => {
            return None;
        },
    };
    let description = match get_field(fields, "description") {
        Some(f) => match parse_enrichment_stats(f) {
            Some(x) => x,
            None => {
                return None;
            },
        },
        None => {
            return None;
        },
    };
    let retail_price = match get_field(fields, "retail_price") {
        Some(f) => match parse_enrichment_stats(f) {
            Some(x) => x,
            None => {
                return None;
            },
        },
        None => {
            return None;
        },
    };
    let release_date = match get_field(fields, "release_date") {
        Some(f) => match parse_enrichment_stats(f) {
            Some(x) => x,
            None => {
                return None;
            },
        },
        None => {
            return None;
        },
    };
    Some(EnrichmentStatsBreakdown { sku, description, retail_price, release_date })
}

/// The enrichment status report.
#[derive(Debug, Clone, PartialEq)]
pub struct EnrichmentStatusResponse {
    pub timestamp: String,
    pub total_products: i64,
    pub enrichment_stats: EnrichmentStatsBreakdown,
    pub overall_completion: JsonNumber,
}

/// The model of the enrichment status report.
pub ghost struct EnrichmentStatusResponseV {
    pub timestamp: Seq<char>,
    pub total_products: i64,
    pub enrichment_stats: EnrichmentStatsBreakdownV,
    pub overall_completion: JsonNumber,
}

impl View for EnrichmentStatusResponse {
    type V = EnrichmentStatusResponseV;

    open spec fn view(&self) -> EnrichmentStatusResponseV {
        EnrichmentStatusResponseV {
            timestamp: self.timestamp@,
            total_products: self.total_products,
            enrichment_stats: self.enrichment_stats@,
            overall_completion: self.overall_completion,
        }
    }
}

/// Which documents decode as the enrichment status report.
pub open spec fn decode_enrichment_status(v: JsonV) -> Option<EnrichmentStatusResponseV> {
    match v {
        JsonV::Object(fs) => match (
            str_field(fs, "timestamp"@),
            i64_field(fs, "total_products"@),
            lookup_field(fs, "enrichment_stats"@),
            num_field(fs, "overall_completion"@),
        ) {
            (Some(timestamp), Some(total_products), Some(bv), Some(overall_completion)) => match
                decode_enrichment_breakdown(bv) {
                Some(enrichment_stats) => Some(
                    EnrichmentStatusResponseV {
                        timestamp,
                        total_products,
                        enrichment_stats,
                        overall_completion,
                    },
                ),
                None => None,
            },
            _ => None,
        },
        _ => None,
    }
}

/// Decodes the enrichment status report.
pub fn parse_enrichment_status(v: &JsonValue) -> (r: Option<EnrichmentStatusResponse>)
    ensures
        match r {
            Some(x) => decode_enrichment_status(v@) == Some(x@),
            None => decode_enrichment_status(v@) is None,
        },
{
    let fields = match v {
        JsonValue::Object(fs) => fs,
        _ => {
            return None;
        },
    };
    let timestamp = match get_str(fields, "timestamp") {
        Some(x) => x,
        None => {
            return None;
        },
    };
    let total_products = match get_i64(fields, "total_products") {
        Some(x) => x,
        None => {
            return None;
        },
    };
    let enrichment_stats = match get_field(fields, "enrichment_stats") {
        Some(f) => match parse_enrichment_breakdown(f) {
            Some(x) => x,
            None => {
                return None;
            },
        },
        None => {
            return None;
        },
    };
    let overall_completion = match get_num(fields, "overall_completion") {
        Some(x) => x,
        None => {
            return None;
        },
    };
    Some(
        EnrichmentStatusResponse {
            timestamp,
            total_products,
            enrichment_stats,
            overall_completion,
        },
    )
}

/// One market trend over a reporting period.
#[derive(Debug, Clone, PartialEq)]
pub struct MarketTrend {
    pub period: String,
    pub trend_direction: String,
    pub strength: JsonNumber,
    pub key_drivers: Vec<String>,
    pub forecast_impact: String,
}

/// The model of one market trend.
pub ghost struct MarketTrendV {
    pub period: Seq<char>,
    pub trend_direction: Seq<char>,
    pub strength: JsonNumber,
    pub key_drivers: Seq<Seq<char>>,
    pub forecast_impact: Seq<char>,
}

impl View for MarketTrend {
    type V = MarketTrendV;

    open spec fn view(&self) -> MarketTrendV {
        MarketTrendV {
            period: self.period@,
            trend_direction: self.trend_direction@,
            strength: self.strength,
            key_drivers: self.key_drivers@.map_values(|s: String| s@),
            forecast_impact: self.forecast_impact@,
        }
    }
}

/// Which documents decode as one market trend.
pub open spec fn decode_market_trend(v: JsonV) -> Option<MarketTrendV> {
    match v {
        JsonV::Object(fs) => match (
            str_field(fs, "period"@),
            str_field(fs, "trend_direction"@),
            num_field(fs, "strength"@),
            str_array_field(fs, "key_drivers"@),
            str_field(fs, "forecast_impact"@),
        ) {
            (Some(period), Some(trend_direction), Some(strength), Some(key_drivers), Some(
                forecast_impact,
            )) => Some(
                MarketTrendV { period, trend_direction, strength, key_drivers, forecast_impact },
            ),
            _ => None,
        },
        _ => None,
    }
}

/// Decodes one market trend.
pub fn parse_market_trend(v: &JsonValue) -> (r: Option<MarketTrend>)
    ensures
        match r {
            Some(x) => decode_market_trend(v@) == Some(x@),
            None => decode_market_trend(v@) is None,
        },
{
    let fields = match v {
        JsonValue::Object(fs) => fs,
        _ => {
            return None;
        },
    };
    let period = match get_str(fields, "period") {
        Some(x) => x,
        None => {
            return None;
        },
    };
    let trend_direction = match get_str(fields, "trend_direction") {
        Some(x) => x,
        None => {
            return None;
        },
    };
    let strength = match get_num(fields, "strength") {
        Some(x) => x,
        None => {
            return None;
        },
    };
    let key_drivers = match get_str_array(fields, "key_drivers") {
        Some(x) => x,
        None => {
            return None;
        },
    };
    let forecast_impact = match get_str(fields, "forecast_impact") {
        Some(x) => x,
        None => {
            return None;
        },
    };
    Some(MarketTrend { period, trend_direction, strength, key_drivers, forecast_impact })
}

/// Which documents decode as a market trend listing: a bare array in which
/// every element decodes.
pub open spec fn decode_market_trend_list(v: JsonV) -> Option<Seq<MarketTrendV>> {
    match v {
        JsonV::Array(els) => decode_elements(els, |e: JsonV| decode_market_trend(e)),
        _ => None,
    }
}

/// Decodes a market trend listing.
pub fn parse_market_trend_list(v: &JsonValue) -> (r: Option<Vec<MarketTrend>>)
    ensures
        match r {
            Some(ts) => decode_market_trend_list(v@) == Some(
                ts@.map_values(|t: MarketTrend| t@),
            ),
            None => decode_market_trend_list(v@) is None,
        },
{
    let els = match v {
        JsonValue::Array(els) => els,
        _ => {
            return None;
        },
    };
    proof {
        lemma_array_view(els@);
    }
    let ghost av = array_view(els@);
    let ghost f = |e: JsonV| decode_market_trend(e);
    let n = els.len();
    let mut out: Vec<MarketTrend> = Vec::new();
    let mut i: usize = 0;
    while i < n
        invariant
            i <= n,
            n == els@.len(),
            av == array_view(els@),
            v@ == JsonV::Array(av),
            f == (|e: JsonV| decode_market_trend(e)),
            av.len() == n,
            forall|j: int| #![trigger av[j]] 0 <= j < n ==> av[j] == els@[j]@,
            out@.len() == i,
            forall|j: int| #![trigger av[j]] 0 <= j < i ==> f(av[j]) == Some(out@[j]@),
        decreases n - i,
    {
        match parse_market_trend(&els[i]) {
            Some(x) => {
                out.push(x);
            },
            None => {
                proof {
                    assert(f(av[i as int]) is None);
                    lemma_decode_elements(av, f);
                }
                return None;
            },
        }
        i += 1;
    }
    proof {
        lemma_decode_elements(av, f);
        assert(decode_elements(av, f) matches Some(xs) && xs =~= out@.map_values(
            |t: MarketTrend| t@,
        ));
    }
    Some(out)
}

/// The aggregate pricing figures.
#[derive(Debug, Clone, PartialEq)]
pub struct PricingInsightsSummary {
    pub total_products_analyzed: i32,
    pub average_price: JsonNumber,
    pub average_margin_percent: JsonNumber,
    pub total_price_updates: i32,
    pub recent_updates_30d: i32,
}

/// The model of the aggregate pricing figures.
pub ghost struct PricingInsightsSummaryV {
    pub total_products_analyzed: i32,
    pub average_price: JsonNumber,
    pub average_margin_percent: JsonNumber,
    pub total_price_updates: i32,
    pub recent_updates_30d: i32,
}

impl View for PricingInsightsSummary {
    type V = PricingInsightsSummaryV;

    open spec fn view(&self) -> PricingInsightsSummaryV {
        PricingInsightsSummaryV {
            total_products_analyzed: self.total_products_analyzed,
            average_price: self.average_price,
            average_margin_percent: self.average_margin_percent,
            total_price_updates: self.total_price_updates,
            recent_updates_30d: self.recent_updates_30d,
        }
    }
}

/// Which documents decode as the aggregate pricing figures.
pub open spec fn decode_pricing_insights_summary(v: JsonV) -> Option<PricingInsightsSummaryV> {
    match v {
        JsonV::Object(fs) => match (
            i32_field(fs, "total_products_analyzed"@),
            num_field(fs, "average_price"@),
            num_field(fs, "average_margin_percent"@),
            i32_field(fs, "total_price_updates"@),
            i32_field(fs, "recent_updates_30d"@),
        ) {
            (Some(total_products_analyzed), Some(average_price), Some(
                average_margin_percent,
            ), Some(total_price_updates), Some(recent_updates_30d)) => Some(
                PricingInsightsSummaryV {
                    total_products_analyzed,
                    average_price,
                    average_margin_percent,
                    total_price_updates,
                    recent_updates_30d,
                },
            ),
            _ => None,
        },
        _ => None,
    }
}

/// Decodes the aggregate pricing figures.
pub fn parse_pricing_insights_summary(v: &JsonValue) -> (r: Option<PricingInsightsSummary>)
    ensures
        match r {
            Some(x) => decode_pricing_insights_summary(v@) == Some(x@),
            None => decode_pricing_insights_summary(v@) is None,
        },
{
    let fields = match v {
        JsonValue::Object(fs) => fs,
        _ => {
            return None;
        },
    };
    let total_products_analyzed = match get_i32(fields, "total_products_analyzed") {
        Some(x) => x,
        None => {
            return None;
        },
    };
    let average_price = match get_num(fields, "average_price") {
        Some(x) => x,
        None => {
            return None;
        },
    };
    let average_margin_percent = match get_num(fields, "average_margin_percent") {
        Some(x) => x,
        None => {
            return None;
        },
    };
    let total_price_updates = match get_i32(fields, "total_price_updates") {
        Some(x) => x,
        None => {
            return None;
        },
    };
    let recent_updates_30d = match get_i32(fields, "recent_updates_30d") {
        Some(x) => x,
        None => {
            return None;
        },
    };
    Some(
        PricingInsightsSummary {
            total_products_analyzed,
            average_price,
            average_margin_percent,
            total_price_updates,
            recent_updates_30d,
        },
    )
}

/// The pricing insights report.
#[derive(Debug, Clone, PartialEq)]
pub struct PricingInsights {
    pub timestamp: String,
    pub summary: PricingInsightsSummary,
    pub recommendations: Vec<String>,
}

/// The model of the pricing insights report.
pub ghost struct PricingInsightsV {
    pub timestamp: Seq<char>,
    pub summary: PricingInsightsSummaryV,
    pub recommendations: Seq<Seq<char>>,
}

impl View for PricingInsights {
    type V = PricingInsightsV;

    open spec fn view(&self) -> PricingInsightsV {
        PricingInsightsV {
            timestamp: self.timestamp@,
            summary: self.summary@,
            recommendations: self.recommendations@.map_values(|s: String| s@),
        }
    }
}

/// Which documents decode as the pricing insights report.
pub open spec fn decode_pricing_insights(v: JsonV) -> Option<PricingInsightsV> {
    match v {
        JsonV::Object(fs) => match (
            str_field(fs, "timestamp"@),
            lookup_field(fs, "summary"@),
            str_array_field(fs, "recommendations"@),
        ) {
            (Some(timestamp), Some(sv), Some(recommendations)) => match
                decode_pricing_insights_summary(sv) {
                Some(summary) => Some(PricingInsightsV { timestamp, summary, recommendations }),
                None => None,
            },
            _ => None,
        },
        _ => None,
    }
}

/// Decodes the pricing insights report.
pub fn parse_pricing_insights(v: &JsonValue) -> (r: Option<PricingInsights>)
    ensures
        match r {
            Some(x) => decode_pricing_insights(v@) == Some(x@),
            None => decode_pricing_insights(v@) is None,
        },
{
    let fields = match v {
        JsonValue::Object(fs) => fs,
        _ => {
            return None;
        },
    };
    let timestamp = match get_str(fields, "timestamp") {
        Some(x) => x,
        None => {
            return None;
        },
    };
    let summary = match get_field(fields, "summary") {
        Some(f) => match parse_pricing_insights_summary(f) {
            Some(x) => x,
            None => {
                return None;
            },
        },
        None => {
            return None;
        },
    };
    let recommendations = match get_str_array(fields, "recommendations") {
        Some(x) => x,
        None => {
            return None;
        },
    };
    Some(PricingInsights { timestamp, summary, recommendations })
}

/// Business figures over the last quarter.
#[derive(Debug, Clone, PartialEq)]
pub struct BusinessMetrics {
    pub transactions_90d: i32,
    pub revenue_90d: JsonNumber,
    pub avg_transaction_value: JsonNumber,
    pub active_products: i32,
    pub active_brands: i32,
}

/// The model of the quarterly business figures.
pub ghost struct BusinessMetricsV {
    pub transactions_90d: i32,
    pub revenue_90d: JsonNumber,
    pub avg_transaction_value: JsonNumber,
    pub active_products: i32,
    pub active_brands: i32,
}

impl View for BusinessMetrics {
    type V = BusinessMetricsV;

    open spec fn view(&self) -> BusinessMetricsV {
        BusinessMetricsV {
            transactions_90d: self.transactions_90d,
            revenue_90d: self.revenue_90d,
            avg_transaction_value: self.avg_transaction_value,
            active_products: self.active_products,
            active_brands: self.active_brands,
        }
    }
}

/// Which documents decode as the quarterly business figures.
pub open spec fn decode_business_metrics(v: JsonV) -> Option<BusinessMetricsV> {
    match v {
        JsonV::Object(fs) => match (
            i32_field(fs, "transactions_90d"@),
            num_field(fs, "revenue_90d"@),
            num_field(fs, "avg_transaction_value"@),
            i32_field(fs, "active_products"@),
            i32_field(fs, "active_brands"@),
        ) {
            (Some(transactions_90d), Some(revenue_90d), Some(avg_transaction_value), Some(
                active_products,
            ), Some(active_brands)) => Some(
                BusinessMetricsV {
                    transactions_90d,
                    revenue_90d,
                    avg_transaction_value,
                    active_products,
                    active_brands,
                },
            ),
            _ => None,
        },
        _ => None,
    }
}

/// Decodes the quarterly business figures.
pub fn parse_business_metrics(v: &JsonValue) -> (r: Option<BusinessMetrics>)
    ensures
        match r {
            Some(x) => decode_business_metrics(v@) == Some(x@),
            None => decode_business_metrics(v@) is None,
        },
{
    let fields = match v {
        JsonValue::Object(fs) => fs,
        _ => {
            return None;
        },
    };
    let transactions_90d = match get_i32(fields, "transactions_90d") {
        Some(x) => x,
        None => {
            return None;
        },
    };
    let revenue_90d = match get_num(fields, "revenue_90d") {
        Some(x) => x,
        None => {
            return None;
        },
    };
    let avg_transaction_value = match get_num(fields, "avg_transaction_value") {
        Some(x) => x,
        None => {
            return None;
        },
    };
    let active_products = match get_i32(fields, "active_products") {
        Some(x) => x,
        None => {
            return None;
        },
    };
    let active_brands = match get_i32(fields, "active_brands") {
        Some(x) => x,
        None => {
            return None;
        },
    };
    Some(
        BusinessMetrics {
            transactions_90d,
            revenue_90d,
            avg_transaction_value,
            active_products,
            active_brands,
        },
    )
}

/// The predictive business report.
#[derive(Debug, Clone, PartialEq)]
pub struct PredictiveInsights {
    pub timestamp: String,
    pub business_metrics: BusinessMetrics,
    pub predictive_insights: Vec<String>,
    pub growth_opportunities: Vec<String>,
    pub risk_factors: Vec<String>,
    pub recommendations: Vec<String>,
    pub confidence_score: JsonNumber,
}

/// The model of the predictive business report.
pub ghost struct PredictiveInsightsV {
    pub timestamp: Seq<char>,
    pub business_metrics: BusinessMetricsV,
    pub predictive_insights: Seq<Seq<char>>,
    pub growth_opportunities: Seq<Seq<char>>,
    pub risk_factors: Seq<Seq<char>>,
    pub recommendations: Seq<Seq<char>>,
    pub confidence_score: JsonNumber,
}

impl View for PredictiveInsights {
    type V = PredictiveInsightsV;

    open spec fn view(&self) -> PredictiveInsightsV {
        PredictiveInsightsV {
            timestamp: self.timestamp@,
            business_metrics: self.business_metrics@,
            predictive_insights: self.predictive_insights@.map_values(|s: String| s@),
            growth_opportunities: self.growth_opportunities@.map_values(|s: String| s@),
            risk_factors: self.risk_factors@.map_values(|s: String| s@),
            recommendations: self.recommendations@.map_values(|s: String| s@),
            confidence_score: self.confidence_score,
        }
    }
}

/// Which documents decode as the predictive business report.
pub open spec fn decode_predictive_insights(v: JsonV) -> Option<PredictiveInsightsV> {
    match v {
        JsonV::Object(fs) => match (
            str_field(fs, "timestamp"@),
            lookup_field(fs, "business_metrics"@),
            str_array_field(fs, "predictive_insights"@),
            str_array_field(fs, "growth_opportunities"@),
            str_array_field(fs, "risk_factors"@),
            str_array_field(fs, "recommendations"@),
            num_field(fs, "confidence_score"@),
        ) {
            (
                Some(timestamp),
                Some(bv),
                Some(predictive_insights),
                Some(growth_opportunities),
                Some(risk_factors),
                Some(recommendations),
                Some(confidence_score),
            ) => match decode_business_metrics(bv) {
                Some(business_metrics) => Some(
                    PredictiveInsightsV {
                        timestamp,
                        business_metrics,
                        predictive_insights,
                        growth_opportunities,
                        risk_factors,
                        recommendations,
                        confidence_score,
                    },
                ),
                None => None,
            },
            _ => None,
        },
        _ => None,
    }
}

/// Decodes the predictive business report.
pub fn parse_predictive_insights(v: &JsonValue) -> (r: Option<PredictiveInsights>)
    ensures
        match r {
            Some(x) => decode_predictive_insights(v@) == Some(x@),
            None => decode_predictive_insights(v@) is None,
        },
{
    let fields = match v {
        JsonValue::Object(fs) => fs,
        _ => {
            return None;
        },
    };
    let timestamp = match get_str(fields, "timestamp") {
        Some(x) => x,
        None => {
            return None;
        },
    };
    let business_metrics = match get_field(fields, "business_metrics") {
        Some(f) => match parse_business_metrics(f) {
            Some(x) => x,
            None => {
                return None;
            },
        },
        None => {
            return None;
        },
    };
    let predictive_insights = match get_str_array(fields, "predictive_insights") {
        Some(x) => x,
        None => {
            return None;
        },
    };
    let growth_opportunities = match get_str_array(fields, "growth_opportunities") {
        Some(x) => x,
        None => {
            return None;
        },
    };
    let risk_factors = match get_str_array(fields, "risk_factors") {
        Some(x) => x,
        None => {
            return None;
        },
    };
    let recommendations = match get_str_array(fields, "recommendations") {
        Some(x) => x,
        None => {
            return None;
        },
    };
    let confidence_score = match get_num(fields, "confidence_score") {
        Some(x) => x,
        None => {
            return None;
        },
    };
    Some(
        PredictiveInsights {
            timestamp,
            business_metrics,
            predictive_insights,
            growth_opportunities,
            risk_factors,
            recommendations,
            confidence_score,
        },
    )
}

/// One predictive insight record.
#[derive(Debug)]
pub struct PredictiveInsight {
    pub insight_id: String,
    pub insight_type: String,
    pub priority: String,
    pub title: String,
    pub description: String,
    pub product_id: Option<String>,
    pub product_name: Option<String>,
    pub confidence_score: JsonNumber,
    pub recommended_actions: Vec<JsonValue>,
    pub supporting_data: JsonValue,
    pub expires_at: String,
}

/// The model of one predictive insight record.
pub ghost struct PredictiveInsightV {
    pub insight_id: Seq<char>,
    pub insight_type: Seq<char>,
    pub priority: Seq<char>,
    pub title: Seq<char>,
    pub description: Seq<char>,
    pub product_id: Option<Seq<char>>,
    pub product_name: Option<Seq<char>>,
    pub confidence_score: JsonNumber,
    pub recommended_actions: Seq<JsonV>,
    pub supporting_data: JsonV,
    pub expires_at: Seq<char>,
}

impl View for PredictiveInsight {
    type V = PredictiveInsightV;

    open spec fn view(&self) -> PredictiveInsightV {
        PredictiveInsightV {
            insight_id: self.insight_id@,
            insight_type: self.insight_type@,
            priority: self.priority@,
            title: self.title@,
            description: self.description@,
            product_id: opt_string_view(self.product_id),
            product_name: opt_string_view(self.product_name),
            confidence_score: self.confidence_score,
            recommended_actions: array_view(self.recommended_actions@),
            supporting_data: self.supporting_data@,
            expires_at: self.expires_at@,
        }
    }
}

/// Which documents decode as one predictive insight record.
pub open spec fn decode_predictive_insight(v: JsonV) -> Option<PredictiveInsightV> {
    match v {
        JsonV::Object(fs) => match (
            str_field(fs, "insight_id"@),
            str_field(fs, "insight_type"@),
            str_field(fs, "priority"@),
            str_field(fs, "title"@),
            str_field(fs, "description"@),
            opt_str_field(fs, "product_id"@),
            opt_str_field(fs, "product_name"@),
        ) {
            (
                Some(insight_id),
                Some(insight_type),
                Some(priority),
                Some(title),
                Some(description),
                Some(product_id),
                Some(product_name),
            ) => match (
                num_field(fs, "confidence_score"@),
                array_field(fs, "recommended_actions"@),
                lookup_field(fs, "supporting_data"@),
                str_field(fs, "expires_at"@),
            ) {
                (Some(confidence_score), Some(recommended_actions), Some(supporting_data), Some(
                    expires_at,
                )) => Some(
                    PredictiveInsightV {
                        insight_id,
                        insight_type,
                        priority,
                        title,
                        description,
                        product_id,
                        product_name,
                        confidence_score,
                        recommended_actions,
                        supporting_data,
                        expires_at,
                    },
                ),
                _ => None,
            },
            _ => None,
        },
        _ => None,
    }
}

/// Decodes one predictive insight record.
pub fn parse_predictive_insight(v: &JsonValue) -> (r: Option<PredictiveInsight>)
    ensures
        match r {
            Some(x) => decode_predictive_insight(v@) == Some(x@),
            None => decode_predictive_insight(v@) is None,
        },
{
    let fields = match v {
        JsonValue::Object(fs) => fs,
        _ => {
            return None;
        },
    };
    let insight_id = match get_str(fields, "insight_id") {
        Some(x) => x,
        None => {
            return None;
        },
    };
    let insight_type = match get_str(fields, "insight_type") {
        Some(x) => x,
        None => {
            return None;
        },
    };
    let priority = match get_str(fields, "priority") {
        Some(x) => x,
        None => {
            return None;
        },
    };
    let title = match get_str(fields, "title") {
        Some(x) => x,
        None => {
            return None;
        },
    };
    let description = match get_str(fields, "description") {
        Some(x) => x,
        None => {
            return None;
        },
    };
    let product_id = match get_opt_str(fields, "product_id") {
        Some(x) => x,
        None => {
            return None;
        },
    };
    let product_name = match get_opt_str(fields, "product_name") {
        Some(x) => x,
        None => {
            return None;
        },
    };
    let confidence_score = match get_num(fields, "confidence_score") {
        Some(x) => x,
        None => {
            return None;
        },
    };
    let recommended_actions = match get_array(fields, "recommended_actions") {
        Some(x) => x,
        None => {
            return None;
        },
    };
    let supporting_data = match get_any(fields, "supporting_data") {
        Some(x) => x,
        None => {
            return None;
        },
    };
    let expires_at = match get_str(fields, "expires_at") {
        Some(x) => x,
        None => {
            return None;
        },
    };
    Some(
        PredictiveInsight {
            insight_id,
            insight_type,
            priority,
            title,
            description,
            product_id,
            product_name,
            confidence_score,
            recommended_actions,
            supporting_data,
            expires_at,
        },
    )
}

/// Which documents decode as a predictive insight listing.
pub open spec fn decode_predictive_insight_list(v: JsonV) -> Option<Seq<PredictiveInsightV>> {
    match v {
        JsonV::Array(els) => decode_elements(els, |e: JsonV| decode_predictive_insight(e)),
        _ => None,
    }
}

/// Decodes a predictive insight listing.
pub fn parse_predictive_insight_list(v: &JsonValue) -> (r: Option<Vec<PredictiveInsight>>)
    ensures
        match r {
            Some(ts) => decode_predictive_insight_list(v@) == Some(
                ts@.map_values(|t: PredictiveInsight| t@),
            ),
            None => decode_predictive_insight_list(v@) is None,
        },
{
    let els = match v {
        JsonValue::Array(els) => els,
        _ => {
            return None;
        },
    };
    proof {
        lemma_array_view(els@);
    }
    let ghost av = array_view(els@);
    let ghost f = |e: JsonV| decode_predictive_insight(e);
    let n = els.len();
    let mut out: Vec<PredictiveInsight> = Vec::new();
    let mut i: usize = 0;
    while i < n
        invariant
            i <= n,
            n == els@.len(),
            av == array_view(els@),
            v@ == JsonV::Array(av),
            f == (|e: JsonV| decode_predictive_insight(e)),
            av.len() == n,
            forall|j: int| #![trigger av[j]] 0 <= j < n ==> av[j] == els@[j]@,
            out@.len() == i,
            forall|j: int| #![trigger av[j]] 0 <= j < i ==> f(av[j]) == Some(out@[j]@),
        decreases n - i,
    {
        match parse_predictive_insight(&els[i]) {
            Some(x) => {
                out.push(x);
            },
            None => {
                proof {
                    assert(f(av[i as int]) is None);
                    lemma_decode_elements(av, f);
                }
                return None;
            },
        }
        i += 1;
    }
    proof {
        lemma_decode_elements(av, f);
        assert(decode_elements(av, f) matches Some(xs) && xs =~= out@.map_values(
            |t: PredictiveInsight| t@,
        ));
    }
    Some(out)
}

/// One inventory demand forecast.
#[derive(Debug)]
pub struct InventoryForecast {
    pub product_id: String,
    pub product_name: String,
    pub current_stock: i32,
    pub predicted_demand_30d: JsonNumber,
    pub predicted_demand_90d: JsonNumber,
    pub restock_recommendation: String,
    pub optimal_restock_quantity: i32,
    pub days_until_stockout: Option<i32>,
    pub confidence_level: JsonNumber,
    pub seasonal_factors: JsonValue,
}

/// The model of one inventory demand forecast.
pub ghost struct InventoryForecastV {
    pub product_id: Seq<char>,
    pub product_name: Seq<char>,
    pub current_stock: i32,
    pub predicted_demand_30d: JsonNumber,
    pub predicted_demand_90d: JsonNumber,
    pub restock_recommendation: Seq<char>,
    pub optimal_restock_quantity: i32,
    pub days_until_stockout: Option<i32>,
    pub confidence_level: JsonNumber,
    pub seasonal_factors: JsonV,
}

impl View for InventoryForecast {
    type V = InventoryForecastV;

    open spec fn view(&self) -> InventoryForecastV {
        InventoryForecastV {
            product_id: self.product_id@,
            product_name: self.product_name@,
            current_stock: self.current_stock,
            predicted_demand_30d: self.predicted_demand_30d,
            predicted_demand_90d: self.predicted_demand_90d,
            restock_recommendation: self.restock_recommendation@,
            optimal_restock_quantity: self.optimal_restock_quantity,
            days_until_stockout: self.days_until_stockout,
            confidence_level: self.confidence_level,
            seasonal_factors: self.seasonal_factors@,
        }
    }
}

/// Which documents decode as one inventory demand forecast.
pub open spec fn decode_inventory_forecast(v: JsonV) -> Option<InventoryForecastV> {
    match v {
        JsonV::Object(fs) => match (
            str_field(fs, "product_id"@),
            str_field(fs, "product_name"@),
            i32_field(fs, "current_stock"@),
            num_field(fs, "predicted_demand_30d"@),
            num_field(fs, "predicted_demand_90d"@),
        ) {
            (Some(product_id), Some(product_name), Some(current_stock), Some(
                predicted_demand_30d,
            ), Some(predicted_demand_90d)) => match (
                str_field(fs, "restock_recommendation"@),
                i32_field(fs, "optimal_restock_quantity"@),
                opt_i32_field(fs, "days_until_stockout"@),
                num_field(fs, "confidence_level"@),
                lookup_field(fs, "seasonal_factors"@),
            ) {
                (Some(restock_recommendation), Some(optimal_restock_quantity), Some(
                    days_until_stockout,
                ), Some(confidence_level), Some(seasonal_factors)) => Some(
                    InventoryForecastV {
                        product_id,
                        product_name,
                        current_stock,
                        predicted_demand_30d,
                        predicted_demand_90d,
                        restock_recommendation,
                        optimal_restock_quantity,
                        days_until_stockout,
                        confidence_level,
                        seasonal_factors,
                    },
                ),
                _ => None,
            },
            _ => None,
        },
        _ => None,
    }
}

/// Decodes one inventory demand forecast.
pub fn parse_inventory_forecast(v: &JsonValue) -> (r: Option<InventoryForecast>)
    ensures
        match r {
            Some(x) => decode_inventory_forecast(v@) == Some(x@),
            None => decode_inventory_forecast(v@) is None,
        },
{
    let fields = match v {
        JsonValue::Object(fs) => fs,
        _ => {
            return None;
        },
    };
    let product_id = match get_str(fields, "product_id") {
        Some(x) => x,
        None => {
            return None;
        },
    };
    let product_name = match get_str(fields, "product_name") {
        Some(x) => x,
        None => {
            return None;
        },
    };
    let current_stock = match get_i32(fields, "current_stock") {
        Some(x) => x,
        None => {
            return None;
        },
    };
    let predicted_demand_30d = match get_num(fields, "predicted_demand_30d") {
        Some(x) => x,
        None => {
            return None;
        },
    };
    let predicted_demand_90d = match get_num(fields, "predicted_demand_90d") {
        Some(x) => x,
        None => {
            return None;
        },
    };
    let restock_recommendation = match get_str(fields, "restock_recommendation") {
        Some(x) => x,
        None => {
            return None;
        },
    };
    let optimal_restock_quantity = match get_i32(fields, "optimal_restock_quantity") {
        Some(x) => x,
        None => {
            return None;
        },
    };
    let days_until_stockout = match get_opt_i32(fields, "days_until_stockout") {
        Some(x) => x,
        None => {
            return None;
        },
    };
    let confidence_level = match get_num(fields, "confidence_level") {
        Some(x) => x,
        None => {
            return None;
        },
    };
    let seasonal_factors = match get_any(fields, "seasonal_factors") {
        Some(x) => x,
        None => {
            return None;
        },
    };
    Some(
        InventoryForecast {
            product_id,
            product_name,
            current_stock,
            predicted_demand_30d,
            predicted_demand_90d,
            restock_recommendation,
            optimal_restock_quantity,
            days_until_stockout,
            confidence_level,
            seasonal_factors,
        },
    )
}

/// Which documents decode as an inventory forecast listing.
pub open spec fn decode_inventory_forecast_list(v: JsonV) -> Option<Seq<InventoryForecastV>> {
    match v {
        JsonV::Array(els) => decode_elements(els, |e: JsonV| decode_inventory_forecast(e)),
        _ => None,
    }
}

/// Decodes an inventory forecast listing.
pub fn parse_inventory_forecast_list(v: &JsonValue) -> (r: Option<Vec<InventoryForecast>>)
    ensures
        match r {
            Some(ts) => decode_inventory_forecast_list(v@) == Some(
                ts@.map_values(|t: InventoryForecast| t@),
            ),
            None => decode_inventory_forecast_list(v@) is None,
        },
{
    let els = match v {
        JsonValue::Array(els) => els,
        _ => {
            return None;
        },
    };
    proof {
        lemma_array_view(els@);
    }
    let ghost av = array_view(els@);
    let ghost f = |e: JsonV| decode_inventory_forecast(e);
    let n = els.len();
    let mut out: Vec<InventoryForecast> = Vec::new();
    let mut i: usize = 0;
    while i < n
        invariant
            i <= n,
            n == els@.len(),
            av == array_view(els@),
            v@ == JsonV::Array(av),
            f == (|e: JsonV| decode_inventory_forecast(e)),
            av.len() == n,
            forall|j: int| #![trigger av[j]] 0 <= j < n ==> av[j] == els@[j]@,
            out@.len() == i,
            forall|j: int| #![trigger av[j]] 0 <= j < i ==> f(av[j]) == Some(out@[j]@),
        decreases n - i,
    {
        match parse_inventory_forecast(&els[i]) {
            Some(x) => {
                out.push(x);
            },
            None => {
                proof {
                    assert(f(av[i as int]) is None);
                    lemma_decode_elements(av, f);
                }
                return None;
            },
        }
        i += 1;
    }
    proof {
        lemma_decode_elements(av, f);
        assert(decode_elements(av, f) matches Some(xs) && xs =~= out@.map_values(
            |t: InventoryForecast| t@,
        ));
    }
    Some(out)
}

/// One restocking recommendation.
#[derive(Debug, Clone, PartialEq)]
pub struct RestockRecommendation {
    pub product_id: String,
    pub product_name: String,
    pub current_stock: i32,
    pub recommended_quantity: i32,
    pub investment_required: JsonNumber,
    pub projected_revenue: JsonNumber,
    pub projected_profit: JsonNumber,
    pub roi_estimate: JsonNumber,
    pub optimal_timing: String,
    pub risk_level: String,
    pub supporting_insights: Vec<String>,
}

/// The model of one restocking recommendation.
pub ghost struct RestockRecommendationV {
    pub product_id: Seq<char>,
    pub product_name: Seq<char>,
    pub current_stock: i32,
    pub recommended_quantity: i32,
    pub investment_required: JsonNumber,
    pub projected_revenue: JsonNumber,
    pub projected_profit: JsonNumber,
    pub roi_estimate: JsonNumber,
    pub optimal_timing: Seq<char>,
    pub risk_level: Seq<char>,
    pub supporting_insights: Seq<Seq<char>>,
}

impl View for RestockRecommendation {
    type V = RestockRecommendationV;

    open spec fn view(&self) -> RestockRecommendationV {
        RestockRecommendationV {
            product_id: self.product_id@,
            product_name: self.product_name@,
            current_stock: self.current_stock,
            recommended_quantity: self.recommended_quantity,
            investment_required: self.investment_required,
            projected_revenue: self.projected_revenue,
            projected_profit: self.projected_profit,
            roi_estimate: self.roi_estimate,
            optimal_timing: self.optimal_timing@,
            risk_level: self.risk_level@,
            supporting_insights: self.supporting_insights@.map_values(|s: String| s@),
        }
    }
}

/// Which documents decode as one restocking recommendation.
pub open spec fn decode_restock_recommendation(v: JsonV) -> Option<RestockRecommendationV> {
    match v {
        JsonV::Object(fs) => match (
            str_field(fs, "product_id"@),
            str_field(fs, "product_name"@),
            i32_field(fs, "current_stock"@),
            i32_field(fs, "recommended_quantity"@),
            num_field(fs, "investment_required"@),
            num_field(fs, "projected_revenue"@),
        ) {
            (Some(product_id), Some(product_name), Some(current_stock), Some(
                recommended_quantity,
            ), Some(investment_required), Some(projected_revenue)) => match (
                num_field(fs, "projected_profit"@),
                num_field(fs, "roi_estimate"@),
                str_field(fs, "optimal_timing"@),
                str_field(fs, "risk_level"@),
                str_array_field(fs, "supporting_insights"@),
            ) {
                (Some(projected_profit), Some(roi_estimate), Some(optimal_timing), Some(
                    risk_level,
                ), Some(supporting_insights)) => Some(
                    RestockRecommendationV {
                        product_id,
                        product_name,
                        current_stock,
                        recommended_quantity,
                        investment_required,
                        projected_revenue,
                        projected_profit,
                        roi_estimate,
                        optimal_timing,
                        risk_level,
                        supporting_insights,
                    },
                ),
                _ => None,
            },
            _ => None,
        },
        _ => None,
    }
}

/// Decodes one restocking recommendation.
pub fn parse_restock_recommendation(v: &JsonValue) -> (r: Option<RestockRecommendation>)
    ensures
        match r {
            Some(x) => decode_restock_recommendation(v@) == Some(x@),
            None => decode_restock_recommendation(v@) is None,
        },
{
    let fields = match v {
        JsonValue::Object(fs) => fs,
        _ => {
            return None;
        },
    };
    let product_id = match get_str(fields, "product_id") {
        Some(x) => x,
        None => {
            return None;
        },
    };
    let product_name = match get_str(fields, "product_name") {
        Some(x) => x,
        None => {
            return None;
        },
    };
    let current_stock = match get_i32(fields, "current_stock") {
        Some(x) => x,
        None => {
            return None;
        },
    };
    let recommended_quantity = match get_i32(fields, "recommended_quantity") {
        Some(x) => x,
        None => {
            return None;
        },
    };
    let investment_required = match get_num(fields, "investment_required") {
        Some(x) => x,
        None => {
            return None;
        },
    };
    let projected_revenue = match get_num(fields, "projected_revenue") {
        Some(x) => x,
        None => {
            return None;
        },
    };
    let projected_profit = match get_num(fields, "projected_profit") {
        Some(x) => x,
        None => {
            return None;
        },
    };
    let roi_estimate = match get_num(fields, "roi_estimate") {
        Some(x) => x,
        None => {
            return None;
        },
    };
    let optimal_timing = match get_str(fields, "optimal_timing") {
        Some(x) => x,
        None => {
            return None;
        },
    };
    let risk_level = match get_str(fields, "risk_level") {
        Some(x) => x,
        None => {
            return None;
        },
    };
    let supporting_insights = match get_str_array(fields, "supporting_insights") {
        Some(x) => x,
        None => {
            return None;
        },
    };
    Some(
        RestockRecommendation {
            product_id,
            product_name,
            current_stock,
            recommended_quantity,
            investment_required,
            projected_revenue,
            projected_profit,
            roi_estimate,
            optimal_timing,
            risk_level,
            supporting_insights,
        },
    )
}

/// The aggregate predictive report.
#[derive(Debug)]
pub struct PredictiveInsightsSummary {
    pub timestamp: String,
    pub insights_generated: i32,
    pub critical_insights: i32,
    pub high_priority_insights: i32,
    pub restock_opportunities: i32,
    pub profit_optimizations: i32,
    pub market_shifts_detected: i32,
    pub seasonal_trends: i32,
    pub clearance_alerts: i32,
    pub total_potential_revenue: JsonNumber,
    pub total_potential_profit: JsonNumber,
    pub avg_forecast_confidence: JsonNumber,
    pub categories: JsonValue,
    pub recommendations: Vec<String>,
    pub next_analysis_at: String,
}

/// The model of the aggregate predictive report.
pub ghost struct PredictiveInsightsSummaryV {
    pub timestamp: Seq<char>,
    pub insights_generated: i32,
    pub critical_insights: i32,
    pub high_priority_insights: i32,
    pub restock_opportunities: i32,
    pub profit_optimizations: i32,
    pub market_shifts_detected: i32,
    pub seasonal_trends: i32,
    pub clearance_alerts: i32,
    pub total_potential_revenue: JsonNumber,
    pub total_potential_profit: JsonNumber,
    pub avg_forecast_confidence: JsonNumber,
    pub categories: JsonV,
    pub recommendations: Seq<Seq<char>>,
    pub next_analysis_at: Seq<char>,
}

impl View for PredictiveInsightsSummary {
    type V = PredictiveInsightsSummaryV;

    open spec fn view(&self) -> PredictiveInsightsSummaryV {
        PredictiveInsightsSummaryV {
            timestamp: self.timestamp@,
            insights_generated: self.insights_generated,
            critical_insights: self.critical_insights,
            high_priority_insights: self.high_priority_insights,
            restock_opportunities: self.restock_opportunities,
            profit_optimizations: self.profit_optimizations,
            market_shifts_detected: self.market_shifts_detected,
            seasonal_trends: self.seasonal_trends,
            clearance_alerts: self.clearance_alerts,
            total_potential_revenue: self.total_potential_revenue,
            total_potential_profit: self.total_potential_profit,
            avg_forecast_confidence: self.avg_forecast_confidence,
            categories: self.categories@,
            recommendations: self.recommendations@.map_values(|s: String| s@),
            next_analysis_at: self.next_analysis_at@,
        }
    }
}

/// Which documents decode as the aggregate predictive report.
pub open spec fn decode_predictive_summary(v: JsonV) -> Option<PredictiveInsightsSummaryV> {
    match v {
        JsonV::Object(fs) => match (
            str_field(fs, "timestamp"@),
            i32_field(fs, "insights_generated"@),
            i32_field(fs, "critical_insights"@),
            i32_field(fs, "high_priority_insights"@),
            i32_field(fs, "restock_opportunities"@),
            i32_field(fs, "profit_optimizations"@),
            i32_field(fs, "market_shifts_detected"@),
        ) {
            (
                Some(timestamp),
                Some(insights_generated),
                Some(critical_insights),
                Some(high_priority_insights),
                Some(restock_opportunities),
                Some(profit_optimizations),
                Some(market_shifts_detected),
            ) => match (
                i32_field(fs, "seasonal_trends"@),
                i32_field(fs, "clearance_alerts"@),
                num_field(fs, "total_potential_revenue"@),
                num_field(fs, "total_potential_profit"@),
                num_field(fs, "avg_forecast_confidence"@),
                lookup_field(fs, "categories"@),
                str_array_field(fs, "recommendations"@),
                str_field(fs, "next_analysis_at"@),
            ) {
                (
                    Some(seasonal_trends),
                    Some(clearance_alerts),
                    Some(total_potential_revenue),
                    Some(total_potential_profit),
                    Some(avg_forecast_confidence),
                    Some(categories),
                    Some(recommendations),
                    Some(next_analysis_at),
                ) => Some(
                    PredictiveInsightsSummaryV {
                        timestamp,
                        insights_generated,
                        critical_insights,
                        high_priority_insights,
                        restock_opportunities,
                        profit_optimizations,
                        market_shifts_detected,
                        seasonal_trends,
                        clearance_alerts,
                        total_potential_revenue,
                        total_potential_profit,
                        avg_forecast_confidence,
                        categories,
                        recommendations,
                        next_analysis_at,
                    },
                ),
                _ => None,
            },
            _ => None,
        },
        _ => None,
    }
}

/// Decodes the aggregate predictive report.
pub fn parse_predictive_summary(v: &JsonValue) -> (r: Option<PredictiveInsightsSummary>)
    ensures
        match r {
            Some(x) => decode_predictive_summary(v@) == Some(x@),
            None => decode_predictive_summary(v@) is None,
        },
{
    let fields = match v {
        JsonValue::Object(fs) => fs,
        _ => {
            return None;
        },
    };
    let timestamp = match get_str(fields, "timestamp") {
        Some(x) => x,
        None => {
            return None;
        },
    };
    let insights_generated = match get_i32(fields, "insights_generated") {
        Some(x) => x,
        None => {
            return None;
        },
    };
    let critical_insights = match get_i32(fields, "critical_insights") {
        Some(x) => x,
        None => {
            return None;
        },
    };
    let high_priority_insights = match get_i32(fields, "high_priority_insights") {
        Some(x) => x,
        None => {
            return None;
        },
    };
    let restock_opportunities = match get_i32(fields, "restock_opportunities") {
        Some(x) => x,
        None => {
            return None;
        },
    };
    let profit_optimizations = match get_i32(fields, "profit_optimizations") {
        Some(x) => x,
        None => {
            return None;
        },
    };
    let market_shifts_detected = match get_i32(fields, "market_shifts_detected") {
        Some(x) => x,
        None => {
            return None;
        },
    };
    let seasonal_trends = match get_i32(fields, "seasonal_trends") {
        Some(x) => x,
        None => {
            return None;
        },
    };
    let clearance_alerts = match get_i32(fields, "clearance_alerts") {
        Some(x) => x,
        None => {
            return None;
        },
    };
    let total_potential_revenue = match get_num(fields, "total_potential_revenue") {
        Some(x) => x,
        None => {
            return None;
        },
    };
    let total_potential_profit = match get_num(fields, "total_potential_profit") {
        Some(x) => x,
        None => {
            return None;
        },
    };
    let avg_forecast_confidence = match get_num(fields, "avg_forecast_confidence") {
        Some(x) => x,
        None => {
            return None;
        },
    };
    let categories = match get_any(fields, "categories") {
        Some(x) => x,
        None => {
            return None;
        },
    };
    let recommendations = match get_str_array(fields, "recommendations") {
        Some(x) => x,
        None => {
            return None;
        },
    };
    let next_analysis_at = match get_str(fields, "next_analysis_at") {
        Some(x) => x,
        None => {
            return None;
        },
    };
    Some(
        PredictiveInsightsSummary {
            timestamp,
            insights_generated,
            critical_insights,
            high_priority_insights,
            restock_opportunities,
            profit_optimizations,
            market_shifts_detected,
            seasonal_trends,
            clearance_alerts,
            total_potential_revenue,
            total_potential_profit,
            avg_forecast_confidence,
            categories,
            recommendations,
            next_analysis_at,
        },
    )
}

/// Which documents decode as a restocking recommendation listing.
pub open spec fn decode_restock_list(v: JsonV) -> Option<Seq<RestockRecommendationV>> {
    match v {
        JsonV::Array(els) => decode_elements(els, |e: JsonV| decode_restock_recommendation(e)),
        _ => None,
    }
}

/// Decodes a restocking recommendation listing.
pub fn parse_restock_list(v: &JsonValue) -> (r: Option<Vec<RestockRecommendation>>)
    ensures
        match r {
            Some(ts) => decode_restock_list(v@) == Some(
                ts@.map_values(|t: RestockRecommendation| t@),
            ),
            None => decode_restock_list(v@) is None,
        },
{
    let els = match v {
        JsonValue::Array(els) => els,
        _ => {
            return None;
        },
    };
    proof {
        lemma_array_view(els@);
    }
    let ghost av = array_view(els@);
    let ghost f = |e: JsonV| decode_restock_recommendation(e);
    let n = els.len();
    let mut out: Vec<RestockRecommendation> = Vec::new();
    let mut i: usize = 0;
    while i < n
        invariant
            i <= n,
            n == els@.len(),
            av == array_view(els@),
            v@ == JsonV::Array(av),
            f == (|e: JsonV| decode_restock_recommendation(e)),
            av.len() == n,
            forall|j: int| #![trigger av[j]] 0 <= j < n ==> av[j] == els@[j]@,
            out@.len() == i,
            forall|j: int| #![trigger av[j]] 0 <= j < i ==> f(av[j]) == Some(out@[j]@),
        decreases n - i,
    {
        match parse_restock_recommendation(&els[i]) {
            Some(x) => {
                out.push(x);
            },
            None => {
                proof {
                    assert(f(av[i as int]) is None);
                    lemma_decode_elements(av, f);
                }
                return None;
            },
        }
        i += 1;
    }
    proof {
        lemma_decode_elements(av, f);
        assert(decode_elements(av, f) matches Some(xs) && xs =~= out@.map_values(
            |t: RestockRecommendation| t@,
        ));
    }
    Some(out)
}

} // verus!

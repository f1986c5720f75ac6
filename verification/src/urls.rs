//! Request URLs for every backend endpoint.
//!
//! Each builder states the exact character sequence it produces from the base
//! address and the call's parameters.  Optional query parameters follow the
//! order the backend expects.

use vstd::prelude::*;
use vstd::string::StrSliceExecFns;
use vstd::string::StringExecFns;

use crate::ids::parse_uuid;
use crate::ids::uuid_hyphenated;
use crate::ids::uuid_hyphenated_of;
use crate::ids::uuid_of;
use crate::numerals::dec_int;
use crate::numerals::push_dec_i64;

verus! {

/// The fixed local address of the backend.
pub const DEFAULT_BASE_URL: &'static str = "http://localhost:8000";

/// The view of an optional borrowed string.
pub open spec fn opt_str_view(o: Option<&str>) -> Option<Seq<char>> {
    match o {
        Some(s) => Some(s@),
        None => None,
    }
}

/// An optional `key=value` query parameter with an integer value.
pub open spec fn opt_i32_param(key: Seq<char>, v: Option<i32>) -> Seq<char> {
    match v {
        Some(l) => key + dec_int(l as int),
        None => Seq::empty(),
    }
}

/// The query string of a listing endpoint: an optional status filter, then an
/// optional limit.
pub open spec fn listing_params(status: Option<Seq<char>>, limit: Option<i32>) -> Seq<char> {
    match (status, limit) {
        (None, None) => Seq::empty(),
        (Some(st), None) => "?status="@ + st,
        (None, Some(l)) => "?limit="@ + dec_int(l as int),
        (Some(st), Some(l)) => "?status="@ + st + "&limit="@ + dec_int(l as int),
    }
}

/// One `key=value` pair of a query string.
pub open spec fn pair_text(p: (Seq<char>, Seq<char>)) -> Seq<char> {
    p.0 + "="@ + p.1
}

/// `key=value` pairs joined with ampersands.
pub open spec fn pairs_joined(ps: Seq<(Seq<char>, Seq<char>)>) -> Seq<char>
    decreases ps.len(),
{
    if ps.len() == 0 {
        Seq::empty()
    } else if ps.len() == 1 {
        pair_text(ps[0])
    } else {
        pairs_joined(ps.drop_last()) + "&"@ + pair_text(ps.last())
    }
}

/// The query string carrying a filter list: empty when there are no filters.
pub open spec fn filter_params(ps: Seq<(Seq<char>, Seq<char>)>) -> Seq<char> {
    if ps.len() == 0 {
        Seq::empty()
    } else {
        "?"@ + pairs_joined(ps)
    }
}

/// The views of a filter list.
pub open spec fn filters_view(fs: Seq<(String, String)>) -> Seq<(Seq<char>, Seq<char>)> {
    fs.map_values(|q: (String, String)| (q.0@, q.1@))
}

/// One repeated `product_ids` parameter.
pub open spec fn id_text(id: Seq<char>) -> Seq<char> {
    "product_ids="@ + id
}

/// Repeated `product_ids` parameters joined with ampersands.
pub open spec fn ids_joined(ids: Seq<Seq<char>>) -> Seq<char>
    decreases ids.len(),
{
    if ids.len() == 0 {
        Seq::empty()
    } else if ids.len() == 1 {
        id_text(ids[0])
    } else {
        ids_joined(ids.drop_last()) + "&"@ + id_text(ids.last())
    }
}

/// The query string of the enrichment start endpoint.
pub open spec fn enrich_params(ids: Option<Seq<Seq<char>>>) -> Seq<char> {
    match ids {
        None => Seq::empty(),
        Some(v) => if v.len() == 0 {
            Seq::empty()
        } else {
            "?"@ + ids_joined(v)
        },
    }
}

/// The base address followed by a fixed path.
pub fn join2(a: &str, b: &str) -> (r: String)
    ensures
        r@ == a@ + b@,
{
    let mut s = a.to_owned();
    s.append(b);
    s
}

/// The health endpoint.
pub fn health_url(base: &str) -> (r: String)
    ensures
        r@ == base@ + "/health"@,
{
    join2(base, "/health")
}

/// The inventory listing endpoint, with an optional item limit.
pub fn inventory_url(base: &str, limit: Option<i32>) -> (r: String)
    ensures
        r@ == base@ + "/api/v1/inventory"@ + opt_i32_param("?limit="@, limit),
{
    let mut s = join2(base, "/api/v1/inventory");
    if let Some(l) = limit {
        s.append("?limit=");
        push_dec_i64(&mut s, l as i64);
    }
    proof {
        assert(s@ =~= base@ + "/api/v1/inventory"@ + opt_i32_param("?limit="@, limit));
    }
    s
}

/// The product statistics endpoint.
pub fn product_stats_url(base: &str) -> (r: String)
    ensures
        r@ == base@ + "/api/v1/products/stats"@,
{
    join2(base, "/api/v1/products/stats")
}

/// The import start endpoint.
pub fn import_stockx_url(base: &str) -> (r: String)
    ensures
        r@ == base@ + "/api/v1/integration/stockx/import"@,
{
    join2(base, "/api/v1/integration/stockx/import")
}

/// The import status endpoint for one job.  The identifier must parse as a
/// UUID; its canonical hyphenated form is spliced into the path.
pub fn import_status_url(base: &str, batch_id: &str) -> (r: Result<String, String>)
    ensures
        r is Ok <==> uuid_of(batch_id@) is Some,
        r matches Ok(u) ==> u@ == base@ + "/api/v1/integration/import/"@ + uuid_hyphenated_of(
            uuid_of(batch_id@).unwrap(),
        ) + "/status"@,
        r matches Err(m) ==> m@ == "Invalid batch ID: not a valid UUID"@,
{
    match parse_uuid(batch_id) {
        Some(bytes) => {
            let mut s = join2(base, "/api/v1/integration/import/");
            let hy = uuid_hyphenated(&bytes);
            s.append(hy.as_str());
            s.append("/status");
            proof {
                assert(s@ =~= base@ + "/api/v1/integration/import/"@ + uuid_hyphenated_of(
                    uuid_of(batch_id@).unwrap(),
                ) + "/status"@);
            }
            Ok(s)
        },
        None => Err("Invalid batch ID: not a valid UUID".to_owned()),
    }
}

/// The dashboard metrics endpoint.
pub fn dashboard_metrics_url(base: &str) -> (r: String)
    ensures
        r@ == base@ + "/api/v1/dashboard/metrics"@,
{
    join2(base, "/api/v1/dashboard/metrics")
}

/// The administrative query endpoint.
pub fn admin_query_url(base: &str) -> (r: String)
    ensures
        r@ == base@ + "/api/v1/admin/query"@,
{
    join2(base, "/api/v1/admin/query")
}

/// The CSV export endpoint for one table, with `key=value` filters.
pub fn export_csv_url(base: &str, table: &str, filters: &Vec<(String, String)>) -> (r: String)
    ensures
        r@ == base@ + "/api/v1/export/csv/"@ + table@ + filter_params(filters_view(filters@)),
{
    let mut s = join2(base, "/api/v1/export/csv/");
    s.append(table);
    let n = filters.len();
    if n > 0 {
        s.append("?");
        let mut i: usize = 0;
        proof {
            reveal_strlit("?");
        }
        while i < n
            invariant
                i <= n,
                n == filters@.len(),
                n > 0,
                filters_view(filters@).len() == n,
                forall|j: int|
                    #![trigger filters_view(filters@)[j]]
                    0 <= j < n ==> filters_view(filters@)[j] == (filters@[j].0@, filters@[j].1@),
                i > 0 ==> s@ == base@ + "/api/v1/export/csv/"@ + table@ + "?"@ + pairs_joined(
                    filters_view(filters@).take(i as int),
                ),
                i == 0 ==> s@ == base@ + "/api/v1/export/csv/"@ + table@ + "?"@,
            decreases n - i,
        {
            if i > 0 {
                s.append("&");
            }
            s.append(filters[i].0.as_str());
            s.append("=");
            s.append(filters[i].1.as_str());
            proof {
                let fv = filters_view(filters@);
                assert(fv.take(i + 1).drop_last() =~= fv.take(i as int));
                assert(fv.take(i + 1).last() == fv[i as int]);
                if i == 0 {
                    assert(pairs_joined(fv.take(1)) == pair_text(fv[0]));
                }
                assert(s@ =~= base@ + "/api/v1/export/csv/"@ + table@ + "?"@ + pairs_joined(
                    fv.take(i + 1),
                ));
            }
            i += 1;
        }
        proof {
            let fv = filters_view(filters@);
            assert(fv.take(n as int) =~= fv);
            assert(s@ =~= base@ + "/api/v1/export/csv/"@ + table@ + filter_params(fv));
        }
    } else {
        proof {
            assert(s@ =~= base@ + "/api/v1/export/csv/"@ + table@ + filter_params(
                filters_view(filters@),
            ));
        }
    }
    s
}

/// The enrichment status endpoint.
pub fn enrichment_status_url(base: &str) -> (r: String)
    ensures
        r@ == base@ + "/api/v1/products/enrichment/status"@,
{
    join2(base, "/api/v1/products/enrichment/status")
}

/// The enrichment start endpoint, with optional repeated product identifiers.
pub fn enrich_url(base: &str, product_ids: Option<&Vec<String>>) -> (r: String)
    ensures
        r@ == base@ + "/api/v1/products/enrich"@ + enrich_params(
            match product_ids {
                Some(ids) => Some(ids@.map_values(|s: String| s@)),
                None => None,
            },
        ),
{
    let mut s = join2(base, "/api/v1/products/enrich");
    let ghost head = base@ + "/api/v1/products/enrich"@;
    if let Some(ids) = product_ids {
        let n = ids.len();
        if n > 0 {
            s.append("?");
            proof {
                reveal_strlit("?");
            }
            let mut i: usize = 0;
            while i < n
                invariant
                    i <= n,
                    n == ids@.len(),
                    n > 0,
                    head == base@ + "/api/v1/products/enrich"@,
                    ids@.map_values(|q: String| q@).len() == n,
                    forall|j: int|
                        #![trigger ids@[j]]
                        0 <= j < n ==> ids@.map_values(|q: String| q@)[j] == ids@[j]@,
                    i > 0 ==> s@ == head + "?"@ + ids_joined(
                        ids@.map_values(|q: String| q@).take(i as int),
                    ),
                    i == 0 ==> s@ == head + "?"@,
                decreases n - i,
            {
                if i > 0 {
                    s.append("&");
                }
                s.append("product_ids=");
                s.append(ids[i].as_str());
                proof {
                    let iv = ids@.map_values(|q: String| q@);
                    assert(iv.take(i + 1).drop_last() =~= iv.take(i as int));
                    assert(iv.take(i + 1).last() == iv[i as int]);
                    if i == 0 {
                        assert(ids_joined(iv.take(1)) == id_text(iv[0]));
                    }
                    assert(s@ =~= head + "?"@ + ids_joined(iv.take(i + 1)));
                }
                i += 1;
            }
            proof {
                let iv = ids@.map_values(|q: String| q@);
                assert(iv.take(n as int) =~= iv);
                assert(s@ =~= head + enrich_params(Some(iv)));
            }
        } else {
            proof {
                assert(s@ =~= head + enrich_params(Some(ids@.map_values(|q: String| q@))));
            }
        }
    } else {
        proof {
            assert(s@ =~= head + enrich_params(None));
        }
    }
    s
}

/// The pricing recommendation endpoint.
pub fn pricing_recommend_url(base: &str) -> (r: String)
    ensures
        r@ == base@ + "/api/v1/pricing/recommend"@,
{
    join2(base, "/api/v1/pricing/recommend")
}

/// The market analysis endpoint for one product.
pub fn market_analysis_url(base: &str, product_id: &str) -> (r: String)
    ensures
        r@ == base@ + "/api/v1/pricing/market-analysis/"@ + product_id@,
{
    let mut s = join2(base, "/api/v1/pricing/market-analysis/");
    s.append(product_id);
    s
}

/// The pricing insights endpoint.
pub fn pricing_insights_url(base: &str) -> (r: String)
    ensures
        r@ == base@ + "/api/v1/pricing/insights"@,
{
    join2(base, "/api/v1/pricing/insights")
}

/// The pricing strategies endpoint.
pub fn pricing_strategies_url(base: &str) -> (r: String)
    ensures
        r@ == base@ + "/api/v1/pricing/strategies"@,
{
    join2(base, "/api/v1/pricing/strategies")
}

/// The sales forecast endpoint.
pub fn forecast_sales_url(base: &str) -> (r: String)
    ensures
        r@ == base@ + "/api/v1/analytics/forecast/sales"@,
{
    join2(base, "/api/v1/analytics/forecast/sales")
}

/// The market trends endpoint, with an optional look-back window.
pub fn market_trends_url(base: &str, days_back: Option<i32>) -> (r: String)
    ensures
        r@ == base@ + "/api/v1/analytics/trends/market"@ + opt_i32_param(
            "?days_back="@,
            days_back,
        ),
{
    let mut s = join2(base, "/api/v1/analytics/trends/market");
    if let Some(d) = days_back {
        s.append("?days_back=");
        push_dec_i64(&mut s, d as i64);
    }
    proof {
        assert(s@ =~= base@ + "/api/v1/analytics/trends/market"@ + opt_i32_param(
            "?days_back="@,
            days_back,
        ));
    }
    s
}

/// The forecast models endpoint.
pub fn forecast_models_url(base: &str) -> (r: String)
    ensures
        r@ == base@ + "/api/v1/analytics/models"@,
{
    join2(base, "/api/v1/analytics/models")
}

/// The predictive business insights endpoint.
pub fn predictive_overview_url(base: &str) -> (r: String)
    ensures
        r@ == base@ + "/api/v1/analytics/insights/predictive"@,
{
    join2(base, "/api/v1/analytics/insights/predictive")
}

/// A marketplace listing query with optional status and limit parameters.
fn listings_url(base: &str, path: &str, status: Option<&str>, limit: Option<i32>) -> (r: String)
    ensures
        r@ == base@ + path@ + listing_params(opt_str_view(status), limit),
{
    let mut s = join2(base, path);
    match (status, limit) {
        (None, None) => {},
        (Some(st), None) => {
            s.append("?status=");
            s.append(st);
        },
        (None, Some(l)) => {
            s.append("?limit=");
            push_dec_i64(&mut s, l as i64);
        },
        (Some(st), Some(l)) => {
            s.append("?status=");
            s.append(st);
            s.append("&limit=");
            push_dec_i64(&mut s, l as i64);
        },
    }
    proof {
        assert(s@ =~= base@ + path@ + listing_params(opt_str_view(status), limit));
    }
    s
}

/// The marketplace listing query of the primary marketplace.
pub fn stockx_listings_url(base: &str, status: Option<&str>, limit: Option<i32>) -> (r: String)
    ensures
        r@ == base@ + "/api/v1/inventory/stockx-listings"@ + listing_params(
            opt_str_view(status),
            limit,
        ),
{
    listings_url(base, "/api/v1/inventory/stockx-listings", status, limit)
}

/// The marketplace listing query of the secondary marketplace.
pub fn alias_listings_url(base: &str, status: Option<&str>, limit: Option<i32>) -> (r: String)
    ensures
        r@ == base@ + "/api/v1/inventory/alias-listings"@ + listing_params(
            opt_str_view(status),
            limit,
        ),
{
    listings_url(base, "/api/v1/inventory/alias-listings", status, limit)
}

/// The listing creation endpoint for one inventory item.
pub fn create_stockx_listing_url(base: &str, item_id: &str) -> (r: String)
    ensures
        r@ == base@ + "/api/v1/inventory/items/"@ + item_id@ + "/stockx-listing"@,
{
    let mut s = join2(base, "/api/v1/inventory/items/");
    s.append(item_id);
    s.append("/stockx-listing");
    s
}

/// The marketplace synchronisation endpoint.
pub fn sync_from_stockx_url(base: &str) -> (r: String)
    ensures
        r@ == base@ + "/api/v1/inventory/sync-from-stockx"@,
{
    join2(base, "/api/v1/inventory/sync-from-stockx")
}

/// The system status endpoint.
pub fn system_status_url(base: &str) -> (r: String)
    ensures
        r@ == base@ + "/api/v1/system/status"@,
{
    join2(base, "/api/v1/system/status")
}

/// The smart pricing optimisation endpoint, with its strategy and item limit.
pub fn optimize_pricing_url(base: &str, strategy: &str, limit: i32) -> (r: String)
    ensures
        r@ == base@ + "/api/v1/pricing/smart/optimize-inventory?strategy="@ + strategy@
            + "&limit="@ + dec_int(limit as int),
{
    let mut s = join2(base, "/api/v1/pricing/smart/optimize-inventory?strategy=");
    s.append(strategy);
    s.append("&limit=");
    push_dec_i64(&mut s, limit as i64);
    s
}

/// The automatic repricing status endpoint.
pub fn auto_repricing_status_url(base: &str) -> (r: String)
    ensures
        r@ == base@ + "/api/v1/pricing/smart/auto-repricing/status"@,
{
    join2(base, "/api/v1/pricing/smart/auto-repricing/status")
}

/// The automatic repricing toggle endpoint.
pub fn auto_repricing_toggle_url(base: &str) -> (r: String)
    ensures
        r@ == base@ + "/api/v1/pricing/smart/auto-repricing/toggle"@,
{
    join2(base, "/api/v1/pricing/smart/auto-repricing/toggle")
}

/// The smart market trends endpoint.
pub fn smart_market_trends_url(base: &str) -> (r: String)
    ensures
        r@ == base@ + "/api/v1/pricing/smart/market-trends"@,
{
    join2(base, "/api/v1/pricing/smart/market-trends")
}

/// The automatic listing status endpoint.
pub fn auto_listing_status_url(base: &str) -> (r: String)
    ensures
        r@ == base@ + "/api/v1/pricing/auto-listing/status"@,
{
    join2(base, "/api/v1/pricing/auto-listing/status")
}

/// The automatic listing execution endpoint.
pub fn auto_listing_execute_url(base: &str) -> (r: String)
    ensures
        r@ == base@ + "/api/v1/pricing/auto-listing/execute"@,
{
    join2(base, "/api/v1/pricing/auto-listing/execute")
}

/// The automatic listing simulation endpoint, with its item cap and an
/// optional rule name.
pub fn auto_listing_simulate_url(base: &str, rule_name: Option<&str>, max_items: i32) -> (r:
    String)
    ensures
        r@ == base@ + "/api/v1/pricing/auto-listing/simulate?max_items="@ + dec_int(
            max_items as int,
        ) + match rule_name {
            Some(rn) => "&rule_name="@ + rn@,
            None => Seq::<char>::empty(),
        },
{
    let mut s = join2(base, "/api/v1/pricing/auto-listing/simulate?max_items=");
    push_dec_i64(&mut s, max_items as i64);
    if let Some(rn) = rule_name {
        s.append("&rule_name=");
        s.append(rn);
    }
    proof {
        assert(s@ =~= base@ + "/api/v1/pricing/auto-listing/simulate?max_items="@ + dec_int(
            max_items as int,
        ) + match rule_name {
            Some(rn) => "&rule_name="@ + rn@,
            None => Seq::<char>::empty(),
        });
    }
    s
}

/// The listing rule toggle endpoint.
pub fn toggle_rule_url(base: &str) -> (r: String)
    ensures
        r@ == base@ + "/api/v1/pricing/auto-listing/toggle-rule"@,
{
    join2(base, "/api/v1/pricing/auto-listing/toggle-rule")
}

/// The dead stock summary endpoint.
pub fn dead_stock_summary_url(base: &str) -> (r: String)
    ensures
        r@ == base@ + "/api/v1/pricing/dead-stock/summary"@,
{
    join2(base, "/api/v1/pricing/dead-stock/summary")
}

/// The dead stock analysis endpoint.
pub fn dead_stock_analyze_url(base: &str) -> (r: String)
    ensures
        r@ == base@ + "/api/v1/pricing/dead-stock/analyze"@,
{
    join2(base, "/api/v1/pricing/dead-stock/analyze")
}

/// The clearance execution endpoint.
pub fn clearance_url(base: &str) -> (r: String)
    ensures
        r@ == base@ + "/api/v1/pricing/dead-stock/clearance"@,
{
    join2(base, "/api/v1/pricing/dead-stock/clearance")
}

/// The risk level definitions endpoint.
pub fn risk_levels_url(base: &str) -> (r: String)
    ensures
        r@ == base@ + "/api/v1/pricing/dead-stock/risk-levels"@,
{
    join2(base, "/api/v1/pricing/dead-stock/risk-levels")
}

/// The dead stock trends endpoint.
pub fn dead_stock_trends_url(base: &str) -> (r: String)
    ensures
        r@ == base@ + "/api/v1/pricing/dead-stock/trends"@,
{
    join2(base, "/api/v1/pricing/dead-stock/trends")
}

/// The predictive insight list endpoint, with its horizon, item limit and an
/// optional type filter.
pub fn predictive_insights_url(
    base: &str,
    insight_types: Option<&str>,
    days_ahead: i32,
    limit: i32,
) -> (r: String)
    ensures
        r@ == base@ + "/api/v1/pricing/predictive/insights?days_ahead="@ + dec_int(
            days_ahead as int,
        ) + "&limit="@ + dec_int(limit as int) + match insight_types {
            Some(t) => "&insight_types="@ + t@,
            None => Seq::<char>::empty(),
        },
{
    let mut s = join2(base, "/api/v1/pricing/predictive/insights?days_ahead=");
    push_dec_i64(&mut s, days_ahead as i64);
    s.append("&limit=");
    push_dec_i64(&mut s, limit as i64);
    if let Some(t) = insight_types {
        s.append("&insight_types=");
        s.append(t);
    }
    proof {
        assert(s@ =~= base@ + "/api/v1/pricing/predictive/insights?days_ahead="@ + dec_int(
            days_ahead as int,
        ) + "&limit="@ + dec_int(limit as int) + match insight_types {
            Some(t) => "&insight_types="@ + t@,
            None => Seq::<char>::empty(),
        });
    }
    s
}

/// The inventory forecast endpoint, with its horizon and an optional product
/// filter.
pub fn inventory_forecasts_url(base: &str, product_ids: Option<&str>, horizon_days: i32) -> (r:
    String)
    ensures
        r@ == base@ + "/api/v1/pricing/predictive/forecasts?horizon_days="@ + dec_int(
            horizon_days as int,
        ) + match product_ids {
            Some(ids) => "&product_ids="@ + ids@,
            None => Seq::<char>::empty(),
        },
{
    let mut s = join2(base, "/api/v1/pricing/predictive/forecasts?horizon_days=");
    push_dec_i64(&mut s, horizon_days as i64);
    if let Some(ids) = product_ids {
        s.append("&product_ids=");
        s.append(ids);
    }
    proof {
        assert(s@ =~= base@ + "/api/v1/pricing/predictive/forecasts?horizon_days="@ + dec_int(
            horizon_days as int,
        ) + match product_ids {
            Some(ids) => "&product_ids="@ + ids@,
            None => Seq::<char>::empty(),
        });
    }
    s
}

/// The restocking recommendation endpoint.  The two rate parameters are
/// decimal renderings supplied by the caller, since the library does not
/// interpret non-integral numbers.
pub fn restock_recommendations_url(
    base: &str,
    investment_budget: Option<&str>,
    min_roi: &str,
    max_products: i32,
) -> (r: String)
    ensures
        r@ == base@ + "/api/v1/pricing/predictive/restock-recommendations?min_roi="@ + min_roi@
            + "&max_products="@ + dec_int(max_products as int) + match investment_budget {
            Some(b) => "&investment_budget="@ + b@,
            None => Seq::<char>::empty(),
        },
{
    let mut s = join2(base, "/api/v1/pricing/predictive/restock-recommendations?min_roi=");
    s.append(min_roi);
    s.append("&max_products=");
    push_dec_i64(&mut s, max_products as i64);
    if let Some(b) = investment_budget {
        s.append("&investment_budget=");
        s.append(b);
    }
    proof {
        assert(s@ =~= base@ + "/api/v1/pricing/predictive/restock-recommendations?min_roi="@
            + min_roi@ + "&max_products="@ + dec_int(max_products as int)
            + match investment_budget {
            Some(b) => "&investment_budget="@ + b@,
            None => Seq::<char>::empty(),
        });
    }
    s
}

/// The predictive summary endpoint.
pub fn predictive_summary_url(base: &str) -> (r: String)
    ensures
        r@ == base@ + "/api/v1/pricing/predictive/summary"@,
{
    join2(base, "/api/v1/pricing/predictive/summary")
}

} // verus!

//! Dashboard metrics: the backend's report and the simplified summary the
//! display layer receives.
//!
//! The backend reports nested inventory, sales, system and performance
//! sections; the command surface reduces them to a flat summary, filling the
//! figures it does not compute with zeroes.

use vstd::prelude::*;

use crate::json::JsonNumber;
use crate::json::JsonV;
use crate::json::JsonValue;
use crate::json::array_field;
use crate::json::array_view;
use crate::json::fields_view;
use crate::json::get_array;
use crate::json::get_field;
use crate::json::get_i64;
use crate::json::get_num;
use crate::json::get_obj;
use crate::json::get_str;
use crate::json::i64_field;
use crate::json::lookup_field;
use crate::json::num_field;
use crate::json::obj_field;
use crate::json::str_field;

verus! {

/// The inventory section of the backend's metrics report.
#[derive(Debug)]
pub struct InventoryMetrics {
    pub total_items: i64,
    pub items_in_stock: i64,
    pub items_sold: i64,
    pub items_listed: i64,
    pub total_inventory_value: JsonNumber,
    pub average_purchase_price: JsonNumber,
    pub top_brands: Vec<JsonValue>,
    pub status_breakdown: Vec<(String, JsonValue)>,
}

/// The model of the inventory section.
pub ghost struct InventoryMetricsV {
    pub total_items: i64,
    pub items_in_stock: i64,
    pub items_sold: i64,
    pub items_listed: i64,
    pub total_inventory_value: JsonNumber,
    pub average_purchase_price: JsonNumber,
    pub top_brands: Seq<JsonV>,
    pub status_breakdown: Seq<(Seq<char>, JsonV)>,
}

impl View for InventoryMetrics {
    type V = InventoryMetricsV;

    open spec fn view(&self) -> InventoryMetricsV {
        InventoryMetricsV {
            total_items: self.total_items,
            items_in_stock: self.items_in_stock,
            items_sold: self.items_sold,
            items_listed: self.items_listed,
            total_inventory_value: self.total_inventory_value,
            average_purchase_price: self.average_purchase_price,
            top_brands: array_view(self.top_brands@),
            status_breakdown: fields_view(self.status_breakdown@),
        }
    }
}

/// Which documents decode as the inventory section, and to what.
pub open spec fn decode_inventory_metrics(v: JsonV) -> Option<InventoryMetricsV> {
    match v {
        JsonV::Object(fs) => match (
            i64_field(fs, "total_items"@),
            i64_field(fs, "items_in_stock"@),
            i64_field(fs, "items_sold"@),
            i64_field(fs, "items_listed"@),
            num_field(fs, "total_inventory_value"@),
            num_field(fs, "average_purchase_price"@),
            array_field(fs, "top_brands"@),
            obj_field(fs, "status_breakdown"@),
        ) {
            (
                Some(total_items),
                Some(items_in_stock),
                Some(items_sold),
                Some(items_listed),
                Some(total_inventory_value),
                Some(average_purchase_price),
                Some(top_brands),
                Some(status_breakdown),
            ) => Some(
                InventoryMetricsV {
                    total_items,
                    items_in_stock,
                    items_sold,
                    items_listed,
                    total_inventory_value,
                    average_purchase_price,
                    top_brands,
                    status_breakdown,
                },
            ),
            _ => None,
        },
        _ => None,
    }
}

/// Decodes the inventory section.
pub fn parse_inventory_metrics(v: &JsonValue) -> (r: Option<InventoryMetrics>)
    ensures
        match r {
            Some(x) => decode_inventory_metrics(v@) == Some(x@),
            None => decode_inventory_metrics(v@) is None,
        },
{
    let fields = match v {
        JsonValue::Object(fs) => fs,
        _ => {
            return None;
        },
    };
    let total_items = match get_i64(fields, "total_items") {
        Some(x) => x,
        None => {
            return None;
        },
    };
    let items_in_stock = match get_i64(fields, "items_in_stock") {
        Some(x) => x,
        None => {
            return None;
        },
    };
    let items_sold = match get_i64(fields, "items_sold") {
        Some(x) => x,
        None => {
            return None;
        },
    };
    let items_listed = match get_i64(fields, "items_listed") {
        Some(x) => x,
        None => {
            return None;
        },
    };
    let total_inventory_value = match get_num(fields, "total_inventory_value") {
        Some(x) => x,
        None => {
            return None;
        },
    };
    let average_purchase_price = match get_num(fields, "average_purchase_price") {
        Some(x) => x,
        None => {
            return None;
        },
    };
    let top_brands = match get_array(fields, "top_brands") {
        Some(x) => x,
        None => {
            return None;
        },
    };
    let status_breakdown = match get_obj(fields, "status_breakdown") {
        Some(x) => x,
        None => {
            return None;
        },
    };
    Some(
        InventoryMetrics {
            total_items,
            items_in_stock,
            items_sold,
            items_listed,
            total_inventory_value,
            average_purchase_price,
            top_brands,
            status_breakdown,
        },
    )
}

/// The sales section of the backend's metrics report.
#[derive(Debug)]
pub struct SalesMetrics {
    pub recent_activity: Vec<JsonValue>,
}

/// The model of the sales section.
pub ghost struct SalesMetricsV {
    pub recent_activity: Seq<JsonV>,
}

impl View for SalesMetrics {
    type V = SalesMetricsV;

    open spec fn view(&self) -> SalesMetricsV {
        SalesMetricsV { recent_activity: array_view(self.recent_activity@) }
    }
}

/// Which documents decode as the sales section, and to what.
pub open spec fn decode_sales_metrics(v: JsonV) -> Option<SalesMetricsV> {
    match v {
        JsonV::Object(fs) => match array_field(fs, "recent_activity"@) {
            Some(recent_activity) => Some(SalesMetricsV { recent_activity }),
            None => None,
        },
        _ => None,
    }
}

/// Decodes the sales section.
pub fn parse_sales_metrics(v: &JsonValue) -> (r: Option<SalesMetrics>)
    ensures
        match r {
            Some(x) => decode_sales_metrics(v@) == Some(x@),
            None => decode_sales_metrics(v@) is None,
        },
{
    let fields = match v {
        JsonValue::Object(fs) => fs,
        _ => {
            return None;
        },
    };
    let recent_activity = match get_array(fields, "recent_activity") {
        Some(x) => x,
        None => {
            return None;
        },
    };
    Some(SalesMetrics { recent_activity })
}

/// The system section of the backend's metrics report.
#[derive(Debug, Clone, PartialEq)]
pub struct SystemMetrics {
    pub status: String,
    pub uptime_seconds: JsonNumber,
    pub environment: String,
    pub version: String,
}

/// The model of the system section.
pub ghost struct SystemMetricsV {
    pub status: Seq<char>,
    pub uptime_seconds: JsonNumber,
    pub environment: Seq<char>,
    pub version: Seq<char>,
}

impl View for SystemMetrics {
    type V = SystemMetricsV;

    open spec fn view(&self) -> SystemMetricsV {
        SystemMetricsV {
            status: self.status@,
            uptime_seconds: self.uptime_seconds,
            environment: self.environment@,
            version: self.version@,
        }
    }
}

/// Which documents decode as the system section, and to what.
pub open spec fn decode_system_metrics(v: JsonV) -> Option<SystemMetricsV> {
    match v {
        JsonV::Object(fs) => match (
            str_field(fs, "status"@),
            num_field(fs, "uptime_seconds"@),
            str_field(fs, "environment"@),
            str_field(fs, "version"@),
        ) {
            (Some(status), Some(uptime_seconds), Some(environment), Some(version)) => Some(
                SystemMetricsV { status, uptime_seconds, environment, version },
            ),
            _ => None,
        },
        _ => None,
    }
}

/// Decodes the system section.
pub fn parse_system_metrics(v: &JsonValue) -> (r: Option<SystemMetrics>)
    ensures
        match r {
            Some(x) => decode_system_metrics(v@) == Some(x@),
            None => decode_system_metrics(v@) is None,
        },
{
    let fields = match v {
        JsonValue::Object(fs) => fs,
        _ => {
            return None;
        },
    };
    let status = match get_str(fields, "status") {
        Some(x) => x,
        None => {
            return None;
        },
    };
    let uptime_seconds = match get_num(fields, "uptime_seconds") {
        Some(x) => x,
        None => {
            return None;
        },
    };
    let environment = match get_str(fields, "environment") {
        Some(x) => x,
        None => {
            return None;
        },
    };
    let version = match get_str(fields, "version") {
        Some(x) => x,
        None => {
            return None;
        },
    };
    Some(SystemMetrics { status, uptime_seconds, environment, version })
}

/// The performance section of the backend's metrics report.
#[derive(Debug, Clone, PartialEq)]
pub struct PerformanceMetrics {
    pub total_requests: i64,
    pub error_rate: JsonNumber,
    pub avg_response_time: JsonNumber,
}

/// The model of the performance section.
pub ghost struct PerformanceMetricsV {
    pub total_requests: i64,
    pub error_rate: JsonNumber,
    pub avg_response_time: JsonNumber,
}

impl View for PerformanceMetrics {
    type V = PerformanceMetricsV;

    open spec fn view(&self) -> PerformanceMetricsV {
        PerformanceMetricsV {
            total_requests: self.total_requests,
            error_rate: self.error_rate,
            avg_response_time: self.avg_response_time,
        }
    }
}

/// Which documents decode as the performance section, and to what.
pub open spec fn decode_performance_metrics(v: JsonV) -> Option<PerformanceMetricsV> {
    match v {
        JsonV::Object(fs) => match (
            i64_field(fs, "total_requests"@),
            num_field(fs, "error_rate"@),
            num_field(fs, "avg_response_time"@),
        ) {
            (Some(total_requests), Some(error_rate), Some(avg_response_time)) => Some(
                PerformanceMetricsV { total_requests, error_rate, avg_response_time },
            ),
            _ => None,
        },
        _ => None,
    }
}

/// Decodes the performance section.
pub fn parse_performance_metrics(v: &JsonValue) -> (r: Option<PerformanceMetrics>)
    ensures
        match r {
            Some(x) => decode_performance_metrics(v@) == Some(x@),
            None => decode_performance_metrics(v@) is None,
        },
{
    let fields = match v {
        JsonValue::Object(fs) => fs,
        _ => {
            return None;
        },
    };
    let total_requests = match get_i64(fields, "total_requests") {
        Some(x) => x,
        None => {
            return None;
        },
    };
    let error_rate = match get_num(fields, "error_rate") {
        Some(x) => x,
        None => {
            return None;
        },
    };
    let avg_response_time = match get_num(fields, "avg_response_time") {
        Some(x) => x,
        None => {
            return None;
        },
    };
    Some(PerformanceMetrics { total_requests, error_rate, avg_response_time })
}

/// The backend's full metrics report.
#[derive(Debug)]
pub struct ApiDashboardMetrics {
    pub timestamp: String,
    pub inventory: InventoryMetrics,
    pub sales: SalesMetrics,
    pub system: SystemMetrics,
    pub performance: PerformanceMetrics,
}

/// The model of the full metrics report.
pub ghost struct ApiDashboardMetricsV {
    pub timestamp: Seq<char>,
    pub inventory: InventoryMetricsV,
    pub sales: SalesMetricsV,
    pub system: SystemMetricsV,
    pub performance: PerformanceMetricsV,
}

impl View for ApiDashboardMetrics {
    type V = ApiDashboardMetricsV;

    open spec fn view(&self) -> ApiDashboardMetricsV {
        ApiDashboardMetricsV {
            timestamp: self.timestamp@,
            inventory: self.inventory@,
            sales: self.sales@,
            system: self.system@,
            performance: self.performance@,
        }
    }
}

/// Which documents decode as the full metrics report, and to what.
pub open spec fn decode_api_dashboard_metrics(v: JsonV) -> Option<ApiDashboardMetricsV> {
    match v {
        JsonV::Object(fs) => match (
            str_field(fs, "timestamp"@),
            lookup_field(fs, "inventory"@),
            lookup_field(fs, "sales"@),
            lookup_field(fs, "system"@),
            lookup_field(fs, "performance"@),
        ) {
            (Some(timestamp), Some(iv), Some(sv), Some(yv), Some(pv)) => match (
                decode_inventory_metrics(iv),
                decode_sales_metrics(sv),
                decode_system_metrics(yv),
                decode_performance_metrics(pv),
            ) {
                (Some(inventory), Some(sales), Some(system), Some(performance)) => Some(
                    ApiDashboardMetricsV { timestamp, inventory, sales, system, performance },
                ),
                _ => None,
            },
            _ => None,
        },
        _ => None,
    }
}

/// Decodes the full metrics report.
pub fn parse_api_dashboard_metrics(v: &JsonValue) -> (r: Option<ApiDashboardMetrics>)
    ensures
        match r {
            Some(x) => decode_api_dashboard_metrics(v@) == Some(x@),
            None => decode_api_dashboard_metrics(v@) is None,
        },
{
    let fields = match v {
        JsonValue::Object(fs) => fs,
        _ => {
            return None;
        },
    };
    let timestamp = match get_str(fields, "timestamp") {
        Some(x) => x,
        None => {
            return None;
        },
    };
    let inventory = match get_field(fields, "inventory") {
        Some(f) => match parse_inventory_metrics(f) {
            Some(x) => x,
            None => {
                return None;
            },
        },
        None => {
            return None;
        },
    };
    let sales = match get_field(fields, "sales") {
        Some(f) => match parse_sales_metrics(f) {
            Some(x) => x,
            None => {
                return None;
            },
        },
        None => {
            return None;
        },
    };
    let system = match get_field(fields, "system") {
        Some(f) => match parse_system_metrics(f) {
            Some(x) => x,
            None => {
                return None;
            },
        },
        None => {
            return None;
        },
    };
    let performance = match get_field(fields, "performance") {
        Some(f) => match parse_performance_metrics(f) {
            Some(x) => x,
            None => {
                return None;
            },
        },
        None => {
            return None;
        },
    };
    Some(ApiDashboardMetrics { timestamp, inventory, sales, system, performance })
}

/// The flat summary handed to the display layer.
#[derive(Debug)]
pub struct DashboardMetrics {
    pub total_inventory_value: JsonNumber,
    pub monthly_sales: JsonNumber,
    pub profit_margin: JsonNumber,
    pub active_listings: i64,
    pub pending_imports: i64,
    pub recent_transactions: Vec<JsonValue>,
}

/// The model of the flat summary.
pub ghost struct DashboardMetricsV {
    pub total_inventory_value: JsonNumber,
    pub monthly_sales: JsonNumber,
    pub profit_margin: JsonNumber,
    pub active_listings: i64,
    pub pending_imports: i64,
    pub recent_transactions: Seq<JsonV>,
}

impl View for DashboardMetrics {
    type V = DashboardMetricsV;

    open spec fn view(&self) -> DashboardMetricsV {
        DashboardMetricsV {
            total_inventory_value: self.total_inventory_value,
            monthly_sales: self.monthly_sales,
            profit_margin: self.profit_margin,
            active_listings: self.active_listings,
            pending_imports: self.pending_imports,
            recent_transactions: array_view(self.recent_transactions@),
        }
    }
}

/// Reduces the backend's report to the flat summary: the inventory value and
/// listing count carry over, the recent sales activity passes through, and
/// the figures this layer does not compute are zero.
pub fn dashboard_metrics_of(api: ApiDashboardMetrics) -> (r: DashboardMetrics)
    ensures
        r@ == (DashboardMetricsV {
            total_inventory_value: api.inventory.total_inventory_value,
            monthly_sales: JsonNumber::Fractional(0),
            profit_margin: JsonNumber::Fractional(0),
            active_listings: api.inventory.items_listed,
            pending_imports: 0,
            recent_transactions: api@.sales.recent_activity,
        }),
{
    DashboardMetrics {
        total_inventory_value: api.inventory.total_inventory_value,
        monthly_sales: JsonNumber::Fractional(0),
        profit_margin: JsonNumber::Fractional(0),
        active_listings: api.inventory.items_listed,
        pending_imports: 0,
        recent_transactions: api.sales.recent_activity,
    }
}

} // verus!

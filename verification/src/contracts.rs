//! Core data contracts: health, system status, imports, enrichment and
//! marketplace listing creation.
//!
//! Each contract mirrors one backend JSON shape.  Its spec-level decoder says
//! exactly which documents decode and to what; the executable parser meets
//! that decoder, and the encoder produces a document the decoder maps back to
//! the same value, so every required field round-trips unchanged.

use vstd::prelude::*;
use vstd::string::StringExecFns;

use crate::ids::get_uuid_str;
use crate::ids::uuid_of;
use crate::ids::uuid_str_field;
use crate::json::JsonNumber;
use crate::json::JsonV;
use crate::json::JsonValue;
use crate::json::bool_field;
use crate::json::duplicate_fields;
use crate::json::fields_view;
use crate::json::get_bool;
use crate::json::get_num;
use crate::json::get_obj;
use crate::json::get_opt_str;
use crate::json::get_str;
use crate::json::get_str_pairs;
use crate::json::get_u64;
use crate::json::get_i32;
use crate::json::i32_field;
use crate::json::lemma_lookup_found;
use crate::json::lookup_field;
use crate::json::num_field;
use crate::json::opt_str_field;
use crate::json::opt_string_view;
use crate::json::opt_text_model;
use crate::json::opt_text_value;
use crate::json::push_field;
use crate::json::str_eq;
use crate::json::str_field;
use crate::json::str_pairs_field;
use crate::json::obj_field;
use crate::json::u64_field;

verus! {

/// A generic response envelope: a payload or an error, with a status word.
#[derive(Debug)]
pub struct ApiResponse<T> {
    pub data: Option<T>,
    pub error: Option<String>,
    pub status: String,
}

/// The health report of the backend.
#[derive(Debug)]
pub struct HealthStatus {
    pub status: String,
    pub timestamp: String,
    pub version: String,
    pub environment: String,
    pub uptime_seconds: u64,
    pub checks_summary: Vec<(String, String)>,
    pub components: Vec<(String, JsonValue)>,
}

/// The model of a health report.
pub ghost struct HealthStatusV {
    pub status: Seq<char>,
    pub timestamp: Seq<char>,
    pub version: Seq<char>,
    pub environment: Seq<char>,
    pub uptime_seconds: u64,
    pub checks_summary: Seq<(Seq<char>, Seq<char>)>,
    pub components: Seq<(Seq<char>, JsonV)>,
}

impl View for HealthStatus {
    type V = HealthStatusV;

    open spec fn view(&self) -> HealthStatusV {
        HealthStatusV {
            status: self.status@,
            timestamp: self.timestamp@,
            version: self.version@,
            environment: self.environment@,
            uptime_seconds: self.uptime_seconds,
            checks_summary: self.checks_summary@.map_values(
                |p: (String, String)| (p.0@, p.1@),
            ),
            components: fields_view(self.components@),
        }
    }
}

/// Which documents decode as a health report, and to what.
pub open spec fn decode_health_status(v: JsonV) -> Option<HealthStatusV> {
    match v {
        JsonV::Object(fs) => match (
            str_field(fs, "status"@),
            str_field(fs, "timestamp"@),
            str_field(fs, "version"@),
            str_field(fs, "environment"@),
            u64_field(fs, "uptime_seconds"@),
            str_pairs_field(fs, "checks_summary"@),
            obj_field(fs, "components"@),
        ) {
            (
                Some(status),
                Some(timestamp),
                Some(version),
                Some(environment),
                Some(uptime_seconds),
                Some(checks_summary),
                Some(components),
            ) => Some(
                HealthStatusV {
                    status,
                    timestamp,
                    version,
                    environment,
                    uptime_seconds,
                    checks_summary,
                    components,
                },
            ),
            _ => None,
        },
        _ => None,
    }
}

/// Decodes a health report.
pub fn parse_health_status(v: &JsonValue) -> (r: Option<HealthStatus>)
    ensures
        match r {
            Some(x) => decode_health_status(v@) == Some(x@),
            None => decode_health_status(v@) is None,
        },
{
    let fields = match v {
        JsonValue::Object(fs) => fs,
        _ => {
            return None;
        },
    };
    let status = match get_str(fields, "status") {
        Some(x) => x,
        None => {
            return None;
        },
    };
    let timestamp = match get_str(fields, "timestamp") {
        Some(x) => x,
        None => {
            return None;
        },
    };
    let version = match get_str(fields, "version") {
        Some(x) => x,
        None => {
            return None;
        },
    };
    let environment = match get_str(fields, "environment") {
        Some(x) => x,
        None => {
            return None;
        },
    };
    let uptime_seconds = match get_u64(fields, "uptime_seconds") {
        Some(x) => x,
        None => {
            return None;
        },
    };
    let checks_summary = match get_str_pairs(fields, "checks_summary") {
        Some(x) => x,
        None => {
            return None;
        },
    };
    let components = match get_obj(fields, "components") {
        Some(x) => x,
        None => {
            return None;
        },
    };
    Some(
        HealthStatus {
            status,
            timestamp,
            version,
            environment,
            uptime_seconds,
            checks_summary,
            components,
        },
    )
}

/// Encodes a health report; decoding the result gives the report back, so
/// every field round-trips unchanged.
pub fn encode_health_status(x: &HealthStatus) -> (v: JsonValue)
    ensures
        decode_health_status(v@) == Some(x@),
{
    let mut fields: Vec<(String, JsonValue)> = Vec::new();
    push_field(&mut fields, "status", JsonValue::Text(x.status.clone()));
    push_field(&mut fields, "timestamp", JsonValue::Text(x.timestamp.clone()));
    push_field(&mut fields, "version", JsonValue::Text(x.version.clone()));
    push_field(&mut fields, "environment", JsonValue::Text(x.environment.clone()));
    push_field(&mut fields, "uptime_seconds", JsonValue::Number(JsonNumber::Unsigned(
        x.uptime_seconds,
    )));
    let mut summary: Vec<(String, JsonValue)> = Vec::new();
    let n = x.checks_summary.len();
    let mut i: usize = 0;
    while i < n
        invariant
            i <= n,
            n == x.checks_summary@.len(),
            fields_view(summary@) =~= x.checks_summary@.map_values(
                |p: (String, String)| (p.0@, JsonV::Text(p.1@)),
            ).take(i as int),
        decreases n - i,
    {
        push_field(&mut summary, x.checks_summary[i].0.as_str(), JsonValue::Text(
            x.checks_summary[i].1.clone(),
        ));
        proof {
            assert(fields_view(summary@) =~= x.checks_summary@.map_values(
                |p: (String, String)| (p.0@, JsonV::Text(p.1@)),
            ).take(i + 1));
        }
        i += 1;
    }
    push_field(&mut fields, "checks_summary", JsonValue::Object(summary));
    push_field(&mut fields, "components", JsonValue::Object(duplicate_fields(&x.components)));
    let ghost fv = fields_view(fields@);
    let ghost sv = x.checks_summary@.map_values(|p: (String, String)| (p.0@, JsonV::Text(p.1@)));
    let v = JsonValue::Object(fields);
    proof {
        reveal_strlit("status");
        reveal_strlit("timestamp");
        reveal_strlit("version");
        reveal_strlit("environment");
        reveal_strlit("uptime_seconds");
        reveal_strlit("checks_summary");
        reveal_strlit("components");
        assert(sv.take(x.checks_summary@.len() as int) =~= sv);
        assert(fv =~= seq![
            ("status"@, JsonV::Text(x.status@)),
            ("timestamp"@, JsonV::Text(x.timestamp@)),
            ("version"@, JsonV::Text(x.version@)),
            ("environment"@, JsonV::Text(x.environment@)),
            ("uptime_seconds"@, JsonV::Number(JsonNumber::Unsigned(x.uptime_seconds))),
            ("checks_summary"@, JsonV::Object(sv)),
            ("components"@, JsonV::Object(fields_view(x.components@))),
        ]);
        assert(fv[0].0 == "status"@);
        assert(fv[1].0 == "timestamp"@);
        assert(fv[2].0 == "version"@);
        assert(fv[3].0 == "environment"@);
        assert(fv[4].0 == "uptime_seconds"@);
        assert(fv[5].0 == "checks_summary"@);
        assert(fv[6].0 == "components"@);
        assert("uptime_seconds"@[0] != "checks_summary"@[0]);
        assert("uptime_seconds"@ != "checks_summary"@);
        lemma_lookup_found(fv, 0, "status"@);
        lemma_lookup_found(fv, 1, "timestamp"@);
        lemma_lookup_found(fv, 2, "version"@);
        lemma_lookup_found(fv, 3, "environment"@);
        lemma_lookup_found(fv, 4, "uptime_seconds"@);
        lemma_lookup_found(fv, 5, "checks_summary"@);
        lemma_lookup_found(fv, 6, "components"@);
        let g = |v: JsonV| crate::json::as_text_value(v);
        crate::json::lemma_decode_pairs(sv, g);
        assert(str_pairs_field(fv, "checks_summary"@) matches Some(ps) && ps =~= x@.checks_summary);
        assert(decode_health_status(v@) == Some(x@));
    }
    v
}

/// A date window for a marketplace import.
#[derive(Debug, Clone, PartialEq, Eq)]
pub struct ImportRequest {
    pub from_date: String,
    pub to_date: String,
}

/// The model of an import request.
pub ghost struct ImportRequestV {
    pub from_date: Seq<char>,
    pub to_date: Seq<char>,
}

impl View for ImportRequest {
    type V = ImportRequestV;

    open spec fn view(&self) -> ImportRequestV {
        ImportRequestV { from_date: self.from_date@, to_date: self.to_date@ }
    }
}

/// Which documents decode as an import request, and to what.
pub open spec fn decode_import_request(v: JsonV) -> Option<ImportRequestV> {
    match v {
        JsonV::Object(fs) => match (str_field(fs, "from_date"@), str_field(fs, "to_date"@)) {
            (Some(from_date), Some(to_date)) => Some(ImportRequestV { from_date, to_date }),
            _ => None,
        },
        _ => None,
    }
}

/// Decodes an import request.
pub fn parse_import_request(v: &JsonValue) -> (r: Option<ImportRequest>)
    ensures
        match r {
            Some(x) => decode_import_request(v@) == Some(x@),
            None => decode_import_request(v@) is None,
        },
{
    let fields = match v {
        JsonValue::Object(fs) => fs,
        _ => {
            return None;
        },
    };
    let from_date = match get_str(fields, "from_date") {
        Some(x) => x,
        None => {
            return None;
        },
    };
    let to_date = match get_str(fields, "to_date") {
        Some(x) => x,
        None => {
            return None;
        },
    };
    Some(ImportRequest { from_date, to_date })
}

/// Encodes an import request as the body of the import start call; decoding
/// the result gives the request back.
pub fn encode_import_request(x: &ImportRequest) -> (v: JsonValue)
    ensures
        decode_import_request(v@) == Some(x@),
{
    let mut fields: Vec<(String, JsonValue)> = Vec::new();
    push_field(&mut fields, "from_date", JsonValue::Text(x.from_date.clone()));
    push_field(&mut fields, "to_date", JsonValue::Text(x.to_date.clone()));
    let ghost fv = fields_view(fields@);
    let v = JsonValue::Object(fields);
    proof {
        reveal_strlit("from_date");
        reveal_strlit("to_date");
        assert(fv =~= seq![
            ("from_date"@, JsonV::Text(x.from_date@)),
            ("to_date"@, JsonV::Text(x.to_date@)),
        ]);
        assert(fv[0].0 == "from_date"@);
        assert(fv[1].0 == "to_date"@);
        lemma_lookup_found(fv, 0, "from_date"@);
        lemma_lookup_found(fv, 1, "to_date"@);
        assert(decode_import_request(v@) == Some(x@));
    }
    v
}

/// The acknowledgement of an import start: its batch identifier must be a
/// well-formed UUID.
#[derive(Debug, Clone, PartialEq, Eq)]
pub struct ImportResponse {
    pub status: String,
    pub message: String,
    pub batch_id: String,
}

/// The model of an import acknowledgement.
pub ghost struct ImportResponseV {
    pub status: Seq<char>,
    pub message: Seq<char>,
    pub batch_id: Seq<char>,
}

impl View for ImportResponse {
    type V = ImportResponseV;

    open spec fn view(&self) -> ImportResponseV {
        ImportResponseV { status: self.status@, message: self.message@, batch_id: self.batch_id@ }
    }
}

/// Which documents decode as an import acknowledgement, and to what.
pub open spec fn decode_import_response(v: JsonV) -> Option<ImportResponseV> {
    match v {
        JsonV::Object(fs) => match (
            str_field(fs, "status"@),
            str_field(fs, "message"@),
            uuid_str_field(fs, "batch_id"@),
        ) {
            (Some(status), Some(message), Some(batch_id)) => Some(
                ImportResponseV { status, message, batch_id },
            ),
            _ => None,
        },
        _ => None,
    }
}

/// Decodes an import acknowledgement.
pub fn parse_import_response(v: &JsonValue) -> (r: Option<ImportResponse>)
    ensures
        match r {
            Some(x) => decode_import_response(v@) == Some(x@) && uuid_of(x.batch_id@) is Some,
            None => decode_import_response(v@) is None,
        },
{
    let fields = match v {
        JsonValue::Object(fs) => fs,
        _ => {
            return None;
        },
    };
    let status = match get_str(fields, "status") {
        Some(x) => x,
        None => {
            return None;
        },
    };
    let message = match get_str(fields, "message") {
        Some(x) => x,
        None => {
            return None;
        },
    };
    let batch_id = match get_uuid_str(fields, "batch_id") {
        Some(x) => x,
        None => {
            return None;
        },
    };
    proof {
        assert(uuid_str_field(fields_view(fields@), "batch_id"@) matches Some(s) ==> uuid_of(s)
            is Some);
    }
    Some(ImportResponse { status, message, batch_id })
}

/// Encodes an import acknowledgement; decoding the result gives it back.
pub fn encode_import_response(x: &ImportResponse) -> (v: JsonValue)
    requires
        uuid_of(x.batch_id@) is Some,
    ensures
        decode_import_response(v@) == Some(x@),
{
    let mut fields: Vec<(String, JsonValue)> = Vec::new();
    push_field(&mut fields, "status", JsonValue::Text(x.status.clone()));
    push_field(&mut fields, "message", JsonValue::Text(x.message.clone()));
    push_field(&mut fields, "batch_id", JsonValue::Text(x.batch_id.clone()));
    let ghost fv = fields_view(fields@);
    let v = JsonValue::Object(fields);
    proof {
        reveal_strlit("status");
        reveal_strlit("message");
        reveal_strlit("batch_id");
        assert(fv =~= seq![
            ("status"@, JsonV::Text(x.status@)),
            ("message"@, JsonV::Text(x.message@)),
            ("batch_id"@, JsonV::Text(x.batch_id@)),
        ]);
        assert(fv[0].0 == "status"@);
        assert(fv[1].0 == "message"@);
        assert(fv[2].0 == "batch_id"@);
        lemma_lookup_found(fv, 0, "status"@);
        lemma_lookup_found(fv, 1, "message"@);
        lemma_lookup_found(fv, 2, "batch_id"@);
        assert(decode_import_response(v@) == Some(x@));
    }
    v
}

/// Encodes an import acknowledgement after checking the batch identifier:
/// the encoding when the identifier parses as a UUID, nothing otherwise.
pub fn try_encode_import_response(x: &ImportResponse) -> (r: Option<JsonValue>)
    ensures
        match r {
            Some(v) => uuid_of(x.batch_id@) is Some && decode_import_response(v@) == Some(x@),
            None => uuid_of(x.batch_id@) is None,
        },
{
    match crate::ids::parse_uuid(x.batch_id.as_str()) {
        Some(_) => Some(encode_import_response(x)),
        None => None,
    }
}

/// The progress report of one import job.
#[derive(Debug, Clone, PartialEq)]
pub struct ImportStatus {
    pub id: String,
    pub source_type: String,
    pub status: String,
    pub progress: JsonNumber,
    pub records_processed: i32,
    pub records_failed: i32,
    pub created_at: String,
    pub completed_at: Option<String>,
}

/// The model of an import progress report.
pub ghost struct ImportStatusV {
    pub id: Seq<char>,
    pub source_type: Seq<char>,
    pub status: Seq<char>,
    pub progress: JsonNumber,
    pub records_processed: i32,
    pub records_failed: i32,
    pub created_at: Seq<char>,
    pub completed_at: Option<Seq<char>>,
}

impl View for ImportStatus {
    type V = ImportStatusV;

    open spec fn view(&self) -> ImportStatusV {
        ImportStatusV {
            id: self.id@,
            source_type: self.source_type@,
            status: self.status@,
            progress: self.progress,
            records_processed: self.records_processed,
            records_failed: self.records_failed,
            created_at: self.created_at@,
            completed_at: opt_string_view(self.completed_at),
        }
    }
}

/// Which documents decode as an import progress report, and to what.
pub open spec fn decode_import_status(v: JsonV) -> Option<ImportStatusV> {
    match v {
        JsonV::Object(fs) => match (
            uuid_str_field(fs, "id"@),
            str_field(fs, "source_type"@),
            str_field(fs, "status"@),
            num_field(fs, "progress"@),
            i32_field(fs, "records_processed"@),
            i32_field(fs, "records_failed"@),
            str_field(fs, "created_at"@),
            opt_str_field(fs, "completed_at"@),
        ) {
            (
                Some(id),
                Some(source_type),
                Some(status),
                Some(progress),
                Some(records_processed),
                Some(records_failed),
                Some(created_at),
                Some(completed_at),
            ) => Some(
                ImportStatusV {
                    id,
                    source_type,
                    status,
                    progress,
                    records_processed,
                    records_failed,
                    created_at,
                    completed_at,
                },
            ),
            _ => None,
        },
        _ => None,
    }
}

/// Decodes an import progress report.
pub fn parse_import_status(v: &JsonValue) -> (r: Option<ImportStatus>)
    ensures
        match r {
            Some(x) => decode_import_status(v@) == Some(x@),
            None => decode_import_status(v@) is None,
        },
{
    let fields = match v {
        JsonValue::Object(fs) => fs,
        _ => {
            return None;
        },
    };
    let id = match get_uuid_str(fields, "id") {
        Some(x) => x,
        None => {
            return None;
        },
    };
    let source_type = match get_str(fields, "source_type") {
        Some(x) => x,
        None => {
            return None;
        },
    };
    let status = match get_str(fields, "status") {
        Some(x) => x,
        None => {
            return None;
        },
    };
    let progress = match get_num(fields, "progress") {
        Some(x) => x,
        None => {
            return None;
        },
    };
    let records_processed = match get_i32(fields, "records_processed") {
        Some(x) => x,
        None => {
            return None;
        },
    };
    let records_failed = match get_i32(fields, "records_failed") {
        Some(x) => x,
        None => {
            return None;
        },
    };
    let created_at = match get_str(fields, "created_at") {
        Some(x) => x,
        None => {
            return None;
        },
    };
    let completed_at = match get_opt_str(fields, "completed_at") {
        Some(x) => x,
        None => {
            return None;
        },
    };
    Some(
        ImportStatus {
            id,
            source_type,
            status,
            progress,
            records_processed,
            records_failed,
            created_at,
            completed_at,
        },
    )
}

/// Encodes an import progress report; decoding the result gives it back.
pub fn encode_import_status(x: &ImportStatus) -> (v: JsonValue)
    requires
        uuid_of(x.id@) is Some,
    ensures
        decode_import_status(v@) == Some(x@),
{
    let mut fields: Vec<(String, JsonValue)> = Vec::new();
    push_field(&mut fields, "id", JsonValue::Text(x.id.clone()));
    push_field(&mut fields, "source_type", JsonValue::Text(x.source_type.clone()));
    push_field(&mut fields, "status", JsonValue::Text(x.status.clone()));
    push_field(&mut fields, "progress", JsonValue::Number(x.progress));
    push_field(&mut fields, "records_processed", JsonValue::Number(JsonNumber::Signed(
        x.records_processed as i64,
    )));
    push_field(&mut fields, "records_failed", JsonValue::Number(JsonNumber::Signed(
        x.records_failed as i64,
    )));
    push_field(&mut fields, "created_at", JsonValue::Text(x.created_at.clone()));
    push_field(&mut fields, "completed_at", opt_text_value(&x.completed_at));
    let ghost fv = fields_view(fields@);
    let v = JsonValue::Object(fields);
    proof {
        reveal_strlit("id");
        reveal_strlit("source_type");
        reveal_strlit("status");
        reveal_strlit("progress");
        reveal_strlit("records_processed");
        reveal_strlit("records_failed");
        reveal_strlit("created_at");
        reveal_strlit("completed_at");
        assert(fv =~= seq![
            ("id"@, JsonV::Text(x.id@)),
            ("source_type"@, JsonV::Text(x.source_type@)),
            ("status"@, JsonV::Text(x.status@)),
            ("progress"@, JsonV::Number(x.progress)),
            ("records_processed"@, JsonV::Number(JsonNumber::Signed(x.records_processed as i64))),
            ("records_failed"@, JsonV::Number(JsonNumber::Signed(x.records_failed as i64))),
            ("created_at"@, JsonV::Text(x.created_at@)),
            ("completed_at"@, opt_text_model(opt_string_view(x.completed_at))),
        ]);
        assert(fv[0].0 == "id"@);
        assert(fv[1].0 == "source_type"@);
        assert(fv[2].0 == "status"@);
        assert(fv[3].0 == "progress"@);
        assert(fv[4].0 == "records_processed"@);
        assert(fv[5].0 == "records_failed"@);
        assert(fv[6].0 == "created_at"@);
        assert(fv[7].0 == "completed_at"@);
        assert("records_processed"@[8] != "records_failed"@[8]);
        assert("records_processed"@ != "records_failed"@);
        lemma_lookup_found(fv, 0, "id"@);
        lemma_lookup_found(fv, 1, "source_type"@);
        lemma_lookup_found(fv, 2, "status"@);
        lemma_lookup_found(fv, 3, "progress"@);
        lemma_lookup_found(fv, 4, "records_processed"@);
        lemma_lookup_found(fv, 5, "records_failed"@);
        lemma_lookup_found(fv, 6, "created_at"@);
        lemma_lookup_found(fv, 7, "completed_at"@);
        assert(decode_import_status(v@) == Some(x@));
    }
    v
}

/// Encodes an import progress report after checking the job identifier: the
/// encoding when the identifier parses as a UUID, nothing otherwise.
pub fn try_encode_import_status(x: &ImportStatus) -> (r: Option<JsonValue>)
    ensures
        match r {
            Some(v) => uuid_of(x.id@) is Some && decode_import_status(v@) == Some(x@),
            None => uuid_of(x.id@) is None,
        },
{
    match crate::ids::parse_uuid(x.id.as_str()) {
        Some(_) => Some(encode_import_status(x)),
        None => None,
    }
}

/// The acknowledgement of an enrichment start.
#[derive(Debug, Clone, PartialEq, Eq)]
pub struct EnrichmentResponse {
    pub message: String,
    pub target_products: String,
}

/// The model of an enrichment acknowledgement.
pub ghost struct EnrichmentResponseV {
    pub message: Seq<char>,
    pub target_products: Seq<char>,
}

impl View for EnrichmentResponse {
    type V = EnrichmentResponseV;

    open spec fn view(&self) -> EnrichmentResponseV {
        EnrichmentResponseV { message: self.message@, target_products: self.target_products@ }
    }
}

/// Which documents decode as an enrichment acknowledgement, and to what.
pub open spec fn decode_enrichment_response(v: JsonV) -> Option<EnrichmentResponseV> {
    match v {
        JsonV::Object(fs) => match (
            str_field(fs, "message"@),
            str_field(fs, "target_products"@),
        ) {
            (Some(message), Some(target_products)) => Some(
                EnrichmentResponseV { message, target_products },
            ),
            _ => None,
        },
        _ => None,
    }
}

/// Decodes an enrichment acknowledgement.
pub fn parse_enrichment_response(v: &JsonValue) -> (r: Option<EnrichmentResponse>)
    ensures
        match r {
            Some(x) => decode_enrichment_response(v@) == Some(x@),
            None => decode_enrichment_response(v@) is None,
        },
{
    let fields = match v {
        JsonValue::Object(fs) => fs,
        _ => {
            return None;
        },
    };
    let message = match get_str(fields, "message") {
        Some(x) => x,
        None => {
            return None;
        },
    };
    let target_products = match get_str(fields, "target_products") {
        Some(x) => x,
        None => {
            return None;
        },
    };
    Some(EnrichmentResponse { message, target_products })
}

/// Encodes an enrichment acknowledgement; decoding the result gives it back.
pub fn encode_enrichment_response(x: &EnrichmentResponse) -> (v: JsonValue)
    ensures
        decode_enrichment_response(v@) == Some(x@),
{
    let mut fields: Vec<(String, JsonValue)> = Vec::new();
    push_field(&mut fields, "message", JsonValue::Text(x.message.clone()));
    push_field(&mut fields, "target_products", JsonValue::Text(x.target_products.clone()));
    let ghost fv = fields_view(fields@);
    let v = JsonValue::Object(fields);
    proof {
        reveal_strlit("message");
        reveal_strlit("target_products");
        assert(fv =~= seq![
            ("message"@, JsonV::Text(x.message@)),
            ("target_products"@, JsonV::Text(x.target_products@)),
        ]);
        assert(fv[0].0 == "message"@);
        assert(fv[1].0 == "target_products"@);
        lemma_lookup_found(fv, 0, "message"@);
        lemma_lookup_found(fv, 1, "target_products"@);
        assert(decode_enrichment_response(v@) == Some(x@));
    }
    v
}

/// A request to list one inventory item on the marketplace.
#[derive(Debug, Clone, PartialEq, Eq)]
pub struct StockXListingRequest {
    pub item_id: String,
    pub listing_type: String,
}

/// The model of a listing request.
pub ghost struct StockXListingRequestV {
    pub item_id: Seq<char>,
    pub listing_type: Seq<char>,
}

impl View for StockXListingRequest {
    type V = StockXListingRequestV;

    open spec fn view(&self) -> StockXListingRequestV {
        StockXListingRequestV { item_id: self.item_id@, listing_type: self.listing_type@ }
    }
}

/// The body of the listing creation call: only the listing type travels in
/// the body, the item identifier stands in the path.
pub fn encode_listing_request_body(x: &StockXListingRequest) -> (v: JsonValue)
    ensures
        v@ == JsonV::Object(seq![("listing_type"@, JsonV::Text(x.listing_type@))]),
{
    let mut fields: Vec<(String, JsonValue)> = Vec::new();
    push_field(&mut fields, "listing_type", JsonValue::Text(x.listing_type.clone()));
    let ghost fv = fields_view(fields@);
    let v = JsonValue::Object(fields);
    proof {
        assert(fv =~= seq![("listing_type"@, JsonV::Text(x.listing_type@))]);
    }
    v
}

/// The marketplace's answer to a listing creation.
#[derive(Debug, Clone, PartialEq, Eq)]
pub struct StockXListingResponse {
    pub success: bool,
    pub listing_id: Option<String>,
    pub message: String,
}

/// The model of a listing creation answer.
pub ghost struct StockXListingResponseV {
    pub success: bool,
    pub listing_id: Option<Seq<char>>,
    pub message: Seq<char>,
}

impl View for StockXListingResponse {
    type V = StockXListingResponseV;

    open spec fn view(&self) -> StockXListingResponseV {
        StockXListingResponseV {
            success: self.success,
            listing_id: opt_string_view(self.listing_id),
            message: self.message@,
        }
    }
}

/// Which documents decode as a listing creation answer, and to what.
pub open spec fn decode_listing_response(v: JsonV) -> Option<StockXListingResponseV> {
    match v {
        JsonV::Object(fs) => match (
            bool_field(fs, "success"@),
            opt_str_field(fs, "listing_id"@),
            str_field(fs, "message"@),
        ) {
            (Some(success), Some(listing_id), Some(message)) => Some(
                StockXListingResponseV { success, listing_id, message },
            ),
            _ => None,
        },
        _ => None,
    }
}

/// Decodes a listing creation answer.
pub fn parse_listing_response(v: &JsonValue) -> (r: Option<StockXListingResponse>)
    ensures
        match r {
            Some(x) => decode_listing_response(v@) == Some(x@),
            None => decode_listing_response(v@) is None,
        },
{
    let fields = match v {
        JsonValue::Object(fs) => fs,
        _ => {
            return None;
        },
    };
    let success = match get_bool(fields, "success") {
        Some(x) => x,
        None => {
            return None;
        },
    };
    let listing_id = match get_opt_str(fields, "listing_id") {
        Some(x) => x,
        None => {
            return None;
        },
    };
    let message = match get_str(fields, "message") {
        Some(x) => x,
        None => {
            return None;
        },
    };
    Some(StockXListingResponse { success, listing_id, message })
}

/// Encodes a listing creation answer; decoding the result gives it back.
pub fn encode_listing_response(x: &StockXListingResponse) -> (v: JsonValue)
    ensures
        decode_listing_response(v@) == Some(x@),
{
    let mut fields: Vec<(String, JsonValue)> = Vec::new();
    push_field(&mut fields, "success", JsonValue::Bool(x.success));
    push_field(&mut fields, "listing_id", opt_text_value(&x.listing_id));
    push_field(&mut fields, "message", JsonValue::Text(x.message.clone()));
    let ghost fv = fields_view(fields@);
    let v = JsonValue::Object(fields);
    proof {
        reveal_strlit("success");
        reveal_strlit("listing_id");
        reveal_strlit("message");
        assert(fv =~= seq![
            ("success"@, JsonV::Bool(x.success)),
            ("listing_id"@, opt_text_model(opt_string_view(x.listing_id))),
            ("message"@, JsonV::Text(x.message@)),
        ]);
        assert(fv[0].0 == "success"@);
        assert(fv[1].0 == "listing_id"@);
        assert(fv[2].0 == "message"@);
        assert("success"@[0] != "message"@[0]);
        assert("success"@ != "message"@);
        lemma_lookup_found(fv, 0, "success"@);
        lemma_lookup_found(fv, 1, "listing_id"@);
        lemma_lookup_found(fv, 2, "message"@);
        assert(decode_listing_response(v@) == Some(x@));
    }
    v
}

/// The status a command reports to the display layer: always available, even
/// when the backend is unreachable.
#[derive(Debug, Clone, PartialEq, Eq)]
pub struct SystemStatus {
    pub api_connected: bool,
    pub database_healthy: bool,
    pub last_check: String,
    pub version: String,
    pub environment: String,
}

/// The model of a system status.
pub ghost struct SystemStatusV {
    pub api_connected: bool,
    pub database_healthy: bool,
    pub last_check: Seq<char>,
    pub version: Seq<char>,
    pub environment: Seq<char>,
}

impl View for SystemStatus {
    type V = SystemStatusV;

    open spec fn view(&self) -> SystemStatusV {
        SystemStatusV {
            api_connected: self.api_connected,
            database_healthy: self.database_healthy,
            last_check: self.last_check@,
            version: self.version@,
            environment: self.environment@,
        }
    }
}

/// Which documents decode as a system status, and to what.
pub open spec fn decode_system_status(v: JsonV) -> Option<SystemStatusV> {
    match v {
        JsonV::Object(fs) => match (
            bool_field(fs, "api_connected"@),
            bool_field(fs, "database_healthy"@),
            str_field(fs, "last_check"@),
            str_field(fs, "version"@),
            str_field(fs, "environment"@),
        ) {
            (Some(a), Some(d), Some(l), Some(ver), Some(e)) => Some(
                SystemStatusV {
                    api_connected: a,
                    database_healthy: d,
                    last_check: l,
                    version: ver,
                    environment: e,
                },
            ),
            _ => None,
        },
        _ => None,
    }
}

/// Decodes a system status.
pub fn parse_system_status(v: &JsonValue) -> (r: Option<SystemStatus>)
    ensures
        match r {
            Some(x) => decode_system_status(v@) == Some(x@),
            None => decode_system_status(v@) is None,
        },
{
    let fields = match v {
        JsonValue::Object(fs) => fs,
        _ => {
            return None;
        },
    };
    let api_connected = match get_bool(fields, "api_connected") {
        Some(x) => x,
        None => {
            return None;
        },
    };
    let database_healthy = match get_bool(fields, "database_healthy") {
        Some(x) => x,
        None => {
            return None;
        },
    };
    let last_check = match get_str(fields, "last_check") {
        Some(x) => x,
        None => {
            return None;
        },
    };
    let version = match get_str(fields, "version") {
        Some(x) => x,
        None => {
            return None;
        },
    };
    let environment = match get_str(fields, "environment") {
        Some(x) => x,
        None => {
            return None;
        },
    };
    Some(SystemStatus { api_connected, database_healthy, last_check, version, environment })
}

/// Encodes a system status; decoding the result gives the status back.
pub fn encode_system_status(x: &SystemStatus) -> (v: JsonValue)
    ensures
        decode_system_status(v@) == Some(x@),
{
    let mut fields: Vec<(String, JsonValue)> = Vec::new();
    push_field(&mut fields, "api_connected", JsonValue::Bool(x.api_connected));
    push_field(&mut fields, "database_healthy", JsonValue::Bool(x.database_healthy));
    push_field(&mut fields, "last_check", JsonValue::Text(x.last_check.clone()));
    push_field(&mut fields, "version", JsonValue::Text(x.version.clone()));
    push_field(&mut fields, "environment", JsonValue::Text(x.environment.clone()));
    let ghost fv = fields_view(fields@);
    let v = JsonValue::Object(fields);
    proof {
        reveal_strlit("api_connected");
        reveal_strlit("database_healthy");
        reveal_strlit("last_check");
        reveal_strlit("version");
        reveal_strlit("environment");
        assert(fv =~= seq![
            ("api_connected"@, JsonV::Bool(x.api_connected)),
            ("database_healthy"@, JsonV::Bool(x.database_healthy)),
            ("last_check"@, JsonV::Text(x.last_check@)),
            ("version"@, JsonV::Text(x.version@)),
            ("environment"@, JsonV::Text(x.environment@)),
        ]);
        assert(fv[0].0 == "api_connected"@);
        assert(fv[1].0 == "database_healthy"@);
        assert(fv[2].0 == "last_check"@);
        assert(fv[3].0 == "version"@);
        assert(fv[4].0 == "environment"@);
        lemma_lookup_found(fv, 0, "api_connected"@);
        lemma_lookup_found(fv, 1, "database_healthy"@);
        lemma_lookup_found(fv, 2, "last_check"@);
        lemma_lookup_found(fv, 3, "version"@);
        lemma_lookup_found(fv, 4, "environment"@);
        assert(decode_system_status(v@) == Some(x@));
    }
    v
}

/// The database is healthy when the health report's components carry a
/// `database` object whose `status` is the word `healthy`.
pub open spec fn database_healthy_of(components: Seq<(Seq<char>, JsonV)>) -> bool {
    match lookup_field(components, "database"@) {
        Some(JsonV::Object(db)) => match lookup_field(db, "status"@) {
            Some(JsonV::Text(s)) => s == "healthy"@,
            _ => false,
        },
        _ => false,
    }
}

/// The system status a command derives from the health check's outcome.  When
/// the check failed for any reason, the status still carries a result: the
/// connectivity flag is down and `now` stands as the check time, so the
/// display layer always has something to render.
pub fn system_status_of(health: Option<HealthStatus>, now: String) -> (r: SystemStatus)
    ensures
        health matches Some(h) ==> r@ == (SystemStatusV {
            api_connected: true,
            database_healthy: database_healthy_of(h@.components),
            last_check: h.timestamp@,
            version: h.version@,
            environment: h.environment@,
        }),
        health is None ==> r@ == (SystemStatusV {
            api_connected: false,
            database_healthy: false,
            last_check: now@,
            version: "unknown"@,
            environment: "unknown"@,
        }),
{
    match health {
        Some(h) => {
            let database_healthy: bool = match crate::json::get_field(&h.components, "database") {
                Some(JsonValue::Object(db)) => match get_str(db, "status") {
                    Some(s) => str_eq(s.as_str(), "healthy"),
                    None => false,
                },
                _ => false,
            };
            SystemStatus {
                api_connected: true,
                database_healthy,
                last_check: h.timestamp,
                version: h.version,
                environment: h.environment,
            }
        },
        None => SystemStatus {
            api_connected: false,
            database_healthy: false,
            last_check: now,
            version: "unknown".to_owned(),
            environment: "unknown".to_owned(),
        },
    }
}

} // verus!

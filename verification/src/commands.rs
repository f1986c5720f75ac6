//! Command-level input checks and error translation.
//!
//! Every command is a stateless function from arguments to a result or an
//! error string.  Before any network call, a free-text query must be
//! read-only, a raw request method must be one of the four supported verbs,
//! and a relative path is resolved against the base address.  A transport
//! failure is rendered as the failing operation's name followed by the
//! underlying error text.

use vstd::prelude::*;
use vstd::string::StrSliceExecFns;
use vstd::string::StringExecFns;

use crate::json::JsonV;
use crate::json::JsonValue;
use crate::json::fields_view;
use crate::json::str_eq;
use crate::text::has_prefix;
use crate::text::lower_of;
use crate::text::lower_str;
use crate::text::str_has_prefix;
use crate::text::trim_str;
use crate::text::trimmed_of;
use crate::text::upper_of;
use crate::text::upper_str;
use crate::urls::join2;

verus! {

/// A query is read-only when its trimmed, case-folded form begins with
/// "select".
pub open spec fn read_only_query(q: Seq<char>) -> bool {
    has_prefix(lower_of(trimmed_of(q)), "select"@)
}

/// Decides whether a free-text query passes the read-only gate.
pub fn query_allowed(q: &str) -> (r: bool)
    ensures
        r == read_only_query(q@),
{
    let t = trim_str(q);
    let l = lower_str(t);
    str_has_prefix(l.as_str(), "select")
}

/// Builds the administrative query request body, rejecting any query that is
/// not read-only with a fixed message and before any network call.
pub fn prepare_query_request(q: &str) -> (r: Result<JsonValue, String>)
    ensures
        r is Ok <==> read_only_query(q@),
        r matches Ok(body) ==> body@ == JsonV::Object(seq![("query"@, JsonV::Text(q@))]),
        r matches Err(m) ==> m@ == "Only SELECT queries are allowed for security reasons"@,
{
    if query_allowed(q) {
        let mut fields: Vec<(String, JsonValue)> = Vec::new();
        fields.push(("query".to_owned(), JsonValue::Text(q.to_owned())));
        let ghost fv = fields@;
        let body = JsonValue::Object(fields);
        proof {
            crate::json::lemma_fields_view(fv);
            assert(fields_view(fv)[0] == (fv[0].0@, crate::json::json_view(fv[0].1)));
            assert(fields_view(fv) =~= seq![("query"@, JsonV::Text(q@))]);
        }
        Ok(body)
    } else {
        Err("Only SELECT queries are allowed for security reasons".to_owned())
    }
}

/// A raw pass-through request: a verb name, a path and an optional body.
#[derive(Debug)]
pub struct HttpRequest {
    pub method: String,
    pub url: String,
    pub body: Option<JsonValue>,
}

/// The four request verbs the pass-through command supports.
#[derive(Clone, Copy, PartialEq, Eq, Structural, Debug)]
pub enum HttpMethod {
    Get,
    Post,
    Put,
    Delete,
}

/// The verb a raw method name stands for, after case folding.
pub open spec fn method_of(m: Seq<char>) -> Option<HttpMethod> {
    if upper_of(m) == "GET"@ {
        Some(HttpMethod::Get)
    } else if upper_of(m) == "POST"@ {
        Some(HttpMethod::Post)
    } else if upper_of(m) == "PUT"@ {
        Some(HttpMethod::Put)
    } else if upper_of(m) == "DELETE"@ {
        Some(HttpMethod::Delete)
    } else {
        None
    }
}

/// Parses a raw method name, rejecting anything but the four supported verbs
/// with a fixed message.
pub fn parse_method(m: &str) -> (r: Result<HttpMethod, String>)
    ensures
        r is Ok <==> method_of(m@) is Some,
        r matches Ok(h) ==> method_of(m@) == Some(h),
        r matches Err(e) ==> e@ == "Unsupported HTTP method"@,
{
    let u = upper_str(m);
    if str_eq(u.as_str(), "GET") {
        Ok(HttpMethod::Get)
    } else if str_eq(u.as_str(), "POST") {
        Ok(HttpMethod::Post)
    } else if str_eq(u.as_str(), "PUT") {
        Ok(HttpMethod::Put)
    } else if str_eq(u.as_str(), "DELETE") {
        Ok(HttpMethod::Delete)
    } else {
        Err("Unsupported HTTP method".to_owned())
    }
}

/// Resolves a request path: an absolute URL is kept, anything else is joined
/// to the base address.
pub fn resolve_url(base: &str, url: &str) -> (r: String)
    ensures
        r@ == if has_prefix(url@, "http"@) {
            url@
        } else {
            base@ + url@
        },
{
    if str_has_prefix(url, "http") {
        url.to_owned()
    } else {
        join2(base, url)
    }
}

/// A command's error string: the failing operation's name followed by the
/// underlying error text.
pub fn command_error(operation: &str, detail: &str) -> (r: String)
    ensures
        r@ == operation@ + detail@,
{
    join2(operation, detail)
}

} // verus!

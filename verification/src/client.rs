//! The remote usage client's logic: assembling the request, choosing a proxy
//! from the settings file, and turning a response body into a snapshot.
//!
//! The HTTP transport itself is I/O and stays with the caller; it receives a
//! fully assembled `UsageRequest` and hands back a status and body.
use crate::cache::{opt_view, UsageSnapshot};
use crate::jsonval::{
    centi_entry, json_as_str, json_get, json_model_of, json_model_of_text, json_parse,
    opt_text_entry, read_centi_field, read_opt_string_field, text_entry, JsonModel,
};
use vstd::prelude::*;
use vstd::string::StringExecFns;

verus! {

/// Everything the transport needs for the one GET to the usage endpoint.
pub struct UsageRequest {
    pub url: String,
    pub authorization: String,
    pub beta_header: String,
    pub user_agent: String,
    pub proxy: Option<String>,
}

/// The User-Agent text: the tool's name, with its version when one is known
/// and non-empty.
pub open spec fn user_agent_text(version: Option<Seq<char>>) -> Seq<char> {
    match version {
        Some(v) => if v.len() == 0 {
            "ccline"@
        } else {
            "ccline/"@ + v
        },
        None => "ccline"@,
    }
}

/// Builds the User-Agent from an optional version lookup result.
pub fn user_agent_of(version: Option<&str>) -> (r: String)
    ensures
        r@ == user_agent_text(match version {
            Some(v) => Some(v@),
            None => None,
        }),
{
    match version {
        None => "ccline".to_owned(),
        Some(v) => {
            if v.is_empty() {
                proof {
                    assert("ccline".view() =~= user_agent_text(Some(v@))) by {
                        reveal_strlit("ccline");
                    }
                }
                "ccline".to_owned()
            } else {
                let mut s = "ccline/".to_owned();
                s.append(v);
                proof {
                    assert(v@.len() != 0) by {
                        reveal_strlit("ccline/");
                    }
                }
                s
            }
        },
    }
}

/// Assembles the GET request the original endpoint expects: the usage path
/// under the configured base URL, a bearer authorization, the fixed
/// beta-feature marker, the given User-Agent and an optional proxy URL.
pub fn build_usage_request(
    api_base_url: &str,
    token: &str,
    user_agent: String,
    proxy: Option<String>,
) -> (r: UsageRequest)
    ensures
        r.url@ == api_base_url@ + "/api/oauth/usage"@,
        r.authorization@ == "Bearer "@ + token@,
        r.beta_header@ == "oauth-2025-04-20"@,
        r.user_agent == user_agent,
        r.proxy == proxy,
{
    let mut url = api_base_url.to_owned();
    url.append("/api/oauth/usage");
    let mut authorization = "Bearer ".to_owned();
    authorization.append(token);
    UsageRequest {
        url,
        authorization,
        beta_header: "oauth-2025-04-20".to_owned(),
        user_agent,
        proxy,
    }
}

/// The proxy preference: an HTTPS proxy wins over an HTTP one.
pub open spec fn preferred_proxy(https: Option<Seq<char>>, http: Option<Seq<char>>) -> Option<
    Seq<char>,
> {
    if https is Some {
        https
    } else {
        http
    }
}

/// Chooses between the two proxy settings, matching `preferred_proxy`.
pub fn choose_proxy(https: Option<String>, http: Option<String>) -> (r: Option<String>)
    ensures
        crate::cache::opt_view(r) == preferred_proxy(
            crate::cache::opt_view(https),
            crate::cache::opt_view(http),
        ),
        https matches Some(s) ==> r == Some(s),
        https is None ==> r == http,
{
    match https {
        Some(s) => Some(s),
        None => http,
    }
}

/// The proxy URL a settings text carries: the string under `env.HTTPS_PROXY`
/// where there is one, else the string under `env.HTTP_PROXY`, else nothing;
/// anything ill-shaped on the way reads as nothing.
pub open spec fn settings_proxy(m: Option<JsonModel>) -> Option<Seq<char>> {
    match m {
        Some(JsonModel::Obj(o)) => {
            if o.contains_key("env"@) {
                match o["env"@] {
                    JsonModel::Obj(e) => preferred_proxy(
                        text_entry(e, "HTTPS_PROXY"@),
                        text_entry(e, "HTTP_PROXY"@),
                    ),
                    _ => None,
                }
            } else {
                None
            }
        },
        _ => None,
    }
}

/// Reads the proxy URL out of the settings file's text, matching
/// `settings_proxy`: missing file text, malformed JSON, missing keys or
/// non-string values all mean no proxy, never an error.
pub fn proxy_from_settings_text(content: Option<&str>) -> (r: Option<String>)
    ensures
        content is None ==> r is None,
        content matches Some(t) ==> opt_view(r) == settings_proxy(json_model_of_text(t@)),
{
    let text = match content {
        None => {
            return None;
        },
        Some(t) => t,
    };
    let settings = match json_parse(text) {
        None => {
            return None;
        },
        Some(v) => v,
    };
    let env = match json_get(&settings, "env") {
        None => {
            return None;
        },
        Some(e) => e,
    };
    let https = match json_get(env, "HTTPS_PROXY") {
        None => None,
        Some(v) => json_as_str(v),
    };
    let http = match json_get(env, "HTTP_PROXY") {
        None => None,
        Some(v) => json_as_str(v),
    };
    choose_proxy(https, http)
}

/// What one window of the response body carries: the utilization in
/// centi-percent and the optional reset timestamp; `None` where the window
/// is not an object of that shape.
pub open spec fn period_model_fields(p: JsonModel) -> Option<(int, Option<Seq<char>>)> {
    match p {
        JsonModel::Obj(o) => {
            let u = centi_entry(o, "utilization"@);
            let ra = opt_text_entry(o, "resets_at"@);
            if u is Some && ra is Some {
                Some((u->Some_0, ra->Some_0))
            } else {
                None
            }
        },
        _ => None,
    }
}

/// What a whole response body carries: the five-hour and seven-day window
/// fields; `None` where the body is not an object with both windows in the
/// expected shape.
pub open spec fn response_model_fields(m: Option<JsonModel>) -> Option<
    ((int, Option<Seq<char>>), (int, Option<Seq<char>>)),
> {
    match m {
        Some(JsonModel::Obj(o)) => {
            if o.contains_key("five_hour"@) && o.contains_key("seven_day"@) {
                let f = period_model_fields(o["five_hour"@]);
                let s = period_model_fields(o["seven_day"@]);
                if f is Some && s is Some {
                    Some((f->Some_0, s->Some_0))
                } else {
                    None
                }
            } else {
                None
            }
        },
        _ => None,
    }
}

/// One window of the response body, read the way the response schema fixes
/// it and matching `period_model_fields`.
fn read_usage_period(v: &serde_json::Value) -> (r: Option<(u64, Option<String>)>)
    ensures
        match r {
            Some(x) => period_model_fields(json_model_of(*v)) == Some(
                (x.0 as int, opt_view(x.1)),
            ),
            None => period_model_fields(json_model_of(*v)) is None,
        },
{
    let util = match read_centi_field(v, "utilization") {
        None => {
            return None;
        },
        Some(c) => c,
    };
    let resets_at = match read_opt_string_field(v, "resets_at") {
        Err(_) => {
            return None;
        },
        Ok(x) => x,
    };
    Some((util, resets_at))
}

/// Reads a usage snapshot out of a response body: a snapshot comes back
/// exactly for a body of the documented shape, its fields those of the body;
/// any other body yields `None`.
pub fn parse_usage_response(body: &str) -> (r: Option<UsageSnapshot>)
    ensures
        r is Some <==> response_model_fields(json_model_of_text(body@)) is Some,
        r matches Some(s) ==> {
            let f = response_model_fields(json_model_of_text(body@))->Some_0;
            &&& s.five_hour_utilization as int == f.0.0
            &&& opt_view(s.five_hour_resets_at) == f.0.1
            &&& s.seven_day_utilization as int == f.1.0
            &&& opt_view(s.seven_day_resets_at) == f.1.1
        },
{
    let v = match json_parse(body) {
        None => {
            return None;
        },
        Some(v) => v,
    };
    let five = match json_get(&v, "five_hour") {
        None => {
            return None;
        },
        Some(p) => {
            match read_usage_period(p) {
                None => {
                    return None;
                },
                Some(x) => x,
            }
        },
    };
    let seven = match json_get(&v, "seven_day") {
        None => {
            return None;
        },
        Some(p) => {
            match read_usage_period(p) {
                None => {
                    return None;
                },
                Some(x) => x,
            }
        },
    };
    Some(
        UsageSnapshot {
            five_hour_utilization: five.0,
            seven_day_utilization: seven.0,
            five_hour_resets_at: five.1,
            seven_day_resets_at: seven.1,
        },
    )
}

/// Accepts a transport outcome: a snapshot comes back exactly for an HTTP
/// 200 whose body has the documented shape, with the body's fields;
/// everything else — any other status, any other body — is no data.
pub fn accept_response(status: u16, body: &str) -> (r: Option<UsageSnapshot>)
    ensures
        status != 200 ==> r is None,
        status == 200 ==> (r is Some <==> response_model_fields(json_model_of_text(body@))
            is Some),
        status == 200 ==> (r matches Some(s) ==> {
            let f = response_model_fields(json_model_of_text(body@))->Some_0;
            &&& s.five_hour_utilization as int == f.0.0
            &&& opt_view(s.five_hour_resets_at) == f.0.1
            &&& s.seven_day_utilization as int == f.1.0
            &&& opt_view(s.seven_day_resets_at) == f.1.1
        }),
{
    if status != 200 {
        return None;
    }
    parse_usage_response(body)
}

} // verus!

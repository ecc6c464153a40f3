//! The API call strategy: parsing the method, assembling one request plan
//! from loosely structured JSON fragments — where a malformed fragment is
//! skipped, never fatal — and rendering the canonical response envelope.
//! The network send itself happens outside the library; parsing of the
//! fragments and validation of header names go through the outside crates
//! behind trusted declarations below.

use vstd::prelude::*;
use vstd::string::StringExecFns;
use crate::text::{upper_seq, eq_ignore_ascii_case, str_eq};
use crate::json::{json_quoted, json_quote};
use crate::text::dec_digits;

verus! {

/// The HTTP methods the strategy supports.
#[derive(Debug, Clone, Copy, PartialEq, Eq, Structural)]
pub enum HttpMethod {
    /// GET: no request body is sent.
    Get,
    /// POST.
    Post,
    /// PUT.
    Put,
    /// PATCH.
    Patch,
    /// DELETE.
    Delete,
    /// HEAD: no request body is sent.
    Head,
    /// OPTIONS: no request body is sent.
    Options,
}

/// One execution request for the API strategy, as the orchestrating caller
/// hands it over. The four fragment fields hold raw JSON text.
pub struct ExecuteApiParams {
    /// The method name, in any letter case.
    pub method: String,
    /// The target URL.
    pub base_url: String,
    /// Raw JSON for the query parameters: a flat string map.
    pub query: Option<String>,
    /// Raw JSON for additional headers: a flat string map.
    pub headers: Option<String>,
    /// The request body, passed through verbatim.
    pub body: Option<String>,
    /// Raw JSON for the authentication shape: a flat string map.
    pub auth: Option<String>,
    /// Request timeout in seconds; 30 when absent.
    pub timeout: Option<u64>,
    /// Project identifier, if the node belongs to a project.
    pub project_id: Option<i32>,
    /// Page identifier the node sits on.
    pub page_id: i32,
    /// Run identifier.
    pub run_id: String,
}

/// The terminal failures of the API strategy.
#[derive(Debug)]
pub enum ApiError {
    /// The method name is not one of the supported seven.
    UnsupportedMethod(String),
    /// The transport failed; carries the driver's message.
    NetworkError(String),
}

/// The message carried by an API-strategy error.
pub open spec fn api_error_text(e: &ApiError) -> Seq<char> {
    match e {
        ApiError::UnsupportedMethod(m) => m@,
        ApiError::NetworkError(m) => m@,
    }
}

impl ApiError {
    /// The human-readable message of this error.
    pub fn message(&self) -> (r: &String)
        ensures
            r@ == api_error_text(self),
    {
        match self {
            ApiError::UnsupportedMethod(m) => m,
            ApiError::NetworkError(m) => m,
        }
    }
}

/// Which method a name denotes, letter case aside; `None` for anything
/// outside the supported seven.
pub open spec fn method_of(s: Seq<char>) -> Option<HttpMethod> {
    if upper_seq(s) == "GET"@ {
        Some(HttpMethod::Get)
    } else if upper_seq(s) == "POST"@ {
        Some(HttpMethod::Post)
    } else if upper_seq(s) == "PUT"@ {
        Some(HttpMethod::Put)
    } else if upper_seq(s) == "PATCH"@ {
        Some(HttpMethod::Patch)
    } else if upper_seq(s) == "DELETE"@ {
        Some(HttpMethod::Delete)
    } else if upper_seq(s) == "HEAD"@ {
        Some(HttpMethod::Head)
    } else if upper_seq(s) == "OPTIONS"@ {
        Some(HttpMethod::Options)
    } else {
        None
    }
}

proof fn lemma_upper_fixed(s: Seq<char>)
    requires
        forall|i: int| 0 <= i < s.len() ==> !('a' <= s[i] && s[i] <= 'z'),
    ensures
        upper_seq(s) == s,
{
    assert(upper_seq(s) =~= s);
}

proof fn lemma_method_literals_upper()
    ensures
        upper_seq("GET"@) == "GET"@,
        upper_seq("POST"@) == "POST"@,
        upper_seq("PUT"@) == "PUT"@,
        upper_seq("PATCH"@) == "PATCH"@,
        upper_seq("DELETE"@) == "DELETE"@,
        upper_seq("HEAD"@) == "HEAD"@,
        upper_seq("OPTIONS"@) == "OPTIONS"@,
{
    reveal_strlit("GET");
    reveal_strlit("POST");
    reveal_strlit("PUT");
    reveal_strlit("PATCH");
    reveal_strlit("DELETE");
    reveal_strlit("HEAD");
    reveal_strlit("OPTIONS");
    lemma_upper_fixed("GET"@);
    lemma_upper_fixed("POST"@);
    lemma_upper_fixed("PUT"@);
    lemma_upper_fixed("PATCH"@);
    lemma_upper_fixed("DELETE"@);
    lemma_upper_fixed("HEAD"@);
    lemma_upper_fixed("OPTIONS"@);
}

/// Parses a method name, letter case aside.
pub fn parse_method(s: &str) -> (r: Option<HttpMethod>)
    ensures
        r == method_of(s@),
{
    proof {
        lemma_method_literals_upper();
    }
    if eq_ignore_ascii_case(s, "GET") {
        Some(HttpMethod::Get)
    } else if eq_ignore_ascii_case(s, "POST") {
        Some(HttpMethod::Post)
    } else if eq_ignore_ascii_case(s, "PUT") {
        Some(HttpMethod::Put)
    } else if eq_ignore_ascii_case(s, "PATCH") {
        Some(HttpMethod::Patch)
    } else if eq_ignore_ascii_case(s, "DELETE") {
        Some(HttpMethod::Delete)
    } else if eq_ignore_ascii_case(s, "HEAD") {
        Some(HttpMethod::Head)
    } else if eq_ignore_ascii_case(s, "OPTIONS") {
        Some(HttpMethod::Options)
    } else {
        None
    }
}

/// A request body accompanies every method but GET, HEAD and OPTIONS.
pub open spec fn body_is_sent(method: HttpMethod) -> bool {
    !(method is Get || method is Head || method is Options)
}

/// The body that goes out with the request: the supplied body, unmodified,
/// for the methods that send one and when it is nonempty; nothing otherwise.
pub fn plan_body(method: HttpMethod, body: &Option<String>) -> (r: Option<String>)
    ensures
        match body {
            Some(b) => {
                if body_is_sent(method) && b@.len() > 0 {
                    r matches Some(out) && out@ == b@
                } else {
                    r is None
                }
            },
            None => r is None,
        },
{
    match method {
        HttpMethod::Get | HttpMethod::Head | HttpMethod::Options => None,
        _ => {
            match body {
                Some(b) => {
                    if b.as_str().is_empty() {
                        None
                    } else {
                        Some(b.clone())
                    }
                },
                None => None,
            }
        },
    }
}

/// The value of the first pair carrying the key, if any.
pub open spec fn lookup_view(pairs: Seq<(Seq<char>, Seq<char>)>, k: Seq<char>) -> Option<Seq<char>>
    decreases pairs.len(),
{
    if pairs.len() == 0 {
        None
    } else if pairs[0].0 == k {
        Some(pairs[0].1)
    } else {
        lookup_view(pairs.drop_first(), k)
    }
}

/// The character-level view of a vector of string pairs.
pub open spec fn pairs_view(pairs: Seq<(String, String)>) -> Seq<(Seq<char>, Seq<char>)> {
    pairs.map_values(|p: (String, String)| (p.0@, p.1@))
}

proof fn lemma_lookup_found(pairs: Seq<(Seq<char>, Seq<char>)>, k: Seq<char>, i: int)
    requires
        0 <= i < pairs.len(),
        pairs[i].0 == k,
        forall|j: int| 0 <= j < i ==> pairs[j].0 != k,
    ensures
        lookup_view(pairs, k) == Some(pairs[i].1),
    decreases i,
{
    if i == 0 {
    } else {
        assert(forall|j: int| 0 <= j < i - 1 ==> pairs.drop_first()[j].0 != k);
        lemma_lookup_found(pairs.drop_first(), k, i - 1);
    }
}

proof fn lemma_lookup_absent(pairs: Seq<(Seq<char>, Seq<char>)>, k: Seq<char>)
    requires
        forall|j: int| 0 <= j < pairs.len() ==> pairs[j].0 != k,
    ensures
        lookup_view(pairs, k) is None,
    decreases pairs.len(),
{
    if pairs.len() > 0 {
        lemma_lookup_absent(pairs.drop_first(), k);
    }
}

/// Finds the value stored under a key, first occurrence winning.
pub fn lookup_value(pairs: &Vec<(String, String)>, key: &str) -> (r: Option<String>)
    ensures
        match r {
            Some(v) => lookup_view(pairs_view(pairs@), key@) == Some(v@),
            None => lookup_view(pairs_view(pairs@), key@) is None,
        },
{
    let mut i: usize = 0;
    while i < pairs.len()
        invariant
            i <= pairs@.len(),
            forall|j: int| 0 <= j < i ==> pairs_view(pairs@)[j].0 != key@,
        decreases pairs@.len() - i,
    {
        if str_eq(pairs[i].0.as_str(), key) {
            proof {
                lemma_lookup_found(pairs_view(pairs@), key@, i as int);
            }
            return Some(pairs[i].1.clone());
        }
        i = i + 1;
    }
    proof {
        lemma_lookup_absent(pairs_view(pairs@), key@);
    }
    None
}

/// What parsing a fragment as a flat JSON string map yields; a function of
/// the text alone. Named because writing the JSON grammar out here would
/// restate the outside crate instead of relying on it.
pub uninterp spec fn json_string_map(s: Seq<char>) -> Option<Map<Seq<char>, Seq<char>>>;

/// Relies on `serde_json::from_str::<HashMap<String, String>>`: a fragment
/// parses exactly when it is a JSON object of string values; the entries
/// depend on the text alone, and come back in no particular order.
#[verifier::external_body]
fn parse_string_object(s: &str) -> (r: Option<Vec<(String, String)>>)
    ensures
        r is Some <==> json_string_map(s@) is Some,
        match r {
            Some(pairs) => {
                &&& forall|i: int, j: int|
                    0 <= i < j < pairs@.len() ==> #[trigger] pairs@[i].0@ != #[trigger] pairs@[j].0@
                &&& forall|i: int|
                    #![trigger pairs@[i]]
                    0 <= i < pairs@.len() ==> json_string_map(s@).unwrap().contains_pair(
                        pairs@[i].0@,
                        pairs@[i].1@,
                    )
                &&& forall|k: Seq<char>|
                    json_string_map(s@).unwrap().dom().contains(k) ==> exists|i: int|
                        #![trigger pairs@[i]]
                        0 <= i < pairs@.len() && pairs@[i].0@ == k
            },
            None => true,
        },
{
    match serde_json::from_str::<std::collections::HashMap<String, String>>(s) {
        Ok(m) => Some(m.into_iter().collect()),
        Err(_) => None,
    }
}

/// The pairs carry exactly the entries of the map, each key once, in some
/// order.
pub open spec fn pairs_match(pairs: Seq<(Seq<char>, Seq<char>)>, m: Map<Seq<char>, Seq<char>>) -> bool {
    &&& forall|i: int, j: int|
        0 <= i < j < pairs.len() ==> #[trigger] pairs[i].0 != #[trigger] pairs[j].0
    &&& forall|i: int| #![trigger pairs[i]] 0 <= i < pairs.len() ==> m.contains_pair(pairs[i].0, pairs[i].1)
    &&& forall|k: Seq<char>|
        m.dom().contains(k) ==> exists|i: int| #![trigger pairs[i]] 0 <= i < pairs.len() && pairs[i].0 == k
}

proof fn lemma_pairs_match_bridge(pairs: Seq<(String, String)>, m: Map<Seq<char>, Seq<char>>)
    requires
        forall|i: int, j: int|
            0 <= i < j < pairs.len() ==> #[trigger] pairs[i].0@ != #[trigger] pairs[j].0@,
        forall|i: int|
            #![trigger pairs[i]]
            0 <= i < pairs.len() ==> m.contains_pair(pairs[i].0@, pairs[i].1@),
        forall|k: Seq<char>|
            m.dom().contains(k) ==> exists|i: int|
                #![trigger pairs[i]]
                0 <= i < pairs.len() && pairs[i].0@ == k,
    ensures
        pairs_match(pairs_view(pairs), m),
{
    let pv = pairs_view(pairs);
    assert(pv.len() == pairs.len());
    assert(forall|i: int|
        #![trigger pv[i]]
        0 <= i < pairs.len() ==> pv[i] == (pairs[i].0@, pairs[i].1@));
    assert forall|k: Seq<char>| m.dom().contains(k) implies exists|i: int|
        #![trigger pv[i]]
        0 <= i < pv.len() && pv[i].0 == k by {
        let i = choose|i: int| #![trigger pairs[i]] 0 <= i < pairs.len() && pairs[i].0@ == k;
        assert(pv[i].0 == k);
    }
}

/// A character accepted in a header name: the HTTP token characters.
pub open spec fn header_name_char_ok(c: char) -> bool {
    ||| ('a' <= c && c <= 'z')
    ||| ('A' <= c && c <= 'Z')
    ||| ('0' <= c && c <= '9')
    ||| c == '!' || c == '#' || c == '$' || c == '%' || c == '&' || c == '\'' || c == '*'
        || c == '+' || c == '-' || c == '.' || c == '^' || c == '_' || c == '`' || c == '|'
        || c == '~'
}

/// A header name is accepted when nonempty, within the length bound, and
/// made of token characters only.
pub open spec fn valid_header_name(s: Seq<char>) -> bool {
    1 <= s.len() <= 65535 && forall|i: int| 0 <= i < s.len() ==> header_name_char_ok(#[trigger] s[i])
}

/// ASCII lower-case folding of one character.
pub open spec fn lower_char(c: char) -> char {
    if 'A' <= c && c <= 'Z' {
        ((c as int) + 32) as char
    } else {
        c
    }
}

/// ASCII lower-case folding of a character sequence: the canonical form of
/// a header name.
pub open spec fn lower_seq(s: Seq<char>) -> Seq<char> {
    s.map_values(|c: char| lower_char(c))
}

/// Relies on `reqwest::header::HeaderName::from_bytes` (the `http` crate's
/// validation): a name is accepted exactly when nonempty, at most 65535
/// bytes long, and made of the header token characters; what comes back is
/// the name folded to lower case.
#[verifier::external_body]
fn checked_header_name(name: &str) -> (r: Option<String>)
    ensures
        r is Some <==> valid_header_name(name@),
        match r {
            Some(n) => n@ == lower_seq(name@),
            None => true,
        },
{
    match reqwest::header::HeaderName::from_bytes(name.as_bytes()) {
        Ok(h) => Some(h.as_str().to_string()),
        Err(_) => None,
    }
}

/// A character accepted in a header value: horizontal tab, or anything from
/// the space character on, the delete character excepted.
pub open spec fn valid_header_value_char(c: char) -> bool {
    c == '\t' || (32 <= c as int && c as int != 127)
}

/// A header value is accepted when all its characters are.
pub open spec fn valid_header_value(s: Seq<char>) -> bool {
    forall|i: int| 0 <= i < s.len() ==> valid_header_value_char(#[trigger] s[i])
}

/// Relies on `reqwest::header::HeaderValue::from_str` (the `http` crate's
/// validation): a value is accepted exactly when every character is the
/// horizontal tab or at least the space character, the delete character
/// excepted.
#[verifier::external_body]
fn header_value_ok(value: &str) -> (r: bool)
    ensures
        r == valid_header_value(value@),
{
    reqwest::header::HeaderValue::from_str(value).is_ok()
}

/// The header entries that survive validation, in order: each pair whose
/// name and value are acceptable, under the name's canonical lower case.
pub open spec fn checked_headers_spec(pairs: Seq<(String, String)>) -> Seq<(Seq<char>, Seq<char>)>
    decreases pairs.len(),
{
    if pairs.len() == 0 {
        Seq::empty()
    } else {
        let rest = checked_headers_spec(pairs.drop_last());
        if valid_header_name(pairs.last().0@) && valid_header_value(pairs.last().1@) {
            rest + seq![(lower_seq(pairs.last().0@), pairs.last().1@)]
        } else {
            rest
        }
    }
}

/// Validates each header entry individually: an entry whose name or value
/// is not acceptable is skipped, the rest are applied under canonical names.
fn apply_checked_headers(pairs: &Vec<(String, String)>) -> (r: Vec<(String, String)>)
    ensures
        pairs_view(r@) == checked_headers_spec(pairs@),
{
    let mut out: Vec<(String, String)> = Vec::new();
    let mut i: usize = 0;
    proof {
        assert(pairs@.take(0) =~= Seq::<(String, String)>::empty());
        assert(pairs_view(out@) =~= checked_headers_spec(pairs@.take(0)));
    }
    while i < pairs.len()
        invariant
            i <= pairs@.len(),
            pairs_view(out@) == checked_headers_spec(pairs@.take(i as int)),
        decreases pairs@.len() - i,
    {
        proof {
            assert(pairs@.take(i + 1).drop_last() =~= pairs@.take(i as int));
            assert(pairs@.take(i + 1).last() == pairs@[i as int]);
        }
        let ghost prev = out@;
        match checked_header_name(pairs[i].0.as_str()) {
            Some(canon) => {
                if header_value_ok(pairs[i].1.as_str()) {
                    out.push((canon, pairs[i].1.clone()));
                    proof {
                        assert(pairs_view(out@) =~= pairs_view(prev) + seq![
                            (lower_seq(pairs@[i as int].0@), pairs@[i as int].1@),
                        ]);
                    }
                }
            },
            None => {},
        }
        i = i + 1;
    }
    proof {
        assert(pairs@.take(pairs@.len() as int) =~= pairs@);
    }
    out
}

/// How a request authenticates: a ready Authorization header value for the
/// bearer shape, or the credentials of the basic shape.
#[derive(Debug)]
pub enum AuthPlan {
    /// The full `Authorization` header value, `Bearer` scheme.
    Bearer(String),
    /// Credentials for basic authentication.
    Basic {
        /// The user name.
        username: String,
        /// The password.
        password: String,
    },
}

/// What an auth fragment's entries call for: the bearer shape needs a
/// token, the basic shape a user name and a password; any other shape, or a
/// missing piece, contributes nothing.
pub open spec fn auth_matches(r: Option<AuthPlan>, pairs: Seq<(Seq<char>, Seq<char>)>) -> bool {
    match lookup_view(pairs, "type"@) {
        Some(ty) => {
            if ty == "bearer"@ {
                match lookup_view(pairs, "token"@) {
                    Some(t) => r matches Some(AuthPlan::Bearer(v)) && v@ == "Bearer "@ + t,
                    None => r is None,
                }
            } else if ty == "basic"@ {
                match (lookup_view(pairs, "username"@), lookup_view(pairs, "password"@)) {
                    (Some(u), Some(p)) => r matches Some(AuthPlan::Basic { username, password })
                        && username@ == u && password@ == p,
                    _ => r is None,
                }
            } else {
                r is None
            }
        },
        None => r is None,
    }
}

/// Reads the recognized authentication shapes out of a parsed auth
/// fragment; anything unrecognized is ignored.
fn plan_auth(pairs: &Vec<(String, String)>) -> (r: Option<AuthPlan>)
    ensures
        auth_matches(r, pairs_view(pairs@)),
{
    match lookup_value(pairs, "type") {
        None => None,
        Some(ty) => {
            if str_eq(ty.as_str(), "bearer") {
                proof {
                    reveal_strlit("bearer");
                }
                match lookup_value(pairs, "token") {
                    Some(t) => {
                        let mut v = String::new();
                        v.append("Bearer ");
                        v.append(t.as_str());
                        Some(AuthPlan::Bearer(v))
                    },
                    None => None,
                }
            } else if str_eq(ty.as_str(), "basic") {
                proof {
                    reveal_strlit("basic");
                }
                match lookup_value(pairs, "username") {
                    Some(u) => {
                        match lookup_value(pairs, "password") {
                            Some(p) => Some(AuthPlan::Basic { username: u, password: p }),
                            None => None,
                        }
                    },
                    None => None,
                }
            } else {
                proof {
                    reveal_strlit("bearer");
                    reveal_strlit("basic");
                }
                None
            }
        },
    }
}

/// One ready-to-send request: everything the transport needs, assembled and
/// validated.
#[derive(Debug)]
pub struct RequestPlan {
    /// The parsed method.
    pub method: HttpMethod,
    /// The target URL, verbatim.
    pub url: String,
    /// Query parameters from the query fragment; empty when the fragment is
    /// absent, empty or malformed.
    pub query: Vec<(String, String)>,
    /// Headers to apply: the surviving user headers in canonical form, then
    /// the default `accept: application/json`.
    pub headers: Vec<(String, String)>,
    /// Authentication, when the auth fragment carried a recognized shape.
    pub auth: Option<AuthPlan>,
    /// The body to send, if the method sends one and a body was supplied.
    pub body: Option<String>,
    /// The request timeout in seconds.
    pub timeout_secs: u64,
}

/// A fragment contributes only when present and nonempty and it parses; the
/// map it parses to is named per `json_string_map`.
pub open spec fn fragment_map(fragment: Option<String>) -> Option<Map<Seq<char>, Seq<char>>> {
    match fragment {
        Some(f) => if f@.len() == 0 {
            None
        } else {
            json_string_map(f@)
        },
        None => None,
    }
}

/// Assembles the request plan from one API execution request.
///
/// The call is aborted only by an unsupported method. Each of the three
/// loosely structured fragments — query, auth, headers — contributes its
/// entries when it parses as a flat string map, and is skipped entirely
/// when absent, empty or malformed; a header entry that fails validation is
/// skipped individually while the rest still apply. The body goes out
/// unmodified exactly for the methods that send one. The default accept
/// header always closes the header list.
pub fn build_request_plan(params: &ExecuteApiParams) -> (r: Result<RequestPlan, ApiError>)
    ensures
        r is Ok <==> method_of(params.method@) is Some,
        match r {
            Err(e) => e matches ApiError::UnsupportedMethod(m)
                && m@ == "Unsupported HTTP method: "@ + params.method@,
            Ok(plan) => {
                &&& Some(plan.method) == method_of(params.method@)
                &&& plan.url@ == params.base_url@
                &&& plan.timeout_secs == (match params.timeout {
                    Some(t) => t,
                    None => 30u64,
                })
                &&& (match params.body {
                    Some(b) => {
                        if body_is_sent(plan.method) && b@.len() > 0 {
                            plan.body matches Some(out) && out@ == b@
                        } else {
                            plan.body is None
                        }
                    },
                    None => plan.body is None,
                })
                &&& (match fragment_map(params.query) {
                    Some(m) => pairs_match(pairs_view(plan.query@), m),
                    None => plan.query@.len() == 0,
                })
                &&& (match fragment_map(params.auth) {
                    Some(m) => exists|ap: Seq<(Seq<char>, Seq<char>)>|
                        pairs_match(ap, m) && #[trigger] auth_matches(plan.auth, ap),
                    None => plan.auth is None,
                })
                &&& (match fragment_map(params.headers) {
                    Some(m) => exists|hp: Seq<(String, String)>|
                        pairs_match(pairs_view(hp), m) && pairs_view(plan.headers@)
                            == #[trigger] checked_headers_spec(hp) + seq![
                            ("accept"@, "application/json"@),
                        ],
                    None => pairs_view(plan.headers@) == seq![("accept"@, "application/json"@)],
                })
            },
        },
{
    let method = match parse_method(params.method.as_str()) {
        Some(m) => m,
        None => {
            let mut m = String::new();
            m.append("Unsupported HTTP method: ");
            m.append(params.method.as_str());
            return Err(ApiError::UnsupportedMethod(m));
        },
    };
    let timeout_secs: u64 = match &params.timeout {
        Some(t) => *t,
        None => 30,
    };
    let query_pairs: Option<Vec<(String, String)>> = match &params.query {
        Some(q) => {
            if q.as_str().is_empty() {
                None
            } else {
                parse_string_object(q.as_str())
            }
        },
        None => None,
    };
    let query: Vec<(String, String)> = match query_pairs {
        Some(pairs) => {
            proof {
                lemma_pairs_match_bridge(pairs@, fragment_map(params.query).unwrap());
            }
            pairs
        },
        None => Vec::new(),
    };
    let auth_pairs: Option<Vec<(String, String)>> = match &params.auth {
        Some(a) => {
            if a.as_str().is_empty() {
                None
            } else {
                parse_string_object(a.as_str())
            }
        },
        None => None,
    };
    let auth: Option<AuthPlan> = match &auth_pairs {
        Some(pairs) => {
            proof {
                lemma_pairs_match_bridge(pairs@, fragment_map(params.auth).unwrap());
            }
            plan_auth(pairs)
        },
        None => None,
    };
    proof {
        if fragment_map(params.auth) is Some {
            let m = fragment_map(params.auth).unwrap();
            let ap = pairs_view(auth_pairs.unwrap()@);
            assert(pairs_match(ap, m) && auth_matches(auth, ap));
        }
    }
    let header_pairs: Option<Vec<(String, String)>> = match &params.headers {
        Some(h) => {
            if h.as_str().is_empty() {
                None
            } else {
                parse_string_object(h.as_str())
            }
        },
        None => None,
    };
    let mut headers: Vec<(String, String)> = match &header_pairs {
        Some(pairs) => {
            proof {
                lemma_pairs_match_bridge(pairs@, fragment_map(params.headers).unwrap());
            }
            apply_checked_headers(pairs)
        },
        None => Vec::new(),
    };
    let mut accept_name = String::new();
    accept_name.append("accept");
    let mut accept_value = String::new();
    accept_value.append("application/json");
    let ghost headers_before = headers@;
    headers.push((accept_name, accept_value));
    proof {
        assert(pairs_view(headers@) =~= pairs_view(headers_before) + seq![
            ("accept"@, "application/json"@),
        ]);
        if fragment_map(params.headers) is Some {
            let m = fragment_map(params.headers).unwrap();
            let hp = header_pairs.unwrap()@;
            assert(pairs_match(pairs_view(hp), m) && pairs_view(headers@)
                == checked_headers_spec(hp) + seq![("accept"@, "application/json"@)]);
        } else {
            assert(pairs_view(headers_before) =~= Seq::<(Seq<char>, Seq<char>)>::empty());
            assert(pairs_view(headers@) =~= seq![("accept"@, "application/json"@)]);
        }
    }
    let body = plan_body(method, &params.body);
    let mut url = String::new();
    url.append(params.base_url.as_str());
    Ok(RequestPlan { method, url, query, headers, auth, body, timeout_secs })
}

/// How the flattened response headers appear inside the envelope.
pub open spec fn render_header_cells(headers: Seq<(String, String)>) -> Seq<char>
    decreases headers.len(),
{
    if headers.len() == 0 {
        Seq::empty()
    } else if headers.len() == 1 {
        json_quoted(headers[0].0@) + ":"@ + json_quoted(headers[0].1@)
    } else {
        render_header_cells(headers.drop_last()) + ","@ + json_quoted(headers.last().0@) + ":"@
            + json_quoted(headers.last().1@)
    }
}

/// The canonical response envelope: status, status text, the flattened
/// headers, and the body — parsed and re-serialized JSON where the body
/// parses, the raw text as a JSON string otherwise.
pub open spec fn api_envelope_spec(
    status: u16,
    status_text: Seq<char>,
    headers: Seq<(String, String)>,
    body: Seq<char>,
) -> Seq<char> {
    "{\"status\":"@ + dec_digits(status as nat) + ",\"statusText\":"@ + json_quoted(status_text)
        + ",\"headers\":{"@ + render_header_cells(headers) + "},\"data\":"@ + (match
    crate::api::json_reserialized(body) {
        Some(t) => t,
        None => json_quoted(body),
    }) + "}"@
}

/// What parsing a response body and serializing it again yields, for every
/// text that parses as JSON. Named because writing the JSON grammar out here
/// would restate the outside crate instead of relying on it.
pub uninterp spec fn json_reserialized(s: Seq<char>) -> Option<Seq<char>>;

/// Relies on `serde_json::from_str::<serde_json::Value>` and
/// `serde_json::Value::to_string`: whether a text parses as JSON, and the
/// re-serialized form of what it parses to, depend on the text alone.
#[verifier::external_body]
fn normalize_json_text(s: &str) -> (r: Option<String>)
    ensures
        r is Some <==> json_reserialized(s@) is Some,
        match r {
            Some(t) => json_reserialized(s@) == Some(t@),
            None => true,
        },
{
    match serde_json::from_str::<serde_json::Value>(s) {
        Ok(v) => Some(v.to_string()),
        Err(_) => None,
    }
}

/// Renders the response envelope from the response's parts.
pub fn build_api_envelope(
    status: u16,
    status_text: &str,
    headers: &Vec<(String, String)>,
    body: &str,
) -> (r: String)
    ensures
        r@ == api_envelope_spec(status, status_text@, headers@, body@),
{
    let mut s = String::new();
    s.append("{\"status\":");
    let status_num = crate::text::u64_to_decimal(status as u64);
    s.append(status_num.as_str());
    s.append(",\"statusText\":");
    let quoted_text = json_quote(status_text);
    s.append(quoted_text.as_str());
    s.append(",\"headers\":{");
    let ghost prefix = s@;
    let n = headers.len();
    let mut i: usize = 0;
    while i < n
        invariant
            i <= n,
            n == headers@.len(),
            s@ == prefix + render_header_cells(headers@.take(i as int)),
        decreases n - i,
    {
        if i > 0 {
            s.append(",");
        }
        let name = json_quote(headers[i].0.as_str());
        s.append(name.as_str());
        s.append(":");
        let value = json_quote(headers[i].1.as_str());
        s.append(value.as_str());
        proof {
            assert(headers@.take(i + 1).drop_last() =~= headers@.take(i as int));
            assert(headers@.take(i + 1).last() == headers@[i as int]);
        }
        i = i + 1;
    }
    proof {
        assert(headers@.take(n as int) =~= headers@);
    }
    s.append("},\"data\":");
    match normalize_json_text(body) {
        Some(t) => {
            s.append(t.as_str());
        },
        None => {
            let quoted = json_quote(body);
            s.append(quoted.as_str());
        },
    }
    s.append("}");
    s
}

} // verus!

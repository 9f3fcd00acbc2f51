//! The per-request pipeline: a linear state machine with no loops and no
//! retained state across requests.
//!
//! Every request runs Resolving, then (when a session cookie is present and
//! an auth backend is configured) Authenticating, then Forwarding, and every
//! path ends in a response. The outside work — the auth RPC and the upstream
//! exchange — happens between the steps; the caller performs it and hands
//! the classified outcome back, so every decision here is a function of the
//! request facts and those outcomes:
//!
//! * `begin` resolves the service and the client identity and either
//!   responds (404, 500, 400), asks for the auth call, or yields the
//!   outbound request;
//! * `after_auth` turns the auth outcome into a response (401, 500) or the
//!   outbound request with the injected payload header;
//! * `upstream_response` turns the upstream outcome into the relayed
//!   response (the upstream's own status, 504 on timeout, 502 otherwise).
//!
//! No step retries anything: one resolution, at most one auth call, one
//! forwarding attempt per request.
use vstd::prelude::*;
use vstd::string::StringExecFns;

use crate::auth::AuthContext;
use crate::auth::AuthOutcome;
use crate::auth::payload_header_value;
use crate::auth::spec_payload_json;
use crate::forward::build_target_url;
use crate::forward::directory_base;
use crate::forward::effective_client_addr;
use crate::forward::forwarded_value;
use crate::forward::pick_index;
use crate::forward::relay_headers;
use crate::forward::spec_dir_base;
use crate::forward::spec_relay_headers;
use crate::forward::spec_strip_leading_slashes;
use crate::forward::strip_leading_slashes;
use crate::forward::url_join_ok;
use crate::forward::url_target;
use crate::json::json_quoted;
use crate::json::spec_json_string;
use crate::table::Gateway;
use crate::table::Resolution;
use crate::table::resolve;
use crate::table::spec_find_name;
use crate::table::spec_first_match;
use crate::table::spec_routes;
use crate::table::spec_service_names;

verus! {

/// What the connection layer knows about one inbound request, as plain
/// values: the effective host, the path, the query string, the session
/// cookie's value if one came, the user agent, and the two candidate client
/// addresses (the resolved proxy-chain address and the raw peer address).
pub struct RequestFacts {
    pub host: String,
    pub path: String,
    pub query: String,
    pub session_token: Option<String>,
    pub user_agent: Option<String>,
    pub realip: Option<String>,
    pub peer_addr: Option<String>,
}

/// How a response's body is produced: nothing, a fixed text, or the
/// upstream's body relayed as it arrives.
pub enum BodyMode {
    Empty,
    Text(String),
    RelayStream,
}

/// A decided response: status, the headers to set, and the body mode.
pub struct ResponseDirective {
    pub status: u16,
    pub headers: Vec<(String, String)>,
    pub body: BodyMode,
}

/// The per-request context carried from resolution into forwarding: the
/// matched service's index and the resolved client identity.
pub struct ForwardTask {
    pub service: usize,
    pub client_ip: String,
}

/// The outbound request to perform: the target URL, the value of the
/// `Forwarded` header to add, and the payload header to set when the auth
/// step produced one. Method, remaining headers and the body are the
/// inbound request's own, streamed through unchanged.
pub struct OutboundRequest {
    pub url: String,
    pub forwarded: String,
    pub payload_header: Option<(String, String)>,
}

/// What the pipeline asks of its caller next: answer the client, call the
/// auth backend, or perform the outbound request.
pub enum Step {
    Respond(ResponseDirective),
    Authenticate { backend: usize, ctx: AuthContext, task: ForwardTask },
    Send(OutboundRequest),
}

/// One forwarding attempt's outcome: a connect/send timeout, any other
/// transport failure with its detail, or the upstream's reply head.
pub enum UpstreamOutcome {
    Timeout,
    Transport(String),
    Reply { status: u16, headers: Vec<(String, String)> },
}

/// A plain text response with no extra headers.
pub open spec fn spec_text_response(d: ResponseDirective, status: u16, body: Seq<char>) -> bool {
    &&& d.status == status
    &&& d.headers@.len() == 0
    &&& d.body matches BodyMode::Text(t) && t@ == body
}

fn text_response(status: u16, body: String) -> (r: ResponseDirective)
    ensures
        spec_text_response(r, status, body@),
{
    ResponseDirective { status, headers: Vec::new(), body: BodyMode::Text(body) }
}

/// What forwarding to one particular upstream base yields: the outbound
/// request whose URL joins the inbound path onto the base in directory
/// form (so a path prefix in the base survives), with the `Forwarded`
/// identity and the payload header — or, when the base cannot be parsed or
/// joined, a 500 for this request alone: a misconfigured base is an
/// internal failure, and 502 stays reserved for transport failures.
pub open spec fn spec_sent_to_base(
    base: Seq<char>,
    path: Seq<char>,
    query: Seq<char>,
    client_ip: Seq<char>,
    payload: Option<Seq<char>>,
    r: Step,
) -> bool {
    if url_join_ok(spec_dir_base(base), spec_strip_leading_slashes(path)) {
        &&& r matches Step::Send(ob)
        &&& ob.url@ == url_target(spec_dir_base(base), spec_strip_leading_slashes(path), query)
        &&& ob.forwarded@ == "for="@ + client_ip
        &&& (match (ob.payload_header, payload) {
            (Some(kv), Some(v)) => kv.0@ == "payload"@ && kv.1@ == v,
            (None, None) => true,
            _ => false,
        })
    } else {
        r matches Step::Respond(d) && spec_text_response(d, 500, "Invalid upstream URL"@)
    }
}

/// The forwarding step's contract: some configured upstream of the service
/// was chosen, and the step is what forwarding to that base yields.
pub open spec fn spec_forwarded_somewhere(
    upstreams: Seq<Seq<char>>,
    path: Seq<char>,
    query: Seq<char>,
    client_ip: Seq<char>,
    payload: Option<Seq<char>>,
    r: Step,
) -> bool {
    exists|k: int|
        0 <= k < upstreams.len() && spec_sent_to_base(
            upstreams[k],
            path,
            query,
            client_ip,
            payload,
            r,
        )
}

/// Builds the outbound request for the matched service: picks one of its
/// upstreams at random, puts that base in directory form, joins the inbound
/// path (leading slashes stripped) onto it, copies the query verbatim, and
/// attaches the `Forwarded` identity and, when given, the payload header.
pub fn make_outbound(gw: &Gateway, task: ForwardTask, payload: Option<(String, String)>, req:
    &RequestFacts) -> (r: Step)
    requires
        gw.wf(),
        (task.service as int) < gw.config.services@.len(),
        payload matches Some(kv) ==> kv.0@ == "payload"@,
    ensures
        spec_forwarded_somewhere(
            gw.config.services@[task.service as int].1.upstreams.deep_view(),
            req.path@,
            req.query@,
            task.client_ip@,
            match payload {
                Some(kv) => Some(kv.1@),
                None => None,
            },
            r,
        ),
{
    let ups = &gw.config.services[task.service].1.upstreams;
    let k = pick_index(ups.len());
    let base = directory_base(ups[k].as_str());
    let rel = strip_leading_slashes(req.path.as_str());
    let r = match build_target_url(base.as_str(), rel.as_str(), req.query.as_str()) {
        Some(url) => Step::Send(
            OutboundRequest {
                url,
                forwarded: forwarded_value(task.client_ip.as_str()),
                payload_header: payload,
            },
        ),
        None => Step::Respond(text_response(500, "Invalid upstream URL".to_owned())),
    };
    proof {
        assert(ups.deep_view()[k as int] == ups@[k as int]@);
        assert(spec_sent_to_base(
            ups.deep_view()[k as int],
            req.path@,
            req.query@,
            task.client_ip@,
            match payload {
                Some(kv) => Some(kv.1@),
                None => None,
            },
            r,
        ));
    }
    r
}

/// Starts the pipeline for one request. In order, each an early exit:
/// no service pattern matches the host + query-free path string — 404; a matched name
/// missing from the service list — 500 (defensive; a table built by
/// `Gateway::new` cannot produce it); no client identity resolvable under
/// the trust boundary mode — 400, before the auth backend or any upstream
/// is contacted; a session cookie present with an auth backend configured —
/// the auth call, against the first configured backend, with the missing
/// user agent reading `Unknown`; otherwise — the outbound request.
pub fn begin(gw: &Gateway, req: &RequestFacts) -> (r: Step)
    requires
        gw.wf(),
    ensures
        ({
            let uri = req.host@ + req.path@;
            let rv = spec_routes(gw.routes@);
            let names = spec_service_names(gw.config.services@);
            match spec_first_match(rv, uri) {
                None => r matches Step::Respond(d) && spec_text_response(
                    d,
                    404,
                    "Service not found"@,
                ),
                Some(i) => match spec_find_name(names, rv[i].0) {
                    None => r matches Step::Respond(d) && spec_text_response(
                        d,
                        500,
                        "Service matched, but not found 0_o"@,
                    ),
                    Some(j) => {
                        let addr = if gw.config.is_intermediate {
                            req.realip
                        } else {
                            req.peer_addr
                        };
                        match addr {
                            None => r matches Step::Respond(d) && spec_text_response(
                                d,
                                400,
                                "Failed to get remote address"@,
                            ),
                            Some(ip) => {
                                if req.session_token is Some && gw.config.spec_auth_enabled() {
                                    &&& r matches Step::Authenticate { backend, ctx, task }
                                    &&& backend == 0
                                    &&& ctx.session_token@ == req.session_token->0@
                                    &&& ctx.user_agent@ == (match req.user_agent {
                                        Some(ua) => ua@,
                                        None => "Unknown"@,
                                    })
                                    &&& ctx.client_ip@ == ip@
                                    &&& task.service as int == j
                                    &&& task.client_ip@ == ip@
                                } else {
                                    spec_forwarded_somewhere(
                                        gw.config.services@[j].1.upstreams.deep_view(),
                                        req.path@,
                                        req.query@,
                                        ip@,
                                        None,
                                        r,
                                    )
                                }
                            },
                        }
                    },
                },
            }
        }),
        r matches Step::Authenticate { backend, ctx, task } ==> (task.service as int)
            < gw.config.services@.len(),
{
    let mut uri = req.host.clone();
    uri.append(req.path.as_str());

    let service = match resolve(&gw.routes, &gw.config.services, uri.as_str()) {
        Resolution::NotFound => {
            return Step::Respond(text_response(404, "Service not found".to_owned()));
        },
        Resolution::Inconsistent => {
            return Step::Respond(text_response(500, "Service matched, but not found 0_o".to_owned()));
        },
        Resolution::Found(j) => j,
    };

    let addr = effective_client_addr(
        gw.config.is_intermediate,
        req.realip.clone(),
        req.peer_addr.clone(),
    );
    let client_ip = match addr {
        Some(ip) => ip,
        None => {
            return Step::Respond(text_response(400, "Failed to get remote address".to_owned()));
        },
    };

    let task = ForwardTask { service, client_ip };
    match (&req.session_token, gw.config.auth_enabled()) {
        (Some(token), true) => {
            let user_agent = match &req.user_agent {
                Some(ua) => ua.clone(),
                None => "Unknown".to_owned(),
            };
            Step::Authenticate {
                backend: 0,
                ctx: AuthContext {
                    session_token: token.clone(),
                    user_agent,
                    client_ip: task.client_ip.clone(),
                },
                task,
            }
        },
        _ => make_outbound(gw, task, None, req),
    }
}

/// Ends the auth step. A rejection answers 401 with the backend's reason
/// and a JSON content type; any other failure answers 500 with the detail
/// as a JSON string; an identity goes forward as the injected `payload`
/// header. Rejections and failures never reach an upstream.
pub fn after_auth(gw: &Gateway, task: ForwardTask, outcome: AuthOutcome, req: &RequestFacts) -> (r:
    Step)
    requires
        gw.wf(),
        (task.service as int) < gw.config.services@.len(),
    ensures
        outcome matches AuthOutcome::Unauthenticated(m) ==> ({
            &&& r matches Step::Respond(d)
            &&& d.status == 401
            &&& d.headers.deep_view() == seq![("content-type"@, "application/json"@)]
            &&& d.body matches BodyMode::Text(t) && t@ == m@
        }),
        outcome matches AuthOutcome::Failed(m) ==> (r matches Step::Respond(d)
            && spec_text_response(d, 500, spec_json_string(m@))),
        outcome matches AuthOutcome::Granted(p) ==> spec_forwarded_somewhere(
            gw.config.services@[task.service as int].1.upstreams.deep_view(),
            req.path@,
            req.query@,
            task.client_ip@,
            Some(
                spec_payload_json(
                    p.session_id@,
                    p.user_id@,
                    p.user_state@,
                    p.permissions.deep_view(),
                ),
            ),
            r,
        ),
{
    match outcome {
        AuthOutcome::Unauthenticated(m) => {
            let mut headers: Vec<(String, String)> = Vec::new();
            headers.push(("content-type".to_owned(), "application/json".to_owned()));
            proof {
                assert(headers.deep_view() =~= seq![("content-type"@, "application/json"@)]);
            }
            Step::Respond(ResponseDirective { status: 401, headers, body: BodyMode::Text(m) })
        },
        AuthOutcome::Failed(m) => {
            Step::Respond(text_response(500, json_quoted(m.as_str())))
        },
        AuthOutcome::Granted(p) => {
            let value = payload_header_value(&p);
            make_outbound(gw, task, Some(("payload".to_owned(), value)), req)
        },
    }
}

/// Relays the forwarding outcome to the client: a timeout answers 504 with
/// an empty body and no retry; any other transport failure answers 502 with
/// its detail; a reply keeps the upstream's status verbatim and its headers
/// minus `connection`, with no body when the status is 204 and the streamed
/// body otherwise.
pub fn upstream_response(outcome: UpstreamOutcome) -> (r: ResponseDirective)
    ensures
        outcome is Timeout ==> r.status == 504 && r.headers@.len() == 0 && r.body is Empty,
        outcome matches UpstreamOutcome::Transport(m) ==> spec_text_response(r, 502, m@),
        outcome matches UpstreamOutcome::Reply { status, headers } ==> ({
            &&& r.status == status
            &&& r.headers.deep_view() == spec_relay_headers(headers.deep_view())
            &&& (status == 204 ==> r.body is Empty)
            &&& (status != 204 ==> r.body is RelayStream)
        }),
{
    match outcome {
        UpstreamOutcome::Timeout => ResponseDirective {
            status: 504,
            headers: Vec::new(),
            body: BodyMode::Empty,
        },
        UpstreamOutcome::Transport(m) => text_response(502, m),
        UpstreamOutcome::Reply { status, headers } => {
            let kept = relay_headers(&headers);
            let body = if status == 204 {
                BodyMode::Empty
            } else {
                BodyMode::RelayStream
            };
            ResponseDirective { status, headers: kept, body }
        },
    }
}

} // verus!

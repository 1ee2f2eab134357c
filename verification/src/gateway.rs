//! The gateway as a machine: the host reports an event, the gateway answers
//! with its next phase and the action it wants performed. Lookups and
//! backend calls are the host's work; every decision is made here.

use vstd::prelude::*;
use crate::config::{
    encoding_headers, encoding_with, field_after, field_name, no_encoding, ConfigView,
    EncodingConfig, EncodingField, EncodingView, GatewayConfig,
};
use crate::headers::HeaderMap;
use crate::message::{
    error_view, fallback_view, is_success, origin_request_view, plain_view, preflight_view,
    status_is_success, text_view, with_cors, BackendRequest, BackendResponse, GatewayError,
    InboundRequest, OutboundResponse, RequestView, ResponseView,
};
use crate::query::{build_watermark_query, watermark_query};
use crate::route::{classify, is_manifest_path, Route};
use crate::sampling::{is_oversized, oversized, random_u32, selects, should_watermark};
use crate::secret::{decode_master_secret, derive_jwt_secret, derived_key, master_secret_of};
use crate::text::{trim, trimmed};
use crate::token::{check_token, locate_token, token_of, Claims, ClaimsView, TokenError};

verus! {

/// What a lookup in a configuration store gave.
#[derive(Clone, Debug, PartialEq, Eq)]
pub enum Lookup {
    /// The store holds this text under the key.
    Present(String),
    /// The store holds nothing under the key.
    Absent,
    /// The store could not be asked.
    Failed,
}

/// The mathematical model of `Lookup`.
pub enum LookupView {
    Present(Seq<char>),
    Absent,
    Failed,
}

impl View for Lookup {
    type V = LookupView;

    open spec fn view(&self) -> LookupView {
        match *self {
            Lookup::Present(text) => LookupView::Present(text@),
            Lookup::Absent => LookupView::Absent,
            Lookup::Failed => LookupView::Failed,
        }
    }
}

/// What a call to a backend gave.
#[derive(Clone, Debug, PartialEq, Eq)]
pub enum Reply {
    /// The backend answered.
    Arrived(BackendResponse),
    /// The backend could not be reached.
    Unreachable,
}

/// The mathematical model of `Reply`.
pub enum ReplyView {
    Arrived(ResponseView),
    Unreachable,
}

impl View for Reply {
    type V = ReplyView;

    open spec fn view(&self) -> ReplyView {
        match *self {
            Reply::Arrived(response) => ReplyView::Arrived(response@),
            Reply::Unreachable => ReplyView::Unreachable,
        }
    }
}

/// What is carried from the authenticated request to the request for the
/// watermarking backend.
#[derive(Clone, Debug, PartialEq, Eq)]
pub struct WatermarkJob {
    pub path: String,
    pub query: Option<String>,
    pub api_key: String,
    pub subject_key: String,
}

/// The mathematical model of `WatermarkJob`.
pub struct JobView {
    pub path: Seq<char>,
    pub query: Option<Seq<char>>,
    pub api_key: Seq<char>,
    pub subject_key: Seq<char>,
}

impl View for WatermarkJob {
    type V = JobView;

    open spec fn view(&self) -> JobView {
        JobView {
            path: self.path@,
            query: text_view(self.query),
            api_key: self.api_key@,
            subject_key: self.subject_key@,
        }
    }
}

/// The view of a verdict on a token.
pub open spec fn verdict_view(verdict: Result<Claims, TokenError>) -> Result<
    ClaimsView,
    TokenError,
> {
    match verdict {
        Ok(claims) => Ok(claims@),
        Err(e) => Err(e),
    }
}

/// What the host reports to the gateway.
#[derive(Debug, PartialEq, Eq)]
pub enum Event {
    /// A request has come in.
    Request(InboundRequest),
    /// The lookup that the gateway asked for has ended.
    Config(Lookup),
    /// The token has been checked against the signing key.
    Verdict(Result<Claims, TokenError>),
    /// A uniform sample has been drawn.
    Drawn(u32),
    /// The backend call that the gateway asked for has ended.
    Backend(Reply),
}

/// The mathematical model of `Event`.
pub enum EventView {
    Request(RequestView),
    Config(LookupView),
    Verdict(Result<ClaimsView, TokenError>),
    Drawn(u32),
    Backend(ReplyView),
}

impl View for Event {
    type V = EventView;

    open spec fn view(&self) -> EventView {
        match *self {
            Event::Request(request) => EventView::Request(request@),
            Event::Config(lookup) => EventView::Config(lookup@),
            Event::Verdict(verdict) => EventView::Verdict(verdict_view(verdict)),
            Event::Drawn(draw) => EventView::Drawn(draw),
            Event::Backend(reply) => EventView::Backend(reply@),
        }
    }
}

/// What the gateway wants done next.
#[derive(Clone, Debug, PartialEq, Eq)]
pub enum Action {
    /// Look `key` up in the configuration store `store`.
    Lookup { store: String, key: String },
    /// Check `token` against the signing key `secret`.
    VerifyToken { token: String, secret: Vec<u8> },
    /// Draw a uniform sample.
    Draw,
    /// Send `request` to the primary origin, the backend `backend`.
    SendOrigin { backend: String, request: BackendRequest },
    /// Send `request` to the watermarking service, the backend `backend`.
    SendWatermark { backend: String, request: BackendRequest },
    /// Answer the client. Nothing follows.
    Respond(OutboundResponse),
}

/// The mathematical model of `Action`.
pub enum ActionView {
    Lookup { store: Seq<char>, key: Seq<char> },
    VerifyToken { token: Seq<char>, secret: Seq<u8> },
    Draw,
    SendOrigin { backend: Seq<char>, request: RequestView },
    SendWatermark { backend: Seq<char>, request: RequestView },
    Respond(ResponseView),
}

impl View for Action {
    type V = ActionView;

    open spec fn view(&self) -> ActionView {
        match *self {
            Action::Lookup { store, key } => ActionView::Lookup { store: store@, key: key@ },
            Action::VerifyToken { token, secret } => ActionView::VerifyToken {
                token: token@,
                secret: secret@,
            },
            Action::Draw => ActionView::Draw,
            Action::SendOrigin { backend, request } => ActionView::SendOrigin {
                backend: backend@,
                request: request@,
            },
            Action::SendWatermark { backend, request } => ActionView::SendWatermark {
                backend: backend@,
                request: request@,
            },
            Action::Respond(response) => ActionView::Respond(response@),
        }
    }
}

/// Where the handling of one request stands. A phase may hold the master
/// secret or the token: the host keeps the phase and hands it back with the
/// next event, and does not write it anywhere.
#[derive(Clone, Debug, PartialEq, Eq)]
pub enum Phase {
    /// Nothing has happened yet.
    Start,
    /// The master secret is being looked up.
    AwaitSecret { request: InboundRequest, token: String },
    /// The client API key is being looked up.
    AwaitApiKey { request: InboundRequest, token: String, master_secret: Vec<u8> },
    /// The token is being checked.
    AwaitVerdict { request: InboundRequest, api_key: String },
    /// The sample for the watermark decision is being drawn.
    AwaitDraw { request: InboundRequest, api_key: String, claims: Claims },
    /// The origin is being asked for content that is handed on as it comes.
    AwaitOrigin,
    /// The origin is being asked for a segment that was selected.
    AwaitSegment { job: WatermarkJob },
    /// The encoding parameter `field` is being looked up.
    AwaitEncoding {
        job: WatermarkJob,
        segment: Vec<u8>,
        field: EncodingField,
        encoding: EncodingConfig,
    },
    /// The watermarking backend is being asked.
    AwaitWatermark { segment: Vec<u8> },
    /// The client has its answer.
    Done,
}

/// The mathematical model of `Phase`.
pub enum PhaseView {
    Start,
    AwaitSecret { request: RequestView, token: Seq<char> },
    AwaitApiKey { request: RequestView, token: Seq<char>, master_secret: Seq<u8> },
    AwaitVerdict { request: RequestView, api_key: Seq<char> },
    AwaitDraw { request: RequestView, api_key: Seq<char>, claims: ClaimsView },
    AwaitOrigin,
    AwaitSegment { job: JobView },
    AwaitEncoding { job: JobView, segment: Seq<u8>, field: EncodingField, encoding: EncodingView },
    AwaitWatermark { segment: Seq<u8> },
    Done,
}

impl View for Phase {
    type V = PhaseView;

    open spec fn view(&self) -> PhaseView {
        match *self {
            Phase::Start => PhaseView::Start,
            Phase::AwaitSecret { request, token } => PhaseView::AwaitSecret {
                request: request@,
                token: token@,
            },
            Phase::AwaitApiKey { request, token, master_secret } => PhaseView::AwaitApiKey {
                request: request@,
                token: token@,
                master_secret: master_secret@,
            },
            Phase::AwaitVerdict { request, api_key } => PhaseView::AwaitVerdict {
                request: request@,
                api_key: api_key@,
            },
            Phase::AwaitDraw { request, api_key, claims } => PhaseView::AwaitDraw {
                request: request@,
                api_key: api_key@,
                claims: claims@,
            },
            Phase::AwaitOrigin => PhaseView::AwaitOrigin,
            Phase::AwaitSegment { job } => PhaseView::AwaitSegment { job: job@ },
            Phase::AwaitEncoding { job, segment, field, encoding } => PhaseView::AwaitEncoding {
                job: job@,
                segment: segment@,
                field,
                encoding: encoding@,
            },
            Phase::AwaitWatermark { segment } => PhaseView::AwaitWatermark { segment: segment@ },
            Phase::Done => PhaseView::Done,
        }
    }
}

/// The gateway answers the client with `response`, to which the CORS origin
/// is added, and is done.
pub open spec fn answer(response: ResponseView) -> (PhaseView, ActionView) {
    (PhaseView::Done, ActionView::Respond(with_cors(response)))
}

/// The gateway answers the client with the response for `error`.
pub open spec fn refuse(error: GatewayError) -> (PhaseView, ActionView) {
    answer(error_view(error))
}

/// The request to the watermarking backend for a fetched segment: a POST to
/// the same path, the client's query with the subject added, the segment as
/// an octet stream, the trimmed API key, the service's host, and one header
/// for each encoding parameter that is present.
pub open spec fn watermark_request_view(
    cfg: ConfigView,
    job: JobView,
    encoding: EncodingView,
    segment: Seq<u8>,
) -> RequestView {
    RequestView {
        method: "POST"@,
        path: job.path,
        query: Some(watermark_query(job.query, job.subject_key)),
        headers: seq![
            ("Content-Type"@, "application/octet-stream"@),
            ("X-API-Key"@, trimmed(job.api_key)),
            ("Host"@, cfg.watermark_host),
        ] + encoding_headers(encoding),
        body: segment,
    }
}

/// What is kept of an authenticated segment request for its watermarking.
pub open spec fn job_of(request: RequestView, api_key: Seq<char>, claims: ClaimsView) -> JobView {
    JobView { path: request.path, query: request.query, api_key, subject_key: claims.subject_key }
}

/// A request comes in: a preflight is answered at once, a request without a
/// token is refused, and for any other the master secret is looked up.
pub open spec fn on_request(cfg: ConfigView, request: RequestView) -> (PhaseView, ActionView) {
    if request.method == "OPTIONS"@ {
        (PhaseView::Done, ActionView::Respond(preflight_view()))
    } else {
        match token_of(request.headers, request.query) {
            None => refuse(GatewayError::MissingCredential),
            Some(token) => (
                PhaseView::AwaitSecret { request, token },
                ActionView::Lookup { store: cfg.secrets_store, key: "SECRET_KEY_HEX"@ },
            ),
        }
    }
}

/// The master secret was looked up: it must be present, not empty and
/// hexadecimal. The API key is looked up next.
pub open spec fn on_secret(
    cfg: ConfigView,
    request: RequestView,
    token: Seq<char>,
    lookup: LookupView,
) -> (PhaseView, ActionView) {
    match lookup {
        LookupView::Failed => refuse(GatewayError::Internal),
        LookupView::Absent => refuse(GatewayError::Configuration),
        LookupView::Present(stored) => match master_secret_of(stored) {
            Err(_) => refuse(GatewayError::Configuration),
            Ok(master_secret) => (
                PhaseView::AwaitApiKey { request, token, master_secret },
                ActionView::Lookup { store: cfg.api_keys_store, key: "service_api_key"@ },
            ),
        },
    }
}

/// The API key was looked up: it must be present and not empty. The token
/// is then checked against the key derived from the API key as stored.
pub open spec fn on_api_key(
    request: RequestView,
    token: Seq<char>,
    master_secret: Seq<u8>,
    lookup: LookupView,
) -> (PhaseView, ActionView) {
    match lookup {
        LookupView::Failed => refuse(GatewayError::Internal),
        LookupView::Absent => refuse(GatewayError::Configuration),
        LookupView::Present(api_key) => if trimmed(api_key).len() == 0 {
            refuse(GatewayError::Configuration)
        } else {
            (
                PhaseView::AwaitVerdict { request, api_key },
                ActionView::VerifyToken { token, secret: derived_key(api_key, master_secret) },
            )
        },
    }
}

/// The token was checked: a refused token ends the request; a manifest goes
/// to the origin; for a segment a sample is drawn.
pub open spec fn on_verdict(
    cfg: ConfigView,
    request: RequestView,
    api_key: Seq<char>,
    verdict: Result<ClaimsView, TokenError>,
) -> (PhaseView, ActionView) {
    match verdict {
        Err(_) => refuse(GatewayError::InvalidToken),
        Ok(claims) => if is_manifest_path(request.path) {
            (
                PhaseView::AwaitOrigin,
                ActionView::SendOrigin {
                    backend: cfg.primary_backend,
                    request: origin_request_view(request),
                },
            )
        } else {
            (PhaseView::AwaitDraw { request, api_key, claims }, ActionView::Draw)
        },
    }
}

/// The sample was drawn: the origin is asked either way; a selected segment
/// is kept for watermarking.
pub open spec fn on_draw(
    cfg: ConfigView,
    request: RequestView,
    api_key: Seq<char>,
    claims: ClaimsView,
    draw: u32,
) -> (PhaseView, ActionView) {
    let send = ActionView::SendOrigin {
        backend: cfg.primary_backend,
        request: origin_request_view(request),
    };
    if selects(draw, cfg.watermark_per_million) {
        (PhaseView::AwaitSegment { job: job_of(request, api_key, claims) }, send)
    } else {
        (PhaseView::AwaitOrigin, send)
    }
}

/// The origin answered a request that is not watermarked: its response goes
/// to the client as it is.
pub open spec fn on_origin(reply: ReplyView) -> (PhaseView, ActionView) {
    match reply {
        ReplyView::Unreachable => refuse(GatewayError::Internal),
        ReplyView::Arrived(response) => answer(response),
    }
}

/// The origin answered for a selected segment: a status other than success
/// goes to the client as it is; an oversized segment is served unmodified;
/// for any other the encoding parameters are looked up.
pub open spec fn on_segment(cfg: ConfigView, job: JobView, reply: ReplyView) -> (
    PhaseView,
    ActionView,
) {
    match reply {
        ReplyView::Unreachable => refuse(GatewayError::Internal),
        ReplyView::Arrived(response) => if !is_success(response.status) {
            answer(response)
        } else if oversized(response.body.len(), cfg.max_segment_bytes) {
            answer(plain_view(response.body))
        } else {
            (
                PhaseView::AwaitEncoding {
                    job,
                    segment: response.body,
                    field: EncodingField::AacProfile,
                    encoding: no_encoding(),
                },
                ActionView::Lookup {
                    store: cfg.encoding_store,
                    key: field_name(EncodingField::AacProfile),
                },
            )
        },
    }
}

/// An encoding parameter was looked up: an absent one is left out; after
/// the last one the segment is sent to the watermarking backend.
pub open spec fn on_encoding(
    cfg: ConfigView,
    job: JobView,
    segment: Seq<u8>,
    field: EncodingField,
    encoding: EncodingView,
    lookup: LookupView,
) -> (PhaseView, ActionView) {
    if lookup is Failed {
        refuse(GatewayError::Internal)
    } else {
        let encoding = match lookup {
            LookupView::Present(value) => encoding_with(encoding, field, value),
            _ => encoding,
        };
        match field_after(field) {
            Some(next) => (
                PhaseView::AwaitEncoding { job, segment, field: next, encoding },
                ActionView::Lookup { store: cfg.encoding_store, key: field_name(next) },
            ),
            None => (
                PhaseView::AwaitWatermark { segment },
                ActionView::SendWatermark {
                    backend: cfg.watermark_backend,
                    request: watermark_request_view(cfg, job, encoding, segment),
                },
            ),
        }
    }
}

/// The watermarking backend was asked: only a response of success with a
/// body is served; in every other case the unmodified segment is.
pub open spec fn on_watermark(segment: Seq<u8>, reply: ReplyView) -> (PhaseView, ActionView) {
    match reply {
        ReplyView::Unreachable => answer(fallback_view(segment)),
        ReplyView::Arrived(response) => if response.body.len() > 0 && is_success(
            response.status,
        ) {
            answer(response)
        } else {
            answer(fallback_view(segment))
        },
    }
}

/// The next phase and the action of the gateway, given its phase and the
/// event that the host reports. An event that the phase does not await is an
/// internal error.
pub open spec fn transition(cfg: ConfigView, phase: PhaseView, event: EventView) -> (
    PhaseView,
    ActionView,
) {
    match (phase, event) {
        (PhaseView::Start, EventView::Request(request)) => on_request(cfg, request),
        (PhaseView::AwaitSecret { request, token }, EventView::Config(lookup)) => on_secret(
            cfg,
            request,
            token,
            lookup,
        ),
        (
            PhaseView::AwaitApiKey { request, token, master_secret },
            EventView::Config(lookup),
        ) => on_api_key(request, token, master_secret, lookup),
        (PhaseView::AwaitVerdict { request, api_key }, EventView::Verdict(verdict)) => on_verdict(
            cfg,
            request,
            api_key,
            verdict,
        ),
        (PhaseView::AwaitDraw { request, api_key, claims }, EventView::Drawn(draw)) => on_draw(
            cfg,
            request,
            api_key,
            claims,
            draw,
        ),
        (PhaseView::AwaitOrigin, EventView::Backend(reply)) => on_origin(reply),
        (PhaseView::AwaitSegment { job }, EventView::Backend(reply)) => on_segment(
            cfg,
            job,
            reply,
        ),
        (
            PhaseView::AwaitEncoding { job, segment, field, encoding },
            EventView::Config(lookup),
        ) => on_encoding(cfg, job, segment, field, encoding, lookup),
        (PhaseView::AwaitWatermark { segment }, EventView::Backend(reply)) => on_watermark(
            segment,
            reply,
        ),
        _ => refuse(GatewayError::Internal),
    }
}

/// The answer that ends a request with `response`.
fn respond(response: OutboundResponse) -> (out: (Phase, Action))
    ensures
        (out.0@, out.1@) == answer(response@),
{
    (Phase::Done, Action::Respond(response.finalize()))
}

/// The answer that ends a request with the response for `error`.
fn fail(error: GatewayError) -> (out: (Phase, Action))
    ensures
        (out.0@, out.1@) == refuse(error),
{
    respond(OutboundResponse::from_error(error))
}

/// Builds the request to the watermarking backend.
pub fn build_watermark_request(
    cfg: &GatewayConfig,
    job: &WatermarkJob,
    encoding: &EncodingConfig,
    segment: Vec<u8>,
) -> (out: BackendRequest)
    ensures
        out@ == watermark_request_view(cfg@, job@, encoding@, segment@),
{
    let mut headers = HeaderMap::new();
    headers.append("Content-Type", "application/octet-stream");
    let api_key = trim(job.api_key.as_str());
    headers.append("X-API-Key", api_key.as_str());
    headers.append("Host", cfg.watermark_host.as_str());
    let ghost fixed = headers@;
    assert(fixed =~= seq![
        ("Content-Type"@, "application/octet-stream"@),
        ("X-API-Key"@, trimmed(job.api_key@)),
        ("Host"@, cfg@.watermark_host),
    ]);
    encoding.append_to(&mut headers);
    BackendRequest {
        method: "POST".to_owned(),
        path: job.path.clone(),
        query: Some(build_watermark_query(&job.query, job.subject_key.as_str())),
        headers,
        body: segment,
    }
}

/// Handles the request that opens a run.
fn handle_request(cfg: &GatewayConfig, request: InboundRequest) -> (out: (Phase, Action))
    ensures
        (out.0@, out.1@) == on_request(cfg@, request@),
{
    if request.method == "OPTIONS".to_owned() {
        return (Phase::Done, Action::Respond(OutboundResponse::preflight()));
    }
    match locate_token(&request.headers, &request.query) {
        None => fail(GatewayError::MissingCredential),
        Some(token) => (
            Phase::AwaitSecret { request, token },
            Action::Lookup {
                store: cfg.secrets_store.clone(),
                key: "SECRET_KEY_HEX".to_owned(),
            },
        ),
    }
}

/// Handles the lookup of the master secret.
fn handle_secret(cfg: &GatewayConfig, request: InboundRequest, token: String, lookup: Lookup) -> (out:
    (Phase, Action))
    ensures
        (out.0@, out.1@) == on_secret(cfg@, request@, token@, lookup@),
{
    match lookup {
        Lookup::Failed => fail(GatewayError::Internal),
        Lookup::Absent => fail(GatewayError::Configuration),
        Lookup::Present(stored) => match decode_master_secret(stored.as_str()) {
            Err(_) => fail(GatewayError::Configuration),
            Ok(master_secret) => (
                Phase::AwaitApiKey { request, token, master_secret },
                Action::Lookup {
                    store: cfg.api_keys_store.clone(),
                    key: "service_api_key".to_owned(),
                },
            ),
        },
    }
}

/// Handles the lookup of the API key and derives the signing key.
fn handle_api_key(
    request: InboundRequest,
    token: String,
    master_secret: Vec<u8>,
    lookup: Lookup,
) -> (out: (Phase, Action))
    ensures
        (out.0@, out.1@) == on_api_key(request@, token@, master_secret@, lookup@),
{
    match lookup {
        Lookup::Failed => fail(GatewayError::Internal),
        Lookup::Absent => fail(GatewayError::Configuration),
        Lookup::Present(api_key) => {
            if trim(api_key.as_str()).as_str().unicode_len() == 0 {
                return fail(GatewayError::Configuration);
            }
            match derive_jwt_secret(api_key.as_str(), master_secret.as_slice()) {
                Ok(secret) => (
                    Phase::AwaitVerdict { request, api_key },
                    Action::VerifyToken { token, secret },
                ),
                Err(_) => fail(GatewayError::Configuration),
            }
        },
    }
}

/// Handles the verdict on the token and routes the request.
fn handle_verdict(
    cfg: &GatewayConfig,
    request: InboundRequest,
    api_key: String,
    verdict: Result<Claims, TokenError>,
) -> (out: (Phase, Action))
    ensures
        (out.0@, out.1@) == on_verdict(cfg@, request@, api_key@, verdict_view(verdict)),
{
    match verdict {
        Err(_) => fail(GatewayError::InvalidToken),
        Ok(claims) => match classify(request.path.as_str()) {
            Route::Manifest => (
                Phase::AwaitOrigin,
                Action::SendOrigin {
                    backend: cfg.primary_backend.clone(),
                    request: request.into_origin_request(),
                },
            ),
            Route::SegmentCandidate => (Phase::AwaitDraw { request, api_key, claims }, Action::Draw),
        },
    }
}

/// Handles the sample of the watermark decision.
fn handle_draw(
    cfg: &GatewayConfig,
    request: InboundRequest,
    api_key: String,
    claims: Claims,
    draw: u32,
) -> (out: (Phase, Action))
    ensures
        (out.0@, out.1@) == on_draw(cfg@, request@, api_key@, claims@, draw),
{
    if should_watermark(draw, cfg.watermark_per_million) {
        let job = WatermarkJob {
            path: request.path.clone(),
            query: request.query.clone(),
            api_key,
            subject_key: claims.subject_key,
        };
        (
            Phase::AwaitSegment { job },
            Action::SendOrigin {
                backend: cfg.primary_backend.clone(),
                request: request.into_origin_request(),
            },
        )
    } else {
        (
            Phase::AwaitOrigin,
            Action::SendOrigin {
                backend: cfg.primary_backend.clone(),
                request: request.into_origin_request(),
            },
        )
    }
}

/// Handles the origin's answer for content that is not watermarked.
fn handle_origin(reply: Reply) -> (out: (Phase, Action))
    ensures
        (out.0@, out.1@) == on_origin(reply@),
{
    match reply {
        Reply::Unreachable => fail(GatewayError::Internal),
        Reply::Arrived(response) => respond(OutboundResponse::from_backend(response)),
    }
}

/// Handles the origin's answer for a selected segment.
fn handle_segment(cfg: &GatewayConfig, job: WatermarkJob, reply: Reply) -> (out: (Phase, Action))
    ensures
        (out.0@, out.1@) == on_segment(cfg@, job@, reply@),
{
    match reply {
        Reply::Unreachable => fail(GatewayError::Internal),
        Reply::Arrived(response) => {
            if !status_is_success(response.status) {
                respond(OutboundResponse::from_backend(response))
            } else if is_oversized(response.body.len(), cfg.max_segment_bytes) {
                respond(OutboundResponse::plain(response.body))
            } else {
                (
                    Phase::AwaitEncoding {
                        job,
                        segment: response.body,
                        field: EncodingField::AacProfile,
                        encoding: EncodingConfig::new(),
                    },
                    Action::Lookup {
                        store: cfg.encoding_store.clone(),
                        key: EncodingField::AacProfile.name().to_owned(),
                    },
                )
            }
        },
    }
}

/// Handles the lookup of one encoding parameter.
fn handle_encoding(
    cfg: &GatewayConfig,
    job: WatermarkJob,
    segment: Vec<u8>,
    field: EncodingField,
    encoding: EncodingConfig,
    lookup: Lookup,
) -> (out: (Phase, Action))
    ensures
        (out.0@, out.1@) == on_encoding(cfg@, job@, segment@, field, encoding@, lookup@),
{
    let encoding = match lookup {
        Lookup::Failed => {
            return fail(GatewayError::Internal);
        },
        Lookup::Present(value) => encoding.with(field, value),
        Lookup::Absent => encoding,
    };
    match field.next() {
        Some(next) => (
            Phase::AwaitEncoding { job, segment, field: next, encoding },
            Action::Lookup { store: cfg.encoding_store.clone(), key: next.name().to_owned() },
        ),
        None => {
            let request = build_watermark_request(cfg, &job, &encoding, segment.clone());
            (
                Phase::AwaitWatermark { segment },
                Action::SendWatermark { backend: cfg.watermark_backend.clone(), request },
            )
        },
    }
}

/// Handles the watermarking backend's answer.
fn handle_watermark(segment: Vec<u8>, reply: Reply) -> (out: (Phase, Action))
    ensures
        (out.0@, out.1@) == on_watermark(segment@, reply@),
{
    match reply {
        Reply::Unreachable => respond(OutboundResponse::fallback(segment)),
        Reply::Arrived(response) => {
            if response.body.len() > 0 && status_is_success(response.status) {
                respond(OutboundResponse::from_backend(response))
            } else {
                respond(OutboundResponse::fallback(segment))
            }
        },
    }
}

/// Takes one step: from the phase and the event that the host reports to the
/// next phase and the action to perform.
pub fn step(cfg: &GatewayConfig, phase: Phase, event: Event) -> (out: (Phase, Action))
    ensures
        (out.0@, out.1@) == transition(cfg@, phase@, event@),
{
    match (phase, event) {
        (Phase::Start, Event::Request(request)) => handle_request(cfg, request),
        (Phase::AwaitSecret { request, token }, Event::Config(lookup)) => handle_secret(
            cfg,
            request,
            token,
            lookup,
        ),
        (Phase::AwaitApiKey { request, token, master_secret }, Event::Config(lookup)) => {
            handle_api_key(request, token, master_secret, lookup)
        },
        (Phase::AwaitVerdict { request, api_key }, Event::Verdict(verdict)) => handle_verdict(
            cfg,
            request,
            api_key,
            verdict,
        ),
        (Phase::AwaitDraw { request, api_key, claims }, Event::Drawn(draw)) => handle_draw(
            cfg,
            request,
            api_key,
            claims,
            draw,
        ),
        (Phase::AwaitOrigin, Event::Backend(reply)) => handle_origin(reply),
        (Phase::AwaitSegment { job }, Event::Backend(reply)) => handle_segment(cfg, job, reply),
        (Phase::AwaitEncoding { job, segment, field, encoding }, Event::Config(lookup)) => {
            handle_encoding(cfg, job, segment, field, encoding, lookup)
        },
        (Phase::AwaitWatermark { segment }, Event::Backend(reply)) => handle_watermark(
            segment,
            reply,
        ),
        _ => fail(GatewayError::Internal),
    }
}

/// An action that the gateway settles itself: checking a token, drawing a
/// sample. Every other action is the host's to perform.
pub open spec fn is_internal(action: ActionView) -> bool {
    action is VerifyToken || action is Draw
}

/// Where the gateway stands once a pending token check has ended with
/// `verdict`.
pub open spec fn after_verdict(
    cfg: ConfigView,
    at: (PhaseView, ActionView),
    verdict: Result<ClaimsView, TokenError>,
) -> (PhaseView, ActionView) {
    if at.1 is VerifyToken {
        transition(cfg, at.0, EventView::Verdict(verdict))
    } else {
        at
    }
}

/// Where the gateway stands once a pending draw has given `draw`.
pub open spec fn after_draw(cfg: ConfigView, at: (PhaseView, ActionView), draw: u32) -> (
    PhaseView,
    ActionView,
) {
    if at.1 is Draw {
        transition(cfg, at.0, EventView::Drawn(draw))
    } else {
        at
    }
}

/// One step, followed by the token check and the draw that it may call for,
/// where the check ends with `verdict` and the draw gives `draw`.
pub open spec fn settled(
    cfg: ConfigView,
    phase: PhaseView,
    event: EventView,
    verdict: Result<ClaimsView, TokenError>,
    draw: u32,
) -> (PhaseView, ActionView) {
    after_draw(cfg, after_verdict(cfg, transition(cfg, phase, event), verdict), draw)
}

/// After a verdict the gateway never asks for another, and after a draw it
/// asks for neither: two internal actions at most follow one step.
pub proof fn lemma_settled_is_external(
    cfg: ConfigView,
    phase: PhaseView,
    event: EventView,
    verdict: Result<ClaimsView, TokenError>,
    draw: u32,
)
    ensures
        !is_internal(settled(cfg, phase, event, verdict, draw).1),
        !(transition(cfg, phase, EventView::Verdict(verdict)).1 is VerifyToken),
        !is_internal(transition(cfg, phase, EventView::Drawn(draw)).1),
{
}

/// Takes one step and settles what the gateway can settle itself: a token
/// check is made against the signing key, a sample is drawn. The action that
/// comes back is one for the host.
///
/// The verdict depends on the clock and the sample on chance, so the result
/// is the settled step for some verdict and some draw.
pub fn advance(cfg: &GatewayConfig, phase: Phase, event: Event) -> (out: (Phase, Action))
    ensures
        !is_internal(out.1@),
        exists|verdict: Result<ClaimsView, TokenError>, draw: u32|
            (out.0@, out.1@) == settled(cfg@, phase@, event@, verdict, draw),
{
    let ghost phase0 = phase@;
    let ghost event0 = event@;
    let ghost start = transition(cfg@, phase0, event0);
    let (phase, action) = step(cfg, phase, event);
    let ghost mut verdict: Result<ClaimsView, TokenError> = Err(TokenError::Other);
    let (phase, action) = match action {
        Action::VerifyToken { token, secret } => {
            let checked = check_token(token.as_str(), secret.as_slice());
            proof {
                verdict = verdict_view(checked);
            }
            step(cfg, phase, Event::Verdict(checked))
        },
        other => (phase, other),
    };
    assert((phase@, action@) == after_verdict(cfg@, start, verdict));
    let ghost mut draw: u32 = 0;
    let (phase, action) = match action {
        Action::Draw => {
            let sample = random_u32();
            proof {
                draw = sample;
            }
            step(cfg, phase, Event::Drawn(sample))
        },
        other => (phase, other),
    };
    proof {
        lemma_settled_is_external(cfg@, phase0, event0, verdict, draw);
        assert((phase@, action@) == settled(cfg@, phase0, event0, verdict, draw));
    }
    (phase, action)
}

} // verus!

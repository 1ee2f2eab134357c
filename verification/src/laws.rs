//! What holds of every run of the gateway.

use vstd::prelude::*;
use crate::config::ConfigView;
use crate::gateway::{
    refuse, transition, ActionView, EventView, JobView, LookupView, PhaseView, ReplyView,
};
use crate::headers::{
    first_value, has_name, lemma_first_value_at, lemma_same_name_equivalence, lemma_without_drops,
    lemma_without_keeps, with_only, without, Entries,
};
use crate::message::{
    error_view, fallback_view, is_success, origin_request_view, plain_view, preflight_view,
    with_cors, GatewayError, RequestView, ResponseView,
};
use crate::query::{first_with_name, query_pairs};
use crate::route::is_manifest_path;
use crate::sampling::oversized;
use crate::secret::derived_key;
use crate::text::{same_ignoring_case, trimmed};
use crate::token::{ClaimsView, TokenError};

verus! {

/// The actions that the gateway asks for when the host reports `events` one
/// after another, starting in `phase`, up to its answer to the client.
pub open spec fn run(cfg: ConfigView, phase: PhaseView, events: Seq<EventView>) -> Seq<
    ActionView,
>
    decreases events.len(),
{
    if events.len() == 0 {
        Seq::empty()
    } else {
        let (next, action) = transition(cfg, phase, events[0]);
        if action is Respond {
            seq![action]
        } else {
            seq![action] + run(cfg, next, events.drop_first())
        }
    }
}

/// A run is its first step followed by the run of the remaining events.
pub proof fn lemma_run_unfolds(
    cfg: ConfigView,
    phase: PhaseView,
    event: EventView,
    later: Seq<EventView>,
)
    ensures
        run(cfg, phase, seq![event] + later) == {
            let (next, action) = transition(cfg, phase, event);
            if action is Respond {
                seq![action]
            } else {
                seq![action] + run(cfg, next, later)
            }
        },
{
    let events = seq![event] + later;
    assert(events[0] == event);
    assert(events.drop_first() =~= later);
}

/// The phases that are reached only with a verified token.
pub open spec fn authenticated(phase: PhaseView) -> bool {
    phase is AwaitDraw || phase is AwaitOrigin || phase is AwaitSegment || phase is AwaitEncoding
        || phase is AwaitWatermark
}

/// The actions that contact a backend.
pub open spec fn contacts_backend(action: ActionView) -> bool {
    action is SendOrigin || action is SendWatermark
}

/// Authentication comes before any backend: a step contacts a backend, or
/// enters a phase that may, only from such a phase or on the verdict that
/// accepts the token. The first phase is not such a phase.
pub proof fn law_authentication_precedes_backends(
    cfg: ConfigView,
    phase: PhaseView,
    event: EventView,
)
    ensures
        !authenticated(PhaseView::Start),
        ({
            let (next, action) = transition(cfg, phase, event);
            contacts_backend(action) || authenticated(next) ==> authenticated(phase) || (phase
                is AwaitVerdict && event matches EventView::Verdict(Ok(_)))
        }),
{
}

/// One of the first `count` events of `events` is the verdict that accepts
/// a token.
pub open spec fn accepted_within(events: Seq<EventView>, count: int) -> bool {
    exists|j: int|
        0 <= j < count && j < events.len() && (#[trigger] events[j]) matches EventView::Verdict(
            Ok(_),
        )
}

/// In a run from any phase, a backend is contacted only from a phase that
/// follows authentication or after the verdict that accepts the token.
pub proof fn lemma_backends_follow_acceptance(
    cfg: ConfigView,
    phase: PhaseView,
    events: Seq<EventView>,
    i: int,
)
    requires
        0 <= i < run(cfg, phase, events).len(),
        contacts_backend(run(cfg, phase, events)[i]),
    ensures
        authenticated(phase) || accepted_within(events, i + 1),
    decreases events.len(),
{
    let (next, action) = transition(cfg, phase, events[0]);
    law_authentication_precedes_backends(cfg, phase, events[0]);
    if i > 0 {
        let rest = events.drop_first();
        assert(run(cfg, phase, events)[i] == run(cfg, next, rest)[i - 1]);
        lemma_backends_follow_acceptance(cfg, next, rest, i - 1);
        if !authenticated(next) {
            let j = choose|j: int|
                0 <= j < i && j < rest.len() && (#[trigger] rest[j]) matches EventView::Verdict(
                    Ok(_),
                );
            assert(events[j + 1] == rest[j]);
        }
    }
}

/// Authentication comes first in every run: whatever the host reports, the
/// gateway contacts a backend only after the verdict that accepts the token.
pub proof fn law_no_backend_before_acceptance(cfg: ConfigView, events: Seq<EventView>, i: int)
    requires
        0 <= i < run(cfg, PhaseView::Start, events).len(),
        contacts_backend(run(cfg, PhaseView::Start, events)[i]),
    ensures
        accepted_within(events, i + 1),
{
    lemma_backends_follow_acceptance(cfg, PhaseView::Start, events, i);
}

/// A request that is no preflight and has neither an `Authorization` header
/// nor a `token` parameter is answered with 401 at once: the answer is the
/// only action of the run, whatever the host reports afterwards.
pub proof fn law_missing_credential(cfg: ConfigView, request: RequestView, later: Seq<EventView>)
    requires
        request.method != "OPTIONS"@,
        first_value(request.headers, "Authorization"@) is None,
        first_with_name(query_pairs(request.query), "token"@) is None,
    ensures
        run(cfg, PhaseView::Start, seq![EventView::Request(request)] + later) == seq![
            ActionView::Respond(with_cors(error_view(GatewayError::MissingCredential))),
        ],
        error_view(GatewayError::MissingCredential).status == 401,
{
    lemma_run_unfolds(cfg, PhaseView::Start, EventView::Request(request), later);
}

/// A preflight is answered at once with status 200 and the three CORS
/// headers: the answer is the only action of the run, whatever the request
/// carries and whatever the host reports afterwards.
pub proof fn law_preflight(cfg: ConfigView, request: RequestView, later: Seq<EventView>)
    requires
        request.method == "OPTIONS"@,
    ensures
        run(cfg, PhaseView::Start, seq![EventView::Request(request)] + later) == seq![
            ActionView::Respond(preflight_view()),
        ],
        preflight_view().status == 200,
        preflight_view().headers == seq![
            ("Access-Control-Allow-Origin"@, "*"@),
            ("Access-Control-Allow-Methods"@, "GET, HEAD, POST, OPTIONS"@),
            ("Access-Control-Allow-Headers"@, "Content-Type, Authorization, X-API-Key"@),
        ],
{
    lemma_run_unfolds(cfg, PhaseView::Start, EventView::Request(request), later);
}

/// Once its token is accepted, a request for a manifest, a path that ends
/// in `.m3u8`, `.mpd` or `.cmfv`, goes to the primary origin with its method, path, query and body
/// unchanged, and the origin's response goes to the client. No sample is
/// drawn and the watermarking backend is not contacted, whatever share the
/// configuration sets.
pub proof fn law_manifest_passthrough(
    cfg: ConfigView,
    request: RequestView,
    api_key: Seq<char>,
    claims: ClaimsView,
    response: ResponseView,
    later: Seq<EventView>,
)
    requires
        is_manifest_path(request.path),
    ensures
        run(
            cfg,
            PhaseView::AwaitVerdict { request, api_key },
            seq![
                EventView::Verdict(Ok(claims)),
                EventView::Backend(ReplyView::Arrived(response)),
            ] + later,
        ) == seq![
            ActionView::SendOrigin {
                backend: cfg.primary_backend,
                request: origin_request_view(request),
            },
            ActionView::Respond(with_cors(response)),
        ],
        origin_request_view(request).method == request.method,
        origin_request_view(request).path == request.path,
        origin_request_view(request).query == request.query,
        origin_request_view(request).body == request.body,
{
    let first = EventView::Verdict(Ok(claims));
    let second = EventView::Backend(ReplyView::Arrived(response));
    assert(seq![first, second] + later =~= seq![first] + (seq![second] + later));
    lemma_run_unfolds(cfg, PhaseView::AwaitVerdict { request, api_key }, first, seq![second] + later);
    lemma_run_unfolds(cfg, PhaseView::AwaitOrigin, second, later);
    let send = ActionView::SendOrigin {
        backend: cfg.primary_backend,
        request: origin_request_view(request),
    };
    assert(seq![send] + seq![ActionView::Respond(with_cors(response))] =~= seq![
        send,
        ActionView::Respond(with_cors(response)),
    ]);
}

/// The watermarking backend failed: it could not be reached, or it answered
/// without a body, or with a status other than success.
pub open spec fn watermark_failed(reply: ReplyView) -> bool {
    match reply {
        ReplyView::Unreachable => true,
        ReplyView::Arrived(response) => response.body.len() == 0 || !is_success(response.status),
    }
}

/// When the watermarking backend fails, the client gets status 200 and the
/// segment as it was fetched.
pub proof fn law_watermark_failure_falls_back(
    cfg: ConfigView,
    segment: Seq<u8>,
    reply: ReplyView,
    later: Seq<EventView>,
)
    requires
        watermark_failed(reply),
    ensures
        run(cfg, PhaseView::AwaitWatermark { segment }, seq![EventView::Backend(reply)] + later)
            == seq![ActionView::Respond(with_cors(fallback_view(segment)))],
        with_cors(fallback_view(segment)).status == 200,
        with_cors(fallback_view(segment)).body == segment,
{
    lemma_run_unfolds(cfg, PhaseView::AwaitWatermark { segment }, EventView::Backend(reply), later);
}

/// From the origin's answer to the client's: when a selected segment was
/// fetched, its encoding parameters were looked up and the watermarking
/// backend then failed, the run ends with status 200 and exactly the bytes
/// that the origin delivered.
pub proof fn law_fallback_serves_origin_bytes(
    cfg: ConfigView,
    job: JobView,
    origin: ResponseView,
    lookups: Seq<LookupView>,
    reply: ReplyView,
    later: Seq<EventView>,
)
    requires
        is_success(origin.status),
        !oversized(origin.body.len(), cfg.max_segment_bytes),
        lookups.len() == 4,
        forall|i: int| 0 <= i < 4 ==> !(#[trigger] lookups[i] is Failed),
        watermark_failed(reply),
    ensures
        ({
            let actions = run(
                cfg,
                PhaseView::AwaitSegment { job },
                seq![
                    EventView::Backend(ReplyView::Arrived(origin)),
                    EventView::Config(lookups[0]),
                    EventView::Config(lookups[1]),
                    EventView::Config(lookups[2]),
                    EventView::Config(lookups[3]),
                    EventView::Backend(reply),
                ] + later,
            );
            &&& actions.len() == 6
            &&& actions[4] is SendWatermark
            &&& actions[5] == ActionView::Respond(with_cors(fallback_view(origin.body)))
            &&& actions[5]->Respond_0.status == 200
            &&& actions[5]->Respond_0.body == origin.body
        }),
{
    let e0 = EventView::Backend(ReplyView::Arrived(origin));
    let e1 = EventView::Config(lookups[0]);
    let e2 = EventView::Config(lookups[1]);
    let e3 = EventView::Config(lookups[2]);
    let e4 = EventView::Config(lookups[3]);
    let e5 = EventView::Backend(reply);
    let r5 = seq![e5] + later;
    let r4 = seq![e4] + r5;
    let r3 = seq![e3] + r4;
    let r2 = seq![e2] + r3;
    let r1 = seq![e1] + r2;
    assert(seq![e0, e1, e2, e3, e4, e5] + later =~= seq![e0] + r1);
    let p0 = PhaseView::AwaitSegment { job };
    lemma_run_unfolds(cfg, p0, e0, r1);
    let p1 = transition(cfg, p0, e0).0;
    lemma_run_unfolds(cfg, p1, e1, r2);
    let p2 = transition(cfg, p1, e1).0;
    lemma_run_unfolds(cfg, p2, e2, r3);
    let p3 = transition(cfg, p2, e2).0;
    lemma_run_unfolds(cfg, p3, e3, r4);
    let p4 = transition(cfg, p3, e3).0;
    lemma_run_unfolds(cfg, p4, e4, r5);
    let p5 = transition(cfg, p4, e4).0;
    lemma_run_unfolds(cfg, p5, e5, later);
    assert(p5 == PhaseView::AwaitWatermark { segment: origin.body });
}

/// When the watermarking backend answers with a status of success and a
/// body, the client gets that status and that body, and every header that
/// the backend set: each one as it was set, but `Access-Control-Allow-Origin`,
/// which is present with the wildcard.
pub proof fn law_watermarked_served(
    cfg: ConfigView,
    segment: Seq<u8>,
    response: ResponseView,
    later: Seq<EventView>,
)
    requires
        is_success(response.status),
        response.body.len() > 0,
    ensures
        run(
            cfg,
            PhaseView::AwaitWatermark { segment },
            seq![EventView::Backend(ReplyView::Arrived(response))] + later,
        ) == seq![ActionView::Respond(with_cors(response))],
        with_cors(response).status == response.status,
        with_cors(response).body == response.body,
        forall|i: int|
            0 <= i < response.headers.len() ==> has_name(
                with_cors(response).headers,
                (#[trigger] response.headers[i]).0,
            ),
        forall|i: int|
            0 <= i < response.headers.len() && !same_ignoring_case(
                (#[trigger] response.headers[i]).0,
                "Access-Control-Allow-Origin"@,
            ) ==> with_cors(response).headers.contains(response.headers[i]),
{
    lemma_run_unfolds(
        cfg,
        PhaseView::AwaitWatermark { segment },
        EventView::Backend(ReplyView::Arrived(response)),
        later,
    );
    lemma_cors_keeps_headers(response.headers);
}

/// Setting the CORS origin keeps every header name, and every header of
/// another name as it is.
pub proof fn lemma_cors_keeps_headers(headers: Entries)
    ensures
        forall|i: int|
            0 <= i < headers.len() ==> has_name(
                with_only(headers, "Access-Control-Allow-Origin"@, "*"@),
                (#[trigger] headers[i]).0,
            ),
        forall|i: int|
            0 <= i < headers.len() && !same_ignoring_case(
                (#[trigger] headers[i]).0,
                "Access-Control-Allow-Origin"@,
            ) ==> with_only(headers, "Access-Control-Allow-Origin"@, "*"@).contains(headers[i]),
{
    let cors = "Access-Control-Allow-Origin"@;
    let kept = without(headers, cors);
    let out = with_only(headers, cors, "*"@);
    assert forall|i: int| 0 <= i < headers.len() implies has_name(out, (#[trigger] headers[i]).0)
        && (!same_ignoring_case(headers[i].0, cors) ==> out.contains(headers[i])) by {
        let name = headers[i].0;
        if same_ignoring_case(name, cors) {
            lemma_same_name_equivalence(name, cors, cors);
            assert(out[out.len() - 1].0 == cors);
        } else {
            lemma_without_keeps(headers, cors, i);
            let k = choose|k: int| 0 <= k < kept.len() && kept[k] == headers[i];
            assert(out[k] == headers[i]);
            lemma_same_name_equivalence(name, name, name);
        }
    }
}

/// A segment that exceeds the threshold is never sent to the watermarking
/// backend, whatever the draw: the run from the draw on asks the origin and
/// then answers the client with the bytes that the origin delivered.
pub proof fn law_oversized_never_watermarked(
    cfg: ConfigView,
    request: RequestView,
    api_key: Seq<char>,
    claims: ClaimsView,
    draw: u32,
    origin: ResponseView,
    later: Seq<EventView>,
)
    requires
        oversized(origin.body.len(), cfg.max_segment_bytes),
    ensures
        ({
            let actions = run(
                cfg,
                PhaseView::AwaitDraw { request, api_key, claims },
                seq![EventView::Drawn(draw), EventView::Backend(ReplyView::Arrived(origin))]
                    + later,
            );
            &&& actions.len() == 2
            &&& actions[0] is SendOrigin
            &&& actions[1] is Respond
            &&& actions[1]->Respond_0.body == origin.body
            &&& forall|i: int| 0 <= i < actions.len() ==> !(#[trigger] actions[i] is SendWatermark)
        }),
{
    let first = EventView::Drawn(draw);
    let second = EventView::Backend(ReplyView::Arrived(origin));
    assert(seq![first, second] + later =~= seq![first] + (seq![second] + later));
    let start = PhaseView::AwaitDraw { request, api_key, claims };
    lemma_run_unfolds(cfg, start, first, seq![second] + later);
    lemma_run_unfolds(cfg, transition(cfg, start, first).0, second, later);
}

/// After `with_cors`, the first `Access-Control-Allow-Origin` header, and
/// the only one, is the wildcard.
pub proof fn lemma_cors_is_wildcard(response: ResponseView)
    ensures
        first_value(with_cors(response).headers, "Access-Control-Allow-Origin"@) == Some("*"@),
{
    let cors = "Access-Control-Allow-Origin"@;
    let kept = without(response.headers, cors);
    let out = with_only(response.headers, cors, "*"@);
    lemma_without_drops(response.headers, cors);
    lemma_same_name_equivalence(cors, cors, cors);
    assert forall|j: int| 0 <= j < kept.len() implies !same_ignoring_case(
        #[trigger] out[j].0,
        cors,
    ) by {
        assert(out[j] == kept[j]);
    }
    lemma_first_value_at(out, cors, kept.len() as int);
}

/// Every answer to the client, whatever step gives it, carries the wildcard
/// as its `Access-Control-Allow-Origin`.
pub proof fn law_every_answer_allows_any_origin(
    cfg: ConfigView,
    phase: PhaseView,
    event: EventView,
)
    ensures
        transition(cfg, phase, event).1 matches ActionView::Respond(response) ==> first_value(
            response.headers,
            "Access-Control-Allow-Origin"@,
        ) == Some("*"@),
{
    if let ActionView::Respond(response) = transition(cfg, phase, event).1 {
        let cors = "Access-Control-Allow-Origin"@;
        if response == preflight_view() {
            lemma_same_name_equivalence(cors, cors, cors);
            lemma_first_value_at(response.headers, cors, 0);
        } else {
            lemma_answers_are_finalized(cfg, phase, event);
            let inner = choose|inner: ResponseView| response == with_cors(inner);
            lemma_cors_is_wildcard(inner);
        }
    }
}

/// An answer is the preflight answer or a response to which the CORS origin
/// was added.
pub proof fn lemma_answers_are_finalized(cfg: ConfigView, phase: PhaseView, event: EventView)
    ensures
        transition(cfg, phase, event).1 matches ActionView::Respond(response) ==> response
            == preflight_view() || exists|inner: ResponseView| response == with_cors(inner),
{
    let action = transition(cfg, phase, event).1;
    if let ActionView::Respond(response) = action {
        if response != preflight_view() {
            match (phase, event) {
                (PhaseView::AwaitOrigin, EventView::Backend(ReplyView::Arrived(r))) => {
                    assert(response == with_cors(r));
                },
                (PhaseView::AwaitSegment { job }, EventView::Backend(ReplyView::Arrived(r))) => {
                    if !is_success(r.status) {
                        assert(response == with_cors(r));
                    } else {
                        assert(response == with_cors(plain_view(r.body)));
                    }
                },
                (PhaseView::AwaitWatermark { segment }, EventView::Backend(reply)) => {
                    match reply {
                        ReplyView::Arrived(r) => {
                            if r.body.len() > 0 && is_success(r.status) {
                                assert(response == with_cors(r));
                            } else {
                                assert(response == with_cors(fallback_view(segment)));
                            }
                        },
                        ReplyView::Unreachable => {
                            assert(response == with_cors(fallback_view(segment)));
                        },
                    }
                },
                _ => {
                    assert(response == with_cors(error_view(GatewayError::MissingCredential))
                        || response == with_cors(error_view(GatewayError::InvalidToken))
                        || response == with_cors(error_view(GatewayError::Configuration))
                        || response == with_cors(error_view(GatewayError::Internal)));
                },
            }
        }
    }
}

/// The token is checked against the key derived from the stored API key and
/// the master secret, and so two pairs that derive the same key are checked
/// alike.
pub proof fn law_token_is_checked_against_the_derived_key(
    request: RequestView,
    token: Seq<char>,
    master_secret: Seq<u8>,
    api_key: Seq<char>,
    other_secret: Seq<u8>,
    other_key: Seq<char>,
    cfg: ConfigView,
)
    requires
        trimmed(api_key).len() > 0,
        trimmed(other_key).len() > 0,
    ensures
        transition(
            cfg,
            PhaseView::AwaitApiKey { request, token, master_secret },
            EventView::Config(LookupView::Present(api_key)),
        ).1 == (ActionView::VerifyToken { token, secret: derived_key(api_key, master_secret) }),
        derived_key(api_key, master_secret) == derived_key(other_key, other_secret) ==> transition(
            cfg,
            PhaseView::AwaitApiKey { request, token, master_secret },
            EventView::Config(LookupView::Present(api_key)),
        ).1 == transition(
            cfg,
            PhaseView::AwaitApiKey { request, token, master_secret: other_secret },
            EventView::Config(LookupView::Present(other_key)),
        ).1,
{
}

/// The phases before the token is accepted.
pub open spec fn authenticating(phase: PhaseView) -> bool {
    phase is Start || phase is AwaitSecret || phase is AwaitApiKey || phase is AwaitVerdict
}

/// Until the token is accepted, an answer is the preflight answer or one of
/// the four fixed refusals: nothing of the request, the token, the API key
/// or the master secret is echoed.
pub proof fn law_refusals_are_fixed(cfg: ConfigView, phase: PhaseView, event: EventView)
    requires
        authenticating(phase),
    ensures
        transition(cfg, phase, event).1 matches ActionView::Respond(response) ==> response
            == preflight_view() || exists|error: GatewayError| response == with_cors(
            error_view(error),
        ),
{
    if let ActionView::Respond(response) = transition(cfg, phase, event).1 {
        if response != preflight_view() {
            assert(response == with_cors(error_view(GatewayError::MissingCredential)) || response
                == with_cors(error_view(GatewayError::InvalidToken)) || response == with_cors(
                error_view(GatewayError::Configuration),
            ) || response == with_cors(error_view(GatewayError::Internal)));
        }
    }
}

/// A refused token is answered alike whatever the reason of the refusal:
/// with status 401 and a text that does not tell which check failed.
pub proof fn law_refused_tokens_are_alike(
    cfg: ConfigView,
    request: RequestView,
    api_key: Seq<char>,
    reason: TokenError,
    other_reason: TokenError,
)
    ensures
        transition(
            cfg,
            PhaseView::AwaitVerdict { request, api_key },
            EventView::Verdict(Err(reason)),
        ) == transition(
            cfg,
            PhaseView::AwaitVerdict { request, api_key },
            EventView::Verdict(Err(other_reason)),
        ),
        transition(
            cfg,
            PhaseView::AwaitVerdict { request, api_key },
            EventView::Verdict(Err(reason)),
        ) == refuse(GatewayError::InvalidToken),
        error_view(GatewayError::InvalidToken).status == 401,
{
}

} // verus!

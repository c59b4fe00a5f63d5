use vstd::prelude::*;
use vstd::string::StrSliceExecFns;
use vstd::utf8::encode_utf8;

use crate::http::{HttpRequest, HttpResponse, RequestModel, ResponseModel, STATUS_OK};
use crate::plugin::Plugin;
use crate::plugin_echo::{echo_body, echo_path, echo_response, EchoPlugin};
use crate::plugin_manager::{dispatch_spec, lemma_first_match_wins, PluginManager};

verus! {

/// Body of the fixed fallback response, returned whenever dispatch
/// produced no response.
pub open spec fn fallback_body() -> Seq<u8> {
    encode_utf8("No Plugin Found"@)
}

/// The fixed fallback response itself.
pub open spec fn fallback_response() -> ResponseModel {
    ResponseModel { status: STATUS_OK as int, body: fallback_body() }
}

/// The response the server adapter owes for a request: the dispatched
/// plugin response verbatim when there is one, the fallback otherwise.
pub open spec fn response_spec<P: Plugin>(plugins: Seq<P>, req: RequestModel) -> ResponseModel {
    match dispatch_spec(plugins, req) {
        Some(m) => m,
        None => fallback_response(),
    }
}

/// The single entry point invoked once per inbound request: dispatch the
/// request through the registry and return the plugin's response verbatim,
/// or the fixed fallback response when dispatch produced none. Never fails
/// outward: every request gets a well-formed response.
pub fn handle_request<P: Plugin>(manager: &PluginManager<P>, req: HttpRequest) -> (r: HttpResponse)
    requires
        manager.all_ready(),
    ensures
        r@ == response_spec(manager@, req@),
{
    match manager.handle_request(req) {
        Some(resp) => resp,
        None => HttpResponse::from_bytes("No Plugin Found".as_bytes_vec()),
    }
}

/// No-match fallback: when no registered plugin's predicate accepts the
/// request, the server adapter answers with the fixed fallback body and a
/// success status.
pub proof fn lemma_no_match_fallback<P: Plugin>(plugins: Seq<P>, req: RequestModel)
    requires
        forall|i: int| 0 <= i < plugins.len() ==> !plugins[i].can_handle_spec(req),
    ensures
        response_spec(plugins, req) == fallback_response(),
{
    lemma_no_match(plugins, req, 0);
}

/// Helper induction: with no accepting plugin anywhere, the first match
/// from any position out is absent.
proof fn lemma_no_match<P: Plugin>(plugins: Seq<P>, req: RequestModel, i: int)
    requires
        0 <= i <= plugins.len(),
        forall|j: int| 0 <= j < plugins.len() ==> !plugins[j].can_handle_spec(req),
    ensures
        crate::plugin_manager::first_match_from(plugins, req, i) is None,
    decreases plugins.len() - i,
{
    if i < plugins.len() {
        lemma_no_match(plugins, req, i + 1);
    }
}

/// Echo round trip: a request on the echo path, dispatched through a
/// registry of echo plugins, is answered with a success status and the
/// body `Echo: ` followed by the request body read as text.
pub proof fn lemma_echo_round_trip(plugins: Seq<EchoPlugin>, req: RequestModel)
    requires
        plugins.len() > 0,
        req.path == echo_path(),
    ensures
        response_spec(plugins, req) == echo_response(req),
        response_spec(plugins, req).body == echo_body(req.body),
{
    lemma_first_match_wins(plugins, req, 0);
}

/// Path exclusivity: with only echo plugins registered, a request whose
/// path is not the echo path is handled by no plugin and receives the
/// fallback response.
pub proof fn lemma_path_exclusivity(plugins: Seq<EchoPlugin>, req: RequestModel)
    requires
        req.path != echo_path(),
    ensures
        response_spec(plugins, req) == fallback_response(),
{
    lemma_no_match_fallback(plugins, req);
}

/// Concurrent dispatch safety: the response to a request is a function of
/// the registry and that request alone, so concurrently served echo
/// requests each receive the echo of their own body, with no cross-talk.
pub proof fn lemma_no_cross_talk(plugins: Seq<EchoPlugin>, req1: RequestModel, req2: RequestModel)
    requires
        plugins.len() > 0,
        req1.path == echo_path(),
        req2.path == echo_path(),
    ensures
        response_spec(plugins, req1).body == echo_body(req1.body),
        response_spec(plugins, req2).body == echo_body(req2.body),
{
    lemma_echo_round_trip(plugins, req1);
    lemma_echo_round_trip(plugins, req2);
}

/// Idempotence: dispatch is deterministic. The adapter's contract pins
/// every response to `response_spec`, so any two responses to the same
/// request against the same registry are byte-identical.
pub proof fn lemma_dispatch_idempotent<P: Plugin>(
    plugins: Seq<P>,
    req: RequestModel,
    r1: ResponseModel,
    r2: ResponseModel,
)
    requires
        r1 == response_spec(plugins, req),
        r2 == response_spec(plugins, req),
    ensures
        r1 == r2,
        r1.body == r2.body,
        r1.status == r2.status,
{
}

} // verus!

use vstd::prelude::*;

use crate::http::{HttpRequest, HttpResponse, RequestModel, ResponseModel};

verus! {

/// A plugin's processing step failed. Dispatch reports this as "no
/// response", the same observable outcome as "no plugin matched"; the
/// fallback response covers both.
#[derive(Clone, Copy, PartialEq, Eq, Structural, Debug)]
pub enum PluginError {
    ProcessingFailed,
}

/// The capability contract every pluggable unit of request-processing
/// logic satisfies, so the registry can treat plugins uniformly.
///
/// The two spec functions `can_handle_spec` and `handle_spec` are the
/// plugin's request-facing behavior; the executable methods are pinned to
/// them, so dispatch contracts can be stated once, for every plugin.
pub trait Plugin: Sized {
    /// Whether this plugin's one-time initialization has completed.
    spec fn ready(&self) -> bool;

    /// What the predicate answers for a given request.
    spec fn can_handle_spec(&self, req: RequestModel) -> bool;

    /// What processing produces for a given request: a response, or
    /// `None` for a terminal failure.
    spec fn handle_spec(&self, req: RequestModel) -> Option<ResponseModel>;

    /// One-time setup. Runs exactly once per plugin, before any request
    /// is dispatched to it. Its side effects are limited to setup: the
    /// plugin's request-facing behavior stays as registered.
    fn plugin_init(&mut self)
        ensures
            final(self).ready(),
            forall|req: RequestModel|
                final(self).can_handle_spec(req) == old(self).can_handle_spec(req),
            forall|req: RequestModel| final(self).handle_spec(req) == old(self).handle_spec(req),
    ;

    /// Executable observer of `ready`: whether one-time initialization
    /// has completed.
    fn plugin_is_ready(&self) -> (r: bool)
        ensures
            r == self.ready(),
    ;

    /// Stable identifying name, used only for diagnostics.
    fn plugin_name(&self) -> &str;

    /// Cheap, side-effect-free predicate: can this plugin process the
    /// request? Must not consume the request body.
    fn plugin_can_handle(&self, req: &HttpRequest) -> (r: bool)
        ensures
            r == self.can_handle_spec(req@),
    ;

    /// Process the request, consuming it, and produce a response or a
    /// terminal failure.
    fn plugin_handle(&self, req: HttpRequest) -> (r: Result<HttpResponse, PluginError>)
        ensures
            match r {
                Ok(resp) => self.handle_spec(req@) == Some(resp@),
                Err(_) => self.handle_spec(req@) is None,
            },
    ;
}

/// Two plugin states answer every request alike: the same predicate
/// verdict and the same processing outcome. Initialization leaves a
/// plugin's behavior unchanged in this sense.
pub open spec fn same_behavior<P: Plugin>(a: P, b: P) -> bool {
    forall|req: RequestModel|
        #![trigger a.can_handle_spec(req)]
        #![trigger b.can_handle_spec(req)]
        a.can_handle_spec(req) == b.can_handle_spec(req) && a.handle_spec(req) == b.handle_spec(req)
}

} // verus!

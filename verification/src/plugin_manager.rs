use vstd::prelude::*;

use crate::http::{HttpRequest, HttpResponse, RequestModel, ResponseModel};
use crate::plugin::{same_behavior, Plugin};

verus! {

/// Index of the first plugin at position `i` or later whose predicate
/// accepts the request, if any.
pub open spec fn first_match_from<P: Plugin>(
    plugins: Seq<P>,
    req: RequestModel,
    i: int,
) -> Option<int>
    decreases plugins.len() - i,
{
    if i < 0 || i >= plugins.len() {
        None
    } else if plugins[i].can_handle_spec(req) {
        Some(i)
    } else {
        first_match_from(plugins, req, i + 1)
    }
}

/// Index of the first plugin whose predicate accepts the request, if any.
pub open spec fn first_match<P: Plugin>(plugins: Seq<P>, req: RequestModel) -> Option<int> {
    first_match_from(plugins, req, 0)
}

/// What dispatch yields: the first matching plugin's outcome (its
/// response, or `None` when its processing failed), and `None` when no
/// plugin matches at all.
pub open spec fn dispatch_spec<P: Plugin>(plugins: Seq<P>, req: RequestModel) -> Option<
    ResponseModel,
> {
    match first_match(plugins, req) {
        Some(i) => plugins[i].handle_spec(req),
        None => None,
    }
}

/// How many plugins in the sequence have completed initialization.
pub open spec fn count_ready<P: Plugin>(plugins: Seq<P>) -> nat
    decreases plugins.len(),
{
    if plugins.len() == 0 {
        0
    } else {
        count_ready(plugins.drop_last()) + if plugins.last().ready() {
            1nat
        } else {
            0nat
        }
    }
}

/// When no plugin before position `i` accepts the request, the first
/// match over the whole list is the first match at `i` or later.
proof fn lemma_first_match_prefix<P: Plugin>(plugins: Seq<P>, req: RequestModel, i: int)
    requires
        0 <= i <= plugins.len(),
        forall|j: int| 0 <= j < i ==> !plugins[j].can_handle_spec(req),
    ensures
        first_match(plugins, req) == first_match_from(plugins, req, i),
    decreases i,
{
    if i > 0 {
        lemma_first_match_prefix(plugins, req, i - 1);
    }
}

/// First match wins: when the plugin at position `i` accepts the request
/// and no earlier one does, dispatch yields exactly that plugin's outcome,
/// and the plugins after position `i` do not take part at all.
pub proof fn lemma_first_match_wins<P: Plugin>(plugins: Seq<P>, req: RequestModel, i: int)
    requires
        0 <= i < plugins.len(),
        plugins[i].can_handle_spec(req),
        forall|j: int| 0 <= j < i ==> !plugins[j].can_handle_spec(req),
    ensures
        first_match(plugins, req) == Some(i),
        dispatch_spec(plugins, req) == plugins[i].handle_spec(req),
        dispatch_spec(plugins, req) == dispatch_spec(plugins.subrange(0, i + 1), req),
{
    lemma_first_match_prefix(plugins, req, i);
    let front = plugins.subrange(0, i + 1);
    lemma_first_match_prefix(front, req, i);
    assert(front[i] == plugins[i]);
}

/// Helper induction for `lemma_same_behavior_same_dispatch`: lists of
/// plugins that behave alike position by position find their first match
/// at the same position.
proof fn lemma_same_behavior_first_match<P: Plugin>(a: Seq<P>, b: Seq<P>, req: RequestModel, i: int)
    requires
        0 <= i <= a.len(),
        a.len() == b.len(),
        forall|j: int| 0 <= j < a.len() ==> same_behavior(#[trigger] a[j], b[j]),
    ensures
        first_match_from(a, req, i) == first_match_from(b, req, i),
    decreases a.len() - i,
{
    if i < a.len() {
        assert(same_behavior(a[i], b[i]));
        assert(a[i].can_handle_spec(req) == b[i].can_handle_spec(req));
        lemma_same_behavior_first_match(a, b, req, i + 1);
    }
}

/// When the first match exists it lies in range, and its plugin's
/// predicate accepts the request.
proof fn lemma_first_match_from_range<P: Plugin>(plugins: Seq<P>, req: RequestModel, i: int)
    requires
        0 <= i,
    ensures
        match first_match_from(plugins, req, i) {
            Some(k) => i <= k < plugins.len() && plugins[k].can_handle_spec(req),
            None => true,
        },
    decreases plugins.len() - i,
{
    if i < plugins.len() && !plugins[i].can_handle_spec(req) {
        lemma_first_match_from_range(plugins, req, i + 1);
    }
}

/// The registry, once initialized, serves exactly what was registered:
/// two plugin lists that behave alike position by position dispatch every
/// request to the same outcome. In particular, since initialization leaves
/// each plugin's request-facing behavior unchanged, dispatch after
/// `init_plugins` is dispatch over the behaviors that were registered.
pub proof fn lemma_same_behavior_same_dispatch<P: Plugin>(a: Seq<P>, b: Seq<P>, req: RequestModel)
    requires
        a.len() == b.len(),
        forall|j: int| 0 <= j < a.len() ==> same_behavior(#[trigger] a[j], b[j]),
    ensures
        dispatch_spec(a, req) == dispatch_spec(b, req),
{
    lemma_same_behavior_first_match(a, b, req, 0);
    lemma_first_match_from_range(a, req, 0);
    if let Some(i) = first_match(a, req) {
        assert(same_behavior(a[i], b[i]));
        assert(a[i].can_handle_spec(req) == b[i].can_handle_spec(req));
        assert(a[i].handle_spec(req) == b[i].handle_spec(req));
    }
}

/// Initialization, counted: the initialization count never exceeds the
/// number of registered plugins, and reaches it exactly when every
/// registered plugin has completed initialization.
pub proof fn lemma_count_ready_full<P: Plugin>(plugins: Seq<P>)
    ensures
        count_ready(plugins) <= plugins.len(),
        count_ready(plugins) == plugins.len() <==> (forall|i: int|
            0 <= i < plugins.len() ==> plugins[i].ready()),
    decreases plugins.len(),
{
    if plugins.len() > 0 {
        let front = plugins.drop_last();
        lemma_count_ready_full(front);
        assert(forall|i: int| 0 <= i < front.len() ==> front[i] == plugins[i]);
        if count_ready(plugins) == plugins.len() {
            assert forall|i: int| 0 <= i < plugins.len() implies plugins[i].ready() by {
                if i < plugins.len() - 1 {
                    assert(front[i].ready());
                }
            }
        }
        if forall|i: int| 0 <= i < plugins.len() ==> plugins[i].ready() {
            assert(forall|i: int| 0 <= i < front.len() ==> front[i].ready());
        }
    }
}

/// Owner of the ordered plugin list. Plugins are registered during
/// bootstrap, initialized once, and then probed in registration order for
/// each inbound request; the list is never changed after initialization.
pub struct PluginManager<P: Plugin> {
    plugins: Vec<P>,
}

impl<P: Plugin> View for PluginManager<P> {
    type V = Seq<P>;

    closed spec fn view(&self) -> Seq<P> {
        self.plugins@
    }
}

impl<P: Plugin> PluginManager<P> {
    /// All registered plugins have completed initialization.
    pub open spec fn all_ready(&self) -> bool {
        forall|i: int| 0 <= i < self@.len() ==> self@[i].ready()
    }

    pub fn new() -> (r: Self)
        ensures
            r@ == Seq::<P>::empty(),
    {
        PluginManager { plugins: Vec::new() }
    }

    /// Append a plugin to the list; registration order is dispatch
    /// priority order. To be called only during bootstrap, before
    /// `init_plugins`.
    pub fn apply_plugin(&mut self, plugin: P)
        ensures
            final(self)@ == old(self)@.push(plugin),
    {
        self.plugins.push(plugin);
    }

    /// How many plugins are registered.
    pub fn plugin_count(&self) -> (r: usize)
        ensures
            r == self@.len(),
    {
        self.plugins.len()
    }

    /// How many plugins have completed initialization.
    pub fn initialized_count(&self) -> (r: usize)
        ensures
            r == count_ready(self@),
    {
        let n = self.plugins.len();
        let mut count: usize = 0;
        let mut i: usize = 0;
        while i < n
            invariant
                n == self.plugins@.len(),
                i <= n,
                count == count_ready(self.plugins@.subrange(0, i as int)),
                count <= i,
            decreases n - i,
        {
            proof {
                let front = self.plugins@.subrange(0, i + 1);
                assert(front.drop_last() =~= self.plugins@.subrange(0, i as int));
                assert(front.last() == self.plugins@[i as int]);
            }
            if self.plugins[i].plugin_is_ready() {
                count += 1;
            }
            i += 1;
        }
        proof {
            assert(self.plugins@.subrange(0, n as int) =~= self.plugins@);
        }
        count
    }

    /// Initialize every registered plugin, sequentially and in
    /// registration order, each one completing before the next begins.
    /// Afterwards every registered plugin is ready, with the request-facing
    /// behavior it was registered with, and dispatch may start.
    pub fn init_plugins(&mut self)
        ensures
            final(self)@.len() == old(self)@.len(),
            final(self).all_ready(),
            forall|j: int|
                0 <= j < old(self)@.len() ==> same_behavior(old(self)@[j], final(self)@[j]),
    {
        let ghost orig = self.plugins@;
        let n = self.plugins.len();
        let mut i: usize = 0;
        while i < n
            invariant
                n == self.plugins@.len(),
                n == orig.len(),
                i <= n,
                forall|j: int| 0 <= j < i ==> (#[trigger] self.plugins@[j]).ready(),
                forall|j: int| 0 <= j < i ==> same_behavior(orig[j], #[trigger] self.plugins@[j]),
                forall|j: int| i <= j < n ==> self.plugins@[j] == orig[j],
            decreases n - i,
        {
            let ghost prev = self.plugins@;
            self.plugins[i].plugin_init();
            proof {
                assert(self.plugins@ == prev.update(i as int, self.plugins@[i as int]));
                let a = orig[i as int];
                let b = self.plugins@[i as int];
                assert(prev[i as int] == a);
                assert(same_behavior(a, b)) by {
                    assert(forall|req: RequestModel| #[trigger]
                    a.can_handle_spec(req) == b.can_handle_spec(req));
                    assert(forall|req: RequestModel| #[trigger]
                    a.handle_spec(req) == b.handle_spec(req));
                }
            }
            i += 1;
        }
    }

    /// Probe the plugins in registration order; the first one whose
    /// predicate accepts the request processes it, and no plugin after the
    /// first match is consulted. Yields `None` when no plugin matches, and
    /// also when the matching plugin's processing fails: the two outcomes
    /// are deliberately conflated, and the caller's fallback covers both.
    pub fn handle_request(&self, req: HttpRequest) -> (r: Option<HttpResponse>)
        requires
            self.all_ready(),
        ensures
            match r {
                Some(resp) => dispatch_spec(self@, req@) == Some(resp@),
                None => dispatch_spec(self@, req@) is None,
            },
    {
        let n = self.plugins.len();
        let mut i: usize = 0;
        while i < n
            invariant
                n == self.plugins@.len(),
                i <= n,
                forall|j: int| 0 <= j < i ==> !self.plugins@[j].can_handle_spec(req@),
            decreases n - i,
        {
            let plugin = &self.plugins[i];
            if plugin.plugin_can_handle(&req) {
                proof {
                    lemma_first_match_prefix(self.plugins@, req@, i as int);
                }
                match plugin.plugin_handle(req) {
                    Ok(resp) => {
                        return Some(resp);
                    },
                    Err(_) => {
                        return None;
                    },
                }
            }
            i += 1;
        }
        proof {
            lemma_first_match_prefix(self.plugins@, req@, n as int);
        }
        None
    }
}

} // verus!

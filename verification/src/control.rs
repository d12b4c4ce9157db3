//! The control surface's decisions: which endpoint a path names, what each
//! endpoint does, and the one-shot shutdown signal.
//!
//! The surrounding HTTP server asks `route` for the endpoint, follows the
//! endpoint's `HandlerPlan`, and drives its graceful termination from a
//! `ShutdownSignal` that fires at most once however often the shutdown
//! endpoint is hit.

use vstd::prelude::*;

use crate::str_eq;

verus! {

/// The endpoints of the control surface.
#[derive(Clone, Copy, Debug, PartialEq, Eq, Structural)]
pub enum Endpoint {
    Ping,
    Run,
    Test,
    Get,
    Shutdown,
}

/// Which endpoint a request path names, or nothing for an unknown path.
pub open spec fn spec_route(path: Seq<char>) -> Option<Endpoint> {
    if path == "ping"@ {
        Some(Endpoint::Ping)
    } else if path == "run"@ {
        Some(Endpoint::Run)
    } else if path == "test"@ {
        Some(Endpoint::Test)
    } else if path == "get"@ {
        Some(Endpoint::Get)
    } else if path == "shutdown"@ {
        Some(Endpoint::Shutdown)
    } else {
        None
    }
}

/// Maps a request path to its endpoint.
pub fn route(path: &str) -> (r: Option<Endpoint>)
    ensures
        r == spec_route(path@),
{
    if str_eq(path, "ping") {
        Some(Endpoint::Ping)
    } else if str_eq(path, "run") {
        Some(Endpoint::Run)
    } else if str_eq(path, "test") {
        Some(Endpoint::Test)
    } else if str_eq(path, "get") {
        Some(Endpoint::Get)
    } else if str_eq(path, "shutdown") {
        Some(Endpoint::Shutdown)
    } else {
        None
    }
}

/// What a handler does. The three action endpoints share one fetch-then-act
/// shape; they differ only in what happens to the fetched free games.
#[derive(Clone, Copy, Debug, PartialEq, Eq, Structural)]
pub enum HandlerPlan {
    /// Answer the literal `pong`; no fetch, no post.
    Pong,
    /// Fetch the free games and post the announcement to the configured
    /// channel.
    FetchThenChannelPost,
    /// Fetch the free games and send the announcement as a direct message
    /// to the configured user.
    FetchThenDirectPost,
    /// Fetch the free games and answer them as a JSON array; no post.
    FetchThenReply,
    /// Fire the shutdown signal and answer with an empty body.
    TriggerShutdown,
}

pub open spec fn spec_plan_for(e: Endpoint) -> HandlerPlan {
    match e {
        Endpoint::Ping => HandlerPlan::Pong,
        Endpoint::Run => HandlerPlan::FetchThenChannelPost,
        Endpoint::Test => HandlerPlan::FetchThenDirectPost,
        Endpoint::Get => HandlerPlan::FetchThenReply,
        Endpoint::Shutdown => HandlerPlan::TriggerShutdown,
    }
}

/// The plan of an endpoint's handler.
pub fn plan_for(e: Endpoint) -> (r: HandlerPlan)
    ensures
        r == spec_plan_for(e),
{
    match e {
        Endpoint::Ping => HandlerPlan::Pong,
        Endpoint::Run => HandlerPlan::FetchThenChannelPost,
        Endpoint::Test => HandlerPlan::FetchThenDirectPost,
        Endpoint::Get => HandlerPlan::FetchThenReply,
        Endpoint::Shutdown => HandlerPlan::TriggerShutdown,
    }
}

/// The plan sends something to the chat platform.
pub open spec fn plan_posts_to_chat(p: HandlerPlan) -> bool {
    p == HandlerPlan::FetchThenChannelPost || p == HandlerPlan::FetchThenDirectPost
}

/// The read-only endpoints never post to chat: `get` answers the fetched
/// games and nothing else, and `ping` and `shutdown` fetch nothing at all.
pub proof fn lemma_read_only_endpoints_never_post()
    ensures
        !plan_posts_to_chat(spec_plan_for(Endpoint::Get)),
        !plan_posts_to_chat(spec_plan_for(Endpoint::Ping)),
        !plan_posts_to_chat(spec_plan_for(Endpoint::Shutdown)),
{
}

/// The one-shot shutdown notification: fired at most once, however many
/// requests race to fire it; once fired it stays fired.
pub struct ShutdownSignal {
    fired: bool,
}

impl ShutdownSignal {
    /// The signal has been fired.
    pub closed spec fn has_fired(&self) -> bool {
        self.fired
    }

    /// What one firing attempt does: the signal ends fired, and the attempt
    /// wins exactly when the signal had not fired before.
    pub closed spec fn fire_spec(s: ShutdownSignal) -> (ShutdownSignal, bool) {
        (ShutdownSignal { fired: true }, !s.fired)
    }

    /// A fresh, unfired signal.
    pub fn new() -> (s: Self)
        ensures
            !s.has_fired(),
    {
        ShutdownSignal { fired: false }
    }

    /// Take-and-set: fires the signal and reports whether this call was the
    /// one that fired it. A later call is a no-op that reports `false`.
    pub fn fire(&mut self) -> (r: bool)
        ensures
            (*final(self), r) == Self::fire_spec(*old(self)),
            final(self).has_fired(),
            r == !old(self).has_fired(),
    {
        let won = !self.fired;
        self.fired = true;
        won
    }
}

/// Firing the shutdown signal terminates it exactly once: from a fresh
/// signal the first attempt wins, a second attempt is a losing no-op, and
/// the signal is fired after either.
pub proof fn lemma_shutdown_fires_exactly_once(s: ShutdownSignal)
    requires
        !s.has_fired(),
    ensures
        ({
            let (s1, won1) = ShutdownSignal::fire_spec(s);
            let (s2, won2) = ShutdownSignal::fire_spec(s1);
            &&& won1
            &&& !won2
            &&& s1.has_fired()
            &&& s2.has_fired()
        }),
{
}

} // verus!

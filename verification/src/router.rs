//! The per-connection router: the decision core of the proxy.
//!
//! A connection moves through a strict order of states — accepted, sniffed,
//! resolved, relaying, closed. The router holds that state together with the
//! bytes captured by the connection's first read. The surrounding runtime
//! reports each completed piece of outside work as a [`RouterEvent`]; the
//! router answers with the next [`RouterAction`] to perform. Every failure
//! is terminal for the one connection: there are no retries, and the closed
//! state is reachable from everywhere.

use vstd::prelude::*;

use crate::addr::{IpAddress, ResolvedTarget};
use crate::sniff::{sniff, sniff_spec, SniffOutcome, SniffView};

verus! {

/// The fixed port every proxied connection is dialed to upstream.
pub const UPSTREAM_PORT: u16 = 443;

/// Where a connection stands in its life cycle. Reading the first buffer
/// and dialing upstream complete within a single step, so the router rests
/// only in the states between events.
#[derive(Clone, Copy, PartialEq, Eq, Structural, Debug)]
pub enum RouterState {
    /// Accepted; nothing read yet.
    Accepted,
    /// A hostname was sniffed from the first buffer; resolution is under way.
    Sniffed,
    /// An upstream target was chosen; dialing is under way.
    Resolved,
    /// Bytes are being relayed between client and upstream.
    Relaying,
    /// Terminal: both sides are released.
    Closed,
}

/// One completed piece of outside work, reported to the router.
pub enum RouterEvent {
    /// The first read finished with these bytes (empty on immediate
    /// end-of-stream).
    BufferRead(Vec<u8>),
    /// Resolution finished with these candidate addresses.
    Resolved(Vec<IpAddress>),
    /// Resolution failed.
    ResolveFailed,
    /// The upstream connection is open.
    Connected,
    /// Dialing upstream failed.
    ConnectFailed,
    /// Either leg of the relay ended or failed.
    RelayEnded,
}

/// The next piece of outside work the router asks for.
pub enum RouterAction {
    /// Resolve this hostname against the upstream resolver.
    Resolve(Vec<u8>),
    /// Dial this target.
    Connect(ResolvedTarget),
    /// Write these bytes — the connection's original first bytes — to the
    /// upstream side, then relay both directions until either ends.
    RelayWithReplay(Vec<u8>),
    /// Release both sides; the connection is over.
    Close,
}

/// The router for one connection.
pub struct Router {
    /// Current life-cycle state.
    pub state: RouterState,
    /// The bytes captured by the first read, kept for the replay.
    pub buffer: Vec<u8>,
    /// The sniffed hostname, meaningful from [`RouterState::Sniffed`] on.
    pub hostname: Vec<u8>,
}

/// The step closed the connection: terminal state, and the caller is asked
/// to release both sides.
pub open spec fn aborts(post: Router, a: RouterAction) -> bool {
    &&& post.state == RouterState::Closed
    &&& a is Close
}

/// The full transition relation of [`Router::step`]: what the new router
/// value and the returned action are, for every prior state and event.
pub open spec fn step_spec(pre: Router, ev: RouterEvent, post: Router, a: RouterAction) -> bool {
    match ev {
        RouterEvent::BufferRead(buf) => if pre.state != RouterState::Accepted {
            aborts(post, a)
        } else if buf@.len() == 0 {
            // An empty first read is a clean disconnect: close without
            // resolving or dialing anything.
            aborts(post, a)
        } else {
            match sniff_spec(buf@) {
                SniffView::Hostname(h) => {
                    &&& post.state == RouterState::Sniffed
                    &&& post.buffer@ == buf@
                    &&& post.hostname@ == h
                    &&& a matches RouterAction::Resolve(n) && n@ == h
                },
                _ => aborts(post, a),
            }
        },
        RouterEvent::Resolved(addrs) => if pre.state != RouterState::Sniffed {
            aborts(post, a)
        } else if addrs@.len() == 0 {
            aborts(post, a)
        } else {
            &&& post.state == RouterState::Resolved
            &&& post.buffer@ == pre.buffer@
            &&& post.hostname@ == pre.hostname@
            &&& a matches RouterAction::Connect(t) && t.port == UPSTREAM_PORT && (exists|i: int|
                0 <= i < addrs@.len() && t.addr == addrs@[i])
        },
        RouterEvent::ResolveFailed => aborts(post, a),
        RouterEvent::Connected => if pre.state != RouterState::Resolved {
            aborts(post, a)
        } else {
            &&& post.state == RouterState::Relaying
            &&& post.buffer@ == pre.buffer@
            &&& post.hostname@ == pre.hostname@
            &&& a matches RouterAction::RelayWithReplay(bytes) && bytes@ == pre.buffer@
        },
        RouterEvent::ConnectFailed => aborts(post, a),
        RouterEvent::RelayEnded => aborts(post, a),
    }
}

/// Relies on rand's `Rng::gen_range` on the thread-local generator: a
/// sample of the range below `n` — which must be non-empty — lies below
/// `n`, drawn uniformly.
#[verifier::external_body]
fn random_index(n: usize) -> (r: usize)
    requires
        n > 0,
    ensures
        r < n,
{
    rand::Rng::gen_range(&mut rand::thread_rng(), 0..n)
}

/// Picks the upstream target from a non-empty candidate set: one of the
/// addresses, chosen at random so repeated connections spread over all
/// candidates, on the fixed TLS port.
pub fn choose_target(addrs: &Vec<IpAddress>) -> (t: ResolvedTarget)
    requires
        addrs@.len() > 0,
    ensures
        t.port == UPSTREAM_PORT,
        exists|i: int| 0 <= i < addrs@.len() && t.addr == addrs@[i],
{
    let i = random_index(addrs.len());
    let t = ResolvedTarget { addr: addrs[i], port: UPSTREAM_PORT };
    proof {
        assert(t.addr == addrs@[i as int]);
    }
    t
}

impl Router {
    /// A router for a freshly accepted connection.
    pub fn new() -> (r: Router)
        ensures
            r.state == RouterState::Accepted,
            r.buffer@ == Seq::<u8>::empty(),
    {
        Router { state: RouterState::Accepted, buffer: Vec::new(), hostname: Vec::new() }
    }

    /// Closes the connection: the terminal transition.
    fn abort(&mut self) -> (a: RouterAction)
        ensures
            aborts(*final(self), a),
            final(self).buffer@ == old(self).buffer@,
            final(self).hostname@ == old(self).hostname@,
    {
        self.state = RouterState::Closed;
        RouterAction::Close
    }

    /// Advances the connection by one event and returns the next action,
    /// exactly as [`step_spec`] states.
    pub fn step(&mut self, ev: RouterEvent) -> (a: RouterAction)
        ensures
            step_spec(*old(self), ev, *final(self), a),
    {
        match ev {
            RouterEvent::BufferRead(buf) => {
                if self.state != RouterState::Accepted {
                    return self.abort();
                }
                if buf.len() == 0 {
                    return self.abort();
                }
                match sniff(buf.as_slice()) {
                    SniffOutcome::Hostname(h) => {
                        let n = vstd::slice::slice_to_vec(h.as_slice());
                        self.buffer = buf;
                        self.hostname = h;
                        self.state = RouterState::Sniffed;
                        RouterAction::Resolve(n)
                    },
                    SniffOutcome::NoHostname => self.abort(),
                    SniffOutcome::Malformed => self.abort(),
                }
            },
            RouterEvent::Resolved(addrs) => {
                if self.state != RouterState::Sniffed {
                    return self.abort();
                }
                if addrs.len() == 0 {
                    return self.abort();
                }
                let t = choose_target(&addrs);
                self.state = RouterState::Resolved;
                RouterAction::Connect(t)
            },
            RouterEvent::ResolveFailed => self.abort(),
            RouterEvent::Connected => {
                if self.state != RouterState::Resolved {
                    return self.abort();
                }
                let bytes = vstd::slice::slice_to_vec(self.buffer.as_slice());
                self.state = RouterState::Relaying;
                RouterAction::RelayWithReplay(bytes)
            },
            RouterEvent::ConnectFailed => self.abort(),
            RouterEvent::RelayEnded => self.abort(),
        }
    }
}

/// The closed state is terminal and idempotent: once a connection is
/// closed, every further event leaves it closed and only asks the caller
/// to close — no handling task can be revived or hang.
pub proof fn lemma_closed_terminal(pre: Router, ev: RouterEvent, post: Router, a: RouterAction)
    requires
        pre.state == RouterState::Closed,
        step_spec(pre, ev, post, a),
    ensures
        post.state == RouterState::Closed,
        a is Close,
{
}

/// A connection whose first read returns no bytes is closed at once: no
/// resolution is asked for and nothing is dialed.
pub proof fn lemma_empty_read_closes(pre: Router, b: Vec<u8>, post: Router, a: RouterAction)
    requires
        b@.len() == 0,
        step_spec(pre, RouterEvent::BufferRead(b), post, a),
    ensures
        post.state == RouterState::Closed,
        a is Close,
{
}

} // verus!

//! The per-request ingestion state machine of a webhook listener.
use vstd::prelude::*;

use crate::channel::UpdateChannel;
use crate::json::{decode_json, json_accepts};
use crate::secret::{is_valid_secret, opt_view, secret_from_header, secret_matches};
use crate::status::Status;
use crate::stop::StopSignal;

verus! {

/// What one request did to the listener.
#[derive(Clone, Copy, Debug, PartialEq, Eq, Structural)]
pub enum Outcome {
    /// The body decoded to an update, which was queued.
    Queued,
    /// The body did not decode; nothing was queued and one diagnostic is due.
    Dropped,
    /// The secret-token header did not match the configured secret.
    Unauthorized,
    /// The producer side is closed or the listener was stopped.
    Unavailable,
}

pub open spec fn outcome_status(o: Outcome) -> Status {
    match o {
        Outcome::Queued => Status::Accepted,
        Outcome::Dropped => Status::Accepted,
        Outcome::Unauthorized => Status::Unauthorized,
        Outcome::Unavailable => Status::ServiceUnavailable,
    }
}

impl Outcome {
    /// The HTTP status that answers the request.
    pub fn status(&self) -> (r: Status)
        ensures
            r == outcome_status(*self),
    {
        match self {
            Outcome::Queued => Status::Accepted,
            Outcome::Dropped => Status::Accepted,
            Outcome::Unauthorized => Status::Unauthorized,
            Outcome::Unavailable => Status::ServiceUnavailable,
        }
    }

    /// Whether the request calls for a diagnostic log entry.
    pub fn needs_diagnostic(&self) -> (r: bool)
        ensures
            r == (*self == Outcome::Dropped),
    {
        match self {
            Outcome::Dropped => true,
            _ => false,
        }
    }
}

/// The abstract state of a listener.
pub struct WebhookState<U> {
    /// The configured secret token, if any.
    pub secret: Option<Seq<u8>>,
    /// Whether the stop latch has fired.
    pub stopped: bool,
    /// Whether the producer side still accepts updates.
    pub open: bool,
    /// Updates queued for the consumer, oldest first.
    pub pending: Seq<U>,
}

/// Whether a request whose secret-token header is `header` gets past the
/// secret check: the header must be well formed, and equal to the configured
/// secret; with no secret configured it must be absent.
pub open spec fn header_admits(secret: Option<Seq<u8>>, header: Option<Seq<u8>>) -> bool {
    match header {
        None => secret is None,
        Some(h) => is_valid_secret(h) && secret == Some(h),
    }
}

/// One request: its secret-token header, and its body decoded as an update
/// (`None` when it did not decode). Returns the next state and the outcome.
pub open spec fn ingest<U>(s: WebhookState<U>, header: Option<Seq<u8>>, body: Option<U>) -> (
    WebhookState<U>,
    Outcome,
) {
    if !header_admits(s.secret, header) {
        (s, Outcome::Unauthorized)
    } else if !s.open {
        (s, Outcome::Unavailable)
    } else if s.stopped {
        (WebhookState { open: false, ..s }, Outcome::Unavailable)
    } else {
        match body {
            Some(u) => (WebhookState { pending: s.pending.push(u), ..s }, Outcome::Queued),
            None => (s, Outcome::Dropped),
        }
    }
}

/// The state after the stop latch fires.
pub open spec fn stopped_state<U>(s: WebhookState<U>) -> WebhookState<U> {
    WebhookState { stopped: true, ..s }
}

/// A run of requests, in arrival order, each a header and a decoded body.
pub open spec fn run<U>(s: WebhookState<U>, reqs: Seq<(Option<Seq<u8>>, Option<U>)>) -> WebhookState<
    U,
>
    decreases reqs.len(),
{
    if reqs.len() == 0 {
        s
    } else {
        let last = reqs.last();
        ingest(run(s, reqs.drop_last()), last.0, last.1).0
    }
}

/// The bodies of `reqs` that decoded, in order.
pub open spec fn decoded<U>(reqs: Seq<(Option<Seq<u8>>, Option<U>)>) -> Seq<U>
    decreases reqs.len(),
{
    if reqs.len() == 0 {
        Seq::empty()
    } else {
        match reqs.last().1 {
            Some(u) => decoded(reqs.drop_last()).push(u),
            None => decoded(reqs.drop_last()),
        }
    }
}

/// A webhook listener: its configuration, its stop latch and its update
/// channel.
pub struct Webhook<U> {
    secret: Option<Vec<u8>>,
    stop: StopSignal,
    channel: UpdateChannel<U>,
}

impl<U> View for Webhook<U> {
    type V = WebhookState<U>;

    closed spec fn view(&self) -> WebhookState<U> {
        WebhookState {
            secret: opt_view(self.secret),
            stopped: self.stop@,
            open: self.channel@.open,
            pending: self.channel@.pending,
        }
    }
}

impl<U> Webhook<U> {
    /// A running listener with an open channel and nothing queued, that
    /// expects `secret` in the secret-token header of each request.
    pub fn new(secret: Option<Vec<u8>>) -> (r: Webhook<U>)
        ensures
            r@.secret == opt_view(secret),
            !r@.stopped,
            r@.open,
            r@.pending == Seq::<U>::empty(),
    {
        Webhook { secret, stop: StopSignal::new(), channel: UpdateChannel::new() }
    }

    /// Fires the stop latch. Later requests are refused; what is queued stays
    /// for the consumer.
    pub fn stop(&mut self)
        ensures
            final(self)@ == stopped_state(old(self)@),
    {
        self.stop.stop();
    }

    /// Whether the stop latch has fired.
    pub fn is_stopped(&self) -> (r: bool)
        ensures
            r == self@.stopped,
    {
        self.stop.is_stopped()
    }

    /// Closes the producer side: no request is queued from now on.
    pub fn close(&mut self)
        ensures
            final(self)@ == (WebhookState { open: false, ..old(self)@ }),
    {
        self.channel.close();
    }

    /// Whether the producer side still accepts updates.
    pub fn is_open(&self) -> (r: bool)
        ensures
            r == self@.open,
    {
        self.channel.is_open()
    }

    /// Number of updates queued for the consumer.
    pub fn pending_len(&self) -> (r: usize)
        ensures
            r == self@.pending.len(),
    {
        self.channel.len()
    }

    /// The secret and availability checks on a request whose secret-token
    /// header is `header`: `None` when it may go on to delivery, else the
    /// outcome that refuses it. A request that finds the listener stopped
    /// closes the producer side.
    pub fn screen(&mut self, header: Option<Vec<u8>>) -> (r: Option<Outcome>)
        ensures
            r is None <==> header_admits(old(self)@.secret, opt_view(header)) && old(self)@.open
                && !old(self)@.stopped,
            r is None ==> final(self)@ == old(self)@,
            r matches Some(o) ==> (final(self)@, o) == ingest(old(self)@, opt_view(header), None::<U>),
    {
        let token = match secret_from_header(header) {
            Ok(t) => t,
            Err(_) => return Some(Outcome::Unauthorized),
        };
        if !secret_matches(&self.secret, &token) {
            return Some(Outcome::Unauthorized);
        }
        if !self.channel.is_open() {
            return Some(Outcome::Unavailable);
        }
        if self.stop.is_stopped() {
            self.channel.close();
            return Some(Outcome::Unavailable);
        }
        None
    }

    /// Delivers the body of an admitted request, decoded as an update
    /// (`None` when it did not decode): queues it, or drops it.
    pub fn deliver(&mut self, body: Option<U>) -> (r: Outcome)
        requires
            old(self)@.open,
            !old(self)@.stopped,
        ensures
            match body {
                Some(u) => r == Outcome::Queued && final(self)@ == (WebhookState {
                    pending: old(self)@.pending.push(u),
                    ..old(self)@
                }),
                None => r == Outcome::Dropped && final(self)@ == old(self)@,
            },
    {
        match body {
            Some(u) => {
                self.channel.send(u);
                Outcome::Queued
            },
            None => Outcome::Dropped,
        }
    }

    /// Handles one request: `header` is its secret-token header and `body`
    /// its body decoded as an update (`None` when it did not decode).
    pub fn handle_request(&mut self, header: Option<Vec<u8>>, body: Option<U>) -> (r: Outcome)
        ensures
            (final(self)@, r) == ingest(old(self)@, opt_view(header), body),
    {
        match self.screen(header) {
            Some(o) => o,
            None => self.deliver(body),
        }
    }

    /// The next update for the consumer, oldest first; `None` when nothing
    /// is queued.
    pub fn next_update(&mut self) -> (r: Option<U>)
        ensures
            old(self)@.pending.len() == 0 ==> r is None && final(self)@ == old(self)@,
            old(self)@.pending.len() > 0 ==> r == Some(old(self)@.pending[0]) && final(self)@
                == (WebhookState { pending: old(self)@.pending.drop_first(), ..old(self)@ }),
    {
        self.channel.recv()
    }

    /// Whether the update sequence has ended: nothing more can be queued (the
    /// producer side is closed or the listener stopped) and everything queued
    /// was taken.
    pub fn is_finished(&self) -> (r: bool)
        ensures
            r == ((!self@.open || self@.stopped) && self@.pending.len() == 0),
    {
        (!self.channel.is_open() || self.stop.is_stopped()) && self.channel.len() == 0
    }
}

impl Webhook<serde_json::Value> {
    /// Handles one request whose body is JSON text. The body is decoded only
    /// once the request is admitted; when it does not decode, the decoding
    /// error is handed back for the diagnostic and nothing is queued.
    pub fn handle_json(&mut self, header: Option<Vec<u8>>, input: &str) -> (r: (
        Outcome,
        Option<serde_json::Error>,
    ))
        ensures
            r.1 is Some <==> r.0 == Outcome::Dropped,
            !header_admits(old(self)@.secret, opt_view(header)) || !old(self)@.open
                || old(self)@.stopped ==> (final(self)@, r.0) == ingest(
                old(self)@,
                opt_view(header),
                None::<serde_json::Value>,
            ),
            header_admits(old(self)@.secret, opt_view(header)) && old(self)@.open
                && !old(self)@.stopped ==> if json_accepts(input@) {
                exists|v: serde_json::Value|
                    (final(self)@, r.0) == #[trigger] ingest(old(self)@, opt_view(header), Some(v))
            } else {
                (final(self)@, r.0) == ingest(
                    old(self)@,
                    opt_view(header),
                    None::<serde_json::Value>,
                )
            },
    {
        let ghost pre = self@;
        let ghost h = opt_view(header);
        if let Some(o) = self.screen(header) {
            return (o, None);
        }
        match decode_json(input) {
            Ok(v) => {
                let o = self.deliver(Some(v));
                assert((self@, o) == ingest(pre, h, Some(v)));
                (o, None)
            },
            Err(e) => (self.deliver(None), Some(e)),
        }
    }
}

/// Requests that all pass the secret check, sent while the listener runs,
/// queue exactly the bodies that decoded, in arrival order, behind what was
/// queued before.
pub proof fn lemma_running_queues_decoded_in_order<U>(
    s: WebhookState<U>,
    reqs: Seq<(Option<Seq<u8>>, Option<U>)>,
)
    requires
        !s.stopped,
        s.open,
        forall|i: int| 0 <= i < reqs.len() ==> header_admits(s.secret, #[trigger] reqs[i].0),
    ensures
        run(s, reqs) == (WebhookState { pending: s.pending + decoded(reqs), ..s }),
    decreases reqs.len(),
{
    if reqs.len() == 0 {
        assert(s.pending + decoded(reqs) =~= s.pending);
    } else {
        let init = reqs.drop_last();
        assert forall|i: int| 0 <= i < init.len() implies header_admits(
            s.secret,
            #[trigger] init[i].0,
        ) by {
            assert(init[i] == reqs[i]);
        }
        lemma_running_queues_decoded_in_order(s, init);
        assert(header_admits(s.secret, reqs[reqs.len() - 1].0));
        match reqs.last().1 {
            Some(u) => {
                assert(s.pending + decoded(init).push(u) =~= (s.pending + decoded(init)).push(u));
            },
            None => {},
        }
    }
}

/// Once the stop latch has fired it stays fired, whatever requests follow.
pub proof fn lemma_run_keeps_stopped<U>(s: WebhookState<U>, reqs: Seq<(Option<Seq<u8>>, Option<U>)>)
    requires
        s.stopped,
    ensures
        run(s, reqs).stopped,
        run(s, reqs).pending == s.pending,
        run(s, reqs).secret == s.secret,
    decreases reqs.len(),
{
    if reqs.len() > 0 {
        lemma_run_keeps_stopped(s, reqs.drop_last());
    }
}

/// After a stop no request queues anything, so a stopped listener whose
/// queue was drained stays drained.
pub proof fn lemma_stopped_queues_nothing<U>(
    s: WebhookState<U>,
    header: Option<Seq<u8>>,
    body: Option<U>,
)
    requires
        s.stopped,
    ensures
        ingest(s, header, body).1 != Outcome::Queued,
        ingest(s, header, body).0.pending == s.pending,
        ingest(s, header, body).0.stopped,
{
}

/// Stopping twice is stopping once, and after a stop the latch reads as
/// fired for good, whatever requests follow.
pub proof fn lemma_stop_idempotent<U>(s: WebhookState<U>, reqs: Seq<(Option<Seq<u8>>, Option<U>)>)
    ensures
        stopped_state(stopped_state(s)) == stopped_state(s),
        stopped_state(s).stopped,
        run(stopped_state(s), reqs).stopped,
{
    lemma_run_keeps_stopped(stopped_state(s), reqs);
}

/// Once the producer side is closed, no request reopens it or queues
/// anything: every request is refused and the state does not change.
pub proof fn lemma_closed_stays_closed<U>(s: WebhookState<U>, reqs: Seq<(Option<Seq<u8>>, Option<U>)>)
    requires
        !s.open,
    ensures
        run(s, reqs) == s,
        forall|h: Option<Seq<u8>>, b: Option<U>|
            #![trigger ingest(s, h, b)]
            ingest(s, h, b).0 == s && (ingest(s, h, b).1 == Outcome::Unauthorized || ingest(
                s,
                h,
                b,
            ).1 == Outcome::Unavailable),
    decreases reqs.len(),
{
    if reqs.len() > 0 {
        lemma_closed_stays_closed(s, reqs.drop_last());
    }
}

/// With a secret configured, a request whose header is not that secret is
/// refused as unauthorized and changes nothing.
pub proof fn lemma_wrong_secret_unauthorized<U>(
    s: WebhookState<U>,
    header: Option<Seq<u8>>,
    body: Option<U>,
)
    requires
        s.secret is Some,
        header != s.secret,
    ensures
        ingest(s, header, body) == (s, Outcome::Unauthorized),
        outcome_status(ingest(s, header, body).1) == Status::Unauthorized,
{
}

/// With no secret configured, a request without the header is never refused
/// as unauthorized: it gets 200 exactly when the producer side is open and
/// the listener runs, and 503 otherwise, whatever its body.
pub proof fn lemma_no_secret_no_header<U>(s: WebhookState<U>, body: Option<U>)
    requires
        s.secret is None,
    ensures
        ingest(s, None, body).1 != Outcome::Unauthorized,
        outcome_status(ingest(s, None, body).1) == (if s.open && !s.stopped {
            Status::Accepted
        } else {
            Status::ServiceUnavailable
        }),
{
}

/// A request that passes the secret check but whose body does not decode,
/// sent while the listener runs, gets 200, queues nothing and calls for
/// exactly one diagnostic.
pub proof fn lemma_malformed_body_dropped<U>(s: WebhookState<U>, header: Option<Seq<u8>>)
    requires
        header_admits(s.secret, header),
        s.open,
        !s.stopped,
    ensures
        ingest(s, header, None) == (s, Outcome::Dropped),
        outcome_status(Outcome::Dropped) == Status::Accepted,
{
}

} // verus!

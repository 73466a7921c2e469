//! The main-thread relay.
//!
//! Native UI objects may only be touched from the thread that owns the
//! toolkit.  Any thread may enqueue a mutation request into a bounded
//! channel and signal the UI thread's looper; the looper callback drains
//! exactly one request per wake signal and performs the corresponding
//! native mutations.  The channel itself is crossbeam's, held behind
//! trusted wrappers; the admission-control and delivery-order discipline
//! is stated and proved on [`RelayModel`], and the per-request dispatch
//! on the UI thread is the verified state machine [`MainPipe`].

use vstd::prelude::*;

verus! {

/// A cross-thread UI mutation request: build the native webview (URL,
/// initialisation scripts, devtools flag), or evaluate the scripts
/// queued so far.
#[derive(Debug, PartialEq)]
pub enum WebViewMessage {
    CreateWebView(String, Vec<String>, bool),
    Eval,
}

/// Capacity of the bounded relay channel.
pub const RELAY_CAPACITY: usize = 8;

/// Declares crossbeam_channel::Sender, the producing half of the relay
/// channel, as an opaque outside type.
#[verifier::external_type_specification]
#[verifier::external_body]
#[verifier::reject_recursive_types(T)]
pub struct ExSender<T>(crossbeam_channel::Sender<T>);

/// Declares crossbeam_channel::Receiver, the consuming half of the
/// relay channel, as an opaque outside type.
#[verifier::external_type_specification]
#[verifier::external_body]
#[verifier::reject_recursive_types(T)]
pub struct ExReceiver<T>(crossbeam_channel::Receiver<T>);

/// Outcome of a blocking send on the relay channel.
#[derive(Debug)]
pub enum SendOutcome {
    /// The channel accepted the request; a wake byte must be written to
    /// the looper pipe.
    Accepted,
    /// The consumer side is gone; the original request comes back.
    Closed(WebViewMessage),
}

/// Outcome of a non-blocking drain of the relay channel.
#[derive(Debug)]
pub enum RecvOutcome {
    Message(WebViewMessage),
    Empty,
    Closed,
}

/// Relies on crossbeam_channel::bounded: a multi-producer,
/// multi-consumer FIFO channel holding at most `cap` messages.  Its
/// constructor panics on absurdly large capacities (its index
/// arithmetic must not overflow), so the capacity is kept far below
/// that limit on every platform.
#[verifier::external_body]
fn bounded_channel(cap: usize) -> (r: (
    crossbeam_channel::Sender<WebViewMessage>,
    crossbeam_channel::Receiver<WebViewMessage>,
))
    requires
        cap <= 0x1000_0000,
{
    crossbeam_channel::bounded(cap)
}

/// Relies on crossbeam_channel::Sender::send: blocks while the channel
/// is full; if the channel is disconnected it returns the original
/// message inside the error.
#[verifier::external_body]
fn channel_send(
    tx: &crossbeam_channel::Sender<WebViewMessage>,
    m: WebViewMessage,
) -> (r: SendOutcome)
    ensures
        r matches SendOutcome::Closed(back) ==> back == m,
{
    match tx.send(m) {
        Ok(()) => SendOutcome::Accepted,
        Err(crossbeam_channel::SendError(back)) => SendOutcome::Closed(back),
    }
}

/// Relies on crossbeam_channel::Receiver::try_recv: never blocks; yields
/// a pending message, or reports the channel empty or disconnected.
#[verifier::external_body]
fn channel_try_recv(rx: &crossbeam_channel::Receiver<WebViewMessage>) -> (r: RecvOutcome) {
    match rx.try_recv() {
        Ok(m) => RecvOutcome::Message(m),
        Err(crossbeam_channel::TryRecvError::Empty) => RecvOutcome::Empty,
        Err(crossbeam_channel::TryRecvError::Disconnected) => RecvOutcome::Closed,
    }
}

/// The transport of the relay: the bounded channel shared between the
/// producing threads and the UI-thread looper callback.  What comes out
/// of it depends on the other threads, so its contracts state only what
/// holds of every outcome; the sequential discipline is proved on
/// [`RelayModel`].
pub struct RelayChannel {
    tx: crossbeam_channel::Sender<WebViewMessage>,
    rx: crossbeam_channel::Receiver<WebViewMessage>,
}

impl RelayChannel {
    /// Creates the relay channel with the fixed capacity.
    pub fn new() -> RelayChannel {
        let (tx, rx) = bounded_channel(RELAY_CAPACITY);
        RelayChannel { tx, rx }
    }

    /// Enqueues one request, blocking while the channel is full.  On
    /// `Accepted` the caller must write one wake byte to the looper
    /// pipe; on `Closed` the request comes back untouched.
    pub fn send(&self, m: WebViewMessage) -> (r: SendOutcome)
        ensures
            r matches SendOutcome::Closed(back) ==> back == m,
    {
        channel_send(&self.tx, m)
    }

    /// Drains at most one pending request, as the looper callback does
    /// for each wake signal; never blocks.
    pub fn try_drain_one(&self) -> RecvOutcome {
        channel_try_recv(&self.rx)
    }
}

/// Sequential model of the relay: the bounded queue together with the
/// log of admitted requests and the log of delivered ones.  One
/// producer-consumer interleaving corresponds to one sequence of `send`
/// and `drain_one` calls; the well-formedness invariant ties the three
/// sequences together.
pub struct RelayModel {
    pub queue: Vec<WebViewMessage>,
    pub sent: Ghost<Seq<WebViewMessage>>,
    pub delivered: Ghost<Seq<WebViewMessage>>,
}

impl RelayModel {
    /// Every admitted request is either already delivered or still
    /// queued, in admission order, and the queue never exceeds the
    /// channel capacity.
    pub open spec fn wf(self) -> bool {
        &&& self.delivered@ + self.queue@ == self.sent@
        &&& self.queue@.len() <= RELAY_CAPACITY
    }

    /// The queued requests, oldest first.
    pub open spec fn queued(self) -> Seq<WebViewMessage> {
        self.queue@
    }

    /// All requests admitted so far, in admission order.
    pub open spec fn sent_log(self) -> Seq<WebViewMessage> {
        self.sent@
    }

    /// All requests handed to the consumer so far, in delivery order.
    pub open spec fn delivered_log(self) -> Seq<WebViewMessage> {
        self.delivered@
    }

    pub fn new() -> (r: RelayModel)
        ensures
            r.wf(),
            r.queued().len() == 0,
            r.sent_log().len() == 0,
            r.delivered_log().len() == 0,
    {
        RelayModel {
            queue: Vec::new(),
            sent: Ghost(Seq::empty()),
            delivered: Ghost(Seq::empty()),
        }
    }

    /// Admission control: a request enters the queue exactly when there
    /// is a free slot.  With the queue at capacity nothing is admitted
    /// and nothing changes — the bounded channel makes such a producer
    /// wait until the consumer drains a slot.
    pub fn send(&mut self, m: WebViewMessage) -> (admitted: bool)
        requires
            old(self).wf(),
        ensures
            final(self).wf(),
            admitted == (old(self).queued().len() < RELAY_CAPACITY),
            admitted ==> final(self).queued() == old(self).queued().push(m)
                && final(self).sent_log() == old(self).sent_log().push(m),
            !admitted ==> *final(self) == *old(self),
            final(self).delivered_log() == old(self).delivered_log(),
    {
        if self.queue.len() < RELAY_CAPACITY {
            self.sent = Ghost(self.sent@.push(m));
            self.queue.push(m);
            proof {
                assert(self.delivered@ + self.queue@ =~= self.sent@);
            }
            true
        } else {
            false
        }
    }

    /// The consumer side: drains exactly one request per wake signal, in
    /// FIFO order.
    pub fn drain_one(&mut self) -> (r: Option<WebViewMessage>)
        requires
            old(self).wf(),
        ensures
            final(self).wf(),
            old(self).queued().len() == 0 ==> r is None && *final(self) == *old(self),
            old(self).queued().len() > 0 ==> r == Some(old(self).queued()[0])
                && final(self).queued() == old(self).queued().drop_first()
                && final(self).delivered_log() == old(self).delivered_log().push(
                old(self).queued()[0],
            ),
            final(self).sent_log() == old(self).sent_log(),
    {
        if self.queue.len() == 0 {
            None
        } else {
            let m = self.queue.remove(0);
            self.delivered = Ghost(self.delivered@.push(m));
            proof {
                assert(self.queue@ =~= old(self).queue@.drop_first());
                assert(self.delivered@ + self.queue@ =~= self.sent@);
            }
            Some(m)
        }
    }
}

/// Delivery law of the relay: the consumer observes exactly a prefix of
/// what the producers admitted — every request is delivered at most
/// once, and in admission order.
pub proof fn lemma_relay_delivery_order(r: RelayModel)
    requires
        r.wf(),
    ensures
        r.delivered_log().len() <= r.sent_log().len(),
        forall|i: int|
            0 <= i < r.delivered_log().len() ==> r.delivered_log()[i] == r.sent_log()[i],
{
    assert forall|i: int|
        0 <= i < r.delivered_log().len() implies r.delivered_log()[i] == r.sent_log()[i] by {
        assert(r.sent_log()[i] == (r.delivered_log() + r.queued())[i]);
    }
}

/// What the UI thread must do in response to one drained request: the
/// native mutations, in order.
#[derive(Debug, PartialEq)]
pub enum NativeAction {
    /// Build the native webview, load this URL, and apply the devtools
    /// setting.
    CreateWebView { url: String, devtools: bool },
    /// Evaluate one script in the existing webview.
    EvaluateScript(String),
}

/// UI-thread consumer state: the scripts queued for evaluation and the
/// native webview handle, once one has been built.  The looper callback
/// drains one request from the relay and feeds it to `handle_message`;
/// the returned actions are the native calls it must then make, in
/// order.
pub struct MainPipe {
    pub scripts: Vec<String>,
    pub webview: Option<u64>,
}

impl MainPipe {
    pub fn new() -> (r: MainPipe)
        ensures
            r.scripts@.len() == 0,
            r.webview is None,
    {
        MainPipe { scripts: Vec::new(), webview: None }
    }

    /// Records the native webview handle once the creation action has
    /// been performed.
    pub fn set_webview(&mut self, w: u64)
        ensures
            final(self).webview == Some(w),
            final(self).scripts == old(self).scripts,
    {
        self.webview = Some(w);
    }

    /// Dispatches one drained request.  A creation request queues its
    /// initialisation scripts and asks for the webview to be built; an
    /// evaluation request drains every queued script, in order, provided
    /// a webview exists — without one it is ignored, and the scripts
    /// stay queued.
    pub fn handle_message(&mut self, m: WebViewMessage) -> (acts: Vec<NativeAction>)
        ensures
            m matches WebViewMessage::CreateWebView(url, scripts, devtools) ==> {
                &&& final(self).scripts@ == old(self).scripts@ + scripts@
                &&& final(self).webview == old(self).webview
                &&& acts@.len() == 1
                &&& acts@[0] == (NativeAction::CreateWebView { url: url, devtools: devtools })
            },
            m is Eval && old(self).webview is Some ==> {
                &&& final(self).scripts@.len() == 0
                &&& final(self).webview == old(self).webview
                &&& acts@.len() == old(self).scripts@.len()
                &&& forall|j: int|
                    0 <= j < acts@.len() ==> acts@[j] == NativeAction::EvaluateScript(
                        old(self).scripts@[j],
                    )
            },
            m is Eval && old(self).webview is None ==> *final(self) == *old(self) && acts@.len()
                == 0,
    {
        match m {
            WebViewMessage::CreateWebView(url, mut scripts, devtools) => {
                let mut acts: Vec<NativeAction> = Vec::new();
                acts.push(NativeAction::CreateWebView { url, devtools });
                self.scripts.append(&mut scripts);
                acts
            },
            WebViewMessage::Eval => {
                let mut acts: Vec<NativeAction> = Vec::new();
                if self.webview.is_some() {
                    let ghost all = self.scripts@;
                    while self.scripts.len() > 0
                        invariant
                            self.webview == old(self).webview,
                            acts@.len() + self.scripts@.len() == all.len(),
                            self.scripts@ == all.skip(acts@.len() as int),
                            forall|j: int|
                                0 <= j < acts@.len() ==> acts@[j]
                                    == NativeAction::EvaluateScript(all[j]),
                        decreases self.scripts@.len(),
                    {
                        let s = self.scripts.remove(0);
                        proof {
                            assert(all[acts@.len() as int] == s);
                            assert(self.scripts@ =~= all.skip(acts@.len() as int + 1));
                        }
                        acts.push(NativeAction::EvaluateScript(s));
                    }
                }
                acts
            },
        }
    }
}

} // verus!

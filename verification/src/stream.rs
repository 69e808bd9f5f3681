//! Per-connection state of the event stream gateway.
//!
//! A streaming connection moves `Open → Authorized → Streaming → Closed`
//! (or straight to `Closed` on a failed handshake).  While streaming it
//! accepts control frames that subscribe to or unsubscribe from execution
//! identifiers; an unrecognized frame is dropped and never terminates the
//! connection.  The subscription set decides which fan-out events the
//! connection receives, and the outbound loop emits a heartbeat frame on a
//! fixed interval.  The loops themselves are transport plumbing; every
//! decision they take — classification, set updates, forwarding — is here.

use vstd::prelude::*;
use vstd::string::StringExecFns;

verus! {

/// Lifecycle of one streaming connection.
#[derive(Debug, Clone, Copy, PartialEq, Eq, Structural)]
pub enum ConnectionState {
    Open,
    Authorized,
    Streaming,
    Closed,
}

/// A control frame, classified from its decoded fields.
#[derive(Debug, Clone, PartialEq, Eq)]
pub enum ControlFrame {
    Subscribe(String),
    Unsubscribe(String),
    /// An unrecognized kind, or a recognized kind missing its execution
    /// identifier: logged and dropped, never fatal.
    Ignored,
}

/// How a decoded frame is classified: `subscribe` and `unsubscribe` kinds
/// carrying an execution identifier act on the subscription set, and
/// everything else is dropped.
pub open spec fn spec_classify(kind: Seq<char>, execution_id: Option<String>) -> ControlFrame {
    match execution_id {
        Some(id) => if kind == "subscribe"@ {
            ControlFrame::Subscribe(id)
        } else if kind == "unsubscribe"@ {
            ControlFrame::Unsubscribe(id)
        } else {
            ControlFrame::Ignored
        },
        None => ControlFrame::Ignored,
    }
}

/// Classifies one decoded control frame.
pub fn classify_frame(kind: &str, execution_id: Option<String>) -> (r: ControlFrame)
    ensures
        r == spec_classify(kind@, execution_id),
{
    let id = match execution_id {
        Some(id) => id,
        None => {
            return ControlFrame::Ignored;
        },
    };
    let k: String = kind.to_owned();
    if k == "subscribe".to_owned() {
        ControlFrame::Subscribe(id)
    } else if k == "unsubscribe".to_owned() {
        ControlFrame::Unsubscribe(id)
    } else {
        ControlFrame::Ignored
    }
}

/// The set of execution identifiers a sequence of subscriptions denotes.
pub open spec fn subscription_set_of(subs: Seq<String>) -> Set<Seq<char>>
    decreases subs.len(),
{
    if subs.len() == 0 {
        Set::empty()
    } else {
        subscription_set_of(subs.drop_last()).insert(subs.last()@)
    }
}

proof fn lemma_subscription_absent(subs: Seq<String>, id: Seq<char>)
    requires
        forall|i: int| 0 <= i < subs.len() ==> subs[i]@ != id,
    ensures
        !subscription_set_of(subs).contains(id),
    decreases subs.len(),
{
    if subs.len() > 0 {
        lemma_subscription_absent(subs.drop_last(), id);
    }
}

proof fn lemma_subscription_present(subs: Seq<String>, i: int, id: Seq<char>)
    requires
        0 <= i < subs.len(),
        subs[i]@ == id,
    ensures
        subscription_set_of(subs).contains(id),
    decreases subs.len(),
{
    if i < subs.len() - 1 {
        lemma_subscription_present(subs.drop_last(), i, id);
    }
}

proof fn lemma_subscription_remove(subs: Seq<String>, i: int, id: Seq<char>)
    requires
        forall|a: int, b: int| 0 <= a < b < subs.len() ==> subs[a]@ != subs[b]@,
        0 <= i < subs.len(),
        subs[i]@ == id,
    ensures
        subscription_set_of(subs.remove(i)) == subscription_set_of(subs).remove(id),
    decreases subs.len(),
{
    let shorter = subs.remove(i);
    if i == subs.len() - 1 {
        assert(shorter =~= subs.drop_last());
        lemma_subscription_absent(subs.drop_last(), id);
        assert(subscription_set_of(subs).remove(id) =~= subscription_set_of(subs.drop_last()));
    } else {
        assert(shorter.drop_last() =~= subs.drop_last().remove(i));
        assert(shorter.last() == subs.last());
        lemma_subscription_remove(subs.drop_last(), i, id);
        assert(subscription_set_of(subs).remove(id) =~= subscription_set_of(
            subs.drop_last(),
        ).remove(id).insert(subs.last()@));
    }
}

/// One streaming connection: its lifecycle state and the execution
/// identifiers it is subscribed to.
pub struct Connection {
    state: ConnectionState,
    subscriptions: Vec<String>,
}

impl Connection {
    /// No execution identifier is subscribed twice.
    pub closed spec fn wf(self) -> bool {
        forall|a: int, b: int|
            0 <= a < b < self.subscriptions@.len() ==> self.subscriptions@[a]@
                != self.subscriptions@[b]@
    }

    /// Lifecycle state of the connection.
    pub closed spec fn spec_state(self) -> ConnectionState {
        self.state
    }

    /// The subscription set.
    pub closed spec fn subs(self) -> Set<Seq<char>> {
        subscription_set_of(self.subscriptions@)
    }

    /// A connection starts open, authorized for nothing, subscribed to
    /// nothing.
    pub fn open() -> (r: Connection)
        ensures
            r.wf(),
            r.spec_state() == ConnectionState::Open,
            r.subs() == Set::<Seq<char>>::empty(),
    {
        Connection { state: ConnectionState::Open, subscriptions: Vec::new() }
    }

    /// Settles the handshake: an authorized connection proceeds, a
    /// rejected one closes.
    pub fn authorize(&mut self, accepted: bool)
        requires
            old(self).wf(),
            old(self).spec_state() == ConnectionState::Open,
        ensures
            final(self).wf(),
            accepted ==> final(self).spec_state() == ConnectionState::Authorized,
            !accepted ==> final(self).spec_state() == ConnectionState::Closed,
            final(self).subs() == old(self).subs(),
    {
        if accepted {
            self.state = ConnectionState::Authorized;
        } else {
            self.state = ConnectionState::Closed;
        }
    }

    /// Starts the two per-connection loops: the connection is streaming.
    pub fn begin_streaming(&mut self)
        requires
            old(self).wf(),
            old(self).spec_state() == ConnectionState::Authorized,
        ensures
            final(self).wf(),
            final(self).spec_state() == ConnectionState::Streaming,
            final(self).subs() == old(self).subs(),
    {
        self.state = ConnectionState::Streaming;
    }

    /// Terminates the connection; its subscription set is gone with it.
    pub fn close(&mut self)
        ensures
            final(self).wf(),
            final(self).spec_state() == ConnectionState::Closed,
            final(self).subs() == Set::<Seq<char>>::empty(),
    {
        self.state = ConnectionState::Closed;
        self.subscriptions = Vec::new();
    }

    /// Position of the identifier among the subscriptions, if present.
    fn position_of(&self, execution_id: &String) -> (r: Option<usize>)
        ensures
            r matches Some(i) ==> i < self.subscriptions@.len() && self.subscriptions@[
                i as int
            ]@ == execution_id@,
            r is None ==> forall|i: int|
                0 <= i < self.subscriptions@.len() ==> self.subscriptions@[i]@ != execution_id@,
    {
        let n = self.subscriptions.len();
        let mut i: usize = 0;
        while i < n
            invariant
                n == self.subscriptions@.len(),
                i <= n,
                forall|j: int| 0 <= j < i ==> self.subscriptions@[j]@ != execution_id@,
            decreases n - i,
        {
            if self.subscriptions[i] == *execution_id {
                return Some(i);
            }
            i = i + 1;
        }
        None
    }

    /// Applies one classified control frame while streaming: subscribe
    /// adds the identifier, unsubscribe drops it, and a dropped frame
    /// changes nothing.  No frame closes the connection.
    pub fn apply_frame(&mut self, frame: ControlFrame)
        requires
            old(self).wf(),
            old(self).spec_state() == ConnectionState::Streaming,
        ensures
            final(self).wf(),
            final(self).spec_state() == ConnectionState::Streaming,
            frame matches ControlFrame::Subscribe(id) ==> final(self).subs() == old(
                self,
            ).subs().insert(id@),
            frame matches ControlFrame::Unsubscribe(id) ==> final(self).subs() == old(
                self,
            ).subs().remove(id@),
            frame is Ignored ==> final(self).subs() == old(self).subs(),
    {
        match frame {
            ControlFrame::Subscribe(id) => {
                match self.position_of(&id) {
                    Some(i) => {
                        proof {
                            lemma_subscription_present(self.subscriptions@, i as int, id@);
                            assert(self.subs().insert(id@) =~= self.subs());
                        }
                    },
                    None => {
                        let ghost pre = self.subscriptions@;
                        self.subscriptions.push(id);
                        proof {
                            assert(self.subscriptions@.drop_last() =~= pre);
                        }
                    },
                }
            },
            ControlFrame::Unsubscribe(id) => {
                match self.position_of(&id) {
                    Some(i) => {
                        proof {
                            lemma_subscription_remove(self.subscriptions@, i as int, id@);
                        }
                        let ghost pre = self.subscriptions@;
                        self.subscriptions.remove(i);
                        proof {
                            assert forall|a: int, b: int|
                                0 <= a < b < self.subscriptions@.len() implies self.subscriptions@[
                                a
                            ]@ != self.subscriptions@[b]@ by {
                                assert(self.subscriptions@[a] == if a < i as int {
                                    pre[a]
                                } else {
                                    pre[a + 1]
                                });
                                assert(self.subscriptions@[b] == if b < i as int {
                                    pre[b]
                                } else {
                                    pre[b + 1]
                                });
                            }
                        }
                    },
                    None => {
                        proof {
                            lemma_subscription_absent(self.subscriptions@, id@);
                            assert(self.subs().remove(id@) =~= self.subs());
                        }
                    },
                }
            },
            ControlFrame::Ignored => {},
        }
    }

    /// Whether the connection is subscribed to the identifier.
    pub fn is_subscribed(&self, execution_id: &String) -> (r: bool)
        requires
            self.wf(),
        ensures
            r == self.subs().contains(execution_id@),
    {
        match self.position_of(execution_id) {
            Some(i) => {
                proof {
                    lemma_subscription_present(self.subscriptions@, i as int, execution_id@);
                }
                true
            },
            None => {
                proof {
                    lemma_subscription_absent(self.subscriptions@, execution_id@);
                }
                false
            },
        }
    }

    /// Fan-out filter: an execution event is forwarded to this connection
    /// exactly when it is still streaming and subscribed to the event's
    /// execution.
    pub fn should_forward(&self, execution_id: &String) -> (r: bool)
        requires
            self.wf(),
        ensures
            r == (self.spec_state() == ConnectionState::Streaming && self.subs().contains(
                execution_id@,
            )),
    {
        match self.state {
            ConnectionState::Streaming => self.is_subscribed(execution_id),
            _ => false,
        }
    }

    /// How many executions the connection is subscribed to.
    pub fn subscription_count(&self) -> (r: usize)
        requires
            self.wf(),
        ensures
            r == self.subs().len(),
    {
        proof {
            lemma_subscription_count(self.subscriptions@);
        }
        self.subscriptions.len()
    }
}

proof fn lemma_subscription_count(subs: Seq<String>)
    requires
        forall|a: int, b: int| 0 <= a < b < subs.len() ==> subs[a]@ != subs[b]@,
    ensures
        subscription_set_of(subs).finite(),
        subscription_set_of(subs).len() == subs.len(),
    decreases subs.len(),
{
    if subs.len() == 0 {
        assert(subscription_set_of(subs) =~= Set::<Seq<char>>::empty());
    } else {
        lemma_subscription_count(subs.drop_last());
        lemma_subscription_absent(subs.drop_last(), subs.last()@);
    }
}

/// Round-trip law of the control protocol: subscribing to an execution a
/// connection is not yet subscribed to and then unsubscribing from it
/// restores the subscription set exactly; in particular, doing so on a
/// fresh connection leaves the set empty.  (That a dropped frame changes
/// nothing is stated by `apply_frame` itself.)
pub proof fn lemma_subscribe_unsubscribe(s: Set<Seq<char>>, id: Seq<char>)
    requires
        !s.contains(id),
    ensures
        s.insert(id).remove(id) == s,
{
    assert(s.insert(id).remove(id) =~= s);
}

/// The heartbeat frame the outbound loop emits on its fixed interval,
/// carrying the given timestamp.
pub open spec fn heartbeat_frame_text(timestamp: Seq<char>) -> Seq<char> {
    "{\"type\":\"heartbeat\",\"execution_id\":null,\"data\":{\"timestamp\":\""@ + timestamp
        + "\"}}"@
}

/// Renders one heartbeat frame around the given timestamp.  The timestamp
/// is embedded verbatim, so it must not need JSON escaping; the clock
/// rendering used by `heartbeat_now` never does.
pub fn render_heartbeat(timestamp: &str) -> (r: String)
    ensures
        r@ == heartbeat_frame_text(timestamp@),
{
    let mut s: String =
        "{\"type\":\"heartbeat\",\"execution_id\":null,\"data\":{\"timestamp\":\"".to_owned();
    s.append(timestamp);
    s.append("\"}}");
    proof {
        assert(s@ =~= heartbeat_frame_text(timestamp@));
    }
    s
}

/// Relies on chrono's RFC 3339 rendering of the current instant: the
/// result holds only digits, separators and a zone suffix, never a quote
/// or backslash, so it embeds verbatim in a JSON string.
#[verifier::external_body]
fn now_rfc3339() -> (r: String)
    ensures
        forall|i: int| 0 <= i < r@.len() ==> r@[i] != '"' && r@[i] != '\\',
{
    chrono::Utc::now().to_rfc3339()
}

/// One heartbeat frame carrying the clock's current instant.
pub fn heartbeat_now() -> (r: String)
    ensures
        exists|ts: Seq<char>| r@ == #[trigger] heartbeat_frame_text(ts),
{
    let ts = now_rfc3339();
    render_heartbeat(ts.as_str())
}

} // verus!

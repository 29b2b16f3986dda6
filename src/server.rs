//! Connection server decisions: the accept loop, which races new connections
//! against the shutdown signal, and the shutdown handle that raises it.

use vstd::prelude::*;

verus! {

#[verifier::external_type_specification]
#[verifier::external_body]
#[verifier::reject_recursive_types(T)]
pub struct ExBroadcastSender<T>(tokio::sync::broadcast::Sender<T>);

#[verifier::external_type_specification]
#[verifier::external_body]
#[verifier::reject_recursive_types(T)]
pub struct ExBroadcastReceiver<T>(tokio::sync::broadcast::Receiver<T>);

/// Relies on `Clone` for tokio::sync::broadcast::Sender: another sender of
/// the same channel.
pub assume_specification<T>[ <tokio::sync::broadcast::Sender<T> as Clone>::clone ](
    sender: &tokio::sync::broadcast::Sender<T>,
) -> tokio::sync::broadcast::Sender<T>;

/// Relies on tokio::sync::broadcast::channel: a linked sender and receiver.
/// The capacity is 1, which is neither zero nor above `usize::MAX / 2`, the
/// two capacities on which it panics.
#[verifier::external_body]
fn shutdown_channel() -> (r: (
    tokio::sync::broadcast::Sender<()>,
    tokio::sync::broadcast::Receiver<()>,
)) {
    tokio::sync::broadcast::channel(1)
}

/// Relies on tokio::sync::broadcast::Sender::send: queues the signal for every
/// live receiver without blocking; with no receiver it does nothing but report
/// an error, which is of no interest here.
#[verifier::external_body]
fn raise_signal(sender: &tokio::sync::broadcast::Sender<()>) {
    let _ = sender.send(());
}

/// Handle for shutting the server down gracefully: raising the signal makes
/// every accept loop stop taking connections. Raising it is idempotent and does
/// not block, even with no loop listening.
#[derive(Clone)]
pub struct ShutdownHandle {
    sender: tokio::sync::broadcast::Sender<()>,
}

impl ShutdownHandle {
    /// A new handle and the receiver an accept loop waits on.
    pub fn new() -> (r: (Self, tokio::sync::broadcast::Receiver<()>)) {
        let (sender, receiver) = shutdown_channel();
        (ShutdownHandle { sender }, receiver)
    }

    /// Signals the server to shut down.
    pub fn shutdown(&self) {
        raise_signal(&self.sender);
    }
}

impl Default for ShutdownHandle {
    fn default() -> (r: Self) {
        let (handle, _receiver) = ShutdownHandle::new();
        handle
    }
}

/// Where an accept loop stands.
#[derive(Debug, Clone, Copy, PartialEq, Eq, Structural)]
pub enum ListenerState {
    /// Taking new connections.
    Accepting,
    /// Stopped for good after the shutdown signal.
    Stopped,
}

/// What happened while the loop waited.
#[derive(Debug, Clone, Copy, PartialEq, Eq, Structural)]
pub enum AcceptEvent {
    /// A connection was accepted.
    Accepted,
    /// Accepting a connection failed.
    AcceptFailed,
    /// The shutdown signal arrived.
    ShutdownSignal,
}

/// What the loop does next. None of these touches a connection already open:
/// each runs in its own handler until its peer goes away.
#[derive(Debug, Clone, Copy, PartialEq, Eq, Structural)]
pub enum AcceptAction {
    /// Start a handler for the new connection, and keep accepting.
    SpawnHandler,
    /// Keep accepting.
    Continue,
    /// Leave the loop.
    Stop,
}

/// One transition of the accept loop.
pub open spec fn accept_next(s: ListenerState, e: AcceptEvent) -> (ListenerState, AcceptAction) {
    match s {
        ListenerState::Stopped => (ListenerState::Stopped, AcceptAction::Stop),
        ListenerState::Accepting => match e {
            AcceptEvent::Accepted => (ListenerState::Accepting, AcceptAction::SpawnHandler),
            AcceptEvent::AcceptFailed => (ListenerState::Accepting, AcceptAction::Continue),
            AcceptEvent::ShutdownSignal => (ListenerState::Stopped, AcceptAction::Stop),
        },
    }
}

/// The actions of the loop, from state `s`, over events `evs` in order.
pub open spec fn accept_run(s: ListenerState, evs: Seq<AcceptEvent>) -> Seq<AcceptAction>
    decreases evs.len(),
{
    if evs.len() == 0 {
        Seq::empty()
    } else {
        let (t, a) = accept_next(s, evs[0]);
        seq![a] + accept_run(t, evs.drop_first())
    }
}

/// The accept loop of one listening socket.
pub struct AcceptLoop {
    /// Where it stands.
    pub state: ListenerState,
}

impl AcceptLoop {
    /// A loop that takes connections.
    pub fn new() -> (r: Self)
        ensures
            r.state == ListenerState::Accepting,
    {
        AcceptLoop { state: ListenerState::Accepting }
    }

    /// Takes the next event and says what to do (see [`accept_next`]).
    pub fn on_event(&mut self, e: AcceptEvent) -> (r: AcceptAction)
        ensures
            (final(self).state, r) == accept_next(old(self).state, e),
    {
        match self.state {
            ListenerState::Stopped => AcceptAction::Stop,
            ListenerState::Accepting => match e {
                AcceptEvent::Accepted => AcceptAction::SpawnHandler,
                AcceptEvent::AcceptFailed => AcceptAction::Continue,
                AcceptEvent::ShutdownSignal => {
                    self.state = ListenerState::Stopped;
                    AcceptAction::Stop
                },
            },
        }
    }
}

proof fn lemma_stopped_run(evs: Seq<AcceptEvent>)
    ensures
        accept_run(ListenerState::Stopped, evs).len() == evs.len(),
        forall|j: int|
            0 <= j < evs.len() ==> #[trigger] accept_run(ListenerState::Stopped, evs)[j]
                == AcceptAction::Stop,
    decreases evs.len(),
{
    if evs.len() > 0 {
        lemma_stopped_run(evs.drop_first());
    }
}

/// Once the shutdown signal has been taken, the loop accepts nothing more:
/// from that event on, every step of the run is `Stop`, never a new handler.
pub proof fn law_no_accept_after_shutdown(s: ListenerState, evs: Seq<AcceptEvent>, i: int)
    requires
        0 <= i < evs.len(),
        evs[i] == AcceptEvent::ShutdownSignal,
    ensures
        accept_run(s, evs).len() == evs.len(),
        forall|j: int| i <= j < evs.len() ==> #[trigger] accept_run(s, evs)[j] == AcceptAction::Stop,
    decreases i,
{
    let (t, a) = accept_next(s, evs[0]);
    let rest = evs.drop_first();
    if i == 0 {
        assert(t == ListenerState::Stopped);
        lemma_stopped_run(rest);
        assert forall|j: int| i <= j < evs.len() implies #[trigger] accept_run(s, evs)[j]
            == AcceptAction::Stop by {
            if j > 0 {
                assert(accept_run(s, evs)[j] == accept_run(t, rest)[j - 1]);
            }
        }
    } else {
        law_no_accept_after_shutdown(t, rest, i - 1);
        assert forall|j: int| i <= j < evs.len() implies #[trigger] accept_run(s, evs)[j]
            == AcceptAction::Stop by {
            assert(accept_run(s, evs)[j] == accept_run(t, rest)[j - 1]);
        }
    }
}

} // verus!

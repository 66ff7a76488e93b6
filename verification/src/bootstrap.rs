//! The connect-and-bootstrap decision machine.
//!
//! Connecting alternates outside work (opening a channel, spawning a
//! server subprocess, reading its readiness token) with decisions. The
//! outside work cannot stand in a verified library, so the decisions are
//! gathered here into a pure transition function: the caller performs
//! each action it is handed, reports the outcome back as a plain event,
//! and the machine decides what happens next. Every decision — when to
//! spawn, what the readiness token must be, which error surfaces — is
//! verified, and the laws at the bottom pin down whole runs.

use vstd::prelude::*;

use crate::errors::ClientError;

verus! {

/// Relies on `String::push_str`: appends the given string slice onto the
/// end of the string.
pub assume_specification[ String::push_str ](s: &mut String, other: &str)
    ensures
        final(s)@ == old(s)@ + other@,
;

/// The `host:port` string handed to address resolution and, under the
/// scheme prefix, to the transport.
pub fn make_address(ip: &String, port: &String) -> (r: String)
    ensures
        r@ == ip@ + ":"@ + port@,
{
    let mut r = ip.clone();
    r.push_str(":");
    r.push_str(port.as_str());
    proof {
        assert(r@ =~= ip@ + ":"@ + port@);
    }
    r
}

/// The URL a channel to `ip:port` is built from: the combined address
/// under the `http` scheme.
pub fn connect_url(ip: &String, port: &String) -> (r: String)
    ensures
        r@ == "http://"@ + ip@ + ":"@ + port@,
{
    let mut r = String::new();
    r.push_str("http://");
    r.push_str(ip.as_str());
    r.push_str(":");
    r.push_str(port.as_str());
    proof {
        assert(r@ =~= "http://"@ + ip@ + ":"@ + port@);
    }
    r
}

/// The readiness token a bootstrapped server writes to its standard
/// output once it accepts connections: the five ASCII bytes of `ready`.
pub open spec fn ready_token() -> Seq<u8> {
    seq![114u8, 101u8, 97u8, 100u8, 121u8]
}

/// Whether the bytes read from a spawned server are exactly the
/// readiness token. A short read, a long read, or any other content is a
/// startup failure.
pub fn is_ready_token(bytes: &Vec<u8>) -> (r: bool)
    ensures
        r <==> bytes@ == ready_token(),
{
    if bytes.len() != 5 {
        proof {
            assert(bytes@ != ready_token());
        }
        return false;
    }
    let r = bytes[0] == 114 && bytes[1] == 101 && bytes[2] == 97 && bytes[3] == 100 && bytes[4]
        == 121;
    proof {
        if r {
            assert(bytes@ =~= ready_token());
        }
    }
    r
}

/// Where one `connect` call stands: either still working through its
/// single bootstrap path, or settled. Failure states carry the error the
/// caller receives; bootstrap states carry the first transport failure's
/// description, so the root cause is never lost.
#[derive(Debug, PartialEq, Eq)]
pub enum ConnectState {
    /// The initial connection attempt is in flight.
    Connecting,
    /// The connection failed and a server subprocess is being spawned.
    AwaitingSpawn { original: String },
    /// The subprocess is up; its readiness token is being read.
    AwaitingToken { original: String },
    /// The token was `ready`; the single retry attempt is in flight.
    Retrying { original: String },
    /// A channel is open; the connection handle can be built.
    Connected,
    /// The call is over and this error surfaces to the caller.
    Failed { error: ClientError },
}

/// What the outside work reported back after the previous action.
#[derive(Debug, PartialEq, Eq)]
pub enum ConnectEvent {
    /// The initial connection attempt succeeded.
    Connected,
    /// The initial connection attempt failed, with the transport's
    /// description of the failure.
    ConnectFailed { message: String },
    /// The server subprocess was spawned, its standard output captured.
    Spawned,
    /// The server subprocess could not be spawned.
    SpawnFailed { message: String },
    /// A readiness read completed with exactly these bytes.
    TokenRead { bytes: Vec<u8> },
    /// The readiness read failed or ended before five bytes arrived.
    TokenReadFailed,
    /// The post-bootstrap connection attempt succeeded.
    RetryConnected,
    /// The post-bootstrap connection attempt failed.
    RetryFailed { message: String },
}

/// The one piece of outside work the caller must perform next, or how
/// the call settles. `Ignore` answers only events that the protocol
/// cannot produce in the current state; a driver that reports outcomes
/// faithfully never sees it.
#[derive(Clone, Copy, Debug, PartialEq, Eq, Structural)]
pub enum ConnectAction {
    /// Spawn the server subprocess with its standard output piped.
    Spawn,
    /// Read exactly five bytes from the subprocess's standard output.
    ReadToken,
    /// Attempt the connection to the same address once more.
    RetryConnect,
    /// The machine is in `Connected`: hand the caller its handle.
    Succeed,
    /// The machine is in `Failed`: surface that state's error.
    Fail,
    /// The event does not belong to the current state; nothing changes.
    Ignore,
}

/// The full transition table of the connect machine: from configuration,
/// state and event to next state and action.
pub open spec fn connect_step_spec(
    autostart: bool,
    loopback_only: bool,
    state: ConnectState,
    event: ConnectEvent,
) -> (ConnectState, ConnectAction) {
    match (state, event) {
        (ConnectState::Connecting, ConnectEvent::Connected) => (
            ConnectState::Connected,
            ConnectAction::Succeed,
        ),
        (ConnectState::Connecting, ConnectEvent::ConnectFailed { message }) => if autostart
            && loopback_only {
            (ConnectState::AwaitingSpawn { original: message }, ConnectAction::Spawn)
        } else {
            (
                ConnectState::Failed { error: ClientError::Transport { message } },
                ConnectAction::Fail,
            )
        },
        (ConnectState::AwaitingSpawn { original }, ConnectEvent::Spawned) => (
            ConnectState::AwaitingToken { original },
            ConnectAction::ReadToken,
        ),
        (ConnectState::AwaitingSpawn { original }, ConnectEvent::SpawnFailed { message }) => (
            ConnectState::Failed { error: ClientError::Bootstrap { message, original } },
            ConnectAction::Fail,
        ),
        (ConnectState::AwaitingToken { original }, ConnectEvent::TokenRead { bytes }) => if bytes@
            == ready_token() {
            (ConnectState::Retrying { original }, ConnectAction::RetryConnect)
        } else {
            (
                ConnectState::Failed { error: ClientError::Transport { message: original } },
                ConnectAction::Fail,
            )
        },
        (ConnectState::AwaitingToken { original }, ConnectEvent::TokenReadFailed) => (
            ConnectState::Failed { error: ClientError::Transport { message: original } },
            ConnectAction::Fail,
        ),
        (ConnectState::Retrying { original }, ConnectEvent::RetryConnected) => (
            ConnectState::Connected,
            ConnectAction::Succeed,
        ),
        (ConnectState::Retrying { original }, ConnectEvent::RetryFailed { message }) => (
            ConnectState::Failed { error: ClientError::Transport { message } },
            ConnectAction::Fail,
        ),
        (s, _) => (s, ConnectAction::Ignore),
    }
}

/// Take one step of the connect machine: exactly the transition the
/// table above prescribes for this state and event.
pub fn connect_step(
    autostart: bool,
    loopback_only: bool,
    state: ConnectState,
    event: ConnectEvent,
) -> (r: (ConnectState, ConnectAction))
    ensures
        r == connect_step_spec(autostart, loopback_only, state, event),
{
    match (state, event) {
        (ConnectState::Connecting, ConnectEvent::Connected) => (
            ConnectState::Connected,
            ConnectAction::Succeed,
        ),
        (ConnectState::Connecting, ConnectEvent::ConnectFailed { message }) => if autostart
            && loopback_only {
            (ConnectState::AwaitingSpawn { original: message }, ConnectAction::Spawn)
        } else {
            (
                ConnectState::Failed { error: ClientError::Transport { message } },
                ConnectAction::Fail,
            )
        },
        (ConnectState::AwaitingSpawn { original }, ConnectEvent::Spawned) => (
            ConnectState::AwaitingToken { original },
            ConnectAction::ReadToken,
        ),
        (ConnectState::AwaitingSpawn { original }, ConnectEvent::SpawnFailed { message }) => (
            ConnectState::Failed { error: ClientError::Bootstrap { message, original } },
            ConnectAction::Fail,
        ),
        (ConnectState::AwaitingToken { original }, ConnectEvent::TokenRead { bytes }) => if is_ready_token(
            &bytes,
        ) {
            (ConnectState::Retrying { original }, ConnectAction::RetryConnect)
        } else {
            (
                ConnectState::Failed { error: ClientError::Transport { message: original } },
                ConnectAction::Fail,
            )
        },
        (ConnectState::AwaitingToken { original }, ConnectEvent::TokenReadFailed) => (
            ConnectState::Failed { error: ClientError::Transport { message: original } },
            ConnectAction::Fail,
        ),
        (ConnectState::Retrying { original }, ConnectEvent::RetryConnected) => (
            ConnectState::Connected,
            ConnectAction::Succeed,
        ),
        (ConnectState::Retrying { original }, ConnectEvent::RetryFailed { message }) => (
            ConnectState::Failed { error: ClientError::Transport { message } },
            ConnectAction::Fail,
        ),
        (s, _) => (s, ConnectAction::Ignore),
    }
}

/// The state a run of the connect machine reaches after a sequence of
/// events, starting from the initial connection attempt.
pub open spec fn run_state(
    autostart: bool,
    loopback_only: bool,
    events: Seq<ConnectEvent>,
) -> ConnectState
    decreases events.len(),
{
    if events.len() == 0 {
        ConnectState::Connecting
    } else {
        connect_step_spec(
            autostart,
            loopback_only,
            run_state(autostart, loopback_only, events.drop_last()),
            events.last(),
        ).0
    }
}

/// The actions a run of the connect machine issues for a sequence of
/// events, in order.
pub open spec fn run_actions(
    autostart: bool,
    loopback_only: bool,
    events: Seq<ConnectEvent>,
) -> Seq<ConnectAction>
    decreases events.len(),
{
    if events.len() == 0 {
        Seq::empty()
    } else {
        run_actions(autostart, loopback_only, events.drop_last()).push(
            connect_step_spec(
                autostart,
                loopback_only,
                run_state(autostart, loopback_only, events.drop_last()),
                events.last(),
            ).1,
        )
    }
}

/// How many spawn actions a run of the connect machine issues.
pub open spec fn spawn_count(
    autostart: bool,
    loopback_only: bool,
    events: Seq<ConnectEvent>,
) -> nat
    decreases events.len(),
{
    if events.len() == 0 {
        0
    } else {
        spawn_count(autostart, loopback_only, events.drop_last()) + if connect_step_spec(
            autostart,
            loopback_only,
            run_state(autostart, loopback_only, events.drop_last()),
            events.last(),
        ).1 == ConnectAction::Spawn {
            1nat
        } else {
            0nat
        }
    }
}

/// Law: with auto-bootstrap disabled, or for a target that does not
/// resolve exclusively to loopback addresses, no run of the connect
/// machine ever issues a spawn action, whatever the transport reports.
pub proof fn lemma_no_spawn_without_bootstrap(
    autostart: bool,
    loopback_only: bool,
    events: Seq<ConnectEvent>,
)
    requires
        !(autostart && loopback_only),
    ensures
        forall|i: int| 0 <= i < run_actions(autostart, loopback_only, events).len()
            ==> #[trigger] run_actions(autostart, loopback_only, events)[i]
            != ConnectAction::Spawn,
    decreases events.len(),
{
    if events.len() > 0 {
        lemma_no_spawn_without_bootstrap(autostart, loopback_only, events.drop_last());
        assert(connect_step_spec(
            autostart,
            loopback_only,
            run_state(autostart, loopback_only, events.drop_last()),
            events.last(),
        ).1 != ConnectAction::Spawn);
    }
}

/// Law: when bootstrap is not attempted, a failed first connection
/// attempt ends the run at once, surfacing exactly the transport error
/// the attempt reported.
pub proof fn lemma_failure_surfaces_transport(
    autostart: bool,
    loopback_only: bool,
    message: String,
)
    requires
        !(autostart && loopback_only),
    ensures
        connect_step_spec(
            autostart,
            loopback_only,
            ConnectState::Connecting,
            (ConnectEvent::ConnectFailed { message }),
        ) == ((ConnectState::Failed { error: ClientError::Transport { message } }),
        ConnectAction::Fail),
{
}

/// Law: no run of the connect machine ever issues more than one spawn
/// action — at most one subprocess per `connect` call, whatever the
/// transport reports.
pub proof fn lemma_at_most_one_spawn(
    autostart: bool,
    loopback_only: bool,
    events: Seq<ConnectEvent>,
)
    ensures
        spawn_count(autostart, loopback_only, events) <= 1,
        spawn_count(autostart, loopback_only, events) >= 1 ==> run_state(
            autostart,
            loopback_only,
            events,
        ) != ConnectState::Connecting,
    decreases events.len(),
{
    if events.len() > 0 {
        lemma_at_most_one_spawn(autostart, loopback_only, events.drop_last());
        let prev = run_state(autostart, loopback_only, events.drop_last());
        let step = connect_step_spec(autostart, loopback_only, prev, events.last());
        if step.1 == ConnectAction::Spawn {
            assert(prev == ConnectState::Connecting);
            assert(spawn_count(autostart, loopback_only, events.drop_last()) == 0);
            assert(step.0 != ConnectState::Connecting);
        } else {
            if prev != ConnectState::Connecting {
                assert(step.0 != ConnectState::Connecting);
            }
        }
    }
}

/// Law: with auto-bootstrap enabled and a loopback-only target, a run
/// whose first event reports a failed connection spawns exactly one
/// subprocess, however the rest of the run goes.
pub proof fn lemma_exactly_one_spawn(
    autostart: bool,
    loopback_only: bool,
    events: Seq<ConnectEvent>,
)
    requires
        autostart,
        loopback_only,
        events.len() >= 1,
        events[0] matches ConnectEvent::ConnectFailed { .. },
    ensures
        spawn_count(autostart, loopback_only, events) == 1,
    decreases events.len(),
{
    if events.len() == 1 {
        assert(events.drop_last().len() == 0);
        assert(events.last() == events[0]);
        assert(run_state(autostart, loopback_only, events.drop_last())
            == ConnectState::Connecting);
        assert(spawn_count(autostart, loopback_only, events.drop_last()) == 0);
        assert(connect_step_spec(
            autostart,
            loopback_only,
            ConnectState::Connecting,
            events.last(),
        ).1 == ConnectAction::Spawn);
    } else {
        assert(events.drop_last()[0] == events[0]);
        lemma_exactly_one_spawn(autostart, loopback_only, events.drop_last());
        lemma_at_most_one_spawn(autostart, loopback_only, events);
        assert(spawn_count(autostart, loopback_only, events) >= spawn_count(
            autostart,
            loopback_only,
            events.drop_last(),
        ));
    }
}

/// Law: the readiness token alone decides the retry. Exactly the bytes
/// `ready` lead to the single second connection attempt; any other read
/// outcome ends the run with the original transport error and no second
/// attempt is made.
pub proof fn lemma_token_decides_retry(
    autostart: bool,
    loopback_only: bool,
    original: String,
    bytes: Vec<u8>,
)
    ensures
        bytes@ == ready_token() ==> connect_step_spec(
            autostart,
            loopback_only,
            (ConnectState::AwaitingToken { original }),
            (ConnectEvent::TokenRead { bytes }),
        ) == ((ConnectState::Retrying { original }), ConnectAction::RetryConnect),
        bytes@ != ready_token() ==> connect_step_spec(
            autostart,
            loopback_only,
            (ConnectState::AwaitingToken { original }),
            (ConnectEvent::TokenRead { bytes }),
        ) == ((ConnectState::Failed {
            error: ClientError::Transport { message: original },
        }), ConnectAction::Fail),
{
}

/// Law: the second connection attempt's outcome is returned as it is:
/// success yields the connected handle, failure surfaces that attempt's
/// own transport error, with no further retries or spawns.
pub proof fn lemma_retry_outcome_is_returned(
    autostart: bool,
    loopback_only: bool,
    original: String,
    message: String,
)
    ensures
        connect_step_spec(
            autostart,
            loopback_only,
            (ConnectState::Retrying { original }),
            ConnectEvent::RetryConnected,
        ) == (ConnectState::Connected, ConnectAction::Succeed),
        connect_step_spec(
            autostart,
            loopback_only,
            (ConnectState::Retrying { original }),
            (ConnectEvent::RetryFailed { message }),
        ) == ((ConnectState::Failed { error: ClientError::Transport { message } }),
        ConnectAction::Fail),
{
}

/// Law: a failed spawn surfaces a bootstrap error that carries both the
/// spawn failure and the original transport failure it followed.
pub proof fn lemma_spawn_failure_is_chained(
    autostart: bool,
    loopback_only: bool,
    original: String,
    message: String,
)
    ensures
        connect_step_spec(
            autostart,
            loopback_only,
            (ConnectState::AwaitingSpawn { original }),
            (ConnectEvent::SpawnFailed { message }),
        ) == ((ConnectState::Failed { error: ClientError::Bootstrap { message, original } }),
        ConnectAction::Fail),
{
}

} // verus!

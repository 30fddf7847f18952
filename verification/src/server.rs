//! The decisions of the plugin: which loaded game module gets the fighter
//! hooks, and for its publishing server how the listening socket is set up,
//! when a socket call has failed, what to do after each attempt to send the
//! game information, and whether to start the server again after it stops.

use vstd::prelude::*;

verus! {

/// The TCP port the server listens on.
pub const SERVER_PORT: u16 = 4242;

/// How many connections may wait to be accepted.
pub const LISTEN_BACKLOG: i32 = 1;

/// Milliseconds between two publications of the game information.
pub const PUBLISH_INTERVAL_MS: u64 = 500;

/// Seconds to wait before each start of the server.
pub const RESTART_DELAY_SECS: u64 = 5;

/// The error number of a send to a connection the client has closed.
pub const BROKEN_PIPE: i64 = 32;

/// The error number of a bind to an address that is already in use.
pub const ADDRESS_IN_USE: i64 = 98;

/// The game module whose loading installs the fighter hooks.
pub const FIGHTER_MODULE: &'static str = "common";

/// Whether loading the game module `module_name` installs the fighter
/// hooks: only the module named `common` does.
pub fn installs_fighter_hooks(module_name: &str) -> (r: bool)
    ensures
        r == (module_name@ == FIGHTER_MODULE@),
{
    let n = module_name.unicode_len();
    let m = FIGHTER_MODULE.unicode_len();
    if n != m {
        return false;
    }
    let mut i: usize = 0;
    while i < n
        invariant
            n == module_name@.len(),
            m == FIGHTER_MODULE@.len(),
            n == m,
            i <= n,
            forall|j: int| 0 <= j < i ==> module_name@[j] == FIGHTER_MODULE@[j],
        decreases n - i,
    {
        if module_name.get_char(i) != FIGHTER_MODULE.get_char(i) {
            return false;
        }
        i = i + 1;
    }
    assert(module_name@ =~= FIGHTER_MODULE@);
    true
}

/// The calls that set up the listening socket, in the order they are made.
#[derive(Clone, Copy, Debug, PartialEq, Eq, Structural)]
pub enum SetupStep {
    /// Creating the socket.
    Socket,
    /// Turning on keep-alive.
    SetOption,
    /// Binding it to the server's port.
    Bind,
    /// Listening on it.
    Listen,
}

/// What the server does after a setup call.
#[derive(Clone, Copy, Debug, PartialEq, Eq, Structural)]
pub enum SetupAction {
    /// The call succeeded: go on to the next step, or accept a client
    /// after the last one.
    Proceed,
    /// The socket could not be created: stop with the error number.
    Fail(i64),
    /// A call on the socket failed: close the socket and stop with the
    /// error number.
    CloseAndFail(i64),
}

impl SetupStep {
    /// The step after this one, or `None` after listening.
    pub open spec fn following(self) -> Option<SetupStep> {
        match self {
            SetupStep::Socket => Option::Some(SetupStep::SetOption),
            SetupStep::SetOption => Option::Some(SetupStep::Bind),
            SetupStep::Bind => Option::Some(SetupStep::Listen),
            SetupStep::Listen => Option::None,
        }
    }

    /// The step after this one, or `None` after listening.
    pub fn next(self) -> (n: Option<SetupStep>)
        ensures
            n == self.following(),
    {
        match self {
            SetupStep::Socket => Option::Some(SetupStep::SetOption),
            SetupStep::SetOption => Option::Some(SetupStep::Bind),
            SetupStep::Bind => Option::Some(SetupStep::Listen),
            SetupStep::Listen => Option::None,
        }
    }
}

/// What to do after the setup call `step` returned `ret`, with `errno` the
/// error number it left: a negative result is a failure; a socket that could
/// not be created is not closed, while after any later failure the socket is
/// closed; on success the setup goes on.
pub fn after_setup_call(step: SetupStep, ret: i32, errno: i64) -> (action: SetupAction)
    ensures
        ret >= 0 ==> action == SetupAction::Proceed,
        ret < 0 && step == SetupStep::Socket ==> action == SetupAction::Fail(errno),
        ret < 0 && step != SetupStep::Socket ==> action == SetupAction::CloseAndFail(errno),
{
    match step {
        SetupStep::Socket => {
            if socket_failed(ret) {
                SetupAction::Fail(errno)
            } else {
                SetupAction::Proceed
            }
        },
        _ => {
            if ret < 0 {
                SetupAction::CloseAndFail(errno)
            } else {
                SetupAction::Proceed
            }
        },
    }
}

/// What the server does after an attempt to send.
#[derive(Clone, Copy, Debug, PartialEq, Eq, Structural)]
pub enum SendFollowUp {
    /// The packet went out: carry on publishing.
    Continue,
    /// The client went away: wait for the next client to connect.
    AcceptAgain,
    /// Another error: report its number and carry on publishing.
    Report(i64),
}

/// The outcome of a socket call that returns `ret` and, on failure, leaves
/// its error number in `errno`: it failed exactly when `ret` is negative.
pub fn call_result(ret: i64, errno: i64) -> (r: Result<(), i64>)
    ensures
        ret < 0 ==> r == Result::<(), i64>::Err(errno),
        ret >= 0 ==> r == Result::<(), i64>::Ok(()),
{
    if ret < 0 {
        Result::Err(errno)
    } else {
        Result::Ok(())
    }
}

/// Whether a socket descriptor returned by `socket` signals a failure: its
/// sign bit is set, that is, it is negative.
pub fn socket_failed(fd: i32) -> (failed: bool)
    ensures
        failed == (fd < 0),
{
    let bits = #[verifier::truncate] (fd as u32);
    assert(((#[verifier::truncate] (fd as u32)) & 0x8000_0000u32) != 0u32 <==> fd < 0i32) by (bit_vector);
    (bits & 0x8000_0000u32) != 0
}

/// What to do after an attempt to send: carry on after a success, wait for
/// a new client when the old one closed the connection, and report any
/// other error.
pub fn follow_up_send(sent: Result<(), i64>) -> (next: SendFollowUp)
    ensures
        sent is Ok ==> next == SendFollowUp::Continue,
        sent == Result::<(), i64>::Err(BROKEN_PIPE) ==> next == SendFollowUp::AcceptAgain,
        sent matches Result::Err(e) ==> (e != BROKEN_PIPE ==> next == SendFollowUp::Report(e)),
{
    match sent {
        Result::Ok(()) => SendFollowUp::Continue,
        Result::Err(e) => {
            if e == BROKEN_PIPE {
                SendFollowUp::AcceptAgain
            } else {
                SendFollowUp::Report(e)
            }
        },
    }
}

/// Whether to start the server again after it stopped with `stopped`: yes,
/// unless its address was already in use, which a restart cannot cure.
pub fn should_restart(stopped: Result<(), i64>) -> (again: bool)
    ensures
        again <==> stopped != Result::<(), i64>::Err(ADDRESS_IN_USE),
{
    match stopped {
        Result::Err(e) => e != ADDRESS_IN_USE,
        Result::Ok(()) => true,
    }
}

/// Where the publishing server stands.
#[derive(Clone, Copy, Debug, PartialEq, Eq, Structural)]
pub enum ServerState {
    /// Waiting for the result of a setup call.
    SettingUp(SetupStep),
    /// Waiting for a client to connect.
    Accepting,
    /// Sending the game information to a connected client.
    Publishing,
    /// Stopped by a setup failure with this error number.
    Stopped(i64),
}

/// What the server learns from the socket calls it made.
#[derive(Clone, Copy, Debug, PartialEq, Eq)]
pub enum ServerEvent {
    /// A setup call returned `ret`, leaving the error number `errno`.
    CallReturned(i32, i64),
    /// A client connected.
    Accepted,
    /// An attempt to send finished with this outcome.
    SendFinished(Result<(), i64>),
}

/// What the server does next.
#[derive(Clone, Copy, Debug, PartialEq, Eq, Structural)]
pub enum ServerAction {
    /// Make this setup call.
    Call(SetupStep),
    /// Wait for a client to connect.
    Accept,
    /// Wait the publishing interval, then send the game information.
    Publish,
    /// Report this error number, wait the interval, then send again.
    ReportAndPublish(i64),
    /// Stop with this error number.
    Stop(i64),
    /// Close the socket and stop with this error number.
    CloseAndStop(i64),
    /// The event does not belong to this state: do nothing.
    Ignore,
}

/// The server when it starts: about to create its socket.
pub open spec fn server_start() -> (ServerState, ServerAction) {
    (ServerState::SettingUp(SetupStep::Socket), ServerAction::Call(SetupStep::Socket))
}

/// The next state and action of the server in `state` on `event`.
pub open spec fn server_transition(state: ServerState, event: ServerEvent) -> (ServerState, ServerAction) {
    match (state, event) {
        (ServerState::SettingUp(step), ServerEvent::CallReturned(ret, errno)) => {
            if ret < 0 {
                if step == SetupStep::Socket {
                    (ServerState::Stopped(errno), ServerAction::Stop(errno))
                } else {
                    (ServerState::Stopped(errno), ServerAction::CloseAndStop(errno))
                }
            } else {
                match step.following() {
                    Option::Some(next) => (ServerState::SettingUp(next), ServerAction::Call(next)),
                    Option::None => (ServerState::Accepting, ServerAction::Accept),
                }
            }
        },
        (ServerState::Accepting, ServerEvent::Accepted) => (ServerState::Publishing, ServerAction::Publish),
        (ServerState::Publishing, ServerEvent::SendFinished(sent)) => match sent {
            Result::Ok(()) => (ServerState::Publishing, ServerAction::Publish),
            Result::Err(e) => {
                if e == BROKEN_PIPE {
                    (ServerState::Accepting, ServerAction::Accept)
                } else {
                    (ServerState::Publishing, ServerAction::ReportAndPublish(e))
                }
            },
        },
        _ => (state, ServerAction::Ignore),
    }
}

/// Whether the server is serving clients: accepting or publishing.
pub open spec fn is_serving(state: ServerState) -> bool {
    state == ServerState::Accepting || state == ServerState::Publishing
}

/// The server when it starts: about to create its socket.
pub fn start_server_state() -> (start: (ServerState, ServerAction))
    ensures
        start == server_start(),
{
    (ServerState::SettingUp(SetupStep::Socket), ServerAction::Call(SetupStep::Socket))
}

/// One step of the server: from its state and what the last socket call
/// returned to its next state and what it does next.
pub fn server_step(state: ServerState, event: ServerEvent) -> (next: (ServerState, ServerAction))
    ensures
        next == server_transition(state, event),
{
    match (state, event) {
        (ServerState::SettingUp(step), ServerEvent::CallReturned(ret, errno)) => {
            match after_setup_call(step, ret, errno) {
                SetupAction::Fail(e) => (ServerState::Stopped(e), ServerAction::Stop(e)),
                SetupAction::CloseAndFail(e) => (ServerState::Stopped(e), ServerAction::CloseAndStop(e)),
                SetupAction::Proceed => match step.next() {
                    Option::Some(next) => (ServerState::SettingUp(next), ServerAction::Call(next)),
                    Option::None => (ServerState::Accepting, ServerAction::Accept),
                },
            }
        },
        (ServerState::Accepting, ServerEvent::Accepted) => (ServerState::Publishing, ServerAction::Publish),
        (ServerState::Publishing, ServerEvent::SendFinished(sent)) => match follow_up_send(sent) {
            SendFollowUp::Continue => (ServerState::Publishing, ServerAction::Publish),
            SendFollowUp::AcceptAgain => (ServerState::Accepting, ServerAction::Accept),
            SendFollowUp::Report(e) => (ServerState::Publishing, ServerAction::ReportAndPublish(e)),
        },
        _ => (state, ServerAction::Ignore),
    }
}

/// Once the server serves clients it never stops: whatever a send or an
/// accept returns, it goes on accepting or publishing.
pub proof fn lemma_serving_never_stops(state: ServerState, event: ServerEvent)
    requires
        is_serving(state),
    ensures
        is_serving(server_transition(state, event).0),
{
}

/// The server stops only during setup, when a setup call fails, and then
/// with that call's error number.
pub proof fn lemma_stops_only_on_setup_failure(state: ServerState, event: ServerEvent)
    requires
        !(state is Stopped),
        server_transition(state, event).0 is Stopped,
    ensures
        state is SettingUp,
        event matches ServerEvent::CallReturned(ret, errno) && ret < 0
            && server_transition(state, event).0 == ServerState::Stopped(errno),
{
}

/// A stopped server stays stopped.
pub proof fn lemma_stopped_stays_stopped(errno: i64, event: ServerEvent)
    ensures
        server_transition(ServerState::Stopped(errno), event)
            == (ServerState::Stopped(errno), ServerAction::Ignore),
{
}

/// A setup call that succeeds, whatever descriptor or value it returned,
/// leads to the next call of the setup in order, the keep-alive option after
/// the socket, the bind after the option, the listen after the bind, and
/// after the listen to accepting clients.
pub proof fn lemma_setup_goes_in_order(ret: i32, errno: i64)
    requires
        ret >= 0,
    ensures
        server_transition(ServerState::SettingUp(SetupStep::Socket), ServerEvent::CallReturned(ret, errno))
            == (ServerState::SettingUp(SetupStep::SetOption), ServerAction::Call(SetupStep::SetOption)),
        server_transition(ServerState::SettingUp(SetupStep::SetOption), ServerEvent::CallReturned(ret, errno))
            == (ServerState::SettingUp(SetupStep::Bind), ServerAction::Call(SetupStep::Bind)),
        server_transition(ServerState::SettingUp(SetupStep::Bind), ServerEvent::CallReturned(ret, errno))
            == (ServerState::SettingUp(SetupStep::Listen), ServerAction::Call(SetupStep::Listen)),
        server_transition(ServerState::SettingUp(SetupStep::Listen), ServerEvent::CallReturned(ret, errno))
            == (ServerState::Accepting, ServerAction::Accept),
{
}

/// Every setup step that succeeds moves on to the step that follows it, and
/// the outcome does not depend on which non-negative value the call returned.
pub proof fn lemma_setup_success_ignores_value(step: SetupStep, ret1: i32, ret2: i32, errno1: i64, errno2: i64)
    requires
        ret1 >= 0,
        ret2 >= 0,
    ensures
        server_transition(ServerState::SettingUp(step), ServerEvent::CallReturned(ret1, errno1))
            == server_transition(ServerState::SettingUp(step), ServerEvent::CallReturned(ret2, errno2)),
        step.following() matches Option::Some(n) ==> server_transition(
            ServerState::SettingUp(step),
            ServerEvent::CallReturned(ret1, errno1),
        ) == (ServerState::SettingUp(n), ServerAction::Call(n)),
{
}

/// Setup that succeeds call by call ends with the server accepting.
pub proof fn lemma_successful_setup_accepts(step: SetupStep, ret: i32, errno: i64)
    requires
        ret >= 0,
        step == SetupStep::Listen,
    ensures
        server_transition(ServerState::SettingUp(step), ServerEvent::CallReturned(ret, errno))
            == (ServerState::Accepting, ServerAction::Accept),
{
}

} // verus!

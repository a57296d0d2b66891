//! The discovery session lifecycle.
//!
//! A session is either idle (no advertisement, no receiver task) or active
//! (advertisement registered, receiver and browse tasks running, port
//! recorded).  The runtime around this crate performs the outside work —
//! binding the listener, resolving the local address, registering the
//! record, spawning and cancelling tasks — and hands every outcome in here;
//! the decisions of the lifecycle are made and verified here:
//!
//! * [`prepare_start`] decides, from the current state and the outcomes of
//!   binding and address resolution, whether a start proceeds and with what
//!   advertisement, or with which error it aborts;
//! * [`abort_start`] decides which partially acquired resources a failed
//!   start must release;
//! * [`commit_start`] records a fully started session;
//! * [`stop_transition`] decides the teardown actions of a stop and returns
//!   the state to idle, idempotently.

use crate::advert::AdvertPlan;
use crate::advert::advert_plan_is;
use crate::advert::advert_props;
use crate::advert::build_advert_plan;
use crate::advert::build_advertisement;
use crate::advert::hostname_text;
use crate::advert::instance_name_text;
use crate::advert::ip_text_parses;
use crate::advert::props_view;
use crate::advert::record_refused;
use crate::advert::service_type_text;
use crate::errors::DiscoveryError;
use vstd::prelude::*;

verus! {

/// The single piece of shared session state, as the lifecycle decisions see
/// it: whether the advertisement handle and the receiver-task handle are
/// present, and the bound port.  The handles themselves stay with the
/// runtime that owns them.
#[derive(Clone, Copy, PartialEq, Eq, Structural, Debug)]
pub struct AppState {
    /// Whether an advertisement handle is held.
    pub has_advert: bool,
    /// Whether a receiver-task cancellation handle is held.
    pub has_server: bool,
    /// The bound receiver port of the active session, zero when idle.
    pub local_port: u16,
}

/// The idle state: nothing advertised, nothing running, no port recorded.
pub open spec fn idle_state() -> AppState {
    AppState { has_advert: false, has_server: false, local_port: 0 }
}

impl AppState {
    /// The state invariant: partial states are never observable — the
    /// advertisement handle and the task handle are both present or both
    /// absent.
    pub open spec fn wf(self) -> bool {
        self.has_advert == self.has_server
    }

    /// Whether a session is active.
    pub open spec fn is_active(self) -> bool {
        self.has_advert && self.has_server
    }

    /// A fresh session state: idle, as at process start.
    pub fn new() -> (s: Self)
        ensures
            s == idle_state(),
            s.wf(),
            !s.is_active(),
    {
        AppState { has_advert: false, has_server: false, local_port: 0 }
    }

    /// Whether a session is active.
    pub fn active(&self) -> (b: bool)
        ensures
            b == self.is_active(),
    {
        self.has_advert && self.has_server
    }
}

/// Everything a successful start preparation hands to the runtime: the port
/// to report, the advertisement plan, and the record to register.
pub struct StartPlan {
    /// The bound receiver port, returned to the caller of start.
    pub port: u16,
    /// The advertisement the record was built from.
    pub advert: AdvertPlan,
    /// The record to hand to the advertising daemon.
    pub record: mdns_sd::ServiceInfo,
}

/// The teardown work a stop asks of the runtime.
#[derive(Clone, Copy, PartialEq, Eq, Structural, Debug)]
pub struct StopActions {
    /// Withdraw the advertisement and shut the daemon down (best effort).
    pub shutdown_advert: bool,
    /// Cancel the receiver and browse tasks (best effort, not awaited).
    pub abort_server: bool,
}

/// The cleanup a failed start asks of the runtime, so that no listener,
/// task or advertisement is left dangling.
#[derive(Clone, Copy, PartialEq, Eq, Structural, Debug)]
pub struct CleanupActions {
    /// Cancel the already spawned receiver task.
    pub abort_server: bool,
    /// Shut the already created advertising daemon down.
    pub shutdown_daemon: bool,
}

/// The teardown a stop performs on a given state: each handle that is
/// present is released, nothing else is touched.
pub open spec fn stop_actions_for(s: AppState) -> StopActions {
    StopActions { shutdown_advert: s.has_advert, abort_server: s.has_server }
}

/// The state any stop leaves behind.
pub open spec fn state_after_stop(s: AppState) -> AppState {
    idle_state()
}

/// Decides a start: given the current state, the chosen nickname, the
/// outcome of binding the listener, and the outcome of resolving the local
/// address, either refuses with the error the caller is owed — a start
/// while active is rejected, a bind failure aborts with the binder's
/// report, a missing local address aborts, a refused record aborts — or
/// yields the full start plan, whose advertisement is pinned down exactly.
/// On an idle state with a bound port and a resolved address, the start
/// proceeds exactly when the advertising subsystem does not refuse the
/// advertisement built from those values.  No state is mutated here; a
/// start is recorded only by [`commit_start`], after the runtime has
/// registered the record and spawned the tasks.
pub fn prepare_start(
    state: &AppState,
    nickname: &str,
    bound: Result<u16, String>,
    local_ip: Option<String>,
) -> (r: Result<StartPlan, DiscoveryError>)
    ensures
        state.is_active() ==> (r matches Err(e) && e is AlreadyActive),
        !state.is_active() ==> (bound matches Err(m) ==> (r matches Err(
            DiscoveryError::Bind(m2),
        ) && m2@ == m@)),
        !state.is_active() && bound is Ok && local_ip is None ==> (r matches Err(e)
            && e is AddressResolution),
        !state.is_active() ==> (bound matches Ok(p) ==> (local_ip matches Some(ip) ==> (match r {
            Ok(plan) => plan.port == p && advert_plan_is(plan.advert, nickname@, p, ip@),
            Err(e) => e is Advertisement,
        }))),
        !state.is_active() ==> (bound matches Ok(p) ==> (local_ip matches Some(ip) ==> (r is Ok
            <==> !record_refused(
            service_type_text(),
            instance_name_text(nickname@, p),
            hostname_text(nickname@, p),
            ip@,
            p,
            advert_props(nickname@, p),
        )))),
        !state.is_active() && bound is Ok ==> (local_ip matches Some(ip) ==> (!ip_text_parses(ip@)
            ==> r is Err)),
{
    if state.active() {
        return Err(DiscoveryError::AlreadyActive);
    }
    let port = match bound {
        Ok(p) => p,
        Err(m) => {
            return Err(DiscoveryError::Bind(m));
        },
    };
    let ip = match local_ip {
        Some(ip) => ip,
        None => {
            return Err(DiscoveryError::AddressResolution);
        },
    };
    let plan = build_advert_plan(nickname, port, ip);
    proof {
        assert(props_view(plan.properties@) =~~= advert_props(nickname@, port));
    }
    match build_advertisement(&plan) {
        Ok(record) => Ok(StartPlan { port, advert: plan, record }),
        Err(e) => Err(e),
    }
}

/// Decides the cleanup of a start that failed after some resources were
/// already acquired: exactly what was created is released.
pub fn abort_start(server_spawned: bool, daemon_created: bool) -> (a: CleanupActions)
    ensures
        a.abort_server == server_spawned,
        a.shutdown_daemon == daemon_created,
{
    CleanupActions { abort_server: server_spawned, shutdown_daemon: daemon_created }
}

/// Records a fully started session: both handles held, the bound port
/// recorded, and that port reported to the caller.  A session that is
/// already active is left untouched and the start is refused.
pub fn commit_start(state: &mut AppState, port: u16) -> (r: Result<u16, DiscoveryError>)
    requires
        old(state).wf(),
    ensures
        final(state).wf(),
        !old(state).is_active() ==> (r matches Ok(p) && p == port),
        !old(state).is_active() ==> *final(state) == (AppState {
            has_advert: true,
            has_server: true,
            local_port: port,
        }),
        !old(state).is_active() ==> final(state).is_active(),
        old(state).is_active() ==> (r matches Err(e) && e is AlreadyActive) && *final(state)
            == *old(state),
{
    if state.active() {
        return Err(DiscoveryError::AlreadyActive);
    }
    state.has_advert = true;
    state.has_server = true;
    state.local_port = port;
    Ok(port)
}

/// Stops a session: every handle that is present is scheduled for release
/// — the advertisement withdrawn, the tasks cancelled, both best effort —
/// and the state returns to idle.  Stopping never fails, and stopping an
/// idle session asks for no action at all.
pub fn stop_transition(state: &mut AppState) -> (a: StopActions)
    ensures
        *final(state) == state_after_stop(*old(state)),
        final(state).wf(),
        !final(state).is_active(),
        a == stop_actions_for(*old(state)),
{
    let a = StopActions { shutdown_advert: state.has_advert, abort_server: state.has_server };
    state.has_advert = false;
    state.has_server = false;
    state.local_port = 0;
    a
}

/// Stopping is idempotent: every stop lands in the idle state, and a stop
/// from the idle state — a second stop in a row, or a stop when discovery
/// was never started — performs no teardown action and changes nothing.
pub proof fn lemma_stop_idempotent(s: AppState)
    ensures
        state_after_stop(state_after_stop(s)) == state_after_stop(s),
        stop_actions_for(state_after_stop(s)) == (StopActions {
            shutdown_advert: false,
            abort_server: false,
        }),
        !state_after_stop(s).is_active(),
        state_after_stop(s).wf(),
{
}

} // verus!

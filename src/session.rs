use crate::errors::Error;
use crate::lease::Lease;
use crate::messages::{LeaseGrantRequest, LeaseKeepAliveRequest, LeaseKeepAliveResponse};
use crate::observers::{
    deliveries_to, fan_out, lemma_deliveries_to_append, lemma_fan_out_delivers_once, Notification,
    Subscribers,
};
use grpc::Error as GrpcError;
use vstd::prelude::*;

verus! {

/// The lease TTL, in seconds, of a session configured without one.
pub const DEFAULT_SESSION_TTL: i64 = 60;

/// How often, in seconds, a connected session renews its lease.
pub const KEEP_ALIVE_PERIOD_SECS: u64 = 1;

/// How long, in seconds, a machine waits before it terminates after a failure
/// that may be transient.
pub const FAILURE_TERMINATION_DELAY_SECS: u64 = 3;

/// Connectivity of a session, as published to its observers.
#[derive(Clone, Copy, Debug, PartialEq, Eq, Structural)]
pub enum SessionManagerState {
    Disconnected,
    Connecting,
    Connected { lease_id: i64 },
}

/// What the supervisor of a machine is asked to do after an event.
#[derive(Clone, Copy, Debug, PartialEq, Eq, Structural)]
pub enum Supervision {
    /// Keep running.
    Continue,
    /// Terminate once the delay has passed, so that a fresh instance replaces
    /// this one.
    TerminateAfter { delay_secs: u64 },
    /// Terminate at once.
    TerminateNow,
}

/// The outside work a session asks its driver to perform.
#[derive(Debug, PartialEq, Eq)]
pub enum SessionCommand {
    Nothing,
    /// Acquire a lease with this grant request and report the outcome to
    /// `lease_acquired`.
    AcquireLease(LeaseGrantRequest),
    /// Every `period_secs` seconds place the renewal that `keep_alive_tick`
    /// returns on the keep-alive stream of lease `lease_id`, and report what
    /// the stream yields.
    StartKeepAlive { lease_id: i64, period_secs: u64 },
    /// Cancel the periodic keep-alive timer.
    CancelKeepAlive,
    /// Hand the machine to its supervisor.
    Supervise(Supervision),
}

/// The result of one event: deliveries to observers, then one command.
#[derive(Debug, PartialEq, Eq)]
pub struct SessionStep {
    pub notifications: Vec<Notification<SessionManagerState>>,
    pub command: SessionCommand,
}

/// The abstract state of a session manager.
pub struct SessionModel {
    pub ttl: i64,
    pub lease: Option<Lease>,
    pub state: SessionManagerState,
    pub subscribers: Seq<u64>,
    pub keep_alive_scheduled: bool,
}

/// A supervised state machine that owns a lease and keeps it alive,
/// publishing its connectivity to observers.
pub struct SessionManager {
    ttl: i64,
    lease: Option<Lease>,
    state: SessionManagerState,
    state_subscribers: Subscribers,
    health_checks: bool,
}

impl View for SessionManager {
    type V = SessionModel;

    closed spec fn view(&self) -> SessionModel {
        SessionModel {
            ttl: self.ttl,
            lease: self.lease,
            state: self.state,
            subscribers: self.state_subscribers@,
            keep_alive_scheduled: self.health_checks,
        }
    }
}

/// A connected session holds the lease it reports, and renews exactly the
/// lease it holds.
pub open spec fn session_consistent(m: SessionModel) -> bool {
    &&& m.subscribers.no_duplicates()
    &&& (m.state matches SessionManagerState::Connected { lease_id } ==> m.lease matches Some(
        l,
    ) && l.lease_id == lease_id)
    &&& m.keep_alive_scheduled == m.lease.is_some()
    &&& m.lease.is_some() ==> m.state is Connected
}

/// `m` with its state replaced.
pub open spec fn with_state(m: SessionModel, state: SessionManagerState) -> SessionModel {
    SessionModel { state, ..m }
}

/// The session right after it was established with `lease`.
pub open spec fn established(m: SessionModel, lease: Lease) -> SessionModel {
    SessionModel {
        lease: Some(lease),
        keep_alive_scheduled: true,
        state: SessionManagerState::Connected { lease_id: lease.lease_id },
        ..m
    }
}

/// The session as its supervisor restarts it: no lease, no timer,
/// disconnected; configuration and observers kept.
pub open spec fn restarted(m: SessionModel) -> SessionModel {
    SessionModel {
        lease: None,
        keep_alive_scheduled: false,
        state: SessionManagerState::Disconnected,
        ..m
    }
}

/// What a keep-alive response asks of the supervisor: a TTL of 0 means the
/// lease is gone.
pub open spec fn on_keep_alive_ttl(ttl: i64) -> Supervision {
    if ttl == 0 {
        Supervision::TerminateNow
    } else {
        Supervision::Continue
    }
}

impl SessionManager {
    pub closed spec fn wf(&self) -> bool {
        &&& self.state_subscribers.wf()
        &&& session_consistent(self@)
    }

    /// A well-formed manager is consistent: it holds no observer twice and
    /// holds exactly the lease it reports and renews.
    pub proof fn lemma_wf_consistent(&self)
        requires
            self.wf(),
        ensures
            session_consistent(self@),
    {
    }

    /// A disconnected session that will ask for leases of `ttl` seconds, or
    /// of `DEFAULT_SESSION_TTL` when none is given.
    pub fn new(ttl: Option<i64>) -> (r: SessionManager)
        ensures
            r.wf(),
            r@.ttl == (match ttl {
                Some(t) => t,
                None => DEFAULT_SESSION_TTL,
            }),
            r@.lease.is_none(),
            r@.state == SessionManagerState::Disconnected,
            r@.subscribers == Seq::<u64>::empty(),
            !r@.keep_alive_scheduled,
    {
        let ttl = match ttl {
            Some(t) => t,
            None => DEFAULT_SESSION_TTL,
        };
        SessionManager {
            ttl,
            lease: None,
            state: SessionManagerState::Disconnected,
            state_subscribers: Subscribers::new(),
            health_checks: false,
        }
    }

    pub fn state(&self) -> (r: SessionManagerState)
        ensures
            r == self@.state,
    {
        self.state
    }

    pub fn ttl(&self) -> (r: i64)
        ensures
            r == self@.ttl,
    {
        self.ttl
    }

    pub fn lease(&self) -> (r: Option<Lease>)
        ensures
            r == self@.lease,
    {
        self.lease
    }

    pub fn keep_alive_scheduled(&self) -> (r: bool)
        ensures
            r == self@.keep_alive_scheduled,
    {
        self.health_checks
    }

    /// Registers an observer of state changes; registering it again changes
    /// nothing.
    pub fn subscribe(&mut self, subscriber: u64)
        requires
            old(self).wf(),
        ensures
            final(self).wf(),
            final(self)@ == (SessionModel {
                subscribers: if old(self)@.subscribers.contains(subscriber) {
                    old(self)@.subscribers
                } else {
                    old(self)@.subscribers.push(subscriber)
                },
                ..old(self)@
            }),
    {
        self.state_subscribers.insert(subscriber);
    }

    fn set_state(&mut self, state: SessionManagerState) -> (r: Vec<Notification<SessionManagerState>>)
        requires
            old(self).state_subscribers.wf(),
        ensures
            final(self).state_subscribers.wf(),
            final(self)@ == with_state(old(self)@, state),
            r@ == fan_out(old(self)@.subscribers, state),
    {
        self.state = state;
        self.state_subscribers.notify_all(state)
    }

    /// Starts establishing a session: only a disconnected session moves to
    /// `Connecting` and asks for a lease of its TTL; otherwise nothing
    /// happens.
    pub fn establish_session(&mut self) -> (r: SessionStep)
        requires
            old(self).wf(),
        ensures
            final(self).wf(),
            old(self)@.state is Disconnected ==> {
                &&& final(self)@ == with_state(old(self)@, SessionManagerState::Connecting)
                &&& r.notifications@ == fan_out(
                    old(self)@.subscribers,
                    SessionManagerState::Connecting,
                )
                &&& r.command matches SessionCommand::AcquireLease(req) && req.id == 0 && req.ttl
                    == old(self)@.ttl
            },
            !(old(self)@.state is Disconnected) ==> {
                &&& final(self)@ == old(self)@
                &&& r.notifications@.len() == 0
                &&& r.command is Nothing
            },
    {
        match self.state {
            SessionManagerState::Disconnected => {
                let notifications = self.set_state(SessionManagerState::Connecting);
                SessionStep {
                    notifications,
                    command: SessionCommand::AcquireLease(Lease::grant_request(0, self.ttl)),
                }
            },
            _ => SessionStep { notifications: Vec::new(), command: SessionCommand::Nothing },
        }
    }

    /// Takes the outcome of the acquisition that `establish_session` asked
    /// for, while the session is connecting: a failure leaves the state as it is and asks for a delayed
    /// termination; a lease establishes the session.
    pub fn lease_acquired(&mut self, result: Result<Lease, Error>) -> (r: SessionStep)
        requires
            old(self).wf(),
            old(self)@.state is Connecting,
        ensures
            final(self).wf(),
            result is Err ==> {
                &&& final(self)@ == old(self)@
                &&& r.notifications@.len() == 0
                &&& r.command == SessionCommand::Supervise(
                    Supervision::TerminateAfter { delay_secs: FAILURE_TERMINATION_DELAY_SECS },
                )
            },
            result matches Ok(lease) ==> {
                &&& final(self)@ == established(old(self)@, lease)
                &&& r.notifications@ == fan_out(
                    old(self)@.subscribers,
                    SessionManagerState::Connected { lease_id: lease.lease_id },
                )
                &&& r.command == (SessionCommand::StartKeepAlive {
                    lease_id: lease.lease_id,
                    period_secs: KEEP_ALIVE_PERIOD_SECS,
                })
            },
    {
        match result {
            Err(_) => SessionStep {
                notifications: Vec::new(),
                command: SessionCommand::Supervise(
                    Supervision::TerminateAfter { delay_secs: FAILURE_TERMINATION_DELAY_SECS },
                ),
            },
            Ok(lease) => self.session_established(lease),
        }
    }

    /// Records the lease acquired while connecting, schedules its renewal and
    /// reports the session as connected under the lease's identifier.
    pub fn session_established(&mut self, lease: Lease) -> (r: SessionStep)
        requires
            old(self).wf(),
            old(self)@.state is Connecting,
        ensures
            final(self).wf(),
            final(self)@ == established(old(self)@, lease),
            r.notifications@ == fan_out(
                old(self)@.subscribers,
                SessionManagerState::Connected { lease_id: lease.lease_id },
            ),
            r.command == (SessionCommand::StartKeepAlive {
                lease_id: lease.lease_id,
                period_secs: KEEP_ALIVE_PERIOD_SECS,
            }),
    {
        let lease_id = lease.lease_id;
        self.lease = Some(lease);
        self.health_checks = true;
        let notifications = self.set_state(SessionManagerState::Connected { lease_id });
        SessionStep {
            notifications,
            command: SessionCommand::StartKeepAlive {
                lease_id,
                period_secs: KEEP_ALIVE_PERIOD_SECS,
            },
        }
    }

    /// The renewal to send on a timer tick: one for the held lease, none when
    /// no lease is held.
    pub fn keep_alive_tick(&self) -> (r: Option<LeaseKeepAliveRequest>)
        ensures
            self@.lease matches Some(l) ==> r matches Some(req) && req.id == l.lease_id,
            self@.lease is None ==> r is None,
    {
        match &self.lease {
            Some(lease) => Some(lease.keep_alive_request()),
            None => None,
        }
    }

    /// A keep-alive response is read for its TTL alone: 0 means the server no
    /// longer holds the lease, which ends the session at once.
    pub fn keep_alive_response(&self, response: &LeaseKeepAliveResponse) -> (r: Supervision)
        ensures
            r == on_keep_alive_ttl(response.ttl),
    {
        if response.ttl == 0 {
            Supervision::TerminateNow
        } else {
            Supervision::Continue
        }
    }

    /// A failed keep-alive stream ends the session at once.
    pub fn keep_alive_error(&self, _err: GrpcError) -> (r: Supervision)
        ensures
            r == Supervision::TerminateNow,
    {
        Supervision::TerminateNow
    }

    /// A keep-alive stream that ends ends the session at once.
    pub fn keep_alive_finished(&self) -> (r: Supervision)
        ensures
            r == Supervision::TerminateNow,
    {
        Supervision::TerminateNow
    }

    /// Called by the supervisor before the machine starts again: cancels the
    /// renewal timer if one is scheduled, lets go of the lease and reports the
    /// session as disconnected. The driver then establishes a session anew.
    pub fn restarting(&mut self) -> (r: SessionStep)
        requires
            old(self).wf(),
        ensures
            final(self).wf(),
            final(self)@ == restarted(old(self)@),
            r.notifications@ == fan_out(
                old(self)@.subscribers,
                SessionManagerState::Disconnected,
            ),
            old(self)@.keep_alive_scheduled ==> r.command is CancelKeepAlive,
            !old(self)@.keep_alive_scheduled ==> r.command is Nothing,
    {
        let command = if self.health_checks {
            SessionCommand::CancelKeepAlive
        } else {
            SessionCommand::Nothing
        };
        self.health_checks = false;
        self.lease = None;
        let notifications = self.set_state(SessionManagerState::Disconnected);
        SessionStep { notifications, command }
    }
}

/// Observers registered before a disconnected session is established each
/// receive `Connecting` and then `Connected` with the acquired lease's
/// identifier, once each and in that order; an observer that is not
/// registered receives nothing.
pub proof fn lemma_observers_see_connecting_then_connected(m: SessionModel, lease: Lease, id: u64)
    requires
        session_consistent(m),
        m.state is Disconnected,
    ensures
        ({
            let connecting = with_state(m, SessionManagerState::Connecting);
            let first = fan_out(m.subscribers, SessionManagerState::Connecting);
            let second = fan_out(
                connecting.subscribers,
                SessionManagerState::Connected { lease_id: lease.lease_id },
            );
            deliveries_to(first + second, id) == if m.subscribers.contains(id) {
                seq![
                    SessionManagerState::Connecting,
                    SessionManagerState::Connected { lease_id: lease.lease_id },
                ]
            } else {
                Seq::<SessionManagerState>::empty()
            }
        }),
{
    let connected = SessionManagerState::Connected { lease_id: lease.lease_id };
    let first = fan_out(m.subscribers, SessionManagerState::Connecting);
    let second = fan_out(m.subscribers, connected);
    lemma_deliveries_to_append(first, second, id);
    lemma_fan_out_delivers_once(m.subscribers, SessionManagerState::Connecting, id);
    lemma_fan_out_delivers_once(m.subscribers, connected, id);
    if m.subscribers.contains(id) {
        assert(seq![SessionManagerState::Connecting] + seq![connected] =~= seq![
            SessionManagerState::Connecting,
            connected,
        ]);
    } else {
        assert(Seq::<SessionManagerState>::empty() + Seq::<SessionManagerState>::empty()
            =~= Seq::<SessionManagerState>::empty());
    }
}

/// Any transition of a well-formed session hands each registered observer
/// the new state exactly once, and nothing to anyone else.
pub proof fn lemma_session_transition_notifies_once(
    m: SessionModel,
    state: SessionManagerState,
    id: u64,
)
    requires
        session_consistent(m),
    ensures
        deliveries_to(fan_out(m.subscribers, state), id) == if m.subscribers.contains(id) {
            seq![state]
        } else {
            Seq::<SessionManagerState>::empty()
        },
{
    lemma_fan_out_delivers_once(m.subscribers, state, id);
}

} // verus!

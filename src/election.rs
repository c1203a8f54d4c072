use crate::messages::{CampaignRequest, CampaignResponse, LeaderKey};
use crate::observers::{
    deliveries_to, fan_out, lemma_fan_out_delivers_once, Notification, Subscribers,
};
use crate::session::{SessionManagerState, Supervision, FAILURE_TERMINATION_DELAY_SECS};
use grpc::Error as GrpcError;
use vstd::prelude::*;

verus! {

/// Progress of a candidate in its election, as published to its observers.
#[derive(Clone, Copy, Debug, PartialEq, Eq, Structural)]
pub enum ElectionState {
    Unelected,
    Campaigning,
    Elected,
}

/// The outside work a candidate asks its driver to perform.
#[derive(Debug, PartialEq, Eq)]
pub enum ElectionCommand {
    Nothing,
    /// Send this campaign request and report the outcome to
    /// `campaign_finished`.
    Campaign(CampaignRequest),
    /// Hand the machine to its supervisor.
    Supervise(Supervision),
}

/// The result of one event: deliveries to observers, then one command.
#[derive(Debug, PartialEq, Eq)]
pub struct ElectionStep {
    pub notifications: Vec<Notification<ElectionState>>,
    pub command: ElectionCommand,
}

/// The abstract state of a candidate.
pub struct CandidateModel {
    pub election_name: Seq<u8>,
    pub candidate_id: Seq<u8>,
    pub leader: Option<LeaderKey>,
    pub lease_id: Option<i64>,
    pub state: ElectionState,
    pub subscribers: Seq<u64>,
}

/// A supervised state machine that campaigns for leadership of a named
/// election under the lease of a session.
pub struct ElectionCandidate {
    election_name: Vec<u8>,
    candidate_id: Vec<u8>,
    leader: Option<LeaderKey>,
    lease_id: Option<i64>,
    state: ElectionState,
    state_subscribers: Subscribers,
}

impl View for ElectionCandidate {
    type V = CandidateModel;

    closed spec fn view(&self) -> CandidateModel {
        CandidateModel {
            election_name: self.election_name@,
            candidate_id: self.candidate_id@,
            leader: self.leader,
            lease_id: self.lease_id,
            state: self.state,
            subscribers: self.state_subscribers@,
        }
    }
}

/// No observer is registered twice, and a candidate that campaigns or leads
/// knows the lease it does so under.
pub open spec fn candidate_consistent(c: CandidateModel) -> bool {
    &&& c.subscribers.no_duplicates()
    &&& (c.state is Campaigning || c.state is Elected) ==> c.lease_id is Some
}

/// Any transition of a consistent candidate hands each registered observer
/// the new state exactly once, and nothing to anyone else.
pub proof fn lemma_candidate_transition_notifies_once(
    c: CandidateModel,
    state: ElectionState,
    id: u64,
)
    requires
        candidate_consistent(c),
    ensures
        deliveries_to(fan_out(c.subscribers, state), id) == if c.subscribers.contains(id) {
            seq![state]
        } else {
            Seq::<ElectionState>::empty()
        },
{
    lemma_fan_out_delivers_once(c.subscribers, state, id);
}

/// `c` with its state replaced.
pub open spec fn candidate_with_state(c: CandidateModel, state: ElectionState) -> CandidateModel {
    CandidateModel { state, ..c }
}

/// Whether starting a campaign from `c` sends a campaign request: only an
/// unelected candidate that knows its lease campaigns.
pub open spec fn campaign_starts(c: CandidateModel) -> bool {
    c.state is Unelected && c.lease_id is Some
}

/// The candidate after it was asked to start a campaign.
pub open spec fn after_start_campaigning(c: CandidateModel) -> CandidateModel {
    if campaign_starts(c) {
        candidate_with_state(c, ElectionState::Campaigning)
    } else {
        c
    }
}

/// The candidate after a session notification `msg`.
pub open spec fn after_session_state(c: CandidateModel, msg: SessionManagerState) -> CandidateModel {
    match msg {
        SessionManagerState::Connected { lease_id } => after_start_campaigning(
            CandidateModel { lease_id: Some(lease_id), ..c },
        ),
        _ => c,
    }
}

/// Whether session notification `msg` makes `c` send a campaign request.
pub open spec fn campaigns_on(c: CandidateModel, msg: SessionManagerState) -> bool {
    msg is Connected && c.state is Unelected
}

/// What session notification `msg` asks of the supervisor: losing the
/// session while campaigning or elected is fatal.
pub open spec fn supervision_on(c: CandidateModel, msg: SessionManagerState) -> Supervision {
    if msg is Disconnected && !(c.state is Unelected) {
        Supervision::TerminateNow
    } else {
        Supervision::Continue
    }
}

/// The candidate as its supervisor restarts it: no leader, no lease,
/// unelected; election, identity and observers kept.
pub open spec fn candidate_restarted(c: CandidateModel) -> CandidateModel {
    CandidateModel { leader: None, lease_id: None, state: ElectionState::Unelected, ..c }
}

/// The command of a step, read as a request to the supervisor.
pub open spec fn supervision_of(command: ElectionCommand) -> Supervision {
    match command {
        ElectionCommand::Supervise(s) => s,
        _ => Supervision::Continue,
    }
}

/// The candidate after the session notifications `msgs`, in order.
pub open spec fn after_session_states(c: CandidateModel, msgs: Seq<SessionManagerState>) -> CandidateModel
    decreases msgs.len(),
{
    if msgs.len() == 0 {
        c
    } else {
        after_session_states(after_session_state(c, msgs[0]), msgs.drop_first())
    }
}

/// How many campaign requests the notifications `msgs` make `c` send.
pub open spec fn campaign_count(c: CandidateModel, msgs: Seq<SessionManagerState>) -> nat
    decreases msgs.len(),
{
    if msgs.len() == 0 {
        0
    } else {
        (if campaigns_on(c, msgs[0]) {
            1nat
        } else {
            0nat
        }) + campaign_count(after_session_state(c, msgs[0]), msgs.drop_first())
    }
}

/// How many of the notifications `msgs` are `Connected`.
pub open spec fn connected_count(msgs: Seq<SessionManagerState>) -> nat
    decreases msgs.len(),
{
    if msgs.len() == 0 {
        0
    } else {
        (if msgs[0] is Connected {
            1nat
        } else {
            0nat
        }) + connected_count(msgs.drop_first())
    }
}

/// Session notifications never bring a candidate back to `Unelected`; only a
/// restart does.
pub proof fn lemma_session_states_never_unelect(c: CandidateModel, msgs: Seq<SessionManagerState>)
    requires
        !(c.state is Unelected),
    ensures
        !(after_session_states(c, msgs).state is Unelected),
        campaign_count(c, msgs) == 0,
    decreases msgs.len(),
{
    if msgs.len() > 0 {
        lemma_session_states_never_unelect(after_session_state(c, msgs[0]), msgs.drop_first());
    }
}

/// Whatever sequence of `Connecting`, `Connected` and `Disconnected`
/// notifications a candidate receives, it campaigns only on a `Connected`
/// received while unelected, and at most once: duplicate `Connected`
/// notifications do not start a second campaign.
pub proof fn lemma_campaigns_at_most_once(c: CandidateModel, msgs: Seq<SessionManagerState>)
    ensures
        campaign_count(c, msgs) <= 1,
        campaign_count(c, msgs) <= connected_count(msgs),
        !(c.state is Unelected) ==> campaign_count(c, msgs) == 0,
    decreases msgs.len(),
{
    if msgs.len() > 0 {
        let next = after_session_state(c, msgs[0]);
        lemma_campaigns_at_most_once(next, msgs.drop_first());
        if campaigns_on(c, msgs[0]) {
            lemma_session_states_never_unelect(next, msgs.drop_first());
        }
        if !(c.state is Unelected) {
            lemma_session_states_never_unelect(c, msgs);
        }
    }
}

/// A candidate that is campaigning or elected and loses its session is
/// terminated at once without changing state; the restart that follows
/// leaves it unelected, with no leader key and no lease.
pub proof fn lemma_disconnect_terminates(c: CandidateModel)
    requires
        c.state is Campaigning || c.state is Elected,
    ensures
        supervision_on(c, SessionManagerState::Disconnected) == Supervision::TerminateNow,
        !campaigns_on(c, SessionManagerState::Disconnected),
        after_session_state(c, SessionManagerState::Disconnected) == c,
        candidate_restarted(c).state == ElectionState::Unelected,
        candidate_restarted(c).leader is None,
        candidate_restarted(c).lease_id is None,
{
}

impl ElectionCandidate {
    pub closed spec fn wf(&self) -> bool {
        &&& self.state_subscribers.wf()
        &&& candidate_consistent(self@)
    }

    /// A well-formed candidate is consistent.
    pub proof fn lemma_wf_consistent(&self)
        requires
            self.wf(),
        ensures
            candidate_consistent(self@),
    {
    }

    /// An unelected candidate `candidate_id` of election `election_name`,
    /// with no lease yet.
    pub fn new(election_name: Vec<u8>, candidate_id: Vec<u8>) -> (r: ElectionCandidate)
        ensures
            r.wf(),
            r@ == (CandidateModel {
                election_name: election_name@,
                candidate_id: candidate_id@,
                leader: None,
                lease_id: None,
                state: ElectionState::Unelected,
                subscribers: Seq::<u64>::empty(),
            }),
    {
        ElectionCandidate {
            election_name,
            candidate_id,
            leader: None,
            lease_id: None,
            state: ElectionState::Unelected,
            state_subscribers: Subscribers::new(),
        }
    }

    pub fn state(&self) -> (r: ElectionState)
        ensures
            r == self@.state,
    {
        self.state
    }

    pub fn lease_id(&self) -> (r: Option<i64>)
        ensures
            r == self@.lease_id,
    {
        self.lease_id
    }

    pub fn leader(&self) -> (r: &Option<LeaderKey>)
        ensures
            *r == self@.leader,
    {
        &self.leader
    }

    /// Registers an observer of state changes; registering it again changes
    /// nothing.
    pub fn subscribe(&mut self, subscriber: u64)
        requires
            old(self).wf(),
        ensures
            final(self).wf(),
            final(self)@ == (CandidateModel {
                subscribers: if old(self)@.subscribers.contains(subscriber) {
                    old(self)@.subscribers
                } else {
                    old(self)@.subscribers.push(subscriber)
                },
                ..old(self)@
            }),
    {
        self.state_subscribers.insert(subscriber);
    }

    fn set_state(&mut self, state: ElectionState) -> (r: Vec<Notification<ElectionState>>)
        requires
            old(self).state_subscribers.wf(),
        ensures
            final(self).state_subscribers.wf(),
            final(self)@ == candidate_with_state(old(self)@, state),
            r@ == fan_out(old(self)@.subscribers, state),
    {
        self.state = state;
        self.state_subscribers.notify_all(state)
    }

    /// Starts a campaign: an unelected candidate, which must know its lease,
    /// moves to `Campaigning` and asks for one campaign request naming the
    /// election, itself and the lease. A candidate already campaigning or
    /// elected stays as it is.
    pub fn start_campaigning(&mut self) -> (r: ElectionStep)
        requires
            old(self).wf(),
            old(self)@.state is Unelected ==> old(self)@.lease_id is Some,
        ensures
            final(self).wf(),
            final(self)@ == after_start_campaigning(old(self)@),
            campaign_starts(old(self)@) ==> {
                &&& r.notifications@ == fan_out(
                    old(self)@.subscribers,
                    ElectionState::Campaigning,
                )
                &&& r.command matches ElectionCommand::Campaign(req) && req.name@
                    == old(self)@.election_name && req.value@ == old(self)@.candidate_id
                    && Some(req.lease) == old(self)@.lease_id
            },
            !campaign_starts(old(self)@) ==> r.notifications@.len() == 0 && r.command is Nothing,
    {
        match (self.state, self.lease_id) {
            (ElectionState::Unelected, Some(lease)) => {
                let notifications = self.set_state(ElectionState::Campaigning);
                let request = CampaignRequest {
                    name: self.election_name.clone(),
                    value: self.candidate_id.clone(),
                    lease,
                };
                ElectionStep { notifications, command: ElectionCommand::Campaign(request) }
            },
            _ => ElectionStep { notifications: Vec::new(), command: ElectionCommand::Nothing },
        }
    }

    /// Takes the outcome of the campaign request of a campaigning candidate:
    /// the granted leader key makes the candidate elected; a failure leaves it
    /// as it is and asks for a delayed termination.
    pub fn campaign_finished(&mut self, reply: Result<CampaignResponse, GrpcError>) -> (r:
        ElectionStep)
        requires
            old(self).wf(),
            old(self)@.state is Campaigning,
        ensures
            final(self).wf(),
            reply matches Ok(response) ==> {
                &&& final(self)@ == (CandidateModel {
                    leader: response.leader,
                    state: ElectionState::Elected,
                    ..old(self)@
                })
                &&& r.notifications@ == fan_out(old(self)@.subscribers, ElectionState::Elected)
                &&& r.command is Nothing
            },
            reply is Err ==> {
                &&& final(self)@ == old(self)@
                &&& r.notifications@.len() == 0
                &&& r.command == ElectionCommand::Supervise(
                    Supervision::TerminateAfter { delay_secs: FAILURE_TERMINATION_DELAY_SECS },
                )
            },
    {
        match reply {
            Ok(response) => self.elected(response.leader),
            Err(_) => ElectionStep {
                notifications: Vec::new(),
                command: ElectionCommand::Supervise(
                    Supervision::TerminateAfter { delay_secs: FAILURE_TERMINATION_DELAY_SECS },
                ),
            },
        }
    }

    /// Records the leader key granted to a campaigning candidate and reports
    /// it as elected.
    pub fn elected(&mut self, leader: Option<LeaderKey>) -> (r: ElectionStep)
        requires
            old(self).wf(),
            old(self)@.state is Campaigning,
        ensures
            final(self).wf(),
            final(self)@ == (CandidateModel {
                leader,
                state: ElectionState::Elected,
                ..old(self)@
            }),
            r.notifications@ == fan_out(old(self)@.subscribers, ElectionState::Elected),
            r.command is Nothing,
    {
        self.leader = leader;
        let notifications = self.set_state(ElectionState::Elected);
        ElectionStep { notifications, command: ElectionCommand::Nothing }
    }

    /// Reacts to a notification of the session the candidate depends on:
    /// `Connecting` changes nothing; `Connected` records the lease and starts
    /// a campaign; `Disconnected` ends a campaign or a leadership at once.
    pub fn session_state_changed(&mut self, msg: SessionManagerState) -> (r: ElectionStep)
        requires
            old(self).wf(),
        ensures
            final(self).wf(),
            final(self)@ == after_session_state(old(self)@, msg),
            supervision_of(r.command) == supervision_on(old(self)@, msg),
            (r.command is Campaign) == campaigns_on(old(self)@, msg),
            !campaigns_on(old(self)@, msg) && supervision_on(old(self)@, msg)
                == Supervision::Continue ==> r.command is Nothing,
            r.command matches ElectionCommand::Campaign(req) ==> req.name@
                == old(self)@.election_name && req.value@ == old(self)@.candidate_id
                && msg == (SessionManagerState::Connected { lease_id: req.lease }),
            campaigns_on(old(self)@, msg) ==> r.notifications@ == fan_out(
                old(self)@.subscribers,
                ElectionState::Campaigning,
            ),
            !campaigns_on(old(self)@, msg) ==> r.notifications@.len() == 0,
    {
        match msg {
            SessionManagerState::Connecting => ElectionStep {
                notifications: Vec::new(),
                command: ElectionCommand::Nothing,
            },
            SessionManagerState::Disconnected => {
                let command = match self.state {
                    ElectionState::Unelected => ElectionCommand::Nothing,
                    _ => ElectionCommand::Supervise(Supervision::TerminateNow),
                };
                ElectionStep { notifications: Vec::new(), command }
            },
            SessionManagerState::Connected { lease_id } => {
                self.lease_id = Some(lease_id);
                self.start_campaigning()
            },
        }
    }

    /// Called by the supervisor before the machine starts again: forgets the
    /// leader key and the lease and reports the candidate as unelected.
    pub fn restarting(&mut self) -> (r: ElectionStep)
        requires
            old(self).wf(),
        ensures
            final(self).wf(),
            final(self)@ == candidate_restarted(old(self)@),
            r.notifications@ == fan_out(old(self)@.subscribers, ElectionState::Unelected),
            r.command is Nothing,
    {
        self.leader = None;
        self.lease_id = None;
        let notifications = self.set_state(ElectionState::Unelected);
        ElectionStep { notifications, command: ElectionCommand::Nothing }
    }
}

} // verus!

use etcd_concurrency::{
    CampaignRequest, CampaignResponse, ElectionCandidate, ElectionCommand, ElectionState,
    LeaderKey, Notification, SessionManagerState, Supervision,
};

fn leader_key() -> LeaderKey {
    LeaderKey { name: b"jobs".to_vec(), key: b"jobs/694d".to_vec(), rev: 12, lease: 31 }
}

fn campaigning(subscribers: &[u64]) -> ElectionCandidate {
    let mut c = ElectionCandidate::new(b"jobs".to_vec(), b"node-a".to_vec());
    for s in subscribers {
        c.subscribe(*s);
    }
    c.session_state_changed(SessionManagerState::Connected { lease_id: 31 });
    c
}

#[test]
fn connected_session_starts_one_campaign() {
    let mut c = ElectionCandidate::new(b"jobs".to_vec(), b"node-a".to_vec());
    c.subscribe(1);
    assert_eq!(c.state(), ElectionState::Unelected);
    let step = c.session_state_changed(SessionManagerState::Connected { lease_id: 31 });
    assert_eq!(
        step.command,
        ElectionCommand::Campaign(CampaignRequest {
            name: b"jobs".to_vec(),
            value: b"node-a".to_vec(),
            lease: 31,
        })
    );
    assert_eq!(
        step.notifications,
        vec![Notification { subscriber: 1, state: ElectionState::Campaigning }]
    );
    assert_eq!(c.state(), ElectionState::Campaigning);
    assert_eq!(c.lease_id(), Some(31));
}

#[test]
fn duplicate_connected_does_not_campaign_again() {
    let mut c = campaigning(&[]);
    let again = c.session_state_changed(SessionManagerState::Connected { lease_id: 31 });
    assert_eq!(again.command, ElectionCommand::Nothing);
    assert!(again.notifications.is_empty());
    assert_eq!(c.state(), ElectionState::Campaigning);
    assert_eq!(c.start_campaigning().command, ElectionCommand::Nothing);
}

#[test]
fn campaign_reply_elects_with_returned_leader() {
    let mut c = campaigning(&[2, 3]);
    let step = c.campaign_finished(Ok(CampaignResponse { leader: Some(leader_key()) }));
    assert_eq!(c.state(), ElectionState::Elected);
    assert_eq!(c.leader(), &Some(leader_key()));
    assert_eq!(step.command, ElectionCommand::Nothing);
    assert_eq!(
        step.notifications,
        vec![
            Notification { subscriber: 2, state: ElectionState::Elected },
            Notification { subscriber: 3, state: ElectionState::Elected },
        ]
    );
}

#[test]
fn campaign_failure_terminates_after_delay() {
    let mut c = campaigning(&[2]);
    let step = c.campaign_finished(Err(grpc::Error::Other("unavailable")));
    assert_eq!(step.command, ElectionCommand::Supervise(Supervision::TerminateAfter { delay_secs: 3 }));
    assert!(step.notifications.is_empty());
    assert_eq!(c.state(), ElectionState::Campaigning);
}

#[test]
fn disconnect_while_campaigning_or_elected_terminates_now() {
    let mut c = campaigning(&[]);
    let step = c.session_state_changed(SessionManagerState::Disconnected);
    assert_eq!(step.command, ElectionCommand::Supervise(Supervision::TerminateNow));

    let mut c = campaigning(&[]);
    c.elected(Some(leader_key()));
    let step = c.session_state_changed(SessionManagerState::Disconnected);
    assert_eq!(step.command, ElectionCommand::Supervise(Supervision::TerminateNow));
    assert_eq!(c.state(), ElectionState::Elected);

    let restart = c.restarting();
    assert_eq!(c.state(), ElectionState::Unelected);
    assert_eq!(c.leader(), &None);
    assert_eq!(c.lease_id(), None);
    assert_eq!(restart.command, ElectionCommand::Nothing);
}

#[test]
fn disconnect_or_connecting_while_unelected_does_nothing() {
    let mut c = ElectionCandidate::new(b"jobs".to_vec(), b"node-a".to_vec());
    c.subscribe(5);
    for msg in [SessionManagerState::Disconnected, SessionManagerState::Connecting] {
        let step = c.session_state_changed(msg);
        assert_eq!(step.command, ElectionCommand::Nothing);
        assert!(step.notifications.is_empty());
        assert_eq!(c.state(), ElectionState::Unelected);
    }
}

#[test]
fn restart_notifies_unelected_and_allows_a_new_campaign() {
    let mut c = campaigning(&[9]);
    let step = c.restarting();
    assert_eq!(
        step.notifications,
        vec![Notification { subscriber: 9, state: ElectionState::Unelected }]
    );
    let step = c.session_state_changed(SessionManagerState::Connected { lease_id: 40 });
    assert_eq!(
        step.command,
        ElectionCommand::Campaign(CampaignRequest {
            name: b"jobs".to_vec(),
            value: b"node-a".to_vec(),
            lease: 40,
        })
    );
}

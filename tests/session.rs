use etcd_concurrency::{
    Error, Lease, LeaseGrantRequest, LeaseGrantResponse, LeaseKeepAliveRequest,
    LeaseKeepAliveResponse, Notification, SessionCommand, SessionManager, SessionManagerState,
    Supervision,
};

fn granted(id: i64, ttl: i64) -> Result<Lease, Error> {
    Lease::new(Ok(LeaseGrantResponse { id, ttl, error: String::new() }))
}

fn connected(subscribers: &[u64], lease_id: i64) -> SessionManager {
    let mut session = SessionManager::new(None);
    for s in subscribers {
        session.subscribe(*s);
    }
    session.establish_session();
    session.lease_acquired(granted(lease_id, 60));
    session
}

#[test]
fn default_session_acquires_sixty_seconds_and_renews_its_lease() {
    let mut session = SessionManager::new(None);
    assert_eq!(session.ttl(), 60);
    assert_eq!(session.state(), SessionManagerState::Disconnected);

    let step = session.establish_session();
    assert_eq!(step.command, SessionCommand::AcquireLease(LeaseGrantRequest { id: 0, ttl: 60 }));
    assert_eq!(session.state(), SessionManagerState::Connecting);

    let step = session.lease_acquired(granted(77, 60));
    assert_eq!(session.state(), SessionManagerState::Connected { lease_id: 77 });
    assert_eq!(step.command, SessionCommand::StartKeepAlive { lease_id: 77, period_secs: 1 });
    assert!(session.keep_alive_scheduled());
    assert_eq!(session.keep_alive_tick(), Some(LeaseKeepAliveRequest { id: 77 }));
    assert_eq!(session.keep_alive_tick(), Some(LeaseKeepAliveRequest { id: 77 }));
}

#[test]
fn configured_ttl_is_requested() {
    let mut session = SessionManager::new(Some(15));
    let step = session.establish_session();
    assert_eq!(step.command, SessionCommand::AcquireLease(LeaseGrantRequest { id: 0, ttl: 15 }));
}

#[test]
fn zero_ttl_keep_alive_terminates_immediately() {
    let session = connected(&[], 5);
    let r = session.keep_alive_response(&LeaseKeepAliveResponse { id: 5, ttl: 0 });
    assert_eq!(r, Supervision::TerminateNow);
}

#[test]
fn positive_ttl_keep_alive_continues() {
    let session = connected(&[], 5);
    let r = session.keep_alive_response(&LeaseKeepAliveResponse { id: 5, ttl: 42 });
    assert_eq!(r, Supervision::Continue);
}

#[test]
fn keep_alive_stream_error_or_end_terminates_immediately() {
    let session = connected(&[], 5);
    assert_eq!(session.keep_alive_error(grpc::Error::Other("reset")), Supervision::TerminateNow);
    assert_eq!(session.keep_alive_finished(), Supervision::TerminateNow);
}

#[test]
fn two_observers_see_connecting_then_connected() {
    let mut session = SessionManager::new(None);
    session.subscribe(1);
    session.subscribe(2);
    let first = session.establish_session();
    assert_eq!(
        first.notifications,
        vec![
            Notification { subscriber: 1, state: SessionManagerState::Connecting },
            Notification { subscriber: 2, state: SessionManagerState::Connecting },
        ]
    );
    let second = session.lease_acquired(granted(9, 60));
    assert_eq!(
        second.notifications,
        vec![
            Notification { subscriber: 1, state: SessionManagerState::Connected { lease_id: 9 } },
            Notification { subscriber: 2, state: SessionManagerState::Connected { lease_id: 9 } },
        ]
    );
}

#[test]
fn one_transition_notifies_each_observer_once() {
    let mut session = SessionManager::new(None);
    for s in [4u64, 8, 15, 16, 23] {
        session.subscribe(s);
    }
    session.subscribe(8);
    let step = session.establish_session();
    assert_eq!(step.notifications.len(), 5);
    for s in [4u64, 8, 15, 16, 23] {
        let n = step.notifications.iter().filter(|n| n.subscriber == s).count();
        assert_eq!(n, 1);
    }
    assert!(step.notifications.iter().all(|n| n.state == SessionManagerState::Connecting));
}

#[test]
fn establishing_twice_is_ignored() {
    let mut session = SessionManager::new(None);
    session.subscribe(1);
    session.establish_session();
    let again = session.establish_session();
    assert_eq!(again.command, SessionCommand::Nothing);
    assert!(again.notifications.is_empty());
    assert_eq!(session.state(), SessionManagerState::Connecting);

    let mut session = connected(&[1], 3);
    let again = session.establish_session();
    assert_eq!(again.command, SessionCommand::Nothing);
    assert_eq!(session.state(), SessionManagerState::Connected { lease_id: 3 });
}

#[test]
fn failed_acquisition_terminates_after_delay() {
    let mut session = SessionManager::new(None);
    session.establish_session();
    let failed = Lease::new(Ok(LeaseGrantResponse { id: 0, ttl: 0, error: "too many".to_string() }));
    let step = session.lease_acquired(failed);
    assert_eq!(step.command, SessionCommand::Supervise(Supervision::TerminateAfter { delay_secs: 3 }));
    assert!(step.notifications.is_empty());
    assert_eq!(session.state(), SessionManagerState::Connecting);
    assert_eq!(session.lease(), None);

    let mut session = SessionManager::new(None);
    session.establish_session();
    let step = session.lease_acquired(Lease::new(Err(grpc::Error::Other("down"))));
    assert_eq!(step.command, SessionCommand::Supervise(Supervision::TerminateAfter { delay_secs: 3 }));
}

#[test]
fn restart_cancels_renewal_and_disconnects() {
    let mut session = connected(&[7], 11);
    let step = session.restarting();
    assert_eq!(step.command, SessionCommand::CancelKeepAlive);
    assert_eq!(
        step.notifications,
        vec![Notification { subscriber: 7, state: SessionManagerState::Disconnected }]
    );
    assert_eq!(session.state(), SessionManagerState::Disconnected);
    assert_eq!(session.lease(), None);
    assert!(!session.keep_alive_scheduled());
    assert_eq!(session.keep_alive_tick(), None);

    let again = session.establish_session();
    assert_eq!(again.command, SessionCommand::AcquireLease(LeaseGrantRequest { id: 0, ttl: 60 }));
}

#[test]
fn restart_before_connecting_cancels_nothing() {
    let mut session = SessionManager::new(None);
    session.establish_session();
    let step = session.restarting();
    assert_eq!(step.command, SessionCommand::Nothing);
    assert_eq!(session.state(), SessionManagerState::Disconnected);
}

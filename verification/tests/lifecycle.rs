use deadpool_ldap::errors::ConnError;
use deadpool_ldap::lifecycle::ConnState;
use deadpool_ldap::lifecycle::ConnectEvent;
use deadpool_ldap::lifecycle::ProbeEvent;
use deadpool_ldap::Manager;

#[test]
fn create_success_hands_out_running_driver() {
    let manager = Manager::new("ldap://localhost");
    let conn = manager.create(ConnectEvent::Established).unwrap();
    assert!(conn.transport_open);
    assert!(conn.driver_running);
}

#[test]
fn create_timeout_yields_timeout_error() {
    let manager = Manager::new("ldap://localhost");
    assert_eq!(
        manager.create(ConnectEvent::TimedOut),
        Err(ConnError::Timeout)
    );
}

#[test]
fn create_transport_failure_yields_transport_error() {
    let manager = Manager::new("ldap://localhost");
    assert_eq!(
        manager.create(ConnectEvent::TransportFailed),
        Err(ConnError::Transport)
    );
}

#[test]
fn create_rejection_yields_protocol_error() {
    let manager = Manager::new("ldap://localhost");
    assert_eq!(
        manager.create(ConnectEvent::Rejected),
        Err(ConnError::Protocol)
    );
}

#[test]
fn fresh_connection_probes_healthy_twice() {
    let manager = Manager::new("ldap://localhost");
    let conn = manager.create(ConnectEvent::Established).unwrap();

    let first = conn.probe();
    assert_eq!(first, ProbeEvent::Response);
    assert_eq!(manager.recycle(first), Ok(()));

    let second = conn.probe();
    assert_eq!(second, ProbeEvent::Response);
    assert_eq!(manager.recycle(second), Ok(()));
}

#[test]
fn closed_transport_probe_discards_connection() {
    let manager = Manager::new("ldap://localhost");
    let mut conn = manager.create(ConnectEvent::Established).unwrap();

    conn.close();
    assert!(!conn.driver_running);

    let probed = conn.probe();
    assert_eq!(probed, ProbeEvent::Closed);
    assert_eq!(manager.recycle(probed), Err(ConnError::Transport));
}

#[test]
fn recycle_probe_timeout_yields_timeout_error() {
    let manager = Manager::new("ldap://localhost");
    assert_eq!(manager.recycle(ProbeEvent::TimedOut), Err(ConnError::Timeout));
}

#[test]
fn recycle_rejection_yields_protocol_error() {
    let manager = Manager::new("ldap://localhost");
    assert_eq!(
        manager.recycle(ProbeEvent::Rejected),
        Err(ConnError::Protocol)
    );
}

#[test]
fn distinct_slots_do_not_share_state() {
    let manager = Manager::new("ldap://localhost");
    let mut conns: Vec<ConnState> = (0..4)
        .map(|_| manager.create(ConnectEvent::Established).unwrap())
        .collect();

    conns[1].close();

    assert_eq!(manager.recycle(conns[0].probe()), Ok(()));
    assert_eq!(
        manager.recycle(conns[1].probe()),
        Err(ConnError::Transport)
    );
    assert_eq!(manager.recycle(conns[2].probe()), Ok(()));
    assert_eq!(manager.recycle(conns[3].probe()), Ok(()));
}

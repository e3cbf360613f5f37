use datatool::manager::{PostgresError, PostgresManager};

#[test]
fn fresh_manager_is_disconnected() {
    let mgr = PostgresManager::new();
    assert!(mgr.get_connection_id().is_none());
    assert!(matches!(mgr.check_connected(), Err(PostgresError::NoActiveConnection)));
}

#[test]
fn connect_then_disconnect_clears_identity() {
    let mut mgr = PostgresManager::new();
    let had = mgr.disconnect();
    assert!(!had);
    mgr.connect("conn-a");
    assert_eq!(mgr.get_connection_id().as_deref(), Some("conn-a"));
    assert!(mgr.check_connected().is_ok());
    let had = mgr.disconnect();
    assert!(had);
    assert!(mgr.get_connection_id().is_none());
    assert!(matches!(mgr.check_connected(), Err(PostgresError::NoActiveConnection)));
    // disconnecting again is a no-op
    let had = mgr.disconnect();
    assert!(!had);
    assert!(mgr.get_connection_id().is_none());
}

#[test]
fn reconnect_leaves_exactly_the_second_identity() {
    let mut mgr = PostgresManager::new();
    mgr.disconnect();
    mgr.connect("conn-a");
    // a new connect closes the old pool first
    let had = mgr.disconnect();
    assert!(had);
    mgr.connect("conn-b");
    assert_eq!(mgr.get_connection_id().as_deref(), Some("conn-b"));
    assert!(mgr.check_connected().is_ok());
}

#[test]
fn connection_test_maps_outcomes() {
    let mut mgr = PostgresManager::new();
    assert!(matches!(
        mgr.test_connection(Ok(())),
        Err(PostgresError::NoActiveConnection)
    ));
    mgr.connect("conn-a");
    assert!(matches!(mgr.test_connection(Ok(())), Ok(true)));
    match mgr.test_connection(Err(String::from("socket closed"))) {
        Err(PostgresError::QueryFailed(m)) => assert_eq!(m, "socket closed"),
        other => panic!("expected a query failure, got {:?}", other),
    }
}

#[test]
fn error_messages_render_like_the_user_sees_them() {
    assert_eq!(
        PostgresError::ConnectionFailed(String::from("refused")).message(),
        "Connection failed: refused"
    );
    assert_eq!(
        PostgresError::QueryFailed(String::from("syntax error")).message(),
        "Query execution failed: syntax error"
    );
    assert_eq!(PostgresError::NoActiveConnection.message(), "No active connection");
    assert_eq!(PostgresError::Sqlx(String::from("io")).message(), "SQLx error: io");
}

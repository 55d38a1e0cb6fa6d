//! The connection state machine: token bookkeeping, the broken flag, and
//! the single-changefeed lock.

use unreql::{r, Driver, Error, QueryKind, Session};

#[test]
fn two_connections_get_distinct_tokens() {
    let mut session = Session::new("test".to_string());
    let a = session.connection().unwrap();
    let b = session.connection().unwrap();
    assert_ne!(a.token(), b.token());
    assert!(session.is_registered(a.token()));
    assert!(session.is_registered(b.token()));
    assert_eq!(session.token_count(), 2);
}

#[test]
fn dropping_a_connection_unregisters_its_token() {
    let mut session = Session::new("test".to_string());
    let a = session.connection().unwrap();
    let b = session.connection().unwrap();
    let a_token = a.token();
    session.drop_connection(a);
    assert!(!session.is_registered(a_token));
    assert!(session.is_registered(b.token()));
    assert_eq!(session.token_count(), 1);
    session.drop_connection(b);
    assert_eq!(session.token_count(), 0);
}

#[test]
fn changefeed_locks_the_session() {
    let mut session = Session::new("test".to_string());
    let feed = r.table("games").changes(());
    assert!(feed.change_feed());
    let conn = session.start_query(feed.change_feed()).unwrap();
    assert!(session.is_change_feed());
    match session.connection() {
        Err(Error::Driver(Driver::ConnectionLocked)) => {}
        _ => panic!("acquiring a connection while a changefeed is live must fail"),
    }
    session.drop_connection(conn);
    assert!(!session.is_change_feed());
    assert!(session.connection().is_ok());
}

#[test]
fn ordinary_queries_do_not_lock() {
    let mut session = Session::new("test".to_string());
    let query = r.table("games").get(1);
    assert!(!query.change_feed());
    let _a = session.start_query(query.change_feed()).unwrap();
    assert!(!session.is_change_feed());
    assert!(session.connection().is_ok());
}

#[test]
fn broken_session_fails_fast() {
    let mut session = Session::new("test".to_string());
    session.mark_broken();
    assert!(session.is_broken());
    match session.connection() {
        Err(Error::Driver(Driver::ConnectionBroken)) => {}
        _ => panic!("a broken session must refuse connections"),
    }
}

#[test]
fn close_is_a_no_op_without_a_changefeed() {
    let mut session = Session::new("test".to_string());
    let mut conn = session.connection().unwrap();
    let action = session.close_connection(&mut conn, false);
    assert!(action.is_none());
    assert!(!conn.closed());
}

#[test]
fn close_of_a_changefeed_sends_stop_then_releases_the_lock() {
    let mut session = Session::new("test".to_string());
    let mut conn = session.start_query(true).unwrap();
    assert!(session.is_change_feed());
    let payload = session.close_connection(&mut conn, false).unwrap();
    assert_eq!(payload.query_type, QueryKind::Stop);
    assert!(conn.closed());
    // The lock is still held: it is released only once the stop round-trip
    // succeeded.
    assert!(session.is_change_feed());
    assert_eq!(
        payload.to_wire_string().unwrap(),
        r#"[3,{"noreply":false},{}]"#
    );
    session.unmark_change_feed();
    assert!(!session.is_change_feed());
    assert!(session.connection().is_ok());
    let payload = unreql::session::noreply_wait_payload();
    assert_eq!(payload.to_wire_string().unwrap(), r#"[4]"#);
    let payload = unreql::session::server_info_payload();
    assert_eq!(payload.to_wire_string().unwrap(), r#"[5]"#);
}

#[test]
fn failed_close_keeps_the_lock_until_drop() {
    let mut session = Session::new("test".to_string());
    let mut conn = session.start_query(true).unwrap();
    let _payload = session.close_connection(&mut conn, true).unwrap();
    // The stop round-trip failed: the caller never confirms, so the lock
    // stays held until the connection is torn down.
    assert!(session.is_change_feed());
    match session.connection() {
        Err(Error::Driver(Driver::ConnectionLocked)) => {}
        _ => panic!("the lock must still be held after a failed close"),
    }
    session.drop_connection(conn);
    assert!(!session.is_change_feed());
    assert!(session.connection().is_ok());
}

#[test]
fn close_waiting_for_noreply_sends_a_bare_stop() {
    let mut session = Session::new("test".to_string());
    let mut conn = session.start_query(true).unwrap();
    let payload = session.close_connection(&mut conn, true).unwrap();
    assert_eq!(payload.query_type, QueryKind::Stop);
    assert!(payload.term.is_none());
    assert_eq!(payload.to_wire_string().unwrap(), r#"[3]"#);
    session.unmark_change_feed();
}

#[test]
fn use_changes_the_default_database() {
    let mut session = Session::new("test".to_string());
    session.use_("marvel".to_string());
    assert_eq!(session.db(), "marvel");
}

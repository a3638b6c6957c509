use reactor_core::{
    is_transient, plan_dispatch, scratch_buffer, ActiveConnection, Core, CrustMsg, DispatchPlan,
    EventSet, IoErrorKind, Token, SCRATCH_BUFFER_LEN,
};

fn quiet() -> EventSet {
    EventSet { error: false, hup: false, readable: false, writable: false }
}

#[test]
fn construction_binds_handle_and_reports_the_peer() {
    let mut core: Core<u8> = Core::new();
    let context = core.get_new_context();
    let conn = ActiveConnection::new(&mut core, context);
    assert_eq!(conn.context(), context);
    assert_eq!(core.get_context(&conn.token()), Some(&context));
    assert!(!conn.wants_write());
    assert_eq!(
        conn.new_connection_msg(),
        CrustMsg::NewConnection(conn.peer_id())
    );
    assert_eq!(conn.lost_peer_msg(), CrustMsg::LostPeer(conn.peer_id()));
}

#[test]
fn each_connection_gets_a_fresh_handle() {
    let mut core: Core<u8> = Core::new();
    let c1 = core.get_new_context();
    let conn1 = ActiveConnection::new(&mut core, c1);
    let c2 = core.get_new_context();
    let conn2 = ActiveConnection::new(&mut core, c2);
    assert_ne!(conn1.token(), conn2.token());
    assert!(conn1.token().0 < conn2.token().0);
    assert_eq!(core.get_context(&conn1.token()), Some(&c1));
    assert_eq!(core.get_context(&conn2.token()), Some(&c2));
}

#[test]
fn readable_dispatch_delivers_hello() {
    let mut core: Core<u8> = Core::new();
    let context = core.get_new_context();
    let conn = ActiveConnection::new(&mut core, context);

    // The peer side wrote b"hello"; the event loop read it into the scratch
    // buffer and saw five bytes.
    let mut buf = scratch_buffer();
    assert_eq!(buf.len(), SCRATCH_BUFFER_LEN);
    buf[..5].copy_from_slice(b"hello");

    let plan = plan_dispatch(EventSet { readable: true, ..quiet() });
    assert_eq!(plan, DispatchPlan::Io { read: true, write: false });

    let msg = conn.on_read_result(buf, 5);
    assert_eq!(msg, Some(CrustMsg::NewMessage(conn.peer_id(), b"hello".to_vec())));
}

#[test]
fn zero_byte_read_is_peer_closed_not_a_message() {
    let mut core: Core<u8> = Core::new();
    let context = core.get_new_context();
    let conn = ActiveConnection::new(&mut core, context);
    let buf = scratch_buffer();
    assert_eq!(conn.on_read_result(buf, 0), None);
}

#[test]
fn partial_writes_deliver_all_bytes_in_order() {
    let mut core: Core<u8> = Core::new();
    let context = core.get_new_context();
    let mut conn = ActiveConnection::new(&mut core, context);

    conn.enqueue_write(b"0123456789".to_vec());
    assert!(conn.wants_write());

    // The socket accepts at most 4 bytes per write call.
    let mut received: Vec<u8> = Vec::new();
    let mut drains: usize = 0;
    loop {
        let chunk = match conn.front_write() {
            Some(chunk) => chunk.clone(),
            None => break,
        };
        let accepted = chunk.len().min(4);
        received.extend_from_slice(&chunk[..accepted]);
        let deregister = conn.on_write_result(accepted);
        drains += 1;
        if deregister {
            break;
        }
    }

    assert_eq!(drains, 3);
    assert_eq!(received, b"0123456789".to_vec());
    assert!(!conn.wants_write());
    assert!(conn.front_write().is_none());
}

#[test]
fn interleaved_enqueues_keep_submission_order() {
    let mut core: Core<u8> = Core::new();
    let context = core.get_new_context();
    let mut conn = ActiveConnection::new(&mut core, context);

    conn.enqueue_write(b"abc".to_vec());
    let mut received: Vec<u8> = Vec::new();

    // First drain accepts only two bytes, then more data arrives.
    let chunk = conn.front_write().unwrap().clone();
    let accepted = chunk.len().min(2);
    received.extend_from_slice(&chunk[..accepted]);
    assert!(!conn.on_write_result(accepted));

    conn.enqueue_write(b"de".to_vec());

    while let Some(chunk) = conn.front_write() {
        let chunk = chunk.clone();
        received.extend_from_slice(&chunk);
        conn.on_write_result(chunk.len());
    }

    assert_eq!(received, b"abcde".to_vec());
    assert!(!conn.wants_write());
}

#[test]
fn full_write_with_pending_chunks_keeps_interest() {
    let mut core: Core<u8> = Core::new();
    let context = core.get_new_context();
    let mut conn = ActiveConnection::new(&mut core, context);
    conn.enqueue_write(b"one".to_vec());
    conn.enqueue_write(b"two".to_vec());
    let chunk = conn.front_write().unwrap().clone();
    let deregister = conn.on_write_result(chunk.len());
    assert!(!deregister);
    assert!(conn.wants_write());
    assert_eq!(conn.front_write().unwrap(), &b"two".to_vec());
}

#[test]
fn hang_up_removes_the_session_and_stales_the_handle() {
    let mut core: Core<ActiveConnection> = Core::new();
    let context = core.get_new_context();
    let conn = ActiveConnection::new(&mut core, context);
    let token = conn.token();
    core.insert_state(context, conn);
    assert!(core.ready_state(&token).is_some());

    let plan = plan_dispatch(EventSet { hup: true, readable: true, ..quiet() });
    assert_eq!(plan, DispatchPlan::TearDownGraceful);

    let removed = core.remove_session(&token);
    assert!(removed.is_some());
    assert!(core.get_context(&token).is_none());
    assert!(core.ready_state(&token).is_none());
}

#[test]
fn unregistered_handle_readiness_has_no_effect() {
    let core: Core<ActiveConnection> = Core::new();
    let stray = Token(17);
    assert!(core.ready_state(&stray).is_none());
    assert!(core.get_context(&stray).is_none());
}

#[test]
fn error_readiness_outranks_everything() {
    let plan = plan_dispatch(EventSet { error: true, hup: true, readable: true, writable: true });
    assert_eq!(plan, DispatchPlan::TearDownFatal);
}

#[test]
fn io_bits_are_both_acted_on() {
    let plan = plan_dispatch(EventSet { readable: true, writable: true, ..quiet() });
    assert_eq!(plan, DispatchPlan::Io { read: true, write: true });
    let plan = plan_dispatch(quiet());
    assert_eq!(plan, DispatchPlan::Io { read: false, write: false });
}

#[test]
fn would_block_and_interrupted_are_transient() {
    assert!(is_transient(IoErrorKind::WouldBlock));
    assert!(is_transient(IoErrorKind::Interrupted));
    assert!(!is_transient(IoErrorKind::Other));
}

#[test]
fn mismatched_token_is_detected() {
    let mut core: Core<u8> = Core::new();
    let context = core.get_new_context();
    let conn = ActiveConnection::new(&mut core, context);
    let token = conn.token();
    assert!(conn.expects_token(&token));
    assert!(!conn.expects_token(&Token(token.0 + 1)));
}

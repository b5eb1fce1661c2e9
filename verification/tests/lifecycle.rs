use keep_mgr::backend::Backend;
use keep_mgr::connection::{
    record_connect_outcome, ChannelState, ConnectEvent, Handshake, KeepLdrConnection,
};
use keep_mgr::contract::issue;
use keep_mgr::dispatch::{dispatch_finish, dispatch_start, DispatchEvent};
use keep_mgr::error::KeepError;
use keep_mgr::keep::{CommsComplete, KeepMgr, Workload};
use keep_mgr::registry::Registry;
use keep_mgr::state::LoaderState;
use keep_mgr::{PROTO_NAME, PROTO_VERSION};

fn manager() -> KeepMgr {
    KeepMgr { address: "127.0.0.1".to_string(), port: 3030 }
}

fn workload(bytes: Vec<u8>) -> Workload {
    Workload { wasm_binary: bytes, human_readable_info: "demo workload".to_string() }
}

fn good_handshake(backend: Backend, id: u128) -> Handshake {
    Handshake {
        proto_name: PROTO_NAME.to_string(),
        proto_version: PROTO_VERSION.to_string(),
        backend,
        kuuid: id,
    }
}

/// Drives a fresh Keep to Ready and returns its identity and connection.
fn ready_keep(reg: &mut Registry, backend: Backend) -> (u128, KeepLdrConnection) {
    let id = reg.new_keep(backend, true).unwrap();
    reg.set_socket(id, format!("/tmp/keep-{}.sock", id)).unwrap();
    let conn = record_connect_outcome(reg, id, ConnectEvent::Established(good_handshake(backend, id)))
        .unwrap();
    (id, conn)
}

#[test]
fn create_allocates_distinct_identities() {
    let mut reg = Registry::new();
    let a = reg.create(Backend::Nil);
    let b = reg.create(Backend::Nil);
    assert_ne!(a, b);
    assert_eq!(reg.list().klvec.len(), 2);
}

#[test]
fn create_starts_indeterminate_without_socket() {
    let mut reg = Registry::new();
    let id = reg.create(Backend::Kvm);
    let k = reg.get_snapshot(id).unwrap();
    assert_eq!(k.state, LoaderState::Indeterminate);
    assert_eq!(k.socket_path, None);
    assert_eq!(k.backend, Backend::Kvm);
    assert_eq!(k.kuuid, id);
    assert_eq!(k.certificate_as_pem, None);
}

#[test]
fn unavailable_backend_allocates_nothing() {
    let mut reg = Registry::new();
    let r = reg.new_keep(Backend::Sgx, false);
    assert_eq!(r, Err(KeepError::BackendUnavailable));
    assert!(reg.list().klvec.is_empty());
}

#[test]
fn get_unknown_identity_is_not_found() {
    let reg = Registry::new();
    assert_eq!(reg.get_snapshot(42), Err(KeepError::NotFound));
}

#[test]
fn illegal_transition_preserves_state() {
    let mut reg = Registry::new();
    let id = reg.create(Backend::Nil);
    let r = reg.update_state(id, LoaderState::Running);
    assert_eq!(r, Err(KeepError::IllegalTransition));
    assert_eq!(reg.get_snapshot(id).unwrap().state, LoaderState::Indeterminate);
}

#[test]
fn ready_needs_a_socket() {
    let mut reg = Registry::new();
    let id = reg.create(Backend::Nil);
    assert_eq!(reg.update_state(id, LoaderState::Ready), Err(KeepError::IllegalTransition));
    reg.set_socket(id, "/tmp/keep.sock".to_string()).unwrap();
    assert_eq!(reg.update_state(id, LoaderState::Ready), Ok(()));
    assert_eq!(reg.get_snapshot(id).unwrap().state, LoaderState::Ready);
}

#[test]
fn repeated_transition_request_loses() {
    let mut reg = Registry::new();
    let id = reg.create(Backend::Nil);
    reg.set_socket(id, "/tmp/keep.sock".to_string()).unwrap();
    assert_eq!(reg.update_state(id, LoaderState::Ready), Ok(()));
    // The same request again finds the target state already applied.
    assert_eq!(reg.update_state(id, LoaderState::Ready), Err(KeepError::IllegalTransition));
    assert_eq!(reg.get_snapshot(id).unwrap().state, LoaderState::Ready);
}

#[test]
fn error_is_sticky() {
    let mut reg = Registry::new();
    let id = reg.create(Backend::Nil);
    assert_eq!(reg.update_state(id, LoaderState::Error), Ok(()));
    for next in [
        LoaderState::Indeterminate,
        LoaderState::Ready,
        LoaderState::Running,
        LoaderState::Shutdown,
        LoaderState::Error,
    ] {
        assert_eq!(reg.update_state(id, next), Err(KeepError::IllegalTransition));
        assert_eq!(reg.get_snapshot(id).unwrap().state, LoaderState::Error);
    }
}

#[test]
fn certificate_once_set_is_immutable() {
    let mut reg = Registry::new();
    let id = reg.create(Backend::Sev);
    assert_eq!(reg.set_certificate(id, vec![1, 2, 3]), Ok(()));
    assert_eq!(reg.set_certificate(id, vec![9, 9]), Err(KeepError::IllegalTransition));
    assert_eq!(reg.get_snapshot(id).unwrap().certificate_as_pem, Some(vec![1, 2, 3]));
}

#[test]
fn confirmed_handshake_makes_ready() {
    let mut reg = Registry::new();
    let (id, conn) = ready_keep(&mut reg, Backend::Nil);
    assert_eq!(conn.kuuid, id);
    assert_eq!(conn.channel, ChannelState::Connected);
    assert_eq!(reg.get_snapshot(id).unwrap().state, LoaderState::Ready);
}

#[test]
fn mismatched_handshake_forces_error() {
    let mut reg = Registry::new();
    let id = reg.new_keep(Backend::Nil, true).unwrap();
    reg.set_socket(id, "/tmp/keep.sock".to_string()).unwrap();
    // The loader echoes the wrong backend.
    let hs = good_handshake(Backend::Kvm, id);
    let r = record_connect_outcome(&mut reg, id, ConnectEvent::Established(hs));
    assert_eq!(r.unwrap_err(), KeepError::ConnectFailed);
    assert_eq!(reg.get_snapshot(id).unwrap().state, LoaderState::Error);
}

#[test]
fn refused_connection_forces_error_and_issue_fails() {
    let mut reg = Registry::new();
    let id = reg.new_keep(Backend::Nil, true).unwrap();
    reg.set_socket(id, "/tmp/keep.sock".to_string()).unwrap();
    let r = record_connect_outcome(&mut reg, id, ConnectEvent::Refused);
    assert_eq!(r.unwrap_err(), KeepError::ConnectFailed);
    assert_eq!(reg.get_snapshot(id).unwrap().state, LoaderState::Error);
    assert_eq!(issue(&reg, &manager(), id).unwrap_err(), KeepError::NotReady);
}

#[test]
fn connect_timeout_forces_error() {
    let mut reg = Registry::new();
    let id = reg.new_keep(Backend::Nil, true).unwrap();
    reg.set_socket(id, "/tmp/keep.sock".to_string()).unwrap();
    let r = record_connect_outcome(&mut reg, id, ConnectEvent::TimedOut);
    assert_eq!(r.unwrap_err(), KeepError::Timeout);
    assert_eq!(reg.get_snapshot(id).unwrap().state, LoaderState::Error);
}

#[test]
fn issue_twice_returns_identical_contracts() {
    let mut reg = Registry::new();
    let (id, _conn) = ready_keep(&mut reg, Backend::Nil);
    let mgr = manager();
    let c1 = issue(&reg, &mgr, id).unwrap();
    let c2 = issue(&reg, &mgr, id).unwrap();
    assert_eq!(c1, c2);
    assert_eq!(c1.kuuid, id);
    assert_eq!(c1.backend, Backend::Nil);
    assert_eq!(c1.socket_path, format!("/tmp/keep-{}.sock", id));
    assert_eq!(c1.keepmgr, mgr);
}

#[test]
fn issue_before_ready_is_not_ready() {
    let mut reg = Registry::new();
    let id = reg.create(Backend::Nil);
    assert_eq!(issue(&reg, &manager(), id).unwrap_err(), KeepError::NotReady);
}

#[test]
fn issue_unknown_identity_is_not_found() {
    let reg = Registry::new();
    assert_eq!(issue(&reg, &manager(), 7).unwrap_err(), KeepError::NotFound);
}

#[test]
fn dispatch_on_unready_keep_mutates_nothing() {
    let mut reg = Registry::new();
    let id = reg.create(Backend::Nil);
    let conn = KeepLdrConnection { kuuid: id, channel: ChannelState::Connected };
    let before = reg.list().klvec;
    let r = dispatch_start(&mut reg, &conn, &workload(vec![1, 2, 3]));
    assert_eq!(r.unwrap_err(), KeepError::NotReady);
    assert_eq!(reg.list().klvec, before);
}

#[test]
fn dispatch_on_closed_channel_mutates_nothing() {
    let mut reg = Registry::new();
    let (id, mut conn) = ready_keep(&mut reg, Backend::Nil);
    conn.close();
    let r = dispatch_start(&mut reg, &conn, &workload(vec![1, 2, 3]));
    assert_eq!(r.unwrap_err(), KeepError::ChannelClosed);
    assert_eq!(reg.get_snapshot(id).unwrap().state, LoaderState::Ready);
}

#[test]
fn close_is_idempotent() {
    let mut conn = KeepLdrConnection { kuuid: 1, channel: ChannelState::Connected };
    conn.close();
    assert_eq!(conn.channel, ChannelState::Disconnected);
    conn.close();
    assert_eq!(conn.channel, ChannelState::Disconnected);
}

#[test]
fn dispatch_failure_forces_error() {
    let mut reg = Registry::new();
    let (id, conn) = ready_keep(&mut reg, Backend::Nil);
    dispatch_start(&mut reg, &conn, &workload(vec![1])).unwrap();
    let outcome = dispatch_finish(&mut reg, id, DispatchEvent::ChannelFailed).unwrap();
    assert_eq!(outcome, CommsComplete::Failure);
    assert_eq!(reg.get_snapshot(id).unwrap().state, LoaderState::Error);
}

#[test]
fn dispatch_finish_outside_running_is_rejected() {
    let mut reg = Registry::new();
    let (id, _conn) = ready_keep(&mut reg, Backend::Nil);
    let r = dispatch_finish(&mut reg, id, DispatchEvent::Completed);
    assert_eq!(r.unwrap_err(), KeepError::IllegalTransition);
    assert_eq!(reg.get_snapshot(id).unwrap().state, LoaderState::Ready);
}

#[test]
fn full_lifecycle_success() {
    let mut reg = Registry::new();
    // Software-only backend: identity allocated, state Indeterminate.
    let id = reg.new_keep(Backend::Nil, true).unwrap();
    assert_eq!(reg.get_snapshot(id).unwrap().state, LoaderState::Indeterminate);
    reg.set_socket(id, "/tmp/keep.sock".to_string()).unwrap();
    // Connect succeeds: state Ready.
    let conn = record_connect_outcome(
        &mut reg,
        id,
        ConnectEvent::Established(good_handshake(Backend::Nil, id)),
    )
    .unwrap();
    assert_eq!(reg.get_snapshot(id).unwrap().state, LoaderState::Ready);
    // Issue the contract.
    let contract = issue(&reg, &manager(), id).unwrap();
    assert_eq!(contract.socket_path, "/tmp/keep.sock");
    // Dispatch the workload: state Running, payload framed for the wire.
    let framed = dispatch_start(&mut reg, &conn, &workload(vec![1, 2, 3])).unwrap();
    assert_eq!(framed, vec![3, 0, 0, 0, 1, 2, 3]);
    assert_eq!(reg.get_snapshot(id).unwrap().state, LoaderState::Running);
    // Completion received: state Shutdown, outcome Success.
    let outcome = dispatch_finish(&mut reg, id, DispatchEvent::Completed).unwrap();
    assert_eq!(outcome, CommsComplete::Success);
    assert_eq!(reg.get_snapshot(id).unwrap().state, LoaderState::Shutdown);
}

use keep_mgr::backend::{select, Backend};
use keep_mgr::error::KeepError;
use keep_mgr::{BIND_PORT, LOCAL_LISTEN_ADDRESS, PROTO_NAME, PROTO_VERSION};

#[test]
fn it_works() {
    assert_eq!(2 + 2, 4);
}

#[test]
fn manager_constants() {
    assert_eq!(LOCAL_LISTEN_ADDRESS, "0.0.0.0");
    assert_eq!(PROTO_NAME, "Enarx-Keep-Manager");
    assert_eq!(PROTO_VERSION, "0.2");
    assert_eq!(BIND_PORT, 3030);
}

#[test]
fn backend_tags() {
    assert_eq!(Backend::Nil.as_str(), "nil");
    assert_eq!(Backend::Sev.as_str(), "sev");
    assert_eq!(Backend::Sgx.as_str(), "sgx");
    assert_eq!(Backend::Kvm.as_str(), "kvm");
}

#[test]
fn backend_device_paths() {
    assert_eq!(Backend::Nil.file_match(), "/");
    assert_eq!(Backend::Sev.file_match(), "/dev/sev");
    assert_eq!(Backend::Sgx.file_match(), "/dev/sgx/enclave");
    assert_eq!(Backend::Kvm.file_match(), "/dev/kvm");
}

#[test]
fn select_with_device_present() {
    assert_eq!(select(Backend::Kvm, true), Ok(Backend::Kvm));
}

#[test]
fn select_with_device_absent() {
    assert_eq!(select(Backend::Sgx, false), Err(KeepError::BackendUnavailable));
}

#[test]
fn error_descriptions() {
    assert_eq!(KeepError::BackendUnavailable.describe(), "backend unavailable");
    assert_eq!(KeepError::NotFound.describe(), "keep not found");
    assert_eq!(KeepError::IllegalTransition.describe(), "illegal transition");
    assert_eq!(KeepError::ConnectFailed.describe(), "connect failed");
    assert_eq!(KeepError::Timeout.describe(), "timeout");
    assert_eq!(KeepError::ChannelClosed.describe(), "channel closed");
    assert_eq!(KeepError::NotReady.describe(), "keep not ready");
}

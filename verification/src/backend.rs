//! Isolation backends and the backend selector.
//!
//! Each backend requires one device node on the host. The selector gates
//! entry into the lifecycle: a backend whose device node is absent is
//! rejected before any identity is allocated or registry entry created.

use vstd::prelude::*;

use crate::error::KeepError;

verus! {

/// The isolation technology a Keep runs under.
#[derive(Clone, Copy, Debug, PartialEq, Eq, Structural)]
pub enum Backend {
    /// Software-only isolation (no hardware requirement beyond the root).
    Nil,
    /// AMD memory-encryption isolation.
    Sev,
    /// Intel enclave isolation.
    Sgx,
    /// Virtualization-based isolation.
    Kvm,
}

impl Backend {
    /// The tag under which this backend is requested and reported.
    pub fn as_str(&self) -> (r: &'static str)
        ensures
            (*self is Nil) ==> r@ == "nil"@,
            (*self is Sev) ==> r@ == "sev"@,
            (*self is Sgx) ==> r@ == "sgx"@,
            (*self is Kvm) ==> r@ == "kvm"@,
    {
        match *self {
            Backend::Nil => "nil",
            Backend::Sev => "sev",
            Backend::Sgx => "sgx",
            Backend::Kvm => "kvm",
        }
    }

    /// The device node that must exist on the host for this backend to be
    /// usable.
    pub fn file_match(&self) -> (r: &'static str)
        ensures
            (*self is Nil) ==> r@ == "/"@,
            (*self is Sev) ==> r@ == "/dev/sev"@,
            (*self is Sgx) ==> r@ == "/dev/sgx/enclave"@,
            (*self is Kvm) ==> r@ == "/dev/kvm"@,
    {
        match *self {
            Backend::Nil => "/",
            Backend::Sev => "/dev/sev",
            Backend::Sgx => "/dev/sgx/enclave",
            Backend::Kvm => "/dev/kvm",
        }
    }
}

/// Validates a requested backend against the observed presence of its device
/// node (the caller probes the path given by [`Backend::file_match`] and
/// passes the result in). Succeeds exactly when the device node is present;
/// fails fast with `BackendUnavailable` otherwise, with no side effect.
pub fn select(requested: Backend, device_present: bool) -> (r: Result<Backend, KeepError>)
    ensures
        device_present ==> r == Ok::<Backend, KeepError>(requested),
        !device_present ==> r == Err::<Backend, KeepError>(KeepError::BackendUnavailable),
{
    if device_present {
        Ok(requested)
    } else {
        Err(KeepError::BackendUnavailable)
    }
}

} // verus!

//! The Keep record and the plain data carried around it.

use vstd::prelude::*;
use vstd::slice::slice_to_vec;

use crate::backend::Backend;
use crate::state::LoaderState;

verus! {

/// Network endpoint of the workload loader inside a Keep, once it has one.
#[derive(Clone, Debug, PartialEq, Eq)]
pub struct Wasmldr {
    pub wasmldr_ipaddr: String,
    pub wasmldr_port: u16,
}

/// Mathematical image of a [`Wasmldr`].
pub ghost struct WasmldrView {
    pub wasmldr_ipaddr: Seq<char>,
    pub wasmldr_port: u16,
}

impl View for Wasmldr {
    type V = WasmldrView;

    open spec fn view(&self) -> WasmldrView {
        WasmldrView { wasmldr_ipaddr: self.wasmldr_ipaddr@, wasmldr_port: self.wasmldr_port }
    }
}

/// The manager's own address and port, as placed into contracts.
#[derive(Clone, Debug, PartialEq, Eq)]
pub struct KeepMgr {
    pub address: String,
    pub port: u16,
}

/// Mathematical image of a [`KeepMgr`].
pub ghost struct KeepMgrView {
    pub address: Seq<char>,
    pub port: u16,
}

impl View for KeepMgr {
    type V = KeepMgrView;

    open spec fn view(&self) -> KeepMgrView {
        KeepMgrView { address: self.address@, port: self.port }
    }
}

/// Runtime record of one isolated loader: the authoritative row of the
/// registry for one identity.
#[derive(Debug, PartialEq, Eq)]
pub struct Keep {
    pub backend: Backend,
    /// The Keep's 128-bit identity, assigned once at creation.
    pub kuuid: u128,
    /// Where the loader's local channel is bound, once known.
    pub socket_path: Option<String>,
    pub state: LoaderState,
    pub wasmldr: Option<Wasmldr>,
    pub human_readable_info: Option<String>,
    /// Attestation certificate, carried opaquely; immutable once set.
    pub certificate_as_pem: Option<Vec<u8>>,
}

/// Mathematical image of a [`Keep`].
pub ghost struct KeepView {
    pub backend: Backend,
    pub kuuid: u128,
    pub socket_path: Option<Seq<char>>,
    pub state: LoaderState,
    pub wasmldr: Option<WasmldrView>,
    pub human_readable_info: Option<Seq<char>>,
    pub certificate_as_pem: Option<Seq<u8>>,
}

impl View for Keep {
    type V = KeepView;

    open spec fn view(&self) -> KeepView {
        KeepView {
            backend: self.backend,
            kuuid: self.kuuid,
            socket_path: match self.socket_path {
                Some(ref s) => Some(s@),
                None => None,
            },
            state: self.state,
            wasmldr: match self.wasmldr {
                Some(ref w) => Some(w@),
                None => None,
            },
            human_readable_info: match self.human_readable_info {
                Some(ref s) => Some(s@),
                None => None,
            },
            certificate_as_pem: match self.certificate_as_pem {
                Some(ref c) => Some(c@),
                None => None,
            },
        }
    }
}

/// A well-formed Keep record: once the state has left `Indeterminate` for
/// the live part of the lifecycle, the socket location is pinned down.
pub open spec fn keep_wf(k: KeepView) -> bool {
    (k.state is Ready || k.state is Running || k.state is Shutdown) ==> k.socket_path is Some
}

/// `k` after a state transition: the state replaced, every other field kept.
pub open spec fn with_state(k: KeepView, s: LoaderState) -> KeepView {
    KeepView {
        backend: k.backend,
        kuuid: k.kuuid,
        socket_path: k.socket_path,
        state: s,
        wasmldr: k.wasmldr,
        human_readable_info: k.human_readable_info,
        certificate_as_pem: k.certificate_as_pem,
    }
}

/// `k` with its socket location assigned, every other field kept.
pub open spec fn with_socket(k: KeepView, p: Seq<char>) -> KeepView {
    KeepView {
        backend: k.backend,
        kuuid: k.kuuid,
        socket_path: Some(p),
        state: k.state,
        wasmldr: k.wasmldr,
        human_readable_info: k.human_readable_info,
        certificate_as_pem: k.certificate_as_pem,
    }
}

/// `k` with its attestation certificate attached, every other field kept.
pub open spec fn with_certificate(k: KeepView, c: Seq<u8>) -> KeepView {
    KeepView {
        backend: k.backend,
        kuuid: k.kuuid,
        socket_path: k.socket_path,
        state: k.state,
        wasmldr: k.wasmldr,
        human_readable_info: k.human_readable_info,
        certificate_as_pem: Some(c),
    }
}

/// The fresh record inserted for a newly created Keep: `Indeterminate`, no
/// socket location, nothing else known yet.
pub open spec fn fresh_keep(backend: Backend, id: u128) -> KeepView {
    KeepView {
        backend: backend,
        kuuid: id,
        socket_path: None,
        state: LoaderState::Indeterminate,
        wasmldr: None,
        human_readable_info: None,
        certificate_as_pem: None,
    }
}

fn clone_opt_string(s: &Option<String>) -> (r: Option<String>)
    ensures
        (match *s {
            Some(ref v) => r matches Some(rv) && rv@ == v@,
            None => r is None,
        }),
{
    match s {
        Some(v) => Some(v.clone()),
        None => None,
    }
}

impl Clone for Keep {
    /// A snapshot of the record, equal to it in the mathematical view.
    fn clone(&self) -> (res: Self)
        ensures
            res@ == self@,
    {
        let res = Keep {
            backend: self.backend,
            kuuid: self.kuuid,
            socket_path: clone_opt_string(&self.socket_path),
            state: self.state,
            wasmldr: match &self.wasmldr {
                Some(w) => Some(
                    Wasmldr {
                        wasmldr_ipaddr: w.wasmldr_ipaddr.clone(),
                        wasmldr_port: w.wasmldr_port,
                    },
                ),
                None => None,
            },
            human_readable_info: clone_opt_string(&self.human_readable_info),
            certificate_as_pem: match &self.certificate_as_pem {
                Some(c) => Some(slice_to_vec(c.as_slice())),
                None => None,
            },
        };
        res
    }
}

/// Payload submitted for execution inside a Ready Keep; immutable once
/// submitted.
#[derive(Debug, PartialEq, Eq)]
pub struct Workload {
    pub wasm_binary: Vec<u8>,
    pub human_readable_info: String,
}

/// Mathematical image of a [`Workload`].
pub ghost struct WorkloadView {
    pub wasm_binary: Seq<u8>,
    pub human_readable_info: Seq<char>,
}

impl View for Workload {
    type V = WorkloadView;

    open spec fn view(&self) -> WorkloadView {
        WorkloadView {
            wasm_binary: self.wasm_binary@,
            human_readable_info: self.human_readable_info@,
        }
    }
}

/// Terminal outcome of one dispatch; no further mutation follows it.
#[derive(Clone, Copy, Debug, PartialEq, Eq, Structural)]
pub enum CommsComplete {
    Success,
    Failure,
}

/// A snapshot of the registry's records, as handed to a status query.
#[derive(Debug)]
pub struct KeepVec {
    pub klvec: Vec<Keep>,
}

impl View for KeepVec {
    type V = Seq<KeepView>;

    open spec fn view(&self) -> Seq<KeepView> {
        self.klvec@.map_values(|k: Keep| k@)
    }
}

/// A plain-text reply for a request the manager does not recognise.
#[derive(Debug)]
pub struct UndefinedReply {
    pub text: String,
}

} // verus!

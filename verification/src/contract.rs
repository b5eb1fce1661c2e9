//! The contract issuer: the caller-facing proof of a provisioned Keep.

use vstd::prelude::*;

use crate::backend::Backend;
use crate::error::KeepError;
use crate::keep::{KeepMgr, KeepMgrView, KeepView};
use crate::registry::{contains_id, index_of_id, Registry};

verus! {

/// Caller-facing proof of a provisioned Keep: a read-only projection of the
/// owning Keep at issuance time.
#[derive(Debug, PartialEq, Eq)]
pub struct KeepContract {
    pub keepmgr: KeepMgr,
    pub backend: Backend,
    pub kuuid: u128,
    pub socket_path: String,
}

/// Mathematical image of a [`KeepContract`].
pub ghost struct KeepContractView {
    pub keepmgr: KeepMgrView,
    pub backend: Backend,
    pub kuuid: u128,
    pub socket_path: Seq<char>,
}

impl View for KeepContract {
    type V = KeepContractView;

    open spec fn view(&self) -> KeepContractView {
        KeepContractView {
            keepmgr: self.keepmgr@,
            backend: self.backend,
            kuuid: self.kuuid,
            socket_path: self.socket_path@,
        }
    }
}

/// The one contract a Ready Keep `k` under the manager `m` can be issued:
/// every field is a function of the record alone.
pub open spec fn contract_of(m: KeepMgrView, k: KeepView) -> KeepContractView {
    KeepContractView {
        keepmgr: m,
        backend: k.backend,
        kuuid: k.kuuid,
        socket_path: k.socket_path->Some_0,
    }
}

/// Issues the contract for the Keep carrying `id`: callable once the Keep is
/// `Ready` (which pins its socket location), and a deterministic read — it
/// mutates nothing, so issuing again returns the identical contract.
pub fn issue(reg: &Registry, mgr: &KeepMgr, id: u128) -> (r: Result<KeepContract, KeepError>)
    requires
        reg.wf(),
    ensures
        (!contains_id(reg@, id) ==> r == Err::<KeepContract, KeepError>(KeepError::NotFound)),
        (contains_id(reg@, id) && !(reg@[index_of_id(reg@, id)].state is Ready) ==> r == Err::<
            KeepContract,
            KeepError,
        >(KeepError::NotReady)),
        (contains_id(reg@, id) && reg@[index_of_id(reg@, id)].state is Ready ==> (r matches Ok(c)
            && c@ == contract_of(mgr@, reg@[index_of_id(reg@, id)]))),
{
    let k = match reg.get(id) {
        Ok(k) => k,
        Err(e) => {
            return Err(e);
        },
    };
    match (&k.state, &k.socket_path) {
        (crate::state::LoaderState::Ready, Some(path)) => Ok(
            KeepContract {
                keepmgr: KeepMgr { address: mgr.address.clone(), port: mgr.port },
                backend: k.backend,
                kuuid: k.kuuid,
                socket_path: path.clone(),
            },
        ),
        _ => Err(KeepError::NotReady),
    }
}

/// Issuing is idempotent: two contracts read from the same record under the
/// same manager are identical, field for field.
pub proof fn lemma_issue_deterministic(
    m: KeepMgrView,
    k: KeepView,
    c1: KeepContractView,
    c2: KeepContractView,
)
    requires
        c1 == contract_of(m, k),
        c2 == contract_of(m, k),
    ensures
        c1 == c2,
{
}

} // verus!

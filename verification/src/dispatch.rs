//! The workload dispatcher's decision logic.
//!
//! A dispatch is one-shot per Keep: accepting the workload moves the Keep
//! from `Ready` to `Running` in the same step that yields the framed bytes
//! to send, and observing the completion (or the channel's failure) moves it
//! on to `Shutdown` (or `Error`). The sending and the waiting themselves
//! happen outside the verified core; their outcome is handed back in as an
//! event, so a Keep is never left `Running` without a pending operation.

use vstd::prelude::*;

use crate::connection::{ChannelState, KeepLdrConnection};
use crate::error::KeepError;
use crate::framing::{frame, frame_spec, MAX_FRAME_PAYLOAD};
use crate::keep::{with_state, CommsComplete, Workload};
use crate::registry::{contains_id, index_of_id, Registry};
use crate::state::LoaderState;

verus! {

/// How the channel-level exchange of one dispatch ended.
#[derive(Clone, Copy, Debug, PartialEq, Eq, Structural)]
pub enum DispatchEvent {
    /// The loader signalled clean completion of the workload.
    Completed,
    /// The channel closed, failed, or timed out before completion.
    ChannelFailed,
}

/// Accepts a workload for the Keep the connection belongs to.
///
/// Requires the Keep to be `Ready` with an open channel; accepting moves it
/// to `Running` in the same step and yields the framed workload binary to
/// send over the wire, which the manager does not interpret further. Any
/// rejection — unknown identity, a Keep not `Ready`, a closed channel —
/// names its reason and mutates no state at all.
pub fn dispatch_start(reg: &mut Registry, conn: &KeepLdrConnection, workload: &Workload) -> (r:
    Result<Vec<u8>, KeepError>)
    requires
        old(reg).wf(),
        workload@.wasm_binary.len() <= MAX_FRAME_PAYLOAD,
    ensures
        final(reg).wf(),
        (!contains_id(old(reg)@, conn.kuuid) ==> r == Err::<Vec<u8>, KeepError>(KeepError::NotFound)
            && final(reg)@ == old(reg)@),
        (contains_id(old(reg)@, conn.kuuid) && !(old(reg)@[index_of_id(old(reg)@, conn.kuuid)].state
            is Ready) ==> r == Err::<Vec<u8>, KeepError>(KeepError::NotReady)
            && final(reg)@ == old(reg)@),
        (contains_id(old(reg)@, conn.kuuid) && old(reg)@[index_of_id(old(reg)@, conn.kuuid)].state
            is Ready && conn.channel is Disconnected ==> r == Err::<Vec<u8>, KeepError>(
            KeepError::ChannelClosed,
        ) && final(reg)@ == old(reg)@),
        (contains_id(old(reg)@, conn.kuuid) && old(reg)@[index_of_id(old(reg)@, conn.kuuid)].state
            is Ready && conn.channel is Connected ==> (r matches Ok(bytes) && bytes@ == frame_spec(
            workload@.wasm_binary,
        ) && final(reg)@ == old(reg)@.update(
            index_of_id(old(reg)@, conn.kuuid),
            with_state(old(reg)@[index_of_id(old(reg)@, conn.kuuid)], LoaderState::Running),
        ))),
{
    let id = conn.kuuid;
    let state = match reg.get(id) {
        Ok(k) => k.state,
        Err(e) => {
            return Err(e);
        },
    };
    if !(state == LoaderState::Ready) {
        return Err(KeepError::NotReady);
    }
    if conn.channel == ChannelState::Disconnected {
        return Err(KeepError::ChannelClosed);
    }
    let bytes = frame(&workload.wasm_binary);
    let _ = reg.update_state(id, LoaderState::Running);
    Ok(bytes)
}

/// Settles a dispatch on the Keep carrying `id` from what the channel
/// reported.
///
/// Only a `Running` Keep can be settled. Clean completion moves it to
/// `Shutdown` and the outcome is `Success`; a channel failure forces it to
/// `Error` and the outcome is `Failure`. Either way the Keep leaves
/// `Running` — a dispatch never strands it there.
pub fn dispatch_finish(reg: &mut Registry, id: u128, ev: DispatchEvent) -> (r: Result<
    CommsComplete,
    KeepError,
>)
    requires
        old(reg).wf(),
    ensures
        final(reg).wf(),
        (!contains_id(old(reg)@, id) ==> r == Err::<CommsComplete, KeepError>(KeepError::NotFound)
            && final(reg)@ == old(reg)@),
        (contains_id(old(reg)@, id) && !(old(reg)@[index_of_id(old(reg)@, id)].state is Running)
            ==> r == Err::<CommsComplete, KeepError>(KeepError::IllegalTransition) && final(reg)@
            == old(reg)@),
        (contains_id(old(reg)@, id) && old(reg)@[index_of_id(old(reg)@, id)].state is Running && ev
            is Completed ==> r == Ok::<CommsComplete, KeepError>(CommsComplete::Success)
            && final(reg)@ == old(reg)@.update(
            index_of_id(old(reg)@, id),
            with_state(old(reg)@[index_of_id(old(reg)@, id)], LoaderState::Shutdown),
        )),
        (contains_id(old(reg)@, id) && old(reg)@[index_of_id(old(reg)@, id)].state is Running && ev
            is ChannelFailed ==> r == Ok::<CommsComplete, KeepError>(CommsComplete::Failure)
            && final(reg)@ == old(reg)@.update(
            index_of_id(old(reg)@, id),
            with_state(old(reg)@[index_of_id(old(reg)@, id)], LoaderState::Error),
        )),
{
    let state = match reg.get(id) {
        Ok(k) => k.state,
        Err(e) => {
            return Err(e);
        },
    };
    if !(state == LoaderState::Running) {
        return Err(KeepError::IllegalTransition);
    }
    match ev {
        DispatchEvent::Completed => {
            let _ = reg.update_state(id, LoaderState::Shutdown);
            Ok(CommsComplete::Success)
        },
        DispatchEvent::ChannelFailed => {
            let _ = reg.update_state(id, LoaderState::Error);
            Ok(CommsComplete::Failure)
        },
    }
}

} // verus!

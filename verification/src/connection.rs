//! The manager's side of the channel to a loader, and the decision logic
//! that reconciles a connection attempt with the registry.
//!
//! The byte-stream itself lives outside the verified core; what happened to
//! it is handed in as an event, and this module decides the lifecycle
//! consequence: a confirmed handshake makes the Keep `Ready`, anything else
//! forces it to `Error`.

use vstd::prelude::*;

use crate::backend::Backend;
use crate::error::KeepError;
use crate::keep::with_state;
use crate::registry::{contains_id, index_of_id, Registry};
use crate::state::LoaderState;

verus! {

/// Whether the channel to the loader is open. A Keep whose channel is
/// absent can only fall to error or shutdown, never carry a workload.
#[derive(Clone, Copy, Debug, PartialEq, Eq, Structural)]
pub enum ChannelState {
    Connected,
    Disconnected,
}

/// The manager's record of one loader channel: the owning identity, and
/// whether the channel is open.
#[derive(Clone, Copy, Debug)]
pub struct KeepLdrConnection {
    pub kuuid: u128,
    pub channel: ChannelState,
}

impl KeepLdrConnection {
    /// Closes the channel. Closing is explicit and idempotent: a second
    /// close is a no-op, not an error.
    pub fn close(&mut self)
        ensures
            final(self).kuuid == old(self).kuuid,
            final(self).channel is Disconnected,
    {
        self.channel = ChannelState::Disconnected;
    }
}

/// What a loader advertises once at handshake; the manager accepts the
/// connection only if all of it matches its own record.
#[derive(Debug)]
pub struct Handshake {
    pub proto_name: String,
    pub proto_version: String,
    pub backend: Backend,
    pub kuuid: u128,
}

/// Mathematical image of a [`Handshake`].
pub ghost struct HandshakeView {
    pub proto_name: Seq<char>,
    pub proto_version: Seq<char>,
    pub backend: Backend,
    pub kuuid: u128,
}

impl View for Handshake {
    type V = HandshakeView;

    open spec fn view(&self) -> HandshakeView {
        HandshakeView {
            proto_name: self.proto_name@,
            proto_version: self.proto_version@,
            backend: self.backend,
            kuuid: self.kuuid,
        }
    }
}

/// The handshake confirms the Keep: protocol name and version are the
/// manager's own, and the echoed backend and identity match the record.
pub open spec fn handshake_ok(h: HandshakeView, backend: Backend, id: u128) -> bool {
    &&& h.proto_name == crate::PROTO_NAME@
    &&& h.proto_version == crate::PROTO_VERSION@
    &&& h.backend == backend
    &&& h.kuuid == id
}

/// Decides whether a received handshake confirms the Keep with the given
/// backend and identity.
pub fn handshake_matches(h: &Handshake, backend: Backend, id: u128) -> (b: bool)
    ensures
        b == handshake_ok(h@, backend, id),
{
    let name_ok = h.proto_name == crate::PROTO_NAME.to_owned();
    let version_ok = h.proto_version == crate::PROTO_VERSION.to_owned();
    name_ok && version_ok && h.backend == backend && h.kuuid == id
}

/// What a connection attempt to a loader's socket came to.
#[derive(Debug)]
pub enum ConnectEvent {
    /// The channel opened and the loader advertised this handshake.
    Established(Handshake),
    /// The channel could not be opened at all.
    Refused,
    /// The attempt did not complete in time.
    TimedOut,
}

/// Whether the event carries a handshake that confirms the Keep `k` under
/// identity `id` — the one case in which the Keep becomes `Ready`.
pub open spec fn connect_confirms(
    ev: ConnectEvent,
    k: crate::keep::KeepView,
    id: u128,
) -> bool {
    ev matches ConnectEvent::Established(h) && handshake_ok(h@, k.backend, id)
        && k.socket_path is Some
}

/// Reconciles the outcome of a connection attempt with the registry.
///
/// Only a Keep still `Indeterminate` can take a connection outcome. A
/// confirmed handshake moves it to `Ready` and yields the open channel; a
/// mismatched handshake, a refused channel or a timeout each force the Keep
/// to `Error` and report the specific failure.
pub fn record_connect_outcome(reg: &mut Registry, id: u128, ev: ConnectEvent) -> (r: Result<
    KeepLdrConnection,
    KeepError,
>)
    requires
        old(reg).wf(),
    ensures
        final(reg).wf(),
        (!contains_id(old(reg)@, id) ==> r == Err::<KeepLdrConnection, KeepError>(
            KeepError::NotFound,
        ) && final(reg)@ == old(reg)@),
        (contains_id(old(reg)@, id) && !(old(reg)@[index_of_id(old(reg)@, id)].state
            is Indeterminate) ==> r == Err::<KeepLdrConnection, KeepError>(
            KeepError::IllegalTransition,
        ) && final(reg)@ == old(reg)@),
        (contains_id(old(reg)@, id) && old(reg)@[index_of_id(old(reg)@, id)].state is Indeterminate
            && connect_confirms(ev, old(reg)@[index_of_id(old(reg)@, id)], id) ==> (r matches Ok(c)
            && c.kuuid == id && c.channel is Connected && final(reg)@ == old(reg)@.update(
            index_of_id(old(reg)@, id),
            with_state(old(reg)@[index_of_id(old(reg)@, id)], LoaderState::Ready),
        ))),
        (contains_id(old(reg)@, id) && old(reg)@[index_of_id(old(reg)@, id)].state is Indeterminate
            && !connect_confirms(ev, old(reg)@[index_of_id(old(reg)@, id)], id) ==> ((ev
            is TimedOut ==> r == Err::<KeepLdrConnection, KeepError>(KeepError::Timeout)) && (!(ev
            is TimedOut) ==> r == Err::<KeepLdrConnection, KeepError>(KeepError::ConnectFailed))
            && final(reg)@ == old(reg)@.update(
            index_of_id(old(reg)@, id),
            with_state(old(reg)@[index_of_id(old(reg)@, id)], LoaderState::Error),
        ))),
{
    let (state, backend, socket_set) = match reg.get(id) {
        Ok(k) => (
            k.state,
            k.backend,
            match &k.socket_path {
                Some(_) => true,
                None => false,
            },
        ),
        Err(e) => {
            return Err(e);
        },
    };
    if !(state == LoaderState::Indeterminate) {
        return Err(KeepError::IllegalTransition);
    }
    match ev {
        ConnectEvent::Established(h) => {
            if handshake_matches(&h, backend, id) && socket_set {
                let _ = reg.update_state(id, LoaderState::Ready);
                Ok(KeepLdrConnection { kuuid: id, channel: ChannelState::Connected })
            } else {
                let _ = reg.update_state(id, LoaderState::Error);
                Err(KeepError::ConnectFailed)
            }
        },
        ConnectEvent::Refused => {
            let _ = reg.update_state(id, LoaderState::Error);
            Err(KeepError::ConnectFailed)
        },
        ConnectEvent::TimedOut => {
            let _ = reg.update_state(id, LoaderState::Error);
            Err(KeepError::Timeout)
        },
    }
}

} // verus!

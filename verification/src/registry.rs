//! The Keep registry: the authoritative in-memory table of all known Keeps.
//!
//! The registry exclusively owns every Keep record. Each mutation works on
//! one identity, goes through exclusive access (`&mut`), and is applied in
//! full or not at all, so a reader never observes a partial update and the
//! transitions of one identity are totally ordered.

use vstd::prelude::*;
use vstd::pervasive::VecAdditionalExecFns;

use crate::backend::Backend;
use crate::error::KeepError;
use crate::ident::is_random_identity;
use crate::keep::{
    fresh_keep, keep_wf, with_certificate, with_socket, with_state, Keep, KeepVec, KeepView,
};
use crate::state::{transition_allowed, LoaderState};

verus! {

/// The views of a table of Keep records, row by row.
pub open spec fn keep_views(s: Seq<Keep>) -> Seq<KeepView> {
    s.map_values(|k: Keep| k@)
}

/// Some row of `s` carries the identity `id`.
pub open spec fn contains_id(s: Seq<KeepView>, id: u128) -> bool {
    exists|i: int| 0 <= i < s.len() && s[i].kuuid == id
}

/// The row of `s` that carries `id`; meaningful only when [`contains_id`]
/// holds, and then unique because identities never repeat.
pub open spec fn index_of_id(s: Seq<KeepView>, id: u128) -> int {
    choose|i: int| 0 <= i < s.len() && s[i].kuuid == id
}

/// No identity appears in two rows.
pub open spec fn unique_ids(s: Seq<KeepView>) -> bool {
    forall|i: int, j: int|
        0 <= i < s.len() && 0 <= j < s.len() && i != j ==> s[i].kuuid != s[j].kuuid
}

/// In a table without repeated identities, any row seen to carry `id` is
/// the row [`index_of_id`] names.
pub proof fn lemma_index_of_id(s: Seq<KeepView>, id: u128, i: int)
    requires
        unique_ids(s),
        0 <= i < s.len(),
        s[i].kuuid == id,
    ensures
        contains_id(s, id),
        index_of_id(s, id) == i,
{
    assert(contains_id(s, id));
    let j = index_of_id(s, id);
    assert(0 <= j < s.len() && s[j].kuuid == id);
}

/// Whether the registry may move the Keep `k` to `s`: the lifecycle table
/// must permit it, and a Keep may not become `Ready` before its socket
/// location is pinned down.
pub open spec fn update_permitted(k: KeepView, s: LoaderState) -> bool {
    transition_allowed(k.state, s) && (s is Ready ==> k.socket_path is Some)
}

/// Of two rival requests for the same transition on the same Keep, exactly
/// one can win: registry mutations on one identity are applied one at a
/// time, and once the first request has moved the record, the second finds
/// the target state already current and is rejected.
pub proof fn lemma_exclusive_update(k: KeepView, t: LoaderState)
    requires
        update_permitted(k, t),
    ensures
        !update_permitted(with_state(k, t), t),
{
    crate::state::lemma_no_self_transition(t);
}

/// The authoritative table of all known Keeps, in insertion order.
pub struct Registry {
    keeps: Vec<Keep>,
    /// Source of spare identities, used only when a random draw collides:
    /// counter values never carry the version field of a random draw, so
    /// they can never collide with one, and the counter only grows.
    next_spare: u128,
}

impl View for Registry {
    type V = Seq<KeepView>;

    closed spec fn view(&self) -> Seq<KeepView> {
        keep_views(self.keeps@)
    }
}

impl Registry {
    /// The private part of the invariant: the spare-identity counter is
    /// bounded by the table's length (each spare identity used inserts a
    /// row), and every identity not drawn at random lies below the counter.
    pub closed spec fn inv(&self) -> bool {
        &&& self.next_spare <= self@.len()
        &&& forall|i: int|
            0 <= i < self@.len() && !is_random_identity(#[trigger] self@[i].kuuid)
                ==> self@[i].kuuid < self.next_spare
    }

    /// Well-formed registry: identities never repeat, and every record
    /// satisfies the Keep invariant.
    pub open spec fn wf(&self) -> bool {
        &&& self.inv()
        &&& unique_ids(self@)
        &&& forall|i: int| 0 <= i < self@.len() ==> keep_wf(#[trigger] self@[i])
    }

    /// An empty registry.
    pub fn new() -> (r: Registry)
        ensures
            r.wf(),
            r@ == Seq::<KeepView>::empty(),
    {
        let r = Registry { keeps: Vec::new(), next_spare: 0 };
        proof {
            assert(r@ =~= Seq::<KeepView>::empty());
        }
        r
    }

    /// The row holding `id`, if any.
    fn find(&self, id: u128) -> (r: Option<usize>)
        ensures
            (r matches Some(i) ==> i < self@.len() && self@[i as int].kuuid == id),
            (r is None ==> !contains_id(self@, id)),
    {
        let mut i: usize = 0;
        while i < self.keeps.len()
            invariant
                i <= self.keeps.len(),
                forall|j: int| 0 <= j < i ==> self@[j].kuuid != id,
            decreases self.keeps.len() - i,
        {
            if self.keeps[i].kuuid == id {
                return Some(i);
            }
            i = i + 1;
        }
        None
    }

    /// Allocates a fresh, unused identity and inserts a Keep record for it
    /// in the `Indeterminate` state with no socket location yet.
    pub fn create(&mut self, backend: Backend) -> (id: u128)
        requires
            old(self).wf(),
        ensures
            final(self).wf(),
            !contains_id(old(self)@, id),
            final(self)@ == old(self)@.push(fresh_keep(backend, id)),
    {
        let drawn = crate::ident::fresh_identity();
        let id: u128;
        if self.find(drawn).is_none() {
            id = drawn;
        } else {
            // The random draw collided with a known identity; take the next
            // spare value instead. A spare value is below 2^64, so it never
            // carries the version field of a random draw and cannot collide
            // with one, and it exceeds every spare value used before.
            id = self.next_spare;
            let l = self.keeps.len();
            assert(id <= l as u128);
            assert(id & 0xF0000000000000000000u128 == 0) by (bit_vector)
                requires
                    id <= 0xFFFFFFFFFFFFFFFFu128,
            ;
            assert forall|i: int| 0 <= i < self@.len() implies self@[i].kuuid != id by {
                if is_random_identity(self@[i].kuuid) {
                    assert(self@[i].kuuid & 0xF0000000000000000000u128 != id
                        & 0xF0000000000000000000u128);
                }
            }
            assert(!contains_id(self@, id));
            self.next_spare = self.next_spare + 1;
        }
        let k = Keep {
            backend,
            kuuid: id,
            socket_path: None,
            state: LoaderState::Indeterminate,
            wasmldr: None,
            human_readable_info: None,
            certificate_as_pem: None,
        };
        assert(k@ == fresh_keep(backend, id));
        self.keeps.push(k);
        proof {
            assert(self@ =~= old(self)@.push(fresh_keep(backend, id)));
        }
        id
    }

    /// Validates the requested backend against the observed presence of its
    /// device node, and only then allocates an identity and a registry
    /// entry. An unavailable backend allocates nothing.
    pub fn new_keep(&mut self, requested: Backend, device_present: bool) -> (r: Result<
        u128,
        KeepError,
    >)
        requires
            old(self).wf(),
        ensures
            final(self).wf(),
            (!device_present ==> r == Err::<u128, KeepError>(KeepError::BackendUnavailable)
                && final(self)@ == old(self)@),
            (device_present ==> (r matches Ok(id) && !contains_id(old(self)@, id) && final(self)@ == old(
                self,
            )@.push(fresh_keep(requested, id)))),
    {
        match crate::backend::select(requested, device_present) {
            Ok(b) => Ok(self.create(b)),
            Err(e) => Err(e),
        }
    }

    /// A borrow of the record carrying `id`, or `NotFound`.
    pub fn get(&self, id: u128) -> (r: Result<&Keep, KeepError>)
        requires
            self.wf(),
        ensures
            (!contains_id(self@, id) ==> r == Err::<&Keep, KeepError>(KeepError::NotFound)),
            (contains_id(self@, id) ==> (r matches Ok(k) && k@ == self@[index_of_id(self@, id)])),
    {
        match self.find(id) {
            Some(i) => {
                proof {
                    lemma_index_of_id(self@, id, i as int);
                }
                Ok(&self.keeps[i])
            },
            None => Err(KeepError::NotFound),
        }
    }

    /// A snapshot of the record carrying `id`, or `NotFound`; never the raw
    /// channel, which the registry does not hold.
    pub fn get_snapshot(&self, id: u128) -> (r: Result<Keep, KeepError>)
        requires
            self.wf(),
        ensures
            (!contains_id(self@, id) ==> r == Err::<Keep, KeepError>(KeepError::NotFound)),
            (contains_id(self@, id) ==> (r matches Ok(k) && k@ == self@[index_of_id(self@, id)])),
    {
        match self.get(id) {
            Ok(k) => Ok(k.clone()),
            Err(e) => Err(e),
        }
    }

    /// Applies one lifecycle transition to the Keep carrying `id`. A request
    /// outside the table (or one that would make a socketless Keep `Ready`)
    /// is rejected with `IllegalTransition` and leaves every record
    /// unchanged; that the published state never desynchronizes from the
    /// table is the central property of the manager.
    pub fn update_state(&mut self, id: u128, new_state: LoaderState) -> (r: Result<(), KeepError>)
        requires
            old(self).wf(),
        ensures
            final(self).wf(),
            (!contains_id(old(self)@, id) ==> r == Err::<(), KeepError>(KeepError::NotFound)
                && final(self)@ == old(self)@),
            (contains_id(old(self)@, id) && !update_permitted(
                old(self)@[index_of_id(old(self)@, id)],
                new_state,
            ) ==> r == Err::<(), KeepError>(KeepError::IllegalTransition) && final(self)@ == old(self)@),
            (contains_id(old(self)@, id) && update_permitted(
                old(self)@[index_of_id(old(self)@, id)],
                new_state,
            ) ==> r == Ok::<(), KeepError>(()) && final(self)@ == old(self)@.update(
                index_of_id(old(self)@, id),
                with_state(old(self)@[index_of_id(old(self)@, id)], new_state),
            )),
    {
        match self.find(id) {
            None => Err(KeepError::NotFound),
            Some(i) => {
                proof {
                    lemma_index_of_id(self@, id, i as int);
                }
                let socket_ok = match &self.keeps[i].socket_path {
                    Some(_) => true,
                    None => false,
                };
                let permitted = self.keeps[i].state.legal_transition(&new_state) && (!(new_state
                    == LoaderState::Ready) || socket_ok);
                if permitted {
                    let mut nk = self.keeps[i].clone();
                    nk.state = new_state;
                    assert(nk@ == with_state(old(self)@[i as int], new_state));
                    self.keeps.set(i, nk);
                    proof {
                        assert(self@ =~= old(self)@.update(
                            i as int,
                            with_state(old(self)@[i as int], new_state),
                        ));
                    }
                    Ok(())
                } else {
                    Err(KeepError::IllegalTransition)
                }
            },
        }
    }

    /// Records where the loader's local channel is bound for the Keep
    /// carrying `id`.
    pub fn set_socket(&mut self, id: u128, path: String) -> (r: Result<(), KeepError>)
        requires
            old(self).wf(),
        ensures
            final(self).wf(),
            (!contains_id(old(self)@, id) ==> r == Err::<(), KeepError>(KeepError::NotFound)
                && final(self)@ == old(self)@),
            (contains_id(old(self)@, id) ==> r == Ok::<(), KeepError>(()) && final(self)@ == old(
                self,
            )@.update(
                index_of_id(old(self)@, id),
                with_socket(old(self)@[index_of_id(old(self)@, id)], path@),
            )),
    {
        match self.find(id) {
            None => Err(KeepError::NotFound),
            Some(i) => {
                proof {
                    lemma_index_of_id(self@, id, i as int);
                }
                let mut nk = self.keeps[i].clone();
                nk.socket_path = Some(path);
                assert(nk@ == with_socket(old(self)@[i as int], nk.socket_path->Some_0@));
                self.keeps.set(i, nk);
                proof {
                    assert(self@ =~= old(self)@.update(
                        i as int,
                        with_socket(old(self)@[i as int], path@),
                    ));
                }
                Ok(())
            },
        }
    }

    /// Attaches the attestation certificate to the Keep carrying `id`. A
    /// certificate, once set, is immutable: a second attempt is rejected and
    /// changes nothing.
    pub fn set_certificate(&mut self, id: u128, cert: Vec<u8>) -> (r: Result<(), KeepError>)
        requires
            old(self).wf(),
        ensures
            final(self).wf(),
            (!contains_id(old(self)@, id) ==> r == Err::<(), KeepError>(KeepError::NotFound)
                && final(self)@ == old(self)@),
            (contains_id(old(self)@, id) && old(self)@[index_of_id(old(self)@, id)].certificate_as_pem
                is Some ==> r == Err::<(), KeepError>(KeepError::IllegalTransition) && final(self)@ == old(
                self,
            )@),
            (contains_id(old(self)@, id) && old(self)@[index_of_id(old(self)@, id)].certificate_as_pem
                is None ==> r == Ok::<(), KeepError>(()) && final(self)@ == old(self)@.update(
                index_of_id(old(self)@, id),
                with_certificate(old(self)@[index_of_id(old(self)@, id)], cert@),
            )),
    {
        match self.find(id) {
            None => Err(KeepError::NotFound),
            Some(i) => {
                proof {
                    lemma_index_of_id(self@, id, i as int);
                }
                let already = match &self.keeps[i].certificate_as_pem {
                    Some(_) => true,
                    None => false,
                };
                if already {
                    Err(KeepError::IllegalTransition)
                } else {
                    let ghost cert_view = cert@;
                    let mut nk = self.keeps[i].clone();
                    nk.certificate_as_pem = Some(cert);
                    assert(nk@ == with_certificate(old(self)@[i as int], cert_view));
                    self.keeps.set(i, nk);
                    proof {
                        assert(self@ =~= old(self)@.update(
                            i as int,
                            with_certificate(old(self)@[i as int], cert_view),
                        ));
                    }
                    Ok(())
                }
            },
        }
    }

    /// A snapshot of every record, in insertion order.
    pub fn list(&self) -> (r: KeepVec)
        ensures
            r@ == self@,
    {
        let mut v: Vec<Keep> = Vec::new();
        let mut i: usize = 0;
        while i < self.keeps.len()
            invariant
                i <= self.keeps.len(),
                v@.len() == i,
                forall|j: int| 0 <= j < i ==> #[trigger] v@[j]@ == self@[j],
            decreases self.keeps.len() - i,
        {
            let c = self.keeps[i].clone();
            v.push(c);
            i = i + 1;
        }
        proof {
            assert forall|j: int| 0 <= j < self@.len() implies #[trigger] keep_views(v@)[j]
                == self@[j] by {
                assert(v@[j]@ == self@[j]);
            }
            assert(keep_views(v@) =~= self@);
        }
        KeepVec { klvec: v }
    }
}

} // verus!

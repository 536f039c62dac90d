//! What a handle loads after what was published through it.

use crate::authority::{refusal_of, PlaneEvent, PlaneSession, TopologyReading};
use crate::laws::planes::{lemma_validated, LockedPlanes};
use crate::port::{PortError, PortResult};
use crate::read_topology::{replacement_events, PlaneAnswers, ShmReadTopologyGeneration};
use crate::shm_client::ShmPlaneAccess;
use crate::shm_path::{PathOrder, ShmPath};
use crate::topology_handle::{
    AdmittedHandle, SharedReadTopologyHandle, ShmReadTopologyHandle,
};
use std::sync::Arc;
use vstd::prelude::*;
use vstd::rwlock::{ReadHandle, RwLock, WriteHandle};

verus! {

/// A new handle loads the generation that it was made with.
pub proof fn law_new_handle_loads_its_generation(
    initial: Arc<ShmReadTopologyGeneration>,
    handle: ShmReadTopologyHandle,
    loaded: Arc<ShmReadTopologyGeneration>,
)
    requires
        call_ensures(ShmReadTopologyHandle::new, (initial,), handle),
        call_ensures(ShmReadTopologyHandle::load, (&handle,), loaded),
    ensures
        *loaded == *initial,
{
}

/// After a publication that succeeded the handle loads exactly the candidate,
/// and after one that was refused exactly what it loaded before. The planes are
/// locked and checked around the one replacement, which is of the slot that the
/// handle loads from.
pub proof fn law_handle_loads_what_was_published<P: ShmPlaneAccess>(
    handle: &mut ShmReadTopologyHandle,
    session: &mut PlaneSession<P>,
    candidate: Arc<ShmReadTopologyGeneration>,
    stands: PathOrder,
    locked: LockedPlanes,
    pinned: TopologyReading,
    before: Arc<ShmReadTopologyGeneration>,
    result: PortResult<()>,
    after: Arc<ShmReadTopologyGeneration>,
)
    requires
        call_ensures(
            ShmPath::compare,
            (&candidate@.point_path, &candidate@.health_path),
            stands,
        ),
        locked.belong_to(candidate@, stands),
        call_ensures(ShmReadTopologyHandle::pin, (&*old(handle),), pinned),
        call_ensures(ShmReadTopologyHandle::load, (&*old(handle),), before),
        call_ensures(
            ShmReadTopologyHandle::publish::<P>,
            (handle, session, candidate),
            result,
        ),
        call_ensures(ShmReadTopologyHandle::load, (&*final(handle),), after),
    ensures
        result is Ok ==> *after == *candidate,
        result is Err ==> *after == *before,
        final(session)@.planes == old(session)@.planes,
        locked.validated(
            &old(session)@.planes,
            old(session)@.events,
            final(session)@.events,
            result,
            seq![
                PlaneEvent::Replacement {
                    slot: pinned@.slot,
                    before: pinned@.history,
                    generation: *candidate,
                },
            ],
        ),
{
    let slot = old(handle).slot();
    let history = old(handle).history();
    let answers = choose|answers: PlaneAnswers|
        {
            &&& #[trigger] answers.possible(&old(session)@.planes, candidate@)
            &&& final(session)@.events == old(session)@.events + answers.events(
                candidate@,
                replacement_events(slot, history, candidate),
            )
            &&& refusal_of(result) == answers.refusal()
        };
    lemma_validated(
        locked,
        candidate@,
        &old(session)@.planes,
        answers,
        old(session)@.events,
        final(session)@.events,
        result,
        replacement_events(slot, history, candidate),
    );
}

/// A shared handle begins with the generation that it was made with and no
/// other, and loads it as long as nothing was published through the handle.
pub proof fn law_new_shared_handle_loads_its_generation(
    initial: Arc<ShmReadTopologyGeneration>,
    handle: SharedReadTopologyHandle,
    pinned: TopologyReading,
    loaded: Arc<ShmReadTopologyGeneration>,
)
    requires
        call_ensures(SharedReadTopologyHandle::new, (initial,), handle),
        call_ensures(SharedReadTopologyHandle::pin, (&handle,), pinned),
        call_ensures(TopologyReading::into_generation, (pinned,), loaded),
    ensures
        pinned@.history.first() == *initial,
        pinned@.history.len() == 1 ==> *loaded == *initial,
        exists|inner: ShmReadTopologyHandle, kept: Ghost<AdmittedHandle>|
            {
                &&& #[trigger] call_ensures(
                    RwLock::<ShmReadTopologyHandle, AdmittedHandle>::new,
                    (inner, kept),
                    handle.lock(),
                )
                &&& inner.slot() == pinned@.slot
                &&& inner.history() == seq![*initial]
            },
{
}

/// What a shared handle loads is pinned in its own slot: it is the last of the
/// generations that this slot held up to then.
pub proof fn law_shared_load_pins_the_own_slot(
    handle: &SharedReadTopologyHandle,
    loaded: Arc<ShmReadTopologyGeneration>,
    other: TopologyReading,
)
    requires
        call_ensures(SharedReadTopologyHandle::load, (handle,), loaded),
        call_ensures(SharedReadTopologyHandle::pin, (handle,), other),
    ensures
        exists|pinned: TopologyReading|
            {
                &&& #[trigger] call_ensures(SharedReadTopologyHandle::pin, (handle,), pinned)
                &&& pinned@.slot == other@.slot
                &&& pinned@.history.len() > 0
                &&& *loaded == pinned@.history.last()
            },
{
}

/// A generation is pinned under the lock of the shared handle, in the slot that
/// the lock guards, and the lock is given back.
pub proof fn law_shared_pin_looks_under_the_lock(
    handle: &SharedReadTopologyHandle,
    pinned: TopologyReading,
)
    requires
        call_ensures(SharedReadTopologyHandle::pin, (handle,), pinned),
    ensures
        exists|guard: ReadHandle<'_, ShmReadTopologyHandle, AdmittedHandle>|
            {
                &&& #[trigger] call_ensures(
                    ReadHandle::<ShmReadTopologyHandle, AdmittedHandle>::release_read,
                    (guard,),
                    (),
                )
                &&& guard.rwlock() == handle.lock()
                &&& guard.view().slot() == pinned@.slot
                &&& guard.view().history() == pinned@.history
            },
{
}

/// A publication through a shared handle locks and checks both planes, and once
/// everything is granted and confirmed replaces the generation in the slot that
/// the handle loads from, and in no other, by the candidate. The slot is given
/// back to the lock with the candidate in it, as the last that it held. Where
/// anything is refused, nothing is replaced.
pub proof fn law_shared_publication_replaces_the_own_slot<P: ShmPlaneAccess>(
    handle: &SharedReadTopologyHandle,
    session: &mut PlaneSession<P>,
    candidate: Arc<ShmReadTopologyGeneration>,
    stands: PathOrder,
    locked: LockedPlanes,
    pinned: TopologyReading,
    result: PortResult<()>,
)
    requires
        call_ensures(
            ShmPath::compare,
            (&candidate@.point_path, &candidate@.health_path),
            stands,
        ),
        locked.belong_to(candidate@, stands),
        call_ensures(SharedReadTopologyHandle::pin, (handle,), pinned),
        call_ensures(
            SharedReadTopologyHandle::publish::<P>,
            (handle, session, candidate),
            result,
        ),
    ensures
        final(session)@.planes == old(session)@.planes,
        exists|replaced: PlaneEvent|
            {
                &&& #[trigger] locked.validated(
                    &old(session)@.planes,
                    old(session)@.events,
                    final(session)@.events,
                    result,
                    seq![replaced],
                )
                &&& replaced matches PlaneEvent::Replacement { slot, before, generation }
                    && slot == pinned@.slot && before.len() > 0 && generation == *candidate && (
                result is Ok ==> exists|
                    guard: WriteHandle<'_, ShmReadTopologyHandle, AdmittedHandle>,
                    inner: ShmReadTopologyHandle,
                |
                    {
                        &&& #[trigger] call_ensures(
                            WriteHandle::<ShmReadTopologyHandle, AdmittedHandle>::release_write,
                            (guard, inner),
                            (),
                        )
                        &&& guard.rwlock() == handle.lock()
                        &&& inner.slot() == slot
                        &&& inner.history() == before.push(generation)
                    })
            },
{
    let (answers, before) = choose|answers: PlaneAnswers, before: Seq<ShmReadTopologyGeneration>|
        {
            &&& #[trigger] answers.possible(&old(session)@.planes, candidate@)
            &&& before.len() > 0
            &&& before.first() == handle.initial()
            &&& final(session)@.events == old(session)@.events + answers.events(
                candidate@,
                #[trigger] replacement_events(handle.slot(), before, candidate),
            )
            &&& refusal_of(result) == answers.refusal()
            &&& result is Ok ==> handle.handed_back(before.push(*candidate))
        };
    let published = replacement_events(handle.slot(), before, candidate);
    lemma_validated(
        locked,
        candidate@,
        &old(session)@.planes,
        answers,
        old(session)@.events,
        final(session)@.events,
        result,
        published,
    );
    assert(published =~= seq![published[0]]);
}

/// After a publication through a shared handle that succeeded, and with no other
/// in between, the handle loads exactly the candidate. The replacement on record
/// is of the slot that the handle loads from, and says what that slot held until
/// then; no other publication lies in between when, at the moment of the load,
/// the slot has held those generations and one more.
pub proof fn law_shared_handle_loads_what_was_published<P: ShmPlaneAccess>(
    handle: &SharedReadTopologyHandle,
    session: &mut PlaneSession<P>,
    candidate: Arc<ShmReadTopologyGeneration>,
    replaced: PlaneEvent,
    pinned: TopologyReading,
    loaded: Arc<ShmReadTopologyGeneration>,
)
    requires
        call_ensures(
            SharedReadTopologyHandle::publish::<P>,
            (handle, session, candidate),
            Ok(()),
        ),
        call_ensures(SharedReadTopologyHandle::pin, (handle,), pinned),
        call_ensures(TopologyReading::into_generation, (pinned,), loaded),
        final(session)@.events.skip(old(session)@.events.len() as int).contains(replaced),
        replaced matches PlaneEvent::Replacement { before, generation, .. } && pinned@.history
            == before.push(generation),
    ensures
        *loaded == *candidate,
        replaced->slot == pinned@.slot,
{
    let (answers, before) = choose|answers: PlaneAnswers, before: Seq<ShmReadTopologyGeneration>|
        {
            &&& #[trigger] answers.possible(&old(session)@.planes, candidate@)
            &&& before.len() > 0
            &&& before.first() == handle.initial()
            &&& final(session)@.events == old(session)@.events + answers.events(
                candidate@,
                #[trigger] replacement_events(handle.slot(), before, candidate),
            )
            &&& refusal_of(Ok::<(), PortError>(())) == answers.refusal()
        };
    let added = answers.events(candidate@, replacement_events(handle.slot(), before, candidate));
    assert(final(session)@.events.skip(old(session)@.events.len() as int) =~= added);
}

} // verus!

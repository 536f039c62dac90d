//! Publication of a read topology.

use crate::authority::{
    generation_after, refusal_of, PlaneSession, SlotIdentity, TopologyReading, TopologySlot,
};
use crate::port::PortResult;
use crate::read_topology::{
    law_every_moment_holds_old_or_candidate, release_pair, replacement_events, validation_outcome,
    PlaneAnswers, ShmReadTopologyGeneration,
};
use crate::shm_client::ShmPlaneAccess;
use std::sync::Arc;
use vstd::prelude::*;
use vstd::rwlock::{ReadHandle, RwLock, RwLockPredicate, WriteHandle};

verus! {

/// After a publication the slot holds the candidate if it was accepted, and
/// else what it held before.
proof fn lemma_after_publication(
    slot: SlotIdentity,
    before: Seq<ShmReadTopologyGeneration>,
    initial: ShmReadTopologyGeneration,
    candidate: Arc<ShmReadTopologyGeneration>,
    answers: PlaneAnswers,
)
    ensures
        generation_after(
            slot,
            initial,
            answers.events(candidate@, replacement_events(slot, before, candidate)),
        ) == if answers.refusal() is None {
            *candidate
        } else {
            initial
        },
{
    let events = answers.events(candidate@, replacement_events(slot, before, candidate));
    assert(events.take(events.len() as int) =~= events);
    law_every_moment_holds_old_or_candidate(
        slot,
        before,
        initial,
        candidate,
        answers,
        events.len(),
    );
}

/// Replaceable read-side topology generation with one owner.
///
/// Publishing takes the handle exclusively, so what a shared borrow loads is
/// what was published last. [`SharedReadTopologyHandle`] is the form that many
/// threads publish through.
pub struct ShmReadTopologyHandle {
    current: TopologySlot,
}

impl View for ShmReadTopologyHandle {
    type V = ShmReadTopologyGeneration;

    closed spec fn view(&self) -> ShmReadTopologyGeneration {
        self.history().last()
    }
}

impl ShmReadTopologyHandle {
    /// The slot that holds the current generation.
    pub closed spec fn slot(&self) -> SlotIdentity {
        self.current@.slot
    }

    /// Every generation that was current, the earliest first.
    pub closed spec fn history(&self) -> Seq<ShmReadTopologyGeneration> {
        self.current@.history
    }

    /// Creates a handle, typically with a lazy startup generation.
    #[must_use]
    pub fn new(initial: Arc<ShmReadTopologyGeneration>) -> (handle: Self)
        ensures
            handle@ == *initial,
            handle.history() == seq![*initial],
    {
        ShmReadTopologyHandle { current: TopologySlot::new(initial) }
    }

    /// Pins the current generation together with the moment at which it is
    /// current.
    #[must_use]
    pub fn pin(&self) -> (reading: TopologyReading)
        ensures
            reading@.slot == self.slot(),
            reading@.history == self.history(),
            reading@.history.last() == self@,
    {
        self.current.read()
    }

    /// Pins one coherent generation for an entire logical read operation.
    #[must_use]
    pub fn load(&self) -> (generation: Arc<ShmReadTopologyGeneration>)
        ensures
            *generation == self@,
            generation@.coherent(),
    {
        let generation = self.pin().into_generation();
        proof {
            use_type_invariant(&*generation);
        }
        generation
    }

    /// Validates and publishes a complete replacement generation.
    ///
    /// The replacement happens while both planes are validation-locked. A
    /// refused candidate leaves the current generation in place.
    pub fn publish<P: ShmPlaneAccess>(
        &mut self,
        session: &mut PlaneSession<P>,
        candidate: Arc<ShmReadTopologyGeneration>,
    ) -> (result: PortResult<()>)
        ensures
            final(session)@.planes == old(session)@.planes,
            exists|answers: PlaneAnswers|
                {
                    &&& #[trigger] answers.possible(&old(session)@.planes, candidate@)
                    &&& final(session)@.events == old(session)@.events + answers.events(
                        candidate@,
                        replacement_events(old(self).slot(), old(self).history(), candidate),
                    )
                    &&& refusal_of(result) == answers.refusal()
                    &&& final(self)@ == generation_after(
                        old(self).slot(),
                        old(self)@,
                        answers.events(
                            candidate@,
                            replacement_events(old(self).slot(), old(self).history(), candidate),
                        ),
                    )
                },
            result is Ok ==> final(self)@ == *candidate,
            result is Err ==> final(self)@ == old(self)@,
            final(self).slot() == old(self).slot(),
            final(self).history() == if result is Ok {
                old(self).history().push(*candidate)
            } else {
                old(self).history()
            },
    {
        let ghost before = session@.events;
        let ghost replacement = replacement_events(self.slot(), self.history(), candidate);
        let (validated, Ghost(answers)) = candidate.validated_leases(session);
        proof {
            lemma_after_publication(self.slot(), self.history(), self@, candidate, answers);
        }
        match validated {
            Ok(held) => {
                session.replace(&mut self.current, candidate);
                release_pair(session, held);
                assert(session@.events =~= before + answers.events(candidate@, replacement));
                Ok(())
            },
            Err(error) => {
                assert(answers.events(candidate@, replacement) =~= answers.events(
                    candidate@,
                    Seq::empty(),
                ));
                Err(error)
            },
        }
    }
}

/// What the lock of a [`SharedReadTopologyHandle`] guards: one handle, with the
/// slot and the initial generation that it was made with, whose generation is
/// coherent and admitted.
pub struct AdmittedHandle {
    /// The generations that may be met.
    pub admitted: Set<ShmReadTopologyGeneration>,
    /// The slot of the handle.
    pub slot: SlotIdentity,
    /// The generation that the handle was made with.
    pub initial: ShmReadTopologyGeneration,
}

impl RwLockPredicate<ShmReadTopologyHandle> for AdmittedHandle {
    open spec fn inv(self, handle: ShmReadTopologyHandle) -> bool {
        &&& handle@@.coherent()
        &&& self.admitted.contains(handle@)
        &&& handle.slot() == self.slot
        &&& handle.history().len() > 0
        &&& handle.history().first() == self.initial
        &&& handle.history().last() == handle@
    }
}

/// Read-side topology generation that many threads load and publish at once.
///
/// Which generation a load meets depends on the other threads. But where the
/// initial generation and every accepted candidate belong to one set, so does
/// every loaded generation: a load that runs beside a publication meets the
/// generation from before it or the candidate, and nothing else. The lock is
/// held for the one exchange of a publication, which is one event of the
/// session that made it, and which names the slot of this handle and the
/// generations that the slot held until then. So a generation that is pinned
/// while that slot has held no further one is the candidate.
pub struct SharedReadTopologyHandle {
    handle: RwLock<ShmReadTopologyHandle, AdmittedHandle>,
}

impl SharedReadTopologyHandle {
    /// The generations that this handle may ever hold.
    pub closed spec fn admitted(&self) -> Set<ShmReadTopologyGeneration> {
        self.handle.pred().admitted
    }

    /// The lock that the threads meet at.
    pub closed spec fn lock(&self) -> RwLock<ShmReadTopologyHandle, AdmittedHandle> {
        self.handle
    }

    /// The one slot that this handle publishes in and loads from.
    pub closed spec fn slot(&self) -> SlotIdentity {
        self.handle.pred().slot
    }

    /// The generation that this handle was made with.
    pub closed spec fn initial(&self) -> ShmReadTopologyGeneration {
        self.handle.pred().initial
    }

    /// The lock of this handle was made around its slot, which had held nothing
    /// but the initial generation then.
    pub open spec fn made_with_initial(&self) -> bool {
        exists|inner: ShmReadTopologyHandle, kept: Ghost<AdmittedHandle>|
            {
                &&& #[trigger] call_ensures(
                    RwLock::<ShmReadTopologyHandle, AdmittedHandle>::new,
                    (inner, kept),
                    self.lock(),
                )
                &&& inner.slot() == self.slot()
                &&& inner.history() == seq![self.initial()]
            }
    }

    /// The lock of this handle was given back with its slot in it, after the
    /// slot had held the generations of `history`, the last of them then.
    pub open spec fn handed_back(&self, history: Seq<ShmReadTopologyGeneration>) -> bool {
        exists|
            guard: WriteHandle<'_, ShmReadTopologyHandle, AdmittedHandle>,
            handle: ShmReadTopologyHandle,
        |
            {
                &&& #[trigger] call_ensures(
                    WriteHandle::<ShmReadTopologyHandle, AdmittedHandle>::release_write,
                    (guard, handle),
                    (),
                )
                &&& guard.rwlock() == self.lock()
                &&& handle.slot() == self.slot()
                &&& handle.history() == history
            }
    }

    /// The lock of this handle was shared and given back, and its slot had held
    /// the generations of `history` meanwhile.
    pub open spec fn looked_at(&self, history: Seq<ShmReadTopologyGeneration>) -> bool {
        exists|guard: ReadHandle<'_, ShmReadTopologyHandle, AdmittedHandle>|
            {
                &&& #[trigger] call_ensures(
                    ReadHandle::<ShmReadTopologyHandle, AdmittedHandle>::release_read,
                    (guard,),
                    (),
                )
                &&& guard.rwlock() == self.lock()
                &&& guard.view().slot() == self.slot()
                &&& guard.view().history() == history
            }
    }

    /// Creates a handle, typically with a lazy startup generation, through which
    /// any generation may be published.
    #[must_use]
    pub fn new(initial: Arc<ShmReadTopologyGeneration>) -> (handle: Self)
        ensures
            handle.admitted() == Set::<ShmReadTopologyGeneration>::full(),
            handle.initial() == *initial,
            handle.made_with_initial(),
    {
        Self::admitting(initial, Ghost(Set::full()))
    }

    /// Creates a handle through which only generations of the given set may be
    /// published.
    #[must_use]
    pub fn admitting(
        initial: Arc<ShmReadTopologyGeneration>,
        Ghost(admitted): Ghost<Set<ShmReadTopologyGeneration>>,
    ) -> (handle: Self)
        requires
            admitted.contains(*initial),
        ensures
            handle.admitted() == admitted,
            handle.initial() == *initial,
            handle.made_with_initial(),
    {
        proof {
            use_type_invariant(&*initial);
        }
        let handle = ShmReadTopologyHandle::new(initial);
        let kept: Ghost<AdmittedHandle> = Ghost(
            AdmittedHandle { admitted, slot: handle.slot(), initial: handle.history().first() },
        );
        let shared = SharedReadTopologyHandle { handle: RwLock::new(handle, kept) };
        assert(handle.history() =~= seq![shared.initial()]);
        assert(call_ensures(
            RwLock::<ShmReadTopologyHandle, AdmittedHandle>::new,
            (handle, kept),
            shared.lock(),
        ));
        shared
    }

    /// Pins the current generation together with the moment at which it is
    /// current: the slot of this handle, and the generations that it held up to
    /// then.
    #[must_use]
    pub fn pin(&self) -> (reading: TopologyReading)
        ensures
            reading@.slot == self.slot(),
            reading@.history.len() > 0,
            reading@.history.first() == self.initial(),
            reading@.history.last()@.coherent(),
            self.admitted().contains(reading@.history.last()),
            self.looked_at(reading@.history),
    {
        let guard = self.handle.acquire_read();
        let reading = guard.borrow().pin();
        guard.release_read();
        reading
    }

    /// Pins one coherent generation for an entire logical read operation.
    #[must_use]
    pub fn load(&self) -> (generation: Arc<ShmReadTopologyGeneration>)
        ensures
            generation@.coherent(),
            self.admitted().contains(*generation),
            exists|reading: TopologyReading|
                {
                    &&& #[trigger] call_ensures(Self::pin, (self,), reading)
                    &&& *generation == reading@.history.last()
                },
    {
        self.pin().into_generation()
    }

    /// Validates and publishes a complete replacement generation. The
    /// replacement happens in this handle's own slot while both planes are
    /// validation-locked, and not at all where the validation fails.
    pub fn publish<P: ShmPlaneAccess>(
        &self,
        session: &mut PlaneSession<P>,
        candidate: Arc<ShmReadTopologyGeneration>,
    ) -> (result: PortResult<()>)
        requires
            validation_outcome(&old(session)@.planes, candidate@, None)
                ==> self.admitted().contains(*candidate),
        ensures
            final(session)@.planes == old(session)@.planes,
            exists|answers: PlaneAnswers, before: Seq<ShmReadTopologyGeneration>|
                {
                    &&& #[trigger] answers.possible(&old(session)@.planes, candidate@)
                    &&& before.len() > 0
                    &&& before.first() == self.initial()
                    &&& final(session)@.events == old(session)@.events + answers.events(
                        candidate@,
                        #[trigger] replacement_events(self.slot(), before, candidate),
                    )
                    &&& refusal_of(result) == answers.refusal()
                    &&& result is Ok ==> self.handed_back(before.push(*candidate))
                },
    {
        proof {
            use_type_invariant(&*candidate);
        }
        let ghost recorded = session@.events;
        let (validated, Ghost(answers)) = candidate.validated_leases(session);
        match validated {
            Ok(held) => {
                assert(validation_outcome(&old(session)@.planes, candidate@, None));
                let (mut handle, guard) = self.handle.acquire_write();
                let ghost before = handle.history();
                let ghost replacement = replacement_events(self.slot(), before, candidate);
                session.replace(&mut handle.current, candidate);
                guard.release_write(handle);
                assert(self.handed_back(before.push(*candidate)));
                release_pair(session, held);
                assert(session@.events =~= recorded + answers.events(candidate@, replacement));
                Ok(())
            },
            Err(error) => {
                let ghost before = seq![self.initial()];
                let ghost replacement = replacement_events(self.slot(), before, candidate);
                assert(answers.events(candidate@, replacement) =~= answers.events(
                    candidate@,
                    Seq::empty(),
                ));
                Err(error)
            },
        }
    }
}

} // verus!

//! The instance registry: arena-style storage of live sequence instances
//! behind generation-checked handles.
//!
//! One sequence may stop another, and the stopped instance may already have
//! ended on its own: the registry makes that safe.  Each slot carries a
//! generation that is bumped when its entry is removed, and a handle is only
//! honoured while its generation matches, so a stale handle resolves to "not
//! found" — a benign no-op, never an error and never an alias onto an
//! unrelated instance that reused the slot.
//!
//! [`Registry::tick_all`] drives one host tick across every live instance:
//! each is settled against the shared beat count, its stop requests are
//! applied to the registry at once (so a superseded loop dies within the
//! same tick that queued its replacement), and instances that have
//! terminated with nothing left to drain are garbage-collected.

use vstd::prelude::*;

use crate::handle::InstanceHandle;
use crate::instance::Instance;
use crate::program::Action;

verus! {

struct Slot {
    generation: u64,
    entry: Option<Instance>,
}

/// True when `acts` asks to stop the instance behind `h`.
pub open spec fn stops_handle(acts: Seq<Action>, h: InstanceHandle) -> bool {
    exists|j: int|
        0 <= j < acts.len() && ((#[trigger] acts[j]) matches Action::Stop(target, _) && target == h)
}

/// A ticked instance with nothing left to observe: terminated, and its
/// event queue drained or never filled.  Such an entry is collected.
pub open spec fn collectable(inst: Instance, now: u64) -> bool {
    &&& inst.tick_outcome(now).state.terminated
    &&& crate::instance::tail_cap(
        inst.events() + inst.tick_outcome(now).events,
        inst.queue_capacity(),
    ).len() == 0
}

/// Why a pass of [`Registry::tick_all`] may drop an entry: it was
/// collectable, or some instance that was live at the start of the pass
/// asked to stop it.
pub open spec fn removal_reason(reg: Registry, h: InstanceHandle, now: u64) -> bool {
    ||| collectable(reg.inst(h), now)
    ||| exists|g: InstanceHandle|
        #[trigger] reg.live(g) && stops_handle(reg.inst(g).tick_outcome(now).actions, h)
}

/// True when `a` is among the actions that some instance live in `reg`
/// produces when ticked with `now`.
pub open spec fn action_of_some_live(reg: Registry, a: Action, now: u64) -> bool {
    exists|g: InstanceHandle|
        #[trigger] reg.live(g) && reg.inst(g).tick_outcome(now).actions.contains(a)
}

/// Arena of live sequence instances, addressed by generation-checked
/// [`InstanceHandle`]s.
pub struct Registry {
    slots: Vec<Slot>,
}

impl Registry {
    /// How many slots the arena holds (live or vacated).
    pub closed spec fn slot_count(&self) -> int {
        self.slots@.len() as int
    }

    /// The generation of slot `i`.
    pub closed spec fn gen_at(&self, i: int) -> int {
        self.slots@[i].generation as int
    }

    /// The entry of slot `i`.
    pub closed spec fn entry_at(&self, i: int) -> Option<Instance> {
        self.slots@[i].entry
    }

    /// Whether `h` currently resolves to an instance: its slot exists, the
    /// generation matches, and the slot is occupied.
    pub open spec fn live(&self, h: InstanceHandle) -> bool {
        &&& h.index < self.slot_count()
        &&& self.gen_at(h.index as int) == h.generation as int
        &&& self.entry_at(h.index as int) is Some
    }

    /// The instance behind a live handle.
    pub open spec fn inst(&self, h: InstanceHandle) -> Instance {
        self.entry_at(h.index as int).unwrap()
    }

    pub open spec fn wf(&self) -> bool {
        forall|i: int|
            0 <= i < self.slot_count() && #[trigger] self.entry_at(i) is Some ==> {
                &&& self.entry_at(i).unwrap().wf()
                &&& self.gen_at(i) < u64::MAX as int
            }
    }

    /// An empty registry.
    pub fn new() -> (reg: Registry)
        ensures
            reg.wf(),
            reg.slot_count() == 0,
            forall|h: InstanceHandle| !(#[trigger] reg.live(h)),
    {
        Registry { slots: Vec::new() }
    }

    /// Stores `inst` and returns a fresh handle to it.  The handle never
    /// aliases any handle handed out earlier: vacated slots are reused only
    /// under a new generation.
    pub fn register(&mut self, inst: Instance) -> (h: InstanceHandle)
        requires
            old(self).wf(),
            inst.wf(),
        ensures
            final(self).wf(),
            final(self).live(h),
            final(self).inst(h) == inst,
            !old(self).live(h),
            forall|g: InstanceHandle|
                g != h ==> #[trigger] final(self).live(g) == old(self).live(g),
            forall|g: InstanceHandle|
                g != h && old(self).live(g) ==> #[trigger] final(self).inst(g) == old(
                    self,
                ).inst(g),
    {
        let n = self.slots.len();
        let mut i: usize = 0;
        while i < n
            invariant
                *self == *old(self),
                old(self).wf(),
                inst.wf(),
                n as int == self.slot_count(),
                i <= n,
            decreases n - i,
        {
            let vacant = self.slots[i].entry.is_none();
            let reusable = self.slots[i].generation < u64::MAX;
            if vacant && reusable {
                let ghost prev = *self;
                let generation = self.slots[i].generation;
                self.slots[i] = Slot { generation, entry: Some(inst) };
                let h = InstanceHandle { index: i, generation };
                proof {
                    assert(self.slots@ == prev.slots@.update(
                        i as int,
                        Slot { generation, entry: Some(inst) },
                    ));
                    assert(self.entry_at(i as int) == Some(inst));
                    assert forall|j: int|
                        0 <= j < self.slot_count() && #[trigger] self.entry_at(j)
                            is Some implies self.entry_at(j).unwrap().wf() && self.gen_at(j)
                        < u64::MAX as int by {
                        if j != i as int {
                            assert(prev.entry_at(j) is Some);
                        } else {
                            assert(self.entry_at(j) == Some(inst));
                            assert(self.entry_at(j).unwrap() == inst);
                            assert(inst.wf());
                        }
                    }
                }
                return h;
            }
            i = i + 1;
        }
        let ghost prev = *self;
        self.slots.push(Slot { generation: 0, entry: Some(inst) });
        let h = InstanceHandle { index: n, generation: 0 };
        proof {
            assert forall|j: int|
                0 <= j < self.slot_count() && #[trigger] self.entry_at(j)
                    is Some implies self.entry_at(j).unwrap().wf() && self.gen_at(j)
                < u64::MAX as int by {
                if j != n as int {
                    assert(prev.entry_at(j) is Some);
                }
            }
        }
        h
    }

    /// Removes the entry behind `h` and retires the handle by bumping the
    /// slot's generation.  A stale or unknown handle is a benign no-op:
    /// `found` reports whether anything was there, and is never an error.
    pub fn remove(&mut self, h: InstanceHandle) -> (found: bool)
        requires
            old(self).wf(),
        ensures
            final(self).wf(),
            final(self).slot_count() == old(self).slot_count(),
            found == old(self).live(h),
            !final(self).live(h),
            !old(self).live(h) ==> *final(self) == *old(self),
            forall|j: int|
                0 <= j < old(self).slot_count() && j != h.index as int ==> final(self).gen_at(j)
                    == old(self).gen_at(j) && #[trigger] final(self).entry_at(j) == old(
                    self,
                ).entry_at(j),
            old(self).live(h) ==> final(self).gen_at(h.index as int) == old(self).gen_at(
                h.index as int,
            ) + 1 && final(self).entry_at(h.index as int) is None,
            forall|g: InstanceHandle|
                g != h ==> #[trigger] final(self).live(g) == old(self).live(g),
            forall|g: InstanceHandle|
                g != h && old(self).live(g) ==> #[trigger] final(self).inst(g) == old(
                    self,
                ).inst(g),
    {
        if h.index >= self.slots.len() {
            return false;
        }
        let matches_gen = self.slots[h.index].generation == h.generation;
        let occupied = self.slots[h.index].entry.is_some();
        if matches_gen && occupied {
            proof {
                assert(old(self).entry_at(h.index as int) is Some);
            }
            let generation = self.slots[h.index].generation;
            self.slots[h.index] = Slot { generation: generation + 1, entry: None };
            proof {
                assert forall|j: int|
                    0 <= j < self.slot_count() && #[trigger] self.entry_at(j)
                        is Some implies self.entry_at(j).unwrap().wf() && self.gen_at(j)
                    < u64::MAX as int by {
                    assert(j != h.index as int);
                    assert(old(self).entry_at(j) is Some);
                }
            }
            true
        } else {
            false
        }
    }

    /// Pops the oldest queued event of the instance behind `h`, in
    /// first-in-first-out order.  `None` when the queue is empty or the
    /// handle no longer resolves.  Never blocks; safe to call at any
    /// cadence, ticked or not.
    pub fn pop_event(&mut self, h: InstanceHandle) -> (r: Option<u64>)
        requires
            old(self).wf(),
        ensures
            final(self).wf(),
            final(self).slot_count() == old(self).slot_count(),
            forall|g: InstanceHandle| #[trigger] final(self).live(g) == old(self).live(g),
            !old(self).live(h) ==> r is None && *final(self) == *old(self),
            forall|g: InstanceHandle|
                g != h && old(self).live(g) ==> #[trigger] final(self).inst(g) == old(
                    self,
                ).inst(g),
            old(self).live(h) ==> {
                let before = old(self).inst(h);
                let after = final(self).inst(h);
                &&& after.program() == before.program()
                &&& after.sched() == before.sched()
                &&& after.high() == before.high()
                &&& after.queue_capacity() == before.queue_capacity()
                &&& (before.events().len() == 0 ==> r is None && after.events() == before.events())
                &&& (before.events().len() > 0 ==> r == Some(before.events()[0])
                    && after.events() == before.events().skip(1))
            },
    {
        if h.index >= self.slots.len() {
            return None;
        }
        if self.slots[h.index].generation != h.generation {
            return None;
        }
        if self.slots[h.index].entry.is_none() {
            return None;
        }
        proof {
            assert(old(self).entry_at(h.index as int) is Some);
        }
        let mut taken = Slot { generation: 0, entry: None };
        core::mem::swap(&mut self.slots[h.index], &mut taken);
        let r = match &mut taken.entry {
            Some(inst) => inst.pop_event(),
            None => None,
        };
        self.slots[h.index] = taken;
        proof {
            assert forall|j: int|
                0 <= j < self.slot_count() && #[trigger] self.entry_at(j)
                    is Some implies self.entry_at(j).unwrap().wf() && self.gen_at(j)
                < u64::MAX as int by {
                if j != h.index as int {
                    assert(old(self).entry_at(j) is Some);
                }
            }
        }
        r
    }

    /// Ticks every live instance against beat count `now`, in slot order.
    /// Each instance settles exactly per [`crate::instance::run`]; the stop
    /// requests it produced are applied to the registry immediately after
    /// its own tick (so a superseded instance dies within the same pass);
    /// entries that have terminated with an empty event queue are
    /// collected.  Every action produced is also returned, in order, for
    /// the playback layer.  Entries are only ever removed for a reason: a
    /// surviving handle resolves to exactly the settled instance, and a
    /// dropped one was either collectable or stopped by an instance that
    /// was live when the pass began.
    pub fn tick_all(&mut self, now: u64) -> (out: Vec<Action>)
        requires
            old(self).wf(),
        ensures
            final(self).wf(),
            final(self).slot_count() == old(self).slot_count(),
            forall|h: InstanceHandle| #[trigger] final(self).live(h) ==> old(self).live(h),
            forall|h: InstanceHandle|
                #[trigger] final(self).live(h) ==> old(self).inst(h).ticked_to(
                    final(self).inst(h),
                    now,
                ) && !(final(self).inst(h).terminated() && final(self).inst(h).events().len()
                    == 0),
            forall|h: InstanceHandle|
                old(self).live(h) && !(#[trigger] final(self).live(h)) ==> removal_reason(
                    *old(self),
                    h,
                    now,
                ),
            forall|j: int|
                0 <= j < out@.len() ==> action_of_some_live(*old(self), #[trigger] out@[j], now),
    {
        let n = self.slots.len();
        let mut out: Vec<Action> = Vec::new();
        let mut i: usize = 0;
        while i < n
            invariant
                old(self).wf(),
                self.wf(),
                n as int == self.slot_count(),
                self.slot_count() == old(self).slot_count(),
                i <= n,
                forall|h: InstanceHandle| #[trigger] self.live(h) ==> old(self).live(h),
                forall|h: InstanceHandle|
                    #[trigger] self.live(h) && h.index >= i ==> self.inst(h) == old(self).inst(h),
                forall|h: InstanceHandle|
                    #[trigger] self.live(h) && h.index < i ==> old(self).inst(h).ticked_to(
                        self.inst(h),
                        now,
                    ) && !(self.inst(h).terminated() && self.inst(h).events().len() == 0),
                forall|h: InstanceHandle|
                    old(self).live(h) && !(#[trigger] self.live(h)) ==> removal_reason(
                        *old(self),
                        h,
                        now,
                    ),
                forall|j: int|
                    0 <= j < out@.len() ==> action_of_some_live(
                        *old(self),
                        #[trigger] out@[j],
                        now,
                    ),
            decreases n - i,
        {
            let occupied = self.slots[i].entry.is_some();
            if !occupied {
                i = i + 1;
                continue ;
            }
            let g = self.slots[i].generation;
            let ghost h_i = InstanceHandle { index: i, generation: g };
            proof {
                assert(self.entry_at(i as int) is Some);
                assert(self.live(h_i));
                assert(old(self).live(h_i));
            }
            let ghost prev0 = *self;
            let mut taken = Slot { generation: 0, entry: None };
            core::mem::swap(&mut self.slots[i], &mut taken);
            let mut inst = taken.entry.unwrap();
            proof {
                assert(inst == old(self).inst(h_i));
                assert(self.entry_at(i as int) is None);
                assert forall|jj: int|
                    0 <= jj < self.slot_count() && #[trigger] self.entry_at(jj)
                        is Some implies self.entry_at(jj).unwrap().wf() && self.gen_at(jj)
                    < u64::MAX as int by {
                    assert(jj != i as int);
                    assert(prev0.entry_at(jj) is Some);
                }
                assert forall|h: InstanceHandle| #[trigger] self.live(h) implies prev0.live(h)
                    && h.index != i by {
                    assert(h.index != i as int);
                }
                assert forall|h: InstanceHandle|
                    old(self).live(h) && !(#[trigger] self.live(h)) && h != h_i
                        implies removal_reason(*old(self), h, now) by {
                    if h.index == i as int {
                        assert(h.generation as int == old(self).gen_at(i as int));
                        assert(h.generation == g);
                        assert(h == h_i);
                    } else {
                        assert(self.live(h) == prev0.live(h));
                    }
                }
            }
            let acts = inst.tick(now);
            proof {
                assert(old(self).inst(h_i).ticked_to(inst, now));
                assert(acts@ == old(self).inst(h_i).tick_outcome(now).actions);
            }
            let total = acts.len();
            let mut j: usize = 0;
            let mut self_stop = false;
            while j < total
                invariant
                    old(self).wf(),
                    self.wf(),
                    n as int == self.slot_count(),
                    self.slot_count() == old(self).slot_count(),
                    i < n,
                    j <= total,
                    total as int == acts@.len(),
                    h_i == (InstanceHandle { index: i, generation: g }),
                    old(self).live(h_i),
                    acts@ == old(self).inst(h_i).tick_outcome(now).actions,
                    inst.wf(),
                    old(self).inst(h_i).ticked_to(inst, now),
                    self.entry_at(i as int) is None,
                    self_stop ==> stops_handle(acts@, h_i),
                    forall|h: InstanceHandle| #[trigger] self.live(h) ==> old(self).live(h),
                    forall|h: InstanceHandle|
                        #[trigger] self.live(h) && h.index >= i ==> self.inst(h) == old(
                            self,
                        ).inst(h),
                    forall|h: InstanceHandle|
                        #[trigger] self.live(h) && h.index < i ==> old(self).inst(h).ticked_to(
                            self.inst(h),
                            now,
                        ) && !(self.inst(h).terminated() && self.inst(h).events().len() == 0),
                    forall|h: InstanceHandle|
                        old(self).live(h) && !(#[trigger] self.live(h)) && h != h_i
                            ==> removal_reason(*old(self), h, now),
                    forall|jj: int|
                        0 <= jj < out@.len() ==> action_of_some_live(
                            *old(self),
                            #[trigger] out@[jj],
                            now,
                        ),
                decreases total - j,
            {
                let a = acts[j];
                proof {
                    assert(acts@.contains(a));
                    assert(action_of_some_live(*old(self), a, now));
                }
                out.push(a);
                match a {
                    Action::Stop(target, _fade_ms) => {
                        if target.index == i && target.generation == g {
                            self_stop = true;
                            proof {
                                assert(stops_handle(acts@, h_i));
                            }
                        } else {
                            let ghost before = *self;
                            let found = self.remove(target);
                            proof {
                                if found {
                                    assert(before.live(target));
                                    assert(old(self).live(target));
                                    assert(stops_handle(acts@, target));
                                    assert(removal_reason(*old(self), target, now));
                                }
                            }
                        }
                    },
                    Action::Play(..) => {},
                }
                j = j + 1;
            }
            let finished = inst.is_terminated();
            let drained = inst.event_count() == 0;
            if self_stop || (finished && drained) {
                let ghost prev = *self;
                self.slots[i] = Slot { generation: g + 1, entry: None };
                proof {
                    if !self_stop {
                        assert(collectable(old(self).inst(h_i), now));
                    }
                    assert(removal_reason(*old(self), h_i, now));
                    assert forall|jj: int|
                        0 <= jj < self.slot_count() && #[trigger] self.entry_at(jj)
                            is Some implies self.entry_at(jj).unwrap().wf() && self.gen_at(jj)
                        < u64::MAX as int by {
                        assert(jj != i as int);
                        assert(prev.entry_at(jj) is Some);
                    }
                    assert forall|h: InstanceHandle| #[trigger] self.live(h) implies prev.live(h)
                        && h.index != i by {
                        assert(h.index != i as int);
                    }
                    assert forall|h: InstanceHandle|
                        old(self).live(h) && !(#[trigger] self.live(h)) implies removal_reason(
                        *old(self),
                        h,
                        now,
                    ) by {
                        if h.index == i as int {
                            assert(h.generation as int == old(self).gen_at(i as int));
                            assert(h == h_i);
                        } else {
                            assert(self.live(h) == prev.live(h));
                        }
                    }
                }
            } else {
                let ghost prev = *self;
                self.slots[i] = Slot { generation: g, entry: Some(inst) };
                proof {
                    assert(self.entry_at(i as int) == Some(inst));
                    assert(self.live(h_i) && self.inst(h_i) == inst);
                    assert forall|jj: int|
                        0 <= jj < self.slot_count() && #[trigger] self.entry_at(jj)
                            is Some implies self.entry_at(jj).unwrap().wf() && self.gen_at(jj)
                        < u64::MAX as int by {
                        if jj != i as int {
                            assert(prev.entry_at(jj) is Some);
                        } else {
                            assert(self.entry_at(jj).unwrap() == inst);
                        }
                    }
                    assert forall|h: InstanceHandle| #[trigger] self.live(h) && h.index != i
                        implies prev.live(h) by {
                    }
                    assert forall|h: InstanceHandle| #[trigger] self.live(h) && h.index == i
                        implies h == h_i by {
                        assert(h.generation == g);
                    }
                    assert forall|h: InstanceHandle|
                        old(self).live(h) && !(#[trigger] self.live(h)) implies removal_reason(
                        *old(self),
                        h,
                        now,
                    ) by {
                        if h.index == i as int {
                            assert(h.generation as int == old(self).gen_at(i as int));
                            assert(h == h_i);
                            assert(self.live(h_i));
                        } else {
                            assert(self.live(h) == prev.live(h));
                        }
                    }
                }
            }
            i = i + 1;
        }
        out
    }

    /// Whether `h` currently resolves to an instance.
    pub fn is_live(&self, h: InstanceHandle) -> (r: bool)
        ensures
            r == self.live(h),
    {
        if h.index >= self.slots.len() {
            return false;
        }
        self.slots[h.index].generation == h.generation && self.slots[h.index].entry.is_some()
    }

    /// Removes every entry and retires every handle.  Draining any handle's
    /// events afterwards yields nothing: they all resolve to "not found".
    pub fn clear(&mut self)
        requires
            old(self).wf(),
        ensures
            final(self).wf(),
            final(self).slot_count() == old(self).slot_count(),
            forall|h: InstanceHandle| !(#[trigger] final(self).live(h)),
    {
        let n = self.slots.len();
        let mut i: usize = 0;
        while i < n
            invariant
                self.wf(),
                n as int == self.slot_count(),
                i <= n,
                forall|j: int| 0 <= j < i ==> #[trigger] self.entry_at(j) is None,
            decreases n - i,
        {
            let occupied = self.slots[i].entry.is_some();
            if occupied {
                proof {
                    assert(self.entry_at(i as int) is Some);
                }
                let ghost prev = *self;
                let generation = self.slots[i].generation;
                self.slots[i] = Slot { generation: generation + 1, entry: None };
                proof {
                    assert forall|j: int|
                        0 <= j < self.slot_count() && #[trigger] self.entry_at(j)
                            is Some implies self.entry_at(j).unwrap().wf() && self.gen_at(j)
                        < u64::MAX as int by {
                        assert(j != i as int);
                        assert(prev.entry_at(j) is Some);
                    }
                    assert forall|j: int| 0 <= j < i + 1 implies #[trigger] self.entry_at(j)
                        is None by {
                        if j < i as int {
                            assert(prev.entry_at(j) is None);
                        }
                    }
                }
            } else {
                proof {
                    assert(self.entry_at(i as int) is None);
                }
            }
            i = i + 1;
        }
    }
}

} // verus!

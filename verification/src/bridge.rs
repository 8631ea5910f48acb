//! The stateful bridge.
//!
//! A `Bridge` owns every live instance of one peripheral type and exposes
//! the fixed entry-point set the host calls: `stateful_init` hands out an
//! opaque handle (a nonzero integer; `0` plays the role of the null
//! pointer), `stateful_read` / `stateful_write` / `stateful_reset` borrow
//! the instance behind a handle for the middle of its lifecycle, and
//! `stateful_drop` ends the instance's life exactly once. Failures of
//! `init` are routed into the last-error channel. The handle-table
//! contracts rule out leaks, double frees and use after free for every
//! caller that meets them.

use vstd::prelude::*;
use vstd::set_lib::set_int_range;

use crate::errors::{ErrorSlot, update_last_error};
use crate::lifecycle::Peripheral;

verus! {

/// The handle table for one peripheral type, plus the optional static
/// name declared for it.
pub struct Bridge<P: Peripheral> {
    slots: Vec<Option<P>>,
    live_count: usize,
    name: Option<Vec<u8>>,
}

impl<P: Peripheral> Bridge<P> {
    /// The live instances, as a map from handle to instance state.
    pub closed spec fn instances(&self) -> Map<int, P> {
        Map::new(
            |h: int| 1 <= h <= self.slots@.len() && self.slots@[h - 1] is Some,
            |h: int| self.slots@[h - 1]->Some_0,
        )
    }

    /// The handles that are currently live.
    pub open spec fn live(&self) -> Set<int> {
        self.instances().dom()
    }

    /// The nul-terminated name handed to the host, if one was declared.
    pub closed spec fn name_view(&self) -> Option<Seq<u8>> {
        match self.name {
            Some(n) => Some(n@),
            None => None,
        }
    }

    /// How many handle slots have ever been allocated.
    pub closed spec fn slot_count(&self) -> int {
        self.slots@.len() as int
    }

    /// Every live instance is well formed, and the live counter matches
    /// the number of live handles.
    pub closed spec fn inv(&self) -> bool {
        &&& forall|i: int|
            0 <= i < self.slots@.len() && self.slots@[i] is Some ==> (
            #[trigger] self.slots@[i])->Some_0.inv()
        &&& self.instances().dom().finite()
        &&& self.live_count == self.instances().dom().len()
    }

    /// A bridge with no live instances and no declared name.
    pub fn new() -> (r: Bridge<P>)
        ensures
            r.inv(),
            r.instances() == Map::<int, P>::empty(),
            r.name_view() is None,
            r.slot_count() == 0,
    {
        let r = Bridge { slots: Vec::new(), live_count: 0, name: None };
        proof {
            assert(r.instances() =~= Map::<int, P>::empty());
            assert(r.instances().dom() =~= Set::<int>::empty());
        }
        r
    }

    /// A bridge whose `name` entry point reports the given name; the
    /// terminating nul byte is appended here, once, for the lifetime of
    /// the bridge.
    pub fn with_name(name: Vec<u8>) -> (r: Bridge<P>)
        ensures
            r.inv(),
            r.instances() == Map::<int, P>::empty(),
            r.name_view() == Some(name@ + seq![0u8]),
            r.slot_count() == 0,
    {
        let stored = name_with_nul(&name);
        let r = Bridge { slots: Vec::new(), live_count: 0, name: Some(stored) };
        proof {
            assert(r.instances() =~= Map::<int, P>::empty());
            assert(r.instances().dom() =~= Set::<int>::empty());
        }
        r
    }

    /// The nul-terminated static name, if one was declared. The host must
    /// not free it.
    pub fn name(&self) -> (r: Option<&Vec<u8>>)
        ensures
            match r {
                Some(n) => self.name_view() == Some(n@),
                None => self.name_view() is None,
            },
    {
        match &self.name {
            Some(n) => Some(n),
            None => None,
        }
    }

    /// The live handles stay within the allocated slots.
    proof fn lemma_live_bounds(&self)
        ensures
            self.instances().dom().finite(),
            self.instances().dom().len() <= self.slots@.len(),
            forall|h: int| #[trigger]
                self.instances().dom().contains(h) ==> 1 <= h <= self.slots@.len(),
    {
        let dom = self.instances().dom();
        let range = set_int_range(1, self.slots@.len() + 1int);
        assert(dom <= range);
        vstd::set_lib::lemma_int_range(1, self.slots@.len() + 1int);
        vstd::set_lib::lemma_len_subset(dom, range);
    }

    /// Whether `handle` is currently live.
    pub fn is_live(&self, handle: usize) -> (r: bool)
        requires
            self.inv(),
        ensures
            r == self.live().contains(handle as int),
    {
        if handle == 0 || handle > self.slots.len() {
            false
        } else {
            match &self.slots[handle - 1] {
                Some(_) => true,
                None => false,
            }
        }
    }

    /// How many handle slots have ever been allocated; `stateful_init`
    /// asks for room for one more.
    pub fn slots_used(&self) -> (r: usize)
        ensures
            r == self.slot_count(),
    {
        self.slots.len()
    }

    /// How many instances are currently live: the allocation counter a
    /// host can watch to confirm that inits and drops balance.
    pub fn live_instances(&self) -> (r: usize)
        requires
            self.inv(),
        ensures
            r == self.live().len(),
    {
        self.live_count
    }

    /// Invokes `init(ports)`. On success, allocates a fresh handle owning
    /// the new instance and returns it; exactly one instance is allocated
    /// per successful call. On failure, records the error in the
    /// last-error channel, allocates nothing, and returns the null
    /// handle `0`.
    pub fn stateful_init(&mut self, errors: &mut ErrorSlot, ports: u8) -> (h: usize)
        requires
            old(self).inv(),
            old(errors).inv(),
            old(self).slot_count() < usize::MAX,
        ensures
            final(self).inv(),
            final(errors).inv(),
            final(self).name_view() == old(self).name_view(),
            old(self).slot_count() <= final(self).slot_count() <= old(self).slot_count() + 1,
            P::accepts(ports) ==> h != 0 && !old(self).live().contains(h as int)
                && final(self).instances() == old(self).instances().insert(
                h as int,
                P::init_state(ports),
            ) && final(errors)@ == old(errors)@,
            !P::accepts(ports) ==> h == 0 && final(self).instances() == old(self).instances()
                && final(errors)@ == Some(P::reject_message(ports)),
    {
        match P::init(ports) {
            Ok(state) => {
                proof {
                    P::lemma_init_state_wf(ports);
                    old(self).lemma_live_bounds();
                }
                self.slots.push(Some(state));
                self.live_count = self.live_count + 1;
                let h = self.slots.len();
                proof {
                    broadcast use vstd::set::group_set_axioms;

                    let n = old(self).slots@.len() as int;
                    assert(self.instances() =~= old(self).instances().insert(
                        n + 1,
                        P::init_state(ports),
                    ));
                    assert(self.instances().dom() =~= old(self).instances().dom().insert(n + 1));
                }
                h
            },
            Err(e) => {
                update_last_error(errors, e);
                proof {
                    assert(self.instances() =~= old(self).instances());
                }
                0
            },
        }
    }

    /// Invokes `read` on the instance behind `handle` and returns the
    /// result; the instance stays live and owned by the caller. The
    /// handle must be live: the bridge trusts its caller, as a C ABI
    /// must.
    pub fn stateful_read(&mut self, handle: usize, port: u8) -> (r: u8)
        requires
            old(self).inv(),
            old(self).live().contains(handle as int),
        ensures
            final(self).inv(),
            final(self).name_view() == old(self).name_view(),
            final(self).slot_count() == old(self).slot_count(),
            r == old(self).instances()[handle as int].read_value(port),
            final(self).instances() == old(self).instances().insert(
                handle as int,
                old(self).instances()[handle as int].post_read(port),
            ),
    {
        proof {
            old(self).lemma_live_bounds();
        }
        let i = handle - 1;
        let slot = &mut self.slots[i];
        let mut inst = slot.take().unwrap();
        let r = inst.read(port);
        *slot = Some(inst);
        proof {
            self.lemma_after_overwrite(*old(self), handle as int, port, 0, true);
        }
        r
    }

    /// Invokes `write` on the instance behind `handle`; same non-owning
    /// access discipline as `stateful_read`.
    pub fn stateful_write(&mut self, handle: usize, port: u8, data: u8)
        requires
            old(self).inv(),
            old(self).live().contains(handle as int),
        ensures
            final(self).inv(),
            final(self).name_view() == old(self).name_view(),
            final(self).slot_count() == old(self).slot_count(),
            final(self).instances() == old(self).instances().insert(
                handle as int,
                old(self).instances()[handle as int].post_write(port, data),
            ),
    {
        proof {
            old(self).lemma_live_bounds();
        }
        let i = handle - 1;
        let slot = &mut self.slots[i];
        let mut inst = slot.take().unwrap();
        inst.write(port, data);
        *slot = Some(inst);
        proof {
            self.lemma_after_overwrite(*old(self), handle as int, port, data, false);
        }
    }

    /// Invokes `reset` on the instance behind `handle`: the instance
    /// returns to the state a fresh `init` with its port count would
    /// produce.
    pub fn stateful_reset(&mut self, handle: usize)
        requires
            old(self).inv(),
            old(self).live().contains(handle as int),
        ensures
            final(self).inv(),
            final(self).name_view() == old(self).name_view(),
            final(self).slot_count() == old(self).slot_count(),
            final(self).instances() == old(self).instances().insert(
                handle as int,
                P::init_state(old(self).instances()[handle as int].live_ports()),
            ),
    {
        proof {
            old(self).lemma_live_bounds();
        }
        let i = handle - 1;
        let slot = &mut self.slots[i];
        let mut inst = slot.take().unwrap();
        proof {
            inst.lemma_inv_accepts();
            P::lemma_init_state_wf(inst.live_ports());
        }
        inst.reset();
        *slot = Some(inst);
        proof {
            let h = handle as int;
            let fresh = P::init_state(old(self).instances()[h].live_ports());
            assert(self.instances() =~= old(self).instances().insert(h, fresh));
            assert(self.instances().dom() =~= old(self).instances().dom());
            self.lemma_count_still_right(*old(self));
        }
    }

    /// The sole point at which ownership is reclaimed: invokes `drop` on
    /// the owned instance and releases its slot. Must be called exactly
    /// once per successful `stateful_init`; afterwards the handle is
    /// permanently dead.
    pub fn stateful_drop(&mut self, handle: usize)
        requires
            old(self).inv(),
            old(self).live().contains(handle as int),
        ensures
            final(self).inv(),
            final(self).name_view() == old(self).name_view(),
            final(self).slot_count() == old(self).slot_count(),
            final(self).instances() == old(self).instances().remove(handle as int),
    {
        proof {
            old(self).lemma_live_bounds();
        }
        let i = handle - 1;
        let slot = &mut self.slots[i];
        let inst = slot.take().unwrap();
        proof {
            broadcast use vstd::set::group_set_axioms;

            let h = handle as int;
            assert(self.slots@ =~= old(self).slots@.update(h - 1, None));
            assert(self.instances() =~= old(self).instances().remove(h));
            assert(self.instances().dom() =~= old(self).instances().dom().remove(h));
        }
        P::drop(inst);
        self.live_count = self.live_count - 1;
    }

    /// After overwriting the instance behind a live handle with a read or
    /// write successor, the table is still well formed and is the old
    /// table with that one entry replaced.
    proof fn lemma_after_overwrite(&self, pre: Bridge<P>, h: int, port: u8, data: u8, is_read: bool)
        requires
            pre.inv(),
            pre.instances().dom().contains(h),
            self.slots@ == pre.slots@.update(
                h - 1,
                Some(
                    if is_read {
                        pre.instances()[h].post_read(port)
                    } else {
                        pre.instances()[h].post_write(port, data)
                    },
                ),
            ),
            self.live_count == pre.live_count,
            self.name == pre.name,
        ensures
            self.inv(),
            self.instances() == pre.instances().insert(
                h,
                if is_read {
                    pre.instances()[h].post_read(port)
                } else {
                    pre.instances()[h].post_write(port, data)
                },
            ),
            self.name_view() == pre.name_view(),
            self.slot_count() == pre.slot_count(),
    {
        pre.lemma_live_bounds();
        let succ = if is_read {
            pre.instances()[h].post_read(port)
        } else {
            pre.instances()[h].post_write(port, data)
        };
        pre.instances()[h].lemma_step_wf(port, data);
        assert(self.instances() =~= pre.instances().insert(h, succ));
        assert(self.instances().dom() =~= pre.instances().dom());
        self.lemma_count_still_right(pre);
    }

    /// A table whose handle set matches a well-formed table's still has
    /// the right live counter.
    proof fn lemma_count_still_right(&self, pre: Bridge<P>)
        requires
            pre.inv(),
            self.live_count == pre.live_count,
            self.instances().dom() == pre.instances().dom(),
        ensures
            self.instances().dom().finite(),
            self.live_count == self.instances().dom().len(),
    {
    }
}

/// Appends the terminating nul byte to a peripheral name, producing the
/// byte string the exported `name` entry point hands to the host.
pub fn name_with_nul(name: &Vec<u8>) -> (r: Vec<u8>)
    ensures
        r@ == name@ + seq![0u8],
{
    let mut r = crate::errors::copy_bytes(name);
    r.push(0u8);
    proof {
        assert(r@ =~= name@ + seq![0u8]);
    }
    r
}

/// One matching `stateful_drop` per successful `stateful_init` returns
/// the bridge to exactly the set of live instances it had before: nothing
/// leaks. The dropped handle is no longer live, so a second
/// `stateful_drop` of it is ruled out by that call's precondition: no
/// double free.
pub proof fn lemma_one_drop_per_init<P: Peripheral>(before: Map<int, P>, h: int, p: P)
    requires
        !before.dom().contains(h),
    ensures
        before.insert(h, p).remove(h) == before,
        !before.insert(h, p).remove(h).dom().contains(h),
{
    assert(before.insert(h, p).remove(h) =~= before);
}

/// After a rejected `stateful_init`, the error slot holds the rejection
/// message, so the reported last-error length is strictly positive.
pub proof fn lemma_rejected_init_reports_error<P: Peripheral>(ports: u8)
    requires
        !P::accepts(ports),
    ensures
        crate::errors::last_error_length_spec(Some(P::reject_message(ports))) > 0,
{
}

} // verus!

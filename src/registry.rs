//! The two tables that the embedding application owns: the canvases already
//! announced to the host, and the event handler of each canvas.
use std::collections::HashMap;
use crate::canvas::Canvas;
use vstd::prelude::*;

verus! {

broadcast use vstd::std_specs::hash::group_hash_axioms;

/// The ids for which the host's one-time canvas registration has been made.
pub struct CanvasSet {
    ids: Vec<u32>,
}

impl View for CanvasSet {
    type V = Set<u32>;

    closed spec fn view(&self) -> Set<u32> {
        self.ids@.to_set()
    }
}

impl CanvasSet {
    /// Each id is held once: each registration was made once.
    pub closed spec fn wf(&self) -> bool {
        self.ids@.no_duplicates()
    }

    /// An empty set: no canvas registered yet.
    pub fn new() -> (r: CanvasSet)
        ensures
            r.wf(),
            r@ == Set::<u32>::empty(),
    {
        let r = CanvasSet { ids: Vec::new() };
        proof {
            assert(r@ =~= Set::<u32>::empty());
        }
        r
    }

    /// Whether the registration for `id` has been made.
    pub fn contains(&self, id: u32) -> (r: bool)
        ensures
            r == self@.contains(id),
    {
        let mut i: usize = 0;
        while i < self.ids.len()
            invariant
                i <= self.ids@.len(),
                forall|j: int| 0 <= j < i ==> self.ids@[j] != id,
            decreases self.ids@.len() - i,
        {
            if self.ids[i] == id {
                proof {
                    assert(self.ids@.to_set().contains(self.ids@[i as int]));
                }
                return true;
            }
            i = i + 1;
        }
        proof {
            if self.ids@.to_set().contains(id) {
                let j = choose|j: int| 0 <= j < self.ids@.len() && self.ids@[j] == id;
                assert(self.ids@[j] == id);
            }
        }
        false
    }

    /// Records the registration of `id`; returns whether it was new, that is
    /// whether the host's registration call is now due.
    pub fn insert(&mut self, id: u32) -> (r: bool)
        requires
            old(self).wf(),
        ensures
            final(self).wf(),
            r == !old(self)@.contains(id),
            final(self)@ == old(self)@.insert(id),
    {
        if self.contains(id) {
            proof {
                assert(self@.insert(id) =~= self@);
            }
            false
        } else {
            let ghost before = self.ids@;
            self.ids.push(id);
            proof {
                assert(self.ids@ =~= before.push(id));
                before.lemma_push_to_set_commute(id);
                assert forall|a: int, b: int|
                    0 <= a < self.ids@.len() && 0 <= b < self.ids@.len() && a != b implies
                    self.ids@[a] != self.ids@[b] by {
                    if a == before.len() as int {
                        assert(before.to_set().contains(before[b]));
                    } else if b == before.len() as int {
                        assert(before.to_set().contains(before[a]));
                    }
                }
            }
            true
        }
    }
}

/// The registry after `take_handler` of `canvas_id`: that canvas has no handler
/// while its handler runs.
pub open spec fn after_take<H>(handlers: Map<u32, H>, canvas_id: u32) -> Map<u32, H> {
    handlers.remove(canvas_id)
}

/// The registry after `restore_handler(canvas_id, handler)`: a handler that was
/// registered for the canvas meanwhile stays, else `handler` goes back.
pub open spec fn after_restore<H>(handlers: Map<u32, H>, canvas_id: u32, handler: H) -> Map<
    u32,
    H,
> {
    if handlers.contains_key(canvas_id) {
        handlers
    } else {
        handlers.insert(canvas_id, handler)
    }
}

/// The event handler of each canvas: at most one per canvas id.
pub struct EventRegistry<H> {
    handlers: HashMap<u32, H>,
}

impl<H> View for EventRegistry<H> {
    type V = Map<u32, H>;

    closed spec fn view(&self) -> Map<u32, H> {
        self.handlers@
    }
}

impl<H> EventRegistry<H> {
    /// A registry with no handler.
    pub fn new() -> (r: EventRegistry<H>)
        ensures
            r@ == Map::<u32, H>::empty(),
    {
        EventRegistry { handlers: HashMap::new() }
    }

    /// Makes `handler` the handler of canvas `canvas_id`, dropping the one it had.
    pub(crate) fn register(&mut self, canvas_id: u32, handler: H)
        ensures
            final(self)@ == old(self)@.insert(canvas_id, handler),
    {
        self.handlers.insert(canvas_id, handler);
    }

    /// Whether canvas `canvas_id` has a handler.
    pub fn has_handler(&self, canvas_id: u32) -> (r: bool)
        ensures
            r == self@.contains_key(canvas_id),
    {
        self.handlers.contains_key(&canvas_id)
    }

    /// First step of delivering an event to canvas `canvas_id`: takes its handler
    /// out of the registry and hands it over with a fresh handle on the canvas.
    /// With no handler there, returns `None` and leaves the registry as it was:
    /// the event is dropped.
    pub fn take_handler(&mut self, canvas_id: u32) -> (r: Option<(Canvas, H)>)
        ensures
            final(self)@ == after_take(old(self)@, canvas_id),
            match r {
                Some((canvas, handler)) => {
                    &&& old(self)@.contains_key(canvas_id)
                    &&& canvas@ == canvas_id
                    &&& handler == old(self)@[canvas_id]
                },
                None => !old(self)@.contains_key(canvas_id) && final(self)@ == old(self)@,
            },
    {
        match self.handlers.remove(&canvas_id) {
            Some(handler) => Some((Canvas::with_id(canvas_id), handler)),
            None => {
                proof {
                    assert(self@ =~= old(self)@);
                }
                None
            },
        }
    }

    /// Last step of delivering an event: puts back the handler that
    /// `take_handler` handed out, unless the handler itself registered another
    /// for its canvas meanwhile, which then stays.
    pub fn restore_handler(&mut self, canvas: &Canvas, handler: H)
        ensures
            final(self)@ == after_restore(old(self)@, canvas@, handler),
    {
        let canvas_id = canvas.id();
        if !self.handlers.contains_key(&canvas_id) {
            self.handlers.insert(canvas_id, handler);
        }
    }
}

/// Registering `first` and then `second` for one canvas leaves `second` as its
/// only handler: the registry is as if `first` had never been registered, and
/// the next dispatch to the canvas takes `second`.
pub proof fn lemma_register_replaces<H>(handlers: Map<u32, H>, canvas_id: u32, first: H, second: H)
    ensures
        handlers.insert(canvas_id, first).insert(canvas_id, second) == handlers.insert(
            canvas_id,
            second,
        ),
        handlers.insert(canvas_id, first).insert(canvas_id, second)[canvas_id] == second,
{
    assert(handlers.insert(canvas_id, first).insert(canvas_id, second) =~= handlers.insert(
        canvas_id,
        second,
    ));
}

/// A dispatch whose handler leaves the registry alone ends with the registry as
/// it began.
pub proof fn lemma_dispatch_restores<H>(handlers: Map<u32, H>, canvas_id: u32)
    requires
        handlers.contains_key(canvas_id),
    ensures
        after_restore(after_take(handlers, canvas_id), canvas_id, handlers[canvas_id])
            == handlers,
{
    assert(after_restore(after_take(handlers, canvas_id), canvas_id, handlers[canvas_id])
        =~= handlers);
}

/// A handler that registers `installed` for its own canvas while it runs: the
/// dispatch ends with `installed` in place, and the next event for the canvas
/// reaches it.
pub proof fn lemma_reentrant_registration<H>(
    handlers: Map<u32, H>,
    canvas_id: u32,
    running: H,
    installed: H,
)
    ensures
        ({
            let during = after_take(handlers, canvas_id).insert(canvas_id, installed);
            &&& after_restore(during, canvas_id, running) == during
            &&& after_restore(during, canvas_id, running)[canvas_id] == installed
        }),
{
}

/// While the handler of one canvas runs, every other canvas keeps its handler,
/// so events for other canvases can be dispatched from inside it.
pub proof fn lemma_other_canvases_unaffected<H>(handlers: Map<u32, H>, running: u32, other: u32)
    requires
        running != other,
    ensures
        after_take(handlers, running).contains_key(other) == handlers.contains_key(other),
        handlers.contains_key(other) ==> after_take(handlers, running)[other] == handlers[other],
{
}

} // verus!

//! The collected heap: mark and sweep.

use vstd::prelude::*;
use crate::gc::trace::{Marks, ObjectRef, Trace, Tracer};

verus! {

/// Initial collection threshold (64 KB).
pub const INITIAL_GC_THRESHOLD: usize = 64 * 1024;

/// The header that each allocation is counted with, a word for each of its parts: the mark,
/// the link to the next object, the size, and the functions that trace and drop the object.
pub struct GcHeader {
    pub words: [usize; 5],
}

/// What an allocation is counted as: header + data.
pub struct GcAlloc<T> {
    pub header: GcHeader,
    pub data: T,
}

/// The heap: manages all garbage-collected allocations.
pub struct Heap<T: Trace> {
    /// The objects by reference; a freed one leaves an empty place.
    objects: Vec<Option<T>>,
    /// Total bytes allocated on the heap.
    bytes_allocated: usize,
    /// When bytes_allocated exceeds this, trigger a collection.
    next_gc_threshold: usize,
    /// Total number of live objects.
    object_count: usize,
    /// The bytes of one allocation, header and data.
    object_size: usize,
}

/// What a heap holds.
pub struct HeapView<T> {
    pub objects: Seq<Option<T>>,
    pub bytes_allocated: nat,
    pub threshold: nat,
    pub object_size: nat,
}

/// How many of the first places hold an object.
pub open spec fn count_live<T>(objects: Seq<Option<T>>, n: nat) -> nat
    decreases n,
{
    if n == 0 || n > objects.len() {
        0
    } else {
        count_live(objects, (n - 1) as nat) + (if objects[n - 1] is Some {
            1nat
        } else {
            0
        })
    }
}

/// The references to the objects in the first places, the latest first.
pub open spec fn live_refs<T>(objects: Seq<Option<T>>, n: nat) -> Seq<ObjectRef>
    decreases n,
{
    if n == 0 || n > objects.len() {
        Seq::empty()
    } else if objects[n - 1] is Some {
        seq![ObjectRef((n - 1) as usize)] + live_refs(objects, (n - 1) as nat)
    } else {
        live_refs(objects, (n - 1) as nat)
    }
}

/// Whether a place holds an object.
pub open spec fn live<T>(objects: Seq<Option<T>>, i: int) -> bool {
    0 <= i < objects.len() && objects[i] is Some
}

/// Whether an object refers to another.
pub open spec fn refers<T: Trace>(objects: Seq<Option<T>>, from: int, to: int) -> bool {
    live(objects, from) && live(objects, to) && objects[from]->0.refs().contains(
        ObjectRef(to as usize),
    )
}

/// Whether an object can be reached from the roots over so many references at most.
pub open spec fn reached<T: Trace>(
    objects: Seq<Option<T>>,
    roots: Seq<ObjectRef>,
    i: int,
    steps: nat,
) -> bool
    decreases steps,
{
    live(objects, i) && (roots.contains(ObjectRef(i as usize)) || (steps > 0 && exists|j: int|
        #[trigger] refers(objects, j, i) && reached(objects, roots, j, (steps - 1) as nat)))
}

/// Whether an object can be reached from the roots.
pub open spec fn reachable<T: Trace>(
    objects: Seq<Option<T>>,
    roots: Seq<ObjectRef>,
    i: int,
) -> bool {
    exists|steps: nat| #[trigger] reached(objects, roots, i, steps)
}

/// The objects that stay: those that can be reached.
pub open spec fn survivors<T: Trace>(objects: Seq<Option<T>>, roots: Seq<ObjectRef>) -> Seq<
    Option<T>,
> {
    Seq::new(
        objects.len(),
        |i: int|
            if reachable(objects, roots, i) {
                objects[i]
            } else {
                None
            },
    )
}

/// The threshold of the next collection for so many bytes: twice as many, and no less than
/// at the start.
pub open spec fn threshold_for(bytes: nat) -> nat {
    if bytes * 2 > usize::MAX {
        usize::MAX as nat
    } else if bytes * 2 > INITIAL_GC_THRESHOLD {
        bytes * 2
    } else {
        INITIAL_GC_THRESHOLD as nat
    }
}

impl<T: Trace> View for Heap<T> {
    type V = HeapView<T>;

    closed spec fn view(&self) -> HeapView<T> {
        HeapView {
            objects: self.objects@,
            bytes_allocated: self.bytes_allocated as nat,
            threshold: self.next_gc_threshold as nat,
            object_size: self.object_size as nat,
        }
    }
}

impl<T: Trace> Heap<T> {
    /// The counts agree with the objects.
    pub closed spec fn wf(&self) -> bool {
        &&& self.object_count as nat == count_live(self.objects@, self.objects@.len())
        &&& self.bytes_allocated == self.object_count * self.object_size
    }

    /// An empty heap.
    pub fn new() -> (heap: Self)
        ensures
            heap.wf(),
            heap@.objects == Seq::<Option<T>>::empty(),
            heap@.bytes_allocated == 0,
            heap@.threshold == INITIAL_GC_THRESHOLD,
            heap@.object_size == vstd::layout::size_of::<GcAlloc<T>>(),
    {
        let object_size: usize = core::mem::size_of::<GcAlloc<T>>();
        assert(0 * object_size == 0) by (nonlinear_arith);
        let objects: Vec<Option<T>> = Vec::new();
        assert(objects@ =~= Seq::empty());
        Heap {
            objects,
            bytes_allocated: 0,
            next_gc_threshold: INITIAL_GC_THRESHOLD,
            object_count: 0,
            object_size,
        }
    }

    /// Allocate an object, and give the reference to it.
    pub fn allocate(&mut self, value: T) -> (id: ObjectRef)
        requires
            old(self).wf(),
            old(self)@.bytes_allocated + old(self)@.object_size <= usize::MAX,
        ensures
            final(self).wf(),
            id == ObjectRef(old(self)@.objects.len() as usize),
            final(self)@ == (HeapView {
                objects: old(self)@.objects.push(Some(value)),
                bytes_allocated: old(self)@.bytes_allocated + old(self)@.object_size,
                ..old(self)@
            }),
    {
        let id: usize = self.objects.len();
        proof {
            let before = self.objects@;
            lemma_count_pushed(before, Some(value), before.len());
            lemma_count_bound(before, before.len());
            let n = self.object_count as int;
            let size = self.object_size as int;
            assert((n + 1) * size == n * size + size) by (nonlinear_arith);
        }
        self.objects.push(Some(value));
        self.bytes_allocated = self.bytes_allocated + self.object_size;
        assert(self.objects@.len() == self.objects.len());
        self.object_count = self.object_count + 1;
        ObjectRef(id)
    }

    /// The object behind a reference, if it is still there.
    pub fn get(&self, id: ObjectRef) -> (value: Option<&T>)
        ensures
            match value {
                Some(v) => live(self@.objects, id.0 as int) && self@.objects[id.0 as int] == Some(
                    *v,
                ),
                None => !live(self@.objects, id.0 as int),
            },
    {
        if id.0 < self.objects.len() {
            match &self.objects[id.0] {
                Some(v) => Some(v),
                None => None,
            }
        } else {
            None
        }
    }

    /// Check if we should trigger a collection.
    pub fn should_collect(&self) -> (result: bool)
        ensures
            result == (self@.bytes_allocated >= self@.threshold),
    {
        self.bytes_allocated >= self.next_gc_threshold
    }

    /// Total bytes allocated on the heap.
    pub fn bytes_allocated(&self) -> (bytes: usize)
        ensures
            bytes == self@.bytes_allocated,
    {
        self.bytes_allocated
    }

    /// Total number of live objects.
    pub fn object_count(&self) -> (count: usize)
        requires
            self.wf(),
        ensures
            count as nat == count_live(self@.objects, self@.objects.len()),
    {
        self.object_count
    }

    /// The references to all objects, the latest first (for testing/debugging).
    pub fn all_objects(&self) -> (ids: Vec<ObjectRef>)
        ensures
            ids@ == live_refs(self@.objects, self@.objects.len()),
    {
        let mut ids: Vec<ObjectRef> = Vec::new();
        let mut n: usize = self.objects.len();
        assert(ids@ + live_refs(self.objects@, n as nat) =~= live_refs(self.objects@, n as nat));
        while n > 0
            invariant
                n <= self.objects@.len(),
                ids@ + live_refs(self.objects@, n as nat) == live_refs(
                    self.objects@,
                    self.objects@.len(),
                ),
            decreases n,
        {
            let ghost before = ids@;
            let ghost rest = live_refs(self.objects@, n as nat);
            n = n - 1;
            if self.objects[n].is_some() {
                ids.push(ObjectRef(n));
            }
            assert(ids@ + live_refs(self.objects@, n as nat) =~= before + rest);
        }
        assert(ids@ + Seq::<ObjectRef>::empty() =~= ids@);
        ids
    }

    /// Run a mark-and-sweep collection. `roots` is traced for all root references.
    pub fn collect<R: Trace>(&mut self, roots: &R)
        requires
            old(self).wf(),
        ensures
            final(self).wf(),
            final(self)@.objects == survivors(old(self)@.objects, roots.refs()),
            final(self)@.object_size == old(self)@.object_size,
            final(self)@.bytes_allocated == count_live(
                final(self)@.objects,
                final(self)@.objects.len(),
            ) * old(self)@.object_size,
            final(self)@.threshold == threshold_for(final(self)@.bytes_allocated),
    {
        let tracer = self.mark_from(roots);
        self.sweep(&tracer);
        proof {
            assert(self.objects@ =~= survivors(old(self).objects@, roots.refs()));
        }
        let bytes: usize = self.bytes_allocated;
        self.next_gc_threshold = if bytes > usize::MAX / 2 {
            usize::MAX
        } else if bytes * 2 > INITIAL_GC_THRESHOLD {
            bytes * 2
        } else {
            INITIAL_GC_THRESHOLD
        };
    }

    /// Mark what can be reached from the roots.
    fn mark_from<R: Trace>(&self, roots: &R) -> (tracer: Tracer)
        ensures
            tracer@.marked.len() == self.objects@.len(),
            forall|i: int|
                0 <= i < self.objects@.len() ==> (#[trigger] tracer@.marked[i] <==> reachable(
                    self.objects@,
                    roots.refs(),
                    i,
                )),
    {
        let ghost objects = self.objects@;
        let ghost start_refs = roots.refs();
        let mut present: Vec<bool> = Vec::new();
        let mut i: usize = 0;
        while i < self.objects.len()
            invariant
                i <= self.objects@.len(),
                present@.len() == i,
                forall|k: int| 0 <= k < i ==> #[trigger] present@[k] == live(self.objects@, k),
            decreases self.objects@.len() - i,
        {
            match &self.objects[i] {
                Some(_) => {
                    present.push(true);
                },
                None => {
                    present.push(false);
                },
            }
            i = i + 1;
        }
        let mut tracer = Tracer::new(present);
        let ghost fresh = tracer@;
        roots.trace(&mut tracer);
        assert(self.objects@.len() == self.objects.len());
        proof {
            lemma_mark_all(fresh, start_refs);
            assert forall|k: int|
                0 <= k < objects.len() && #[trigger] tracer@.marked[k] implies reachable(
                objects,
                start_refs,
                k,
            ) by {
                assert(reached(objects, start_refs, k, 0));
            }
        }
        loop
            invariant_except_break
                objects == self.objects@,
                start_refs == roots.refs(),
                sound(objects, start_refs, tracer@),
            ensures
                objects == self.objects@,
                start_refs == roots.refs(),
                sound(objects, start_refs, tracer@),
                tracer@.worklist.len() == 0,
            decreases unmarked(tracer@.marked, tracer@.marked.len()) + tracer@.worklist.len(),
        {
            let ghost before = tracer@;
            match tracer.next() {
                None => {
                    break ;
                },
                Some(id) => {
                    let ghost popped = tracer@;
                    assert(self.objects@.len() == self.objects.len());
                    assert(before.worklist.contains(id)) by {
                        assert(before.worklist[before.worklist.len() - 1] == id);
                    }
                    assert(live(objects, id as int));
                    match &self.objects[id] {
                        Some(value) => {
                            value.trace(&mut tracer);
                            proof {
                                lemma_traced(
                                    objects,
                                    start_refs,
                                    before,
                                    popped,
                                    tracer@,
                                    id,
                                    value.refs(),
                                );
                            }
                        },
                        None => {},
                    }
                },
            }
        }
        assert(self.objects@.len() == self.objects.len());
        proof {
            assert forall|k: int| 0 <= k < objects.len() implies (#[trigger] tracer@.marked[k]
                <==> reachable(objects, start_refs, k)) by {
                if reachable(objects, start_refs, k) {
                    let steps = choose|steps: nat| #[trigger]
                        reached(objects, start_refs, k, steps);
                    lemma_complete(objects, start_refs, tracer@, k, steps);
                }
            }
        }
        tracer
    }

    /// Free what is not marked.
    fn sweep(&mut self, tracer: &Tracer)
        requires
            old(self).wf(),
            tracer@.marked.len() == old(self).objects@.len(),
        ensures
            final(self).wf(),
            final(self).object_size == old(self).object_size,
            final(self).next_gc_threshold == old(self).next_gc_threshold,
            final(self).objects@.len() == old(self).objects@.len(),
            forall|i: int|
                0 <= i < final(self).objects@.len() ==> #[trigger] final(self).objects@[i] == (
                if tracer@.marked[i] {
                    old(self).objects@[i]
                } else {
                    None
                }),
    {
        let mut i: usize = 0;
        while i < self.objects.len()
            invariant
                self.wf(),
                i <= self.objects@.len(),
                self.objects@.len() == old(self).objects@.len(),
                tracer@.marked.len() == self.objects@.len(),
                self.object_size == old(self).object_size,
                self.next_gc_threshold == old(self).next_gc_threshold,
                forall|k: int|
                    0 <= k < i ==> #[trigger] self.objects@[k] == (if tracer@.marked[k] {
                        old(self).objects@[k]
                    } else {
                        None
                    }),
                forall|k: int|
                    i <= k < self.objects@.len() ==> #[trigger] self.objects@[k] == old(
                        self,
                    ).objects@[k],
            decreases self.objects@.len() - i,
        {
            if !tracer.is_marked(i) {
                let ghost before = self.objects@;
                let present: bool = self.objects[i].is_some();
                self.objects.set(i, None);
                proof {
                    lemma_count_freed(before, i as int, before.len());
                    let n = self.object_count as int;
                    let size = self.object_size as int;
                    assert((n - 1) * size == n * size - size) by (nonlinear_arith);
                    assert(n >= 1 ==> n * size >= size) by (nonlinear_arith)
                        requires
                            size >= 0,
                    ;
                }
                if present {
                    self.bytes_allocated = self.bytes_allocated - self.object_size;
                    self.object_count = self.object_count - 1;
                }
            }
            i = i + 1;
        }
    }
}

impl<T: Trace> Default for Heap<T> {
    fn default() -> (heap: Self)
        ensures
            heap.wf(),
            heap@.objects == Seq::<Option<T>>::empty(),
            heap@.bytes_allocated == 0,
            heap@.threshold == INITIAL_GC_THRESHOLD,
            heap@.object_size == vstd::layout::size_of::<GcAlloc<T>>(),
    {
        Self::new()
    }
}

/// How many of the first places are not marked.
spec fn unmarked(marked: Seq<bool>, n: nat) -> nat
    decreases n,
{
    if n == 0 || n > marked.len() {
        0
    } else {
        unmarked(marked, (n - 1) as nat) + (if marked[n - 1] {
            0nat
        } else {
            1
        })
    }
}

/// What marking keeps: marked objects are there and can be reached, roots are marked, and
/// so is whatever a marked object refers to that is no longer on the worklist.
spec fn sound<T: Trace>(objects: Seq<Option<T>>, roots: Seq<ObjectRef>, marks: Marks) -> bool {
    &&& marks.live.len() == objects.len()
    &&& marks.marked.len() == objects.len()
    &&& forall|i: int| 0 <= i < objects.len() ==> #[trigger] marks.live[i] == live(objects, i)
    &&& forall|i: int|
        0 <= i < objects.len() && #[trigger] marks.marked[i] ==> reachable(objects, roots, i)
    &&& forall|id: ObjectRef|
        #[trigger] roots.contains(id) && live(objects, id.0 as int) ==> marks.marked[id.0 as int]
    &&& forall|i: int, j: int|
        0 <= i < objects.len() && marks.marked[i] && !marks.worklist.contains(i as usize)
            && #[trigger] refers(objects, i, j) ==> marks.marked[j]
    &&& forall|id: usize| #[trigger]
        marks.worklist.contains(id) ==> id < objects.len() && marks.marked[id as int]
}

proof fn lemma_count_bound<T>(objects: Seq<Option<T>>, n: nat)
    ensures
        count_live(objects, n) <= n,
    decreases n,
{
    if n > 0 && n <= objects.len() {
        lemma_count_bound(objects, (n - 1) as nat);
    }
}

proof fn lemma_count_pushed<T>(objects: Seq<Option<T>>, value: Option<T>, n: nat)
    requires
        n <= objects.len(),
    ensures
        count_live(objects.push(value), n) == count_live(objects, n),
        count_live(objects.push(value), (objects.len() + 1) as nat) == count_live(
            objects.push(value),
            objects.len(),
        ) + (if value is Some {
            1nat
        } else {
            0
        }),
    decreases n,
{
    if n > 0 {
        lemma_count_pushed(objects, value, (n - 1) as nat);
    }
}

proof fn lemma_count_freed<T>(objects: Seq<Option<T>>, i: int, n: nat)
    requires
        0 <= i < objects.len(),
        n <= objects.len(),
    ensures
        count_live(objects.update(i, None), n) == count_live(objects, n) - (if i < n
            && objects[i] is Some {
            1int
        } else {
            0
        }),
    decreases n,
{
    if n > 0 {
        lemma_count_freed(objects, i, (n - 1) as nat);
    }
}

proof fn lemma_unmarked_set(marked: Seq<bool>, i: int, n: nat)
    requires
        0 <= i < marked.len(),
        n <= marked.len(),
        !marked[i],
    ensures
        unmarked(marked.update(i, true), n) == unmarked(marked, n) - (if i < n {
            1int
        } else {
            0
        }),
    decreases n,
{
    if n > 0 {
        lemma_unmarked_set(marked, i, (n - 1) as nat);
    }
}

/// What marking a list does: nothing is unmarked, the listed objects that are there are
/// marked, only they are newly marked, and what is newly marked is on the worklist.
proof fn lemma_mark_all(marks: Marks, ids: Seq<ObjectRef>)
    requires
        marks.live.len() == marks.marked.len(),
        marks.live.len() <= usize::MAX,
    ensures
        ({
            let after = marks.mark_all(ids);
            &&& after.live == marks.live
            &&& after.marked.len() == marks.marked.len()
            &&& forall|i: int|
                0 <= i < marks.marked.len() && marks.marked[i] ==> #[trigger] after.marked[i]
            &&& forall|id: ObjectRef| #[trigger]
                ids.contains(id) && id.0 < marks.live.len() && marks.live[id.0 as int]
                    ==> after.marked[id.0 as int]
            &&& forall|i: int|
                0 <= i < marks.marked.len() && #[trigger] after.marked[i] && !marks.marked[i]
                    ==> marks.live[i] && ids.contains(ObjectRef(i as usize))
                    && after.worklist.contains(i as usize)
            &&& forall|id: usize| #[trigger]
                marks.worklist.contains(id) ==> after.worklist.contains(id)
            &&& forall|id: usize| #[trigger]
                after.worklist.contains(id) ==> marks.worklist.contains(id) || (id
                    < marks.marked.len() && after.marked[id as int])
            &&& unmarked(after.marked, after.marked.len()) + after.worklist.len() == unmarked(
                marks.marked,
                marks.marked.len(),
            ) + marks.worklist.len()
        }),
    decreases ids.len(),
{
    if ids.len() > 0 {
        let rest = ids.drop_last();
        let id = ids.last();
        lemma_mark_all(marks, rest);
        let before = marks.mark_all(rest);
        let after = marks.mark_all(ids);
        assert(forall|x: ObjectRef| #[trigger] ids.contains(x) ==> rest.contains(x) || x == id) by {
            assert forall|x: ObjectRef| #[trigger] ids.contains(x) implies rest.contains(x) || x
                == id by {
                let k = choose|k: int| 0 <= k < ids.len() && ids[k] == x;
                if k < rest.len() {
                    assert(rest[k] == x);
                }
            }
        }
        assert(forall|x: ObjectRef| #[trigger] rest.contains(x) ==> ids.contains(x)) by {
            assert forall|x: ObjectRef| #[trigger] rest.contains(x) implies ids.contains(x) by {
                let k = choose|k: int| 0 <= k < rest.len() && rest[k] == x;
                assert(ids[k] == x);
            }
        }
        assert(ids[ids.len() - 1] == id);
        assert(ids.contains(id));
        if before.fresh(id) {
            lemma_unmarked_set(before.marked, id.0 as int, before.marked.len());
            assert(after.worklist == before.worklist.push(id.0));
            assert(after.worklist[before.worklist.len() as int] == id.0);
            assert(after.worklist.contains(id.0));
            assert forall|x: usize| #[trigger]
                before.worklist.contains(x) implies after.worklist.contains(x) by {
                let k = choose|k: int| 0 <= k < before.worklist.len() && before.worklist[k] == x;
                assert(after.worklist[k] == x);
            }
            assert forall|x: usize| #[trigger]
                after.worklist.contains(x) implies before.worklist.contains(x) || x == id.0 by {
                let k = choose|k: int| 0 <= k < after.worklist.len() && after.worklist[k] == x;
                if k < before.worklist.len() {
                    assert(before.worklist[k] == x);
                }
            }
        }
    }
}

proof fn lemma_traced<T: Trace>(
    objects: Seq<Option<T>>,
    roots: Seq<ObjectRef>,
    before: Marks,
    popped: Marks,
    after: Marks,
    id: usize,
    refs: Seq<ObjectRef>,
)
    requires
        objects.len() <= usize::MAX,
        sound(objects, roots, before),
        before.worklist.len() > 0,
        id == before.worklist.last(),
        popped == (Marks { worklist: before.worklist.drop_last(), ..before }),
        live(objects, id as int),
        refs == objects[id as int]->0.refs(),
        after == popped.mark_all(refs),
    ensures
        sound(objects, roots, after),
        unmarked(after.marked, after.marked.len()) + after.worklist.len() < unmarked(
            before.marked,
            before.marked.len(),
        ) + before.worklist.len(),
{
    lemma_mark_all(popped, refs);
    assert(before.worklist[before.worklist.len() - 1] == id);
    assert(before.worklist.contains(id));
    let idi = id as int;
    assert(reachable(objects, roots, idi));
    let steps = choose|steps: nat| #[trigger] reached(objects, roots, idi, steps);
    assert(forall|x: usize| #[trigger] popped.worklist.contains(x) ==> before.worklist.contains(x))
        by {
        assert forall|x: usize| #[trigger] popped.worklist.contains(x) implies before.worklist.contains(
            x,
        ) by {
            let k = choose|k: int| 0 <= k < popped.worklist.len() && popped.worklist[k] == x;
            assert(before.worklist[k] == x);
        }
    }
    assert(forall|x: usize|
        #[trigger] before.worklist.contains(x) ==> popped.worklist.contains(x) || x == id) by {
        assert forall|x: usize| #[trigger] before.worklist.contains(x) implies popped.worklist.contains(
            x,
        ) || x == id by {
            let k = choose|k: int| 0 <= k < before.worklist.len() && before.worklist[k] == x;
            if k < popped.worklist.len() {
                assert(popped.worklist[k] == x);
            }
        }
    }
    assert forall|i: int| 0 <= i < objects.len() && #[trigger] after.marked[i] implies reachable(
        objects,
        roots,
        i,
    ) by {
        if !popped.marked[i] {
            assert(refers(objects, idi, i));
            assert(reached(objects, roots, idi, steps));
            assert(reached(objects, roots, i, steps + 1));
        }
    }
    assert forall|i: int, j: int|
        0 <= i < objects.len() && after.marked[i] && !after.worklist.contains(i as usize)
            && #[trigger] refers(objects, i, j) implies after.marked[j] by {
        if i == idi {
            assert(refs.contains(ObjectRef(j as usize)));
            assert(popped.live[j] == live(objects, j));
        } else {
            if popped.marked[i] {
                assert(!popped.worklist.contains(i as usize));
                assert(!before.worklist.contains(i as usize));
                assert(before.marked[j]);
                assert(popped.marked[j]);
            }
        }
    }
    assert forall|r: ObjectRef| #[trigger] roots.contains(r) && live(
        objects,
        r.0 as int,
    ) implies after.marked[r.0 as int] by {
        assert(before.marked[r.0 as int]);
        assert(popped.marked[r.0 as int]);
    }
}

proof fn lemma_complete<T: Trace>(
    objects: Seq<Option<T>>,
    roots: Seq<ObjectRef>,
    marks: Marks,
    i: int,
    steps: nat,
)
    requires
        objects.len() <= usize::MAX,
        sound(objects, roots, marks),
        marks.worklist.len() == 0,
        reached(objects, roots, i, steps),
    ensures
        marks.marked[i],
    decreases steps,
{
    if roots.contains(ObjectRef(i as usize)) {
        assert(live(objects, ObjectRef(i as usize).0 as int));
    } else {
        let j = choose|j: int|
            #[trigger] refers(objects, j, i) && reached(objects, roots, j, (steps - 1) as nat);
        lemma_complete(objects, roots, marks, j, (steps - 1) as nat);
        assert(!marks.worklist.contains(j as usize));
        assert(refers(objects, j, i));
    }
}

/// A collection keeps the roots that are there, and what a kept object refers to.
pub proof fn law_survivors_closed<T: Trace>(objects: Seq<Option<T>>, roots: Seq<ObjectRef>, i: int)
    requires
        live(objects, i),
    ensures
        roots.contains(ObjectRef(i as usize)) ==> survivors(objects, roots)[i] == objects[i],
        forall|j: int|
            live(survivors(objects, roots), j) && #[trigger] refers(objects, j, i) ==> survivors(
                objects,
                roots,
            )[i] == objects[i],
{
    if roots.contains(ObjectRef(i as usize)) {
        assert(reached(objects, roots, i, 0));
    }
    assert forall|j: int|
        live(survivors(objects, roots), j) && #[trigger] refers(objects, j, i) implies survivors(
        objects,
        roots,
    )[i] == objects[i] by {
        assert(reachable(objects, roots, j));
        let steps = choose|steps: nat| #[trigger] reached(objects, roots, j, steps);
        assert(reached(objects, roots, j, ((steps + 1) - 1) as nat));
        assert(reached(objects, roots, i, steps + 1));
    }
}

/// A collection without roots frees everything.
pub proof fn law_no_roots<T: Trace>(objects: Seq<Option<T>>, i: int)
    requires
        0 <= i < objects.len(),
    ensures
        survivors(objects, Seq::empty())[i] is None,
{
    if reachable(objects, Seq::empty(), i) {
        let steps = choose|steps: nat| #[trigger]
            reached(objects, Seq::empty(), i, steps);
        lemma_nothing_reached(objects, i, steps);
    }
}

proof fn lemma_nothing_reached<T: Trace>(objects: Seq<Option<T>>, i: int, steps: nat)
    ensures
        !reached(objects, Seq::empty(), i, steps),
    decreases steps,
{
    if reached(objects, Seq::empty(), i, steps) && steps > 0 {
        let j = choose|j: int|
            #[trigger] refers(objects, j, i) && reached(
                objects,
                Seq::empty(),
                j,
                (steps - 1) as nat,
            );
        lemma_nothing_reached(objects, j, (steps - 1) as nat);
    }
}

} // verus!

//! What the collector follows: references from value to object.

use vstd::prelude::*;

verus! {

/// A reference to an object on the collected heap.
#[derive(Clone, Copy, PartialEq, Eq, Structural, Debug)]
pub struct ObjectRef(pub usize);

/// The state of marking: which objects there are, which are marked, and which marked ones
/// still have to be traced.
pub struct Marks {
    pub live: Seq<bool>,
    pub marked: Seq<bool>,
    pub worklist: Seq<usize>,
}

impl Marks {
    /// Whether an object is there and not yet marked.
    pub open spec fn fresh(self, id: ObjectRef) -> bool {
        id.0 < self.live.len() && id.0 < self.marked.len() && self.live[id.0 as int]
            && !self.marked[id.0 as int]
    }

    /// An object marked: a fresh one is put on the worklist, others change nothing.
    pub open spec fn mark(self, id: ObjectRef) -> Marks {
        if self.fresh(id) {
            Marks {
                marked: self.marked.update(id.0 as int, true),
                worklist: self.worklist.push(id.0),
                ..self
            }
        } else {
            self
        }
    }

    /// The objects of a list marked in turn.
    pub open spec fn mark_all(self, ids: Seq<ObjectRef>) -> Marks
        decreases ids.len(),
    {
        if ids.len() == 0 {
            self
        } else {
            self.mark_all(ids.drop_last()).mark(ids.last())
        }
    }
}

/// Passed to `Trace::trace` to mark reachable objects.
pub struct Tracer {
    live: Vec<bool>,
    marked: Vec<bool>,
    /// Objects to process.
    worklist: Vec<usize>,
}

impl View for Tracer {
    type V = Marks;

    closed spec fn view(&self) -> Marks {
        Marks { live: self.live@, marked: self.marked@, worklist: self.worklist@ }
    }
}

impl Tracer {
    /// A tracer over the given objects, none of them marked.
    pub(crate) fn new(live: Vec<bool>) -> (tracer: Self)
        ensures
            tracer@ == (Marks {
                live: live@,
                marked: Seq::new(live@.len(), |i: int| false),
                worklist: Seq::empty(),
            }),
    {
        let mut marked: Vec<bool> = Vec::new();
        let mut i: usize = 0;
        while i < live.len()
            invariant
                i <= live@.len(),
                marked@ == Seq::new(i as nat, |k: int| false),
            decreases live@.len() - i,
        {
            marked.push(false);
            i = i + 1;
            assert(marked@ =~= Seq::new(i as nat, |k: int| false));
        }
        let worklist: Vec<usize> = Vec::new();
        assert(worklist@ =~= Seq::empty());
        Tracer { live, marked, worklist }
    }

    /// Mark an object as reachable. If it hasn't been marked yet, it's added to the worklist
    /// for further tracing.
    pub fn mark(&mut self, id: ObjectRef)
        ensures
            final(self)@ == old(self)@.mark(id),
    {
        if id.0 < self.live.len() && id.0 < self.marked.len() && self.live[id.0]
            && !self.marked[id.0] {
            self.marked.set(id.0, true);
            self.worklist.push(id.0);
        }
    }

    /// The next object to trace.
    pub(crate) fn next(&mut self) -> (id: Option<usize>)
        ensures
            match id {
                Some(id) => old(self)@.worklist.len() > 0 && id == old(self)@.worklist.last()
                    && final(self)@ == (Marks {
                    worklist: old(self)@.worklist.drop_last(),
                    ..old(self)@
                }),
                None => old(self)@.worklist.len() == 0 && final(self)@ == old(self)@,
            },
    {
        self.worklist.pop()
    }

    /// Whether an object is marked.
    pub(crate) fn is_marked(&self, i: usize) -> (result: bool)
        requires
            i < self@.marked.len(),
        ensures
            result == self@.marked[i as int],
    {
        self.marked[i]
    }
}

/// Implemented by all types that can be managed by the garbage collector. An implementation
/// must mark all the references that a value holds: the collector frees what it is not led
/// to.
pub trait Trace {
    /// The references that a value holds.
    spec fn refs(&self) -> Seq<ObjectRef>;

    /// Mark all objects that the value refers to.
    fn trace(&self, tracer: &mut Tracer)
        ensures
            final(tracer)@ == old(tracer)@.mark_all(self.refs()),
    ;
}

impl Trace for ObjectRef {
    open spec fn refs(&self) -> Seq<ObjectRef> {
        seq![*self]
    }

    fn trace(&self, tracer: &mut Tracer) {
        let ghost before = tracer@;
        tracer.mark(*self);
        proof {
            let ids = seq![*self];
            assert(ids.drop_last() =~= Seq::<ObjectRef>::empty());
            assert(before.mark_all(ids.drop_last()) == before);
        }
    }
}

impl Trace for () {
    open spec fn refs(&self) -> Seq<ObjectRef> {
        Seq::empty()
    }

    fn trace(&self, tracer: &mut Tracer) {
    }
}

impl Trace for bool {
    open spec fn refs(&self) -> Seq<ObjectRef> {
        Seq::empty()
    }

    fn trace(&self, tracer: &mut Tracer) {
    }
}

impl Trace for i32 {
    open spec fn refs(&self) -> Seq<ObjectRef> {
        Seq::empty()
    }

    fn trace(&self, tracer: &mut Tracer) {
    }
}

impl Trace for String {
    open spec fn refs(&self) -> Seq<ObjectRef> {
        Seq::empty()
    }

    fn trace(&self, tracer: &mut Tracer) {
    }
}

/// The references that the first items of a list hold.
pub open spec fn list_refs<T: Trace>(list: Seq<T>, n: nat) -> Seq<ObjectRef>
    decreases n,
{
    if n == 0 || n > list.len() {
        Seq::empty()
    } else {
        list_refs(list, (n - 1) as nat) + list[n - 1].refs()
    }
}

/// To mark two lists one after the other is to mark them as one.
pub proof fn law_mark_all_adds(marks: Marks, first: Seq<ObjectRef>, second: Seq<ObjectRef>)
    ensures
        marks.mark_all(first).mark_all(second) == marks.mark_all(first + second),
    decreases second.len(),
{
    if second.len() == 0 {
        assert(first + second =~= first);
    } else {
        law_mark_all_adds(marks, first, second.drop_last());
        assert((first + second).drop_last() =~= first + second.drop_last());
        assert((first + second).last() == second.last());
    }
}

impl<T: Trace> Trace for Vec<T> {
    open spec fn refs(&self) -> Seq<ObjectRef> {
        list_refs(self@, self@.len())
    }

    fn trace(&self, tracer: &mut Tracer) {
        let mut i: usize = 0;
        while i < self.len()
            invariant
                i <= self@.len(),
                tracer@ == old(tracer)@.mark_all(list_refs(self@, i as nat)),
            decreases self@.len() - i,
        {
            self[i].trace(tracer);
            proof {
                law_mark_all_adds(
                    old(tracer)@,
                    list_refs(self@, i as nat),
                    self@[i as int].refs(),
                );
            }
            i = i + 1;
        }
    }
}

impl<T: Trace> Trace for Option<T> {
    open spec fn refs(&self) -> Seq<ObjectRef> {
        match *self {
            Some(value) => value.refs(),
            None => Seq::empty(),
        }
    }

    fn trace(&self, tracer: &mut Tracer) {
        match self {
            Some(value) => {
                value.trace(tracer);
            },
            None => {},
        }
    }
}

} // verus!

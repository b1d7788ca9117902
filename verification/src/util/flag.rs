//! Deferred flag queue.
//!
//! A flag is one variant of a closed enumeration. A queue records which
//! variants are marked; a drain runs the handler of every marked variant
//! once, in declaration order, and collects what the handlers raise in a
//! fresh queue that replaces the drained one only when the pass is over.

use core::marker::PhantomData;
use vstd::prelude::*;

verus! {

/// A closed enumeration whose variants are numbered densely, from zero, in
/// declaration order.
pub trait Variant: Copy + Sized {
    /// Number of variants.
    spec fn count() -> nat;

    /// Position of this variant in declaration order.
    spec fn index(self) -> nat;

    /// The variant at a position.
    spec fn at(i: nat) -> Self;

    /// Each variant sits below `count`, at its own position.
    proof fn lemma_index(self)
        ensures
            self.index() < Self::count(),
            Self::at(self.index()) == self,
    ;

    /// Each position below `count` holds the variant of that position.
    proof fn lemma_at(i: nat)
        requires
            i < Self::count(),
        ensures
            Self::at(i).index() == i,
    ;

    /// Number of variants.
    fn cardinality() -> (n: usize)
        ensures
            n == Self::count(),
    ;

    /// Position of this variant in declaration order.
    fn to_index(&self) -> (i: usize)
        ensures
            i == self.index(),
    ;
}

/// A flag over a context `C`: a variant with a handler.
///
/// `handled` and `raised` say what handling a variant does to the context
/// and which flags it raises for the next generation.
pub trait Flag<C: View>: Variant {
    /// What every handler may rely on and must keep.
    spec fn inv(ctx: C) -> bool;

    /// The context after this variant was handled.
    spec fn handled(self, ctx: C::V) -> C::V;

    /// The flags that handling this variant raises.
    spec fn raised(self, ctx: C::V) -> Set<Self>;

    /// Performs the transition of this variant on `ctx`; what it raises goes
    /// into `flags`, the queue of the next generation.
    fn handle(&self, flags: &mut Flags<Self, C>, ctx: &mut C)
        requires
            old(flags).wf(),
            Self::inv(*old(ctx)),
        ensures
            final(flags).wf(),
            Self::inv(*final(ctx)),
            final(flags)@ == old(flags)@.union(self.raised(old(ctx)@)),
            final(ctx)@ == self.handled(old(ctx)@),
    ;
}

/// The marked variants among the first `n`, in declaration order: the
/// handlers that a drain runs, in the order in which it runs them.
pub open spec fn run_order<T: Variant>(marked: Set<T>, n: nat) -> Seq<T>
    decreases n,
{
    if n == 0 {
        Seq::empty()
    } else {
        let before = run_order(marked, (n - 1) as nat);
        let v = T::at((n - 1) as nat);
        if marked.contains(v) {
            before.push(v)
        } else {
            before
        }
    }
}

/// Handles the variants of `order` one after the other, starting from `ctx`
/// and an empty queue: the context at the end, and everything raised.
pub open spec fn run<C: View, T: Flag<C>>(order: Seq<T>, ctx: C::V) -> (C::V, Set<T>)
    decreases order.len(),
{
    if order.len() == 0 {
        (ctx, Set::empty())
    } else {
        let (c, raised) = run::<C, T>(order.drop_last(), ctx);
        (order.last().handled(c), raised.union(order.last().raised(c)))
    }
}

/// One generation: every marked variant is handled once, in declaration
/// order; the result is the context at the end and the queue of the next
/// generation.
pub open spec fn drain<C: View, T: Flag<C>>(marked: Set<T>, ctx: C::V) -> (C::V, Set<T>) {
    run::<C, T>(run_order(marked, T::count()), ctx)
}

/// `marked` after `times` calls of `mark(v)`.
pub open spec fn mark_times<T>(marked: Set<T>, v: T, times: nat) -> Set<T>
    decreases times,
{
    if times == 0 {
        marked
    } else {
        mark_times(marked, v, (times - 1) as nat).insert(v)
    }
}

/// The set of marked variants of one enumeration.
pub struct Flags<T, X> {
    state: Vec<Option<T>>,
    phantom: PhantomData<X>,
}

impl<T: Variant, X> View for Flags<T, X> {
    type V = Set<T>;

    closed spec fn view(&self) -> Set<T> {
        Set::new(|f: T| self.state@[f.index() as int] == Some(f))
    }
}

impl<T: Variant, X> Flags<T, X> {
    /// One slot per variant, and a slot holds no variant but its own.
    pub closed spec fn wf(&self) -> bool {
        &&& self.state@.len() == T::count()
        &&& forall|i: int|
            0 <= i < self.state@.len() ==> (#[trigger] self.state@[i] matches Some(f) ==> f.index()
                == i)
    }

    /// A queue with nothing marked.
    pub fn new() -> (q: Self)
        ensures
            q.wf(),
            q@ == Set::<T>::empty(),
    {
        let n = T::cardinality();
        let mut state: Vec<Option<T>> = Vec::new();
        while state.len() < n
            invariant
                n == T::count(),
                state@.len() <= n,
                forall|i: int| 0 <= i < state@.len() ==> state@[i] == None::<T>,
            decreases n - state.len(),
        {
            state.push(None);
        }
        let q = Flags { state, phantom: PhantomData };
        assert(q@ =~= Set::<T>::empty()) by {
            assert forall|f: T| !q@.contains(f) by {
                f.lemma_index();
            }
        }
        q
    }

    /// Records that the handler of `f` runs in the next drain.
    pub fn mark(&mut self, f: T)
        requires
            old(self).wf(),
        ensures
            final(self).wf(),
            final(self)@ == old(self)@.insert(f),
    {
        proof {
            f.lemma_index();
        }
        let i = f.to_index();
        self.state.set(i, Some(f));
        assert(self@ =~= old(self)@.insert(f)) by {
            assert forall|g: T| self@.contains(g) <==> old(self)@.insert(f).contains(g) by {
                g.lemma_index();
            }
        }
    }

    /// Cancels a pending mark of `f`.
    pub fn unmark(&mut self, f: T)
        requires
            old(self).wf(),
        ensures
            final(self).wf(),
            final(self)@ == old(self)@.remove(f),
    {
        proof {
            f.lemma_index();
        }
        let i = f.to_index();
        self.state.set(i, None);
        assert(self@ =~= old(self)@.remove(f)) by {
            assert forall|g: T| self@.contains(g) <==> old(self)@.remove(f).contains(g) by {
                g.lemma_index();
            }
        }
    }

    /// Whether `f` is marked.
    pub fn is_marked(&self, f: &T) -> (b: bool)
        requires
            self.wf(),
        ensures
            b == self@.contains(*f),
    {
        let i = f.to_index();
        proof {
            f.lemma_index();
            if let Some(g) = self.state@[i as int] {
                g.lemma_index();
            }
        }
        self.state[i].is_some()
    }

    /// The marked variants, in the order in which a drain handles them.
    pub fn marked(&self) -> (order: Vec<T>)
        requires
            self.wf(),
        ensures
            order@ == run_order(self@, T::count()),
    {
        let mut order: Vec<T> = Vec::new();
        let mut i: usize = 0;
        while i < self.state.len()
            invariant
                self.wf(),
                i <= self.state@.len(),
                order@ == run_order(self@, i as nat),
            decreases self.state@.len() - i,
        {
            proof {
                T::lemma_at(i as nat);
            }
            match self.state[i] {
                Some(f) => {
                    proof {
                        f.lemma_index();
                    }
                    order.push(f);
                },
                None => {},
            }
            i += 1;
        }
        order
    }
}

impl<T: Flag<X>, X: View> Flags<T, X> {
    /// Drains the queue: runs the handler of every marked variant once, in
    /// declaration order, on `ctx` and a fresh queue, which then replaces
    /// this one.
    pub fn handle(&mut self, ctx: &mut X)
        requires
            old(self).wf(),
            T::inv(*old(ctx)),
        ensures
            final(self).wf(),
            T::inv(*final(ctx)),
            (final(ctx)@, final(self)@) == drain::<X, T>(old(self)@, old(ctx)@),
    {
        let ghost start = ctx@;
        let mut next: Flags<T, X> = Flags::new();
        let mut i: usize = 0;
        while i < self.state.len()
            invariant
                self.wf(),
                next.wf(),
                i <= self.state@.len(),
                T::inv(*ctx),
                (ctx@, next@) == run::<X, T>(run_order(self@, i as nat), start),
            decreases self.state@.len() - i,
        {
            proof {
                T::lemma_at(i as nat);
            }
            match self.state[i] {
                Some(f) => {
                    proof {
                        f.lemma_index();
                        let before = run_order(self@, i as nat);
                        assert(before.push(f).drop_last() =~= before);
                    }
                    f.handle(&mut next, ctx);
                },
                None => {},
            }
            i += 1;
        }
        self.state = next.state;
    }
}

/// A drain handles variants in declaration order, and none of them twice:
/// along the run order positions strictly increase, and every entry is a
/// marked variant among the first `n`.
pub proof fn lemma_run_order_increasing<T: Variant>(marked: Set<T>, n: nat)
    requires
        n <= T::count(),
    ensures
        forall|i: int, j: int|
            0 <= i < j < run_order(marked, n).len() ==> (#[trigger] run_order(marked, n)[i]).index()
                < (#[trigger] run_order(marked, n)[j]).index(),
        forall|i: int|
            0 <= i < run_order(marked, n).len() ==> (#[trigger] run_order(marked, n)[i]).index() < n
                && marked.contains(run_order(marked, n)[i]),
    decreases n,
{
    if n > 0 {
        lemma_run_order_increasing(marked, (n - 1) as nat);
        T::lemma_at((n - 1) as nat);
        let order = run_order(marked, n);
        let before = run_order(marked, (n - 1) as nat);
        assert forall|i: int| 0 <= i < order.len() implies (#[trigger] order[i]).index() < n
            && marked.contains(order[i]) by {
            if i < before.len() {
                assert(order[i] == before[i]);
            }
        }
        assert forall|i: int, j: int| 0 <= i < j < order.len() implies (#[trigger] order[i]).index()
            < (#[trigger] order[j]).index() by {
            assert(order[i] == before[i]);
            if j < before.len() {
                assert(order[j] == before[j]);
            }
        }
    }
}

/// The order in which two variants were marked makes no difference to
/// the queue, and so none to the order in which a drain handles them.
pub proof fn lemma_marking_order_is_irrelevant<T: Variant>(marked: Set<T>, a: T, b: T)
    ensures
        marked.insert(a).insert(b) == marked.insert(b).insert(a),
        run_order(marked.insert(a).insert(b), T::count()) == run_order(
            marked.insert(b).insert(a),
            T::count(),
        ),
{
    assert(marked.insert(a).insert(b) =~= marked.insert(b).insert(a));
}

/// A drain handles exactly the variants that were marked when it began.
pub proof fn lemma_run_order_contains<T: Variant>(marked: Set<T>, v: T)
    ensures
        run_order(marked, T::count()).contains(v) <==> marked.contains(v),
{
    v.lemma_index();
    if marked.contains(v) {
        lemma_run_order_prefix_contains(marked, v, T::count());
    } else {
        lemma_run_order_increasing(marked, T::count());
    }
}

proof fn lemma_run_order_prefix_contains<T: Variant>(marked: Set<T>, v: T, n: nat)
    requires
        n <= T::count(),
        marked.contains(v),
        v.index() < n,
    ensures
        run_order(marked, n).contains(v),
    decreases n,
{
    v.lemma_index();
    let before = run_order(marked, (n - 1) as nat);
    let last = T::at((n - 1) as nat);
    if v.index() == n - 1 {
        assert(before.push(v)[before.len() as int] == v);
    } else {
        lemma_run_order_prefix_contains(marked, v, (n - 1) as nat);
        let k = choose|k: int| 0 <= k < before.len() && before[k] == v;
        if marked.contains(last) {
            assert(before.push(last)[k] == v);
        }
    }
}

/// Marking is idempotent: after one call of `mark(v)` or after many, the
/// queue holds what it held before, and `v`.
pub proof fn lemma_mark_idempotent<T>(marked: Set<T>, v: T, times: nat)
    requires
        times >= 1,
    ensures
        mark_times(marked, v, times) == marked.insert(v),
    decreases times,
{
    if times > 1 {
        lemma_mark_idempotent(marked, v, (times - 1) as nat);
    } else {
        assert(mark_times(marked, v, 0) == marked);
    }
    assert(marked.insert(v).insert(v) =~= marked.insert(v));
}

/// However often `v` was marked before a drain, the drain handles it
/// exactly once.
pub proof fn lemma_marked_runs_once<T: Variant>(marked: Set<T>, v: T, times: nat)
    requires
        times >= 1,
    ensures
        ({
            let order = run_order(mark_times(marked, v, times), T::count());
            exists|i: int|
                0 <= i < order.len() && order[i] == v && forall|j: int|
                    0 <= j < order.len() && order[j] == v ==> j == i
        }),
{
    lemma_mark_idempotent(marked, v, times);
    let order = run_order(marked.insert(v), T::count());
    lemma_run_order_contains(marked.insert(v), v);
    lemma_run_order_increasing(marked.insert(v), T::count());
    let i = choose|i: int| 0 <= i < order.len() && order[i] == v;
    assert forall|j: int| 0 <= j < order.len() && order[j] == v implies j == i by {
        if j < i {
            assert(order[j].index() < order[i].index());
        } else if i < j {
            assert(order[i].index() < order[j].index());
        }
    }
}

/// Everything that a handler raises during a pass is in the queue that the
/// pass leaves behind.
pub proof fn lemma_run_collects<C: View, T: Flag<C>>(order: Seq<T>, ctx: C::V, k: int, b: T)
    requires
        0 <= k < order.len(),
        order[k].raised(run::<C, T>(order.take(k), ctx).0).contains(b),
    ensures
        run::<C, T>(order, ctx).1.contains(b),
    decreases order.len(),
{
    if k == order.len() - 1 {
        assert(order.take(k) =~= order.drop_last());
    } else {
        assert(order.drop_last().take(k) =~= order.take(k));
        lemma_run_collects::<C, T>(order.drop_last(), ctx, k, b);
    }
}

/// One-generation lag: when the `k`-th handler of a drain raises `b`, then
/// `b` is marked in the queue that the drain leaves, and so is handled by
/// the next drain; the current drain handles `b` only if `b` was marked
/// before it began.
pub proof fn lemma_one_generation_lag<C: View, T: Flag<C>>(
    marked: Set<T>,
    ctx: C::V,
    k: int,
    b: T,
)
    requires
        0 <= k < run_order(marked, T::count()).len(),
        run_order(marked, T::count())[k].raised(
            run::<C, T>(run_order(marked, T::count()).take(k), ctx).0,
        ).contains(b),
    ensures
        drain::<C, T>(marked, ctx).1.contains(b),
        run_order(drain::<C, T>(marked, ctx).1, T::count()).contains(b),
        run_order(marked, T::count()).contains(b) <==> marked.contains(b),
{
    lemma_run_collects::<C, T>(run_order(marked, T::count()), ctx, k, b);
    lemma_run_order_contains(drain::<C, T>(marked, ctx).1, b);
    lemma_run_order_contains(marked, b);
}

} // verus!

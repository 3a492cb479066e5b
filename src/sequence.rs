//! The reorder buffer: holds events that arrived ahead of their turn and
//! releases them in strictly increasing, gap-free sequence order.
use std::collections::HashMap;
use vstd::prelude::*;

verus! {

broadcast use vstd::std_specs::hash::group_hash_axioms;

/// Most events held back at once; one more out-of-order event than this
/// means a sequence number is missing for good and the connection is replaced.
pub const MAX_PENDING: usize = 4096;

/// What a buffer is: the highest sequence number delivered so far, and the
/// events held back, keyed by sequence number.
pub struct BufferView<T> {
    pub cursor: i64,
    pub pending: Map<i64, T>,
}

impl<T> BufferView<T> {
    /// The cursor never goes below its start, and every held event lies
    /// beyond the gap that keeps it from being delivered.
    pub open spec fn wf(self) -> bool {
        &&& self.cursor >= 0
        &&& self.pending.dom().finite()
        &&& forall|k: i64| #[trigger] self.pending.contains_key(k) ==> k > self.cursor + 1
    }
}

/// The last sequence number of the unbroken run of held events that follows `c`.
pub open spec fn run_end<T>(pending: Map<i64, T>, c: i64) -> i64
    decreases i64::MAX - c,
{
    if c < i64::MAX && pending.contains_key((c + 1) as i64) {
        run_end(pending, (c + 1) as i64)
    } else {
        c
    }
}

/// The sequence numbers strictly after `lo` up to and including `hi`.
pub open spec fn span(lo: i64, hi: i64) -> Set<i64> {
    Set::new(|k: i64| lo < k <= hi)
}

/// The events released when `item`, numbered `sn`, closes the gap: `item`
/// first, then the held run that follows it.
pub open spec fn released<T>(pending: Map<i64, T>, sn: i64, item: T) -> Seq<T> {
    Seq::new(
        (run_end(pending, sn) - sn + 1) as nat,
        |i: int| if i == 0 { item } else { pending[(sn + i) as i64] },
    )
}

/// One observation of event `item` numbered `sn`: the new buffer and the
/// events it releases, in order.
pub open spec fn observe_spec<T>(v: BufferView<T>, sn: i64, item: T) -> (BufferView<T>, Seq<T>) {
    if sn <= v.cursor {
        (v, Seq::empty())
    } else if sn == v.cursor + 1 {
        let e = run_end(v.pending, sn);
        (
            BufferView { cursor: e, pending: v.pending.remove_keys(span(sn, e)) },
            released(v.pending, sn, item),
        )
    } else {
        (BufferView { cursor: v.cursor, pending: v.pending.insert(sn, item) }, Seq::empty())
    }
}

/// Whether holding `sn` back would exceed the buffer's bound.
pub open spec fn overflows<T>(v: BufferView<T>, sn: i64) -> bool {
    &&& sn > v.cursor + 1
    &&& !v.pending.contains_key(sn)
    &&& v.pending.len() >= MAX_PENDING
}

/// Observing events numbered by `inputs`, one after another, each event
/// carrying its own sequence number.
pub open spec fn observe_all(v: BufferView<i64>, inputs: Seq<i64>) -> (BufferView<i64>, Seq<i64>)
    decreases inputs.len(),
{
    if inputs.len() == 0 {
        (v, Seq::empty())
    } else {
        let before = observe_all(v, inputs.drop_last());
        let step = observe_spec(before.0, inputs.last(), inputs.last());
        (step.0, before.1 + step.1)
    }
}

/// The facts that make `run_end` a run: it does not go back, every number
/// up to it is held, and the next one is not.
pub proof fn lemma_run_end<T>(pending: Map<i64, T>, c: i64)
    ensures
        run_end(pending, c) >= c,
        forall|k: i64| c < k <= run_end(pending, c) ==> #[trigger] pending.contains_key(k),
        run_end(pending, c) < i64::MAX ==> !pending.contains_key((run_end(pending, c) + 1) as i64),
        forall|k: i64| c <= k <= run_end(pending, c) ==> #[trigger] run_end(pending, k) == run_end(pending, c),
    decreases i64::MAX - c,
{
    if c < i64::MAX && pending.contains_key((c + 1) as i64) {
        lemma_run_end(pending, (c + 1) as i64);
    }
}

/// Observation keeps the buffer well formed.
pub proof fn lemma_observe_wf<T>(v: BufferView<T>, sn: i64, item: T)
    requires
        v.wf(),
    ensures
        observe_spec(v, sn, item).0.wf(),
        observe_spec(v, sn, item).0.cursor >= v.cursor,
{
    if sn == v.cursor + 1 {
        lemma_run_end(v.pending, sn);
        let e = run_end(v.pending, sn);
        let p = v.pending.remove_keys(span(sn, e));
        assert(p.dom() =~= v.pending.dom().difference(span(sn, e)));
        assert forall|k: i64| #[trigger] p.contains_key(k) implies k > e + 1 by {
            assert(v.pending.contains_key(k));
            assert(!span(sn, e).contains(k));
        }
    }
}

/// Observing the same event twice changes nothing beyond the first
/// observation: the second one releases nothing and leaves the buffer as
/// the first left it, without approaching the bound.
pub proof fn lemma_observe_idempotent<T>(v: BufferView<T>, sn: i64, item: T)
    requires
        v.wf(),
    ensures
        observe_spec(observe_spec(v, sn, item).0, sn, item).0 == observe_spec(v, sn, item).0,
        observe_spec(observe_spec(v, sn, item).0, sn, item).1 == Seq::<T>::empty(),
        !overflows(observe_spec(v, sn, item).0, sn),
{
    lemma_observe_wf(v, sn, item);
    if sn == v.cursor + 1 {
        lemma_run_end(v.pending, sn);
    } else if sn > v.cursor + 1 {
        let w = observe_spec(v, sn, item).0;
        assert(w.pending.insert(sn, item) =~= w.pending);
    }
}

/// The numbers from `lo + 1` to `hi`, ascending.
pub open spec fn ascending(lo: i64, hi: i64) -> Seq<i64> {
    Seq::new((hi - lo) as nat, |i: int| (lo + 1 + i) as i64)
}

/// What holds after any prefix of the inputs: everything delivered is the
/// unbroken ascending run after the start, each number of it arrived, and
/// the buffer holds exactly the arrived numbers past the cursor.
pub open spec fn delivery_state(c0: i64, inputs: Seq<i64>, r: (BufferView<i64>, Seq<i64>)) -> bool {
    &&& r.0.wf()
    &&& c0 <= r.0.cursor
    &&& r.1 == ascending(c0, r.0.cursor)
    &&& forall|n: i64| c0 < n <= r.0.cursor ==> #[trigger] inputs.contains(n)
    &&& forall|x: i64| #[trigger] r.0.pending.contains_key(x) <==> (inputs.contains(x) && x > r.0.cursor)
    &&& forall|x: i64| #[trigger] r.0.pending.contains_key(x) ==> r.0.pending[x] == x
}

proof fn lemma_observe_all_state(c0: i64, inputs: Seq<i64>)
    requires
        c0 >= 0,
    ensures
        delivery_state(c0, inputs, observe_all(BufferView { cursor: c0, pending: Map::empty() }, inputs)),
    decreases inputs.len(),
{
    let v0 = BufferView { cursor: c0, pending: Map::<i64, i64>::empty() };
    if inputs.len() == 0 {
        assert(ascending(c0, c0) =~= Seq::<i64>::empty());
    } else {
        let init = inputs.drop_last();
        let sn = inputs.last();
        lemma_observe_all_state(c0, init);
        let before = observe_all(v0, init);
        let v = before.0;
        let step = observe_spec(v, sn, sn);
        let after = observe_all(v0, inputs);
        assert(after == (step.0, before.1 + step.1));
        lemma_observe_wf(v, sn, sn);
        assert forall|x: i64| init.contains(x) implies inputs.contains(x) by {
            let i = choose|i: int| 0 <= i < init.len() && init[i] == x;
            assert(inputs[i] == x);
        }
        assert forall|x: i64| #[trigger] inputs.contains(x) implies (init.contains(x) || x == sn) by {
            let i = choose|i: int| 0 <= i < inputs.len() && inputs[i] == x;
            if i < inputs.len() - 1 {
                assert(init[i] == x);
            }
        }
        assert(inputs.contains(sn)) by {
            assert(inputs[inputs.len() - 1] == sn);
        }
        if sn <= v.cursor {
            assert(step.1 =~= Seq::<i64>::empty());
            assert(before.1 + step.1 =~= before.1);
        } else if sn == v.cursor + 1 {
            let e = run_end(v.pending, sn);
            lemma_run_end(v.pending, sn);
            assert(before.1 + step.1 =~= ascending(c0, e)) by {
                assert forall|i: int| 0 <= i < ascending(c0, e).len() implies (before.1 + step.1)[i]
                    == ascending(c0, e)[i] by {
                    if i >= before.1.len() {
                        let j = i - before.1.len();
                        if j > 0 {
                            assert(v.pending.contains_key((sn + j) as i64));
                        }
                    }
                }
            }
            assert forall|n: i64| c0 < n <= e implies #[trigger] inputs.contains(n) by {
                if n > sn {
                    assert(v.pending.contains_key(n));
                }
            }
            let p = step.0.pending;
            assert forall|x: i64| #[trigger] p.contains_key(x) <==> (inputs.contains(x) && x > e) by {
                if inputs.contains(x) && x > e {
                    assert(init.contains(x));
                    assert(v.pending.contains_key(x));
                    assert(!span(sn, e).contains(x));
                }
                if p.contains_key(x) {
                    assert(!span(sn, e).contains(x));
                }
            }
        } else {
            assert(step.1 =~= Seq::<i64>::empty());
            assert(before.1 + step.1 =~= before.1);
        }
    }
}

/// For events observed in any order, starting from an empty buffer whose
/// cursor is `c0`: the numbers delivered ascend strictly with no repeats,
/// each of them arrived, and once every number from `c0 + 1` up to the
/// largest that arrived has arrived, exactly the arrived numbers past `c0`
/// have been delivered.
pub proof fn lemma_delivery_order(c0: i64, inputs: Seq<i64>)
    requires
        c0 >= 0,
    ensures
        ({
            let out = observe_all(BufferView { cursor: c0, pending: Map::empty() }, inputs).1;
            &&& forall|i: int, j: int| 0 <= i < j < out.len() ==> out[i] < out[j]
            &&& forall|x: i64| #[trigger] out.contains(x) ==> inputs.contains(x) && x > c0
            &&& (forall|n: i64|
                c0 < n && (exists|i: int| 0 <= i < inputs.len() && n <= inputs[i])
                    ==> #[trigger] inputs.contains(n))
                ==> forall|x: i64| #[trigger] out.contains(x) <==> (inputs.contains(x) && x > c0)
        }),
{
    lemma_observe_all_state(c0, inputs);
    let r = observe_all(BufferView { cursor: c0, pending: Map::empty() }, inputs);
    let out = r.1;
    let c = r.0.cursor;
    assert forall|x: i64| #[trigger] out.contains(x) implies inputs.contains(x) && x > c0 && x <= c by {
        let i = choose|i: int| 0 <= i < out.len() && out[i] == x;
        assert(out[i] == c0 + 1 + i);
    }
    if forall|n: i64|
        c0 < n && (exists|i: int| 0 <= i < inputs.len() && n <= inputs[i])
            ==> #[trigger] inputs.contains(n) {
        assert forall|x: i64| inputs.contains(x) && x > c0 implies #[trigger] out.contains(x) by {
            let i = choose|i: int| 0 <= i < inputs.len() && inputs[i] == x;
            if x > c {
                let n = (c + 1) as i64;
                assert(c0 < n && n <= inputs[i]);
                assert(inputs.contains(n));
                assert(!r.0.pending.contains_key(n));
            }
            assert(out[x - c0 - 1] == x);
        }
    }
}

/// A reorder buffer over events of type `T`.
pub struct ReorderBuffer<T> {
    cursor: i64,
    pending: HashMap<i64, T>,
}

impl<T> View for ReorderBuffer<T> {
    type V = BufferView<T>;

    closed spec fn view(&self) -> BufferView<T> {
        BufferView { cursor: self.cursor, pending: self.pending@ }
    }
}

impl<T> ReorderBuffer<T> {
    /// An empty buffer that has delivered nothing.
    pub fn new() -> (r: Self)
        ensures
            r@.cursor == 0,
            r@.pending == Map::<i64, T>::empty(),
            r@.wf(),
    {
        ReorderBuffer { cursor: 0, pending: HashMap::new() }
    }

    /// The highest sequence number delivered so far.
    pub fn cursor(&self) -> (r: i64)
        ensures
            r == self@.cursor,
    {
        self.cursor
    }

    /// How many events are held back.
    pub fn pending_len(&self) -> (r: usize)
        ensures
            r == self@.pending.len(),
    {
        self.pending.len()
    }

    /// Observes event `item` numbered `sn`. Returns the events it releases,
    /// in delivery order, or `None` where holding it back would exceed
    /// `MAX_PENDING`, in which case the buffer is unchanged.
    pub fn observe(&mut self, sn: i64, item: T) -> (r: Option<Vec<T>>)
        requires
            old(self)@.wf(),
        ensures
            final(self)@.wf(),
            final(self)@.cursor >= old(self)@.cursor,
            overflows(old(self)@, sn) ==> r is None && final(self)@ == old(self)@,
            !overflows(old(self)@, sn) ==> {
                &&& r matches Some(run)
                &&& run@ == observe_spec(old(self)@, sn, item).1
                &&& final(self)@ == observe_spec(old(self)@, sn, item).0
            },
    {
        proof {
            lemma_observe_wf(self@, sn, item);
        }
        if sn <= self.cursor {
            return Some(Vec::new());
        }
        if sn - 1 != self.cursor {
            if self.pending.len() >= MAX_PENDING && !self.pending.contains_key(&sn) {
                return None;
            }
            self.pending.insert(sn, item);
            return Some(Vec::new());
        }
        let ghost p = self.pending@;
        proof {
            lemma_run_end(p, sn);
        }
        let mut run: Vec<T> = Vec::new();
        run.push(item);
        self.cursor = sn;
        assert(p.remove_keys(span(sn, sn)) =~= p);
        loop
            invariant
                sn <= self.cursor <= run_end(p, sn),
                run_end(p, self.cursor) == run_end(p, sn),
                self.pending@ == p.remove_keys(span(sn, self.cursor)),
                run@.len() == self.cursor - sn + 1,
                forall|i: int| 0 <= i < run@.len() ==> #[trigger] run@[i] == released(p, sn, item)[i],
                p.dom().finite(),
                forall|k: i64| #[trigger] p.contains_key(k) ==> k > sn,
            ensures
                self.cursor == run_end(p, sn),
                self.pending@ == p.remove_keys(span(sn, self.cursor)),
                run@.len() == self.cursor - sn + 1,
                forall|i: int| 0 <= i < run@.len() ==> #[trigger] run@[i] == released(p, sn, item)[i],
            decreases i64::MAX - self.cursor,
        {
            if self.cursor == i64::MAX {
                break;
            }
            let next = self.cursor + 1;
            match self.pending.remove(&next) {
                Some(x) => {
                    proof {
                        lemma_run_end(p, next);
                    }
                    assert(!span(sn, self.cursor).contains(next));
                    assert(p.remove_keys(span(sn, self.cursor)).remove(next) =~= p.remove_keys(
                        span(sn, next),
                    ));
                    run.push(x);
                    self.cursor = next;
                },
                None => {
                    assert(!span(sn, self.cursor).contains(next));
                    assert(!p.contains_key(next));
                    assert(run_end(p, self.cursor) == self.cursor);
                    break;
                },
            }
        }
        assert(run@ =~= released(p, sn, item));
        Some(run)
    }
}

} // verus!

use vstd::prelude::*;
use crate::error::{failure_with, ErrorKind};
use crate::exchange::HttpResult;

verus! {

/// Detail prefix of a batch item whose task ended without an outcome.
pub const TASK_PREFIX: &'static str = "Task error: ";

/// Gathers the outcomes of a batch, one slot per input position, whatever
/// order the outcomes arrive in.
pub struct BatchCollector {
    slots: Vec<Option<HttpResult>>,
}

impl View for BatchCollector {
    type V = Seq<Option<HttpResult>>;

    closed spec fn view(&self) -> Seq<Option<HttpResult>> {
        self.slots@
    }
}

/// The slots after the completions `done` are recorded in order into `start`;
/// a completion is a position and its outcome.
pub open spec fn recorded(
    start: Seq<Option<HttpResult>>,
    done: Seq<(int, HttpResult)>,
) -> Seq<Option<HttpResult>>
    decreases done.len(),
{
    if done.len() == 0 {
        start
    } else {
        let last = done.last();
        recorded(start, done.drop_last()).update(last.0, Some(last.1))
    }
}

/// Whether no two completions name the same position.
pub open spec fn distinct_positions(done: Seq<(int, HttpResult)>) -> bool {
    forall|a: int, b: int|
        0 <= a < done.len() && 0 <= b < done.len() && a != b ==> #[trigger] done[a].0
            != #[trigger] done[b].0
}

/// Whether every slot holds an outcome.
pub open spec fn all_filled(slots: Seq<Option<HttpResult>>) -> bool {
    forall|i: int| 0 <= i < slots.len() ==> (#[trigger] slots[i]) is Some
}

impl BatchCollector {
    /// A collector for a batch of `n` requests, with every slot empty.
    pub fn new(n: usize) -> (r: BatchCollector)
        ensures
            r@ == Seq::new(n as nat, |i: int| None::<HttpResult>),
    {
        let mut slots: Vec<Option<HttpResult>> = Vec::new();
        let mut i: usize = 0;
        while i < n
            invariant
                i <= n,
                slots@ == Seq::new(i as nat, |k: int| None::<HttpResult>),
            decreases n - i,
        {
            slots.push(None);
            i = i + 1;
            assert(slots@ =~= Seq::new(i as nat, |k: int| None::<HttpResult>));
        }
        BatchCollector { slots }
    }

    /// The number of positions in the batch.
    pub fn len(&self) -> (r: usize)
        ensures
            r == self@.len(),
    {
        self.slots.len()
    }

    /// Records the outcome of the request at `index`.
    pub fn record(&mut self, index: usize, result: HttpResult)
        requires
            index < old(self)@.len(),
        ensures
            final(self)@ == old(self)@.update(index as int, Some(result)),
    {
        self.slots.set(index, Some(result));
    }

    /// Records that the task for `index` ended without an outcome; that
    /// position fails with a request error, and no other is touched.
    pub fn record_aborted(&mut self, index: usize, detail: &str)
        requires
            index < old(self)@.len(),
        ensures
            final(self)@.len() == old(self)@.len(),
            forall|i: int| 0 <= i < old(self)@.len() && i != index ==> final(self)@[i] == old(self)@[i],
            final(self)@[index as int] matches Some(HttpResult::Failure(f)) && f.kind
                == ErrorKind::RequestError && f.detail@ == TASK_PREFIX@ + detail@,
    {
        let f = failure_with(ErrorKind::RequestError, TASK_PREFIX, detail);
        self.record(index, HttpResult::Failure(f));
    }

    /// Whether every position has its outcome.
    pub fn is_complete(&self) -> (r: bool)
        ensures
            r == all_filled(self@),
    {
        let mut i: usize = 0;
        while i < self.slots.len()
            invariant
                i <= self@.len(),
                forall|k: int| 0 <= k < i ==> (#[trigger] self@[k]) is Some,
            decreases self@.len() - i,
        {
            if self.slots[i].is_none() {
                return false;
            }
            i = i + 1;
        }
        true
    }

    /// The outcomes in input order, once every position has one.
    pub fn finish(self) -> (r: Option<Vec<HttpResult>>)
        ensures
            r is Some <==> all_filled(self@),
            r matches Some(v) ==> v@.len() == self@.len() && forall|i: int|
                0 <= i < v@.len() ==> self@[i] == Some(#[trigger] v@[i]),
    {
        if !self.is_complete() {
            return None;
        }
        let ghost slots = self@;
        let mut rest = self.slots;
        let mut out: Vec<HttpResult> = Vec::new();
        // Take outcomes from the back, then restore input order.
        while rest.len() > 0
            invariant
                rest@.len() + out@.len() == slots.len(),
                rest@ == slots.subrange(0, rest@.len() as int),
                all_filled(slots),
                forall|k: int|
                    0 <= k < out@.len() ==> slots[slots.len() - 1 - k] == Some(#[trigger] out@[k]),
            decreases rest@.len(),
        {
            let slot = rest.pop().unwrap();
            assert(slots[rest@.len() as int] is Some);
            match slot {
                Some(x) => out.push(x),
                None => {},
            }
        }
        let mut ordered: Vec<HttpResult> = Vec::new();
        while out.len() > 0
            invariant
                out@.len() + ordered@.len() == slots.len(),
                forall|k: int|
                    0 <= k < out@.len() ==> slots[slots.len() - 1 - k] == Some(#[trigger] out@[k]),
                forall|k: int| 0 <= k < ordered@.len() ==> slots[k] == Some(#[trigger] ordered@[k]),
            decreases out@.len(),
        {
            let x = out.pop().unwrap();
            ordered.push(x);
        }
        Some(ordered)
    }
}

/// Recording completions at positions inside the batch keeps its length.
pub proof fn recorded_keeps_length(start: Seq<Option<HttpResult>>, done: Seq<(int, HttpResult)>)
    requires
        forall|k: int| 0 <= k < done.len() ==> 0 <= #[trigger] done[k].0 < start.len(),
    ensures
        recorded(start, done).len() == start.len(),
    decreases done.len(),
{
    if done.len() > 0 {
        let prev = done.drop_last();
        assert forall|k: int| 0 <= k < prev.len() implies 0 <= #[trigger] prev[k].0 < start.len() by {
            assert(prev[k] == done[k]);
        }
        recorded_keeps_length(start, prev);
    }
}

/// Each outcome lands at the position of the request it belongs to, whatever
/// the order in which the outcomes arrive: when the positions of a batch of
/// `n` complete once each, in any order, the batch yields `n` outcomes in
/// input order, and position `done[k].0` holds `done[k].1`.
pub proof fn outcomes_keep_input_order(n: nat, done: Seq<(int, HttpResult)>)
    requires
        done.len() == n,
        distinct_positions(done),
        forall|k: int| 0 <= k < done.len() ==> 0 <= #[trigger] done[k].0 < n,
    ensures
        recorded(Seq::new(n, |i: int| None::<HttpResult>), done).len() == n,
        all_filled(recorded(Seq::new(n, |i: int| None::<HttpResult>), done)),
        forall|k: int|
            0 <= k < done.len() ==> recorded(Seq::new(n, |i: int| None::<HttpResult>), done)[#[trigger] done[k].0]
                == Some(done[k].1),
{
    let start = Seq::new(n, |i: int| None::<HttpResult>);
    recorded_keeps_length(start, done);
    placed_outcomes(start, done);
    // n distinct positions below n cover every position.
    assert forall|i: int| 0 <= i < n implies (#[trigger] recorded(start, done)[i]) is Some by {
        distinct_positions_cover(done, n as int, i);
        let k = choose|k: int| 0 <= k < done.len() && #[trigger] done[k].0 == i;
        assert(recorded(start, done)[done[k].0] == Some(done[k].1));
    }
}

/// After recording completions with distinct positions, each named position
/// holds its outcome and every other position is as it was.
proof fn placed_outcomes(start: Seq<Option<HttpResult>>, done: Seq<(int, HttpResult)>)
    requires
        distinct_positions(done),
        forall|k: int| 0 <= k < done.len() ==> 0 <= #[trigger] done[k].0 < start.len(),
    ensures
        forall|k: int| 0 <= k < done.len() ==> recorded(start, done)[#[trigger] done[k].0] == Some(done[k].1),
        forall|i: int|
            0 <= i < start.len() && recorded(start, done)[i] is None ==> #[trigger] start[i] is None,
        forall|i: int|
            0 <= i < start.len() && (forall|k: int| 0 <= k < done.len() ==> #[trigger] done[k].0 != i)
                ==> #[trigger] recorded(start, done)[i] == start[i],
    decreases done.len(),
{
    recorded_keeps_length(start, done);
    if done.len() > 0 {
        let prev = done.drop_last();
        assert forall|k: int| 0 <= k < prev.len() implies 0 <= #[trigger] prev[k].0 < start.len() by {
            assert(prev[k] == done[k]);
        }
        recorded_keeps_length(start, prev);
        assert forall|a: int, b: int|
            0 <= a < prev.len() && 0 <= b < prev.len() && a != b implies #[trigger] prev[a].0
                != #[trigger] prev[b].0 by {
            assert(done[a].0 != done[b].0);
        }
        placed_outcomes(start, prev);
        let last = done.last();
        assert forall|k: int| 0 <= k < done.len() implies recorded(start, done)[#[trigger] done[k].0]
            == Some(done[k].1) by {
            if k < done.len() - 1 {
                assert(done[k].0 != done[done.len() - 1].0);
                assert(prev[k] == done[k]);
            }
        }
        assert forall|i: int|
            0 <= i < start.len() && (forall|k: int| 0 <= k < done.len() ==> #[trigger] done[k].0 != i)
                implies #[trigger] recorded(start, done)[i] == start[i] by {
            assert(done[done.len() - 1].0 != i);
            assert forall|k: int| 0 <= k < prev.len() implies #[trigger] prev[k].0 != i by {
                assert(prev[k] == done[k]);
                assert(done[k].0 != i);
            }
        }
    }
}

/// `n` completions with distinct positions below `n` name every position
/// below `n`.
proof fn distinct_positions_cover(done: Seq<(int, HttpResult)>, n: int, i: int)
    requires
        done.len() == n,
        distinct_positions(done),
        forall|k: int| 0 <= k < done.len() ==> 0 <= #[trigger] done[k].0 < n,
        0 <= i < n,
    ensures
        exists|k: int| 0 <= k < done.len() && #[trigger] done[k].0 == i,
{
    let ps = done.map_values(|c: (int, HttpResult)| c.0);
    assert forall|a: int, b: int| 0 <= a < ps.len() && 0 <= b < ps.len() && a != b implies ps[a]
        != ps[b] by {
        assert(done[a].0 != done[b].0);
    }
    assert(ps.no_duplicates());
    ps.unique_seq_to_set();
    let range = vstd::set_lib::set_int_range(0, n);
    vstd::set_lib::lemma_int_range(0, n);
    assert forall|p: int| ps.to_set().contains(p) implies range.contains(p) by {
        let k = choose|k: int| 0 <= k < ps.len() && ps[k] == p;
        assert(0 <= done[k].0 < n);
    }
    vstd::set_lib::lemma_subset_equality(ps.to_set(), range);
    assert(range.contains(i));
    assert(ps.to_set().contains(i));
    let k = choose|k: int| 0 <= k < ps.len() && ps[k] == i;
    assert(done[k].0 == i);
}

} // verus!

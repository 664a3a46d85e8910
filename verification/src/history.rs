//! Bounded downsampling history series.
//!
//! A `HistoryContainer` keeps a fixed-length array of integer samples.
//! Slot 0 always holds the most recent raw reading; the remaining slots hold
//! values committed at a configured minimum time spacing. The write cursor
//! advances on each commit and wraps from the last slot back to slot 1, so a
//! commit never overwrites the live slot.
use vstd::prelude::*;
use vstd::pervasive::VecAdditionalExecFns;

verus! {

/// Mathematical model of a history series: the raw sample slots, the commit
/// cursor, the time of the last commit and the minimum spacing of commits,
/// all in milliseconds.
pub ghost struct HistoryModel {
    pub samples: Seq<i32>,
    pub cursor: int,
    pub last_ms: int,
    pub interval_ms: int,
}

impl HistoryModel {
    /// Structural invariant: at least two slots (one live slot plus at least
    /// one committed slot) and a cursor that stays inside the array.
    pub open spec fn well_formed(self) -> bool {
        &&& self.samples.len() >= 2
        &&& 0 <= self.cursor < self.samples.len()
        &&& 0 <= self.last_ms
        &&& 0 <= self.interval_ms
    }

    /// A commit is due when at least `interval_ms` elapsed since the last one.
    pub open spec fn commit_due(self, now_ms: int) -> bool {
        now_ms >= self.last_ms + self.interval_ms
    }

    /// Cursor position written by a commit: advance by one, wrapping from the
    /// last slot back to slot 1 and never to the live slot 0.
    pub open spec fn next_cursor(self) -> int {
        if self.cursor + 1 >= self.samples.len() {
            1int
        } else {
            self.cursor + 1
        }
    }

    /// State after one insert: the live slot always takes the new value; when
    /// a commit is due the cursor advances and the new cursor slot takes the
    /// value too, and the commit timer restarts at `now_ms`.
    pub open spec fn after_insert(self, val: i32, now_ms: int) -> HistoryModel {
        let live = HistoryModel { samples: self.samples.update(0, val), ..self };
        if self.commit_due(now_ms) {
            HistoryModel {
                samples: live.samples.update(self.next_cursor(), val),
                cursor: self.next_cursor(),
                last_ms: now_ms,
                interval_ms: self.interval_ms,
            }
        } else {
            live
        }
    }

    /// The chronological window an observer reads: oldest committed values
    /// first, then the most recent commits, the live reading last. Slots not
    /// yet committed since construction read as zero.
    pub open spec fn snapshot(self) -> Seq<i32> {
        let n = self.samples.len() as int;
        let last = n - 1;
        let rest = last - self.cursor;
        Seq::new(n as nat, |i: int|
            if i == last {
                self.samples[0]
            } else if self.cursor == 0 {
                0i32
            } else if i < rest {
                self.samples[self.cursor + 1 + i]
            } else {
                self.samples[1 + (i - rest)]
            })
    }
}

/// Fixed-capacity ring buffer of integer samples with time-gated commits.
pub struct HistoryContainer {
    data: Vec<i32>,
    interval_ms: u64,
    current_time_index: usize,
    last_timestamp_ms: u64,
}

impl View for HistoryContainer {
    type V = HistoryModel;

    closed spec fn view(&self) -> HistoryModel {
        HistoryModel {
            samples: self.data@,
            cursor: self.current_time_index as int,
            last_ms: self.last_timestamp_ms as int,
            interval_ms: self.interval_ms as int,
        }
    }
}

impl HistoryContainer {
    pub open spec fn well_formed(&self) -> bool {
        self@.well_formed()
    }

    /// Number of slots, which is also the length of every snapshot.
    pub open spec fn capacity(&self) -> nat {
        self@.samples.len()
    }

    /// A fresh series: `num_elements` zero-filled slots, no commit yet, the
    /// commit timer starting at `now_ms`. Fewer than two slots is an invalid
    /// configuration and is rejected at construction.
    pub fn new(num_elements: usize, interval_ms: u64, now_ms: u64) -> (r: Self)
        requires
            num_elements >= 2,
        ensures
            r.well_formed(),
            r@.samples == Seq::new(num_elements as nat, |i: int| 0i32),
            r@.cursor == 0,
            r@.last_ms == now_ms,
            r@.interval_ms == interval_ms,
    {
        let mut data: Vec<i32> = Vec::new();
        while data.len() < num_elements
            invariant
                data@.len() <= num_elements,
                forall|i: int| 0 <= i < data@.len() ==> data@[i] == 0i32,
            decreases num_elements - data.len(),
        {
            data.push(0);
        }
        let r = HistoryContainer { data, interval_ms, current_time_index: 0, last_timestamp_ms: now_ms };
        proof {
            assert(r@.samples =~= Seq::new(num_elements as nat, |i: int| 0i32));
        }
        r
    }

    /// Record a reading taken at `now_ms`. The live slot always takes the
    /// value; the value is additionally committed, and the report is `true`,
    /// exactly when at least the configured interval elapsed since the last
    /// commit.
    pub fn insert(&mut self, val: i32, now_ms: u64) -> (committed: bool)
        requires
            old(self).well_formed(),
        ensures
            final(self).well_formed(),
            committed == old(self)@.commit_due(now_ms as int),
            final(self)@ == old(self)@.after_insert(val, now_ms as int),
    {
        self.data.set(0, val);
        let len = self.data.len();
        assert(self.current_time_index < len);

        if now_ms >= self.last_timestamp_ms && now_ms - self.last_timestamp_ms >= self.interval_ms {
            self.last_timestamp_ms = now_ms;
            self.current_time_index = self.current_time_index + 1;
            if self.current_time_index >= len {
                self.current_time_index = 1;
            }
            self.data.set(self.current_time_index, val);
            true
        } else {
            false
        }
    }

    /// The chronological window: a vector of exactly `capacity` values,
    /// oldest to newest, the live reading last.
    pub fn get_history(&self) -> (r: Vec<i32>)
        requires
            self.well_formed(),
        ensures
            r@ == self@.snapshot(),
            r@.len() == self.capacity(),
    {
        let n = self.data.len();
        let last_index = n - 1;
        let mut history: Vec<i32> = Vec::new();

        if self.current_time_index == 0 {
            while history.len() < last_index
                invariant
                    history@.len() <= last_index < n,
                    n == self@.samples.len(),
                    forall|i: int| 0 <= i < history@.len() ==> history@[i] == self@.snapshot()[i],
                    self@.cursor == 0,
                decreases last_index - history.len(),
            {
                history.push(0);
            }
        } else {
            let rest_length = last_index - self.current_time_index;
            while history.len() < rest_length
                invariant
                    self.well_formed(),
                    n == self@.samples.len(),
                    last_index == n - 1,
                    1 <= self@.cursor,
                    rest_length == last_index - self@.cursor,
                    history@.len() <= rest_length,
                    forall|i: int| 0 <= i < history@.len() ==> history@[i] == self@.snapshot()[i],
                decreases rest_length - history.len(),
            {
                history.push(self.data[self.current_time_index + 1 + history.len()]);
            }
            while history.len() < last_index
                invariant
                    self.well_formed(),
                    n == self@.samples.len(),
                    last_index == n - 1,
                    1 <= self@.cursor,
                    rest_length == last_index - self@.cursor,
                    rest_length <= history@.len() <= last_index,
                    forall|i: int| 0 <= i < history@.len() ==> history@[i] == self@.snapshot()[i],
                decreases last_index - history.len(),
            {
                history.push(self.data[1 + (history.len() - rest_length)]);
            }
        }
        history.push(self.data[0]);
        proof {
            assert(history@ =~= self@.snapshot());
        }
        history
    }
}

/// The history series the model maintains, one per monitored indoor scalar.
pub struct DataBase {
    pub indoor_t_history: HistoryContainer,
    pub indoor_rh_history: HistoryContainer,
    pub indoor_co2_history: HistoryContainer,
}

impl DataBase {
    pub open spec fn well_formed(&self) -> bool {
        &&& self.indoor_t_history.well_formed()
        &&& self.indoor_rh_history.well_formed()
        &&& self.indoor_co2_history.well_formed()
    }

    /// Three fresh series sized and gated by the configuration, with their
    /// commit timers starting at `now_ms`.
    pub fn new(config: &crate::Config, now_ms: u64) -> (r: Self)
        requires
            config.history_n_elements >= 2,
            config.history_interval_s <= u64::MAX / 1000,
        ensures
            r.well_formed(),
            r.indoor_t_history@.cursor == 0,
            r.indoor_rh_history@.cursor == 0,
            r.indoor_co2_history@.cursor == 0,
            r.indoor_t_history.capacity() == config.history_n_elements,
            r.indoor_rh_history.capacity() == config.history_n_elements,
            r.indoor_co2_history.capacity() == config.history_n_elements,
    {
        let interval_ms = config.history_interval_s * 1000;
        DataBase {
            indoor_t_history: HistoryContainer::new(config.history_n_elements, interval_ms, now_ms),
            indoor_rh_history: HistoryContainer::new(config.history_n_elements, interval_ms, now_ms),
            indoor_co2_history: HistoryContainer::new(config.history_n_elements, interval_ms, now_ms),
        }
    }
}

/// State after a whole sequence of inserts, each a (value, time) pair.
pub open spec fn run_inserts(m: HistoryModel, ops: Seq<(i32, int)>) -> HistoryModel
    decreases ops.len(),
{
    if ops.len() == 0 {
        m
    } else {
        run_inserts(m.after_insert(ops[0].0, ops[0].1), ops.drop_first())
    }
}

/// The values that a sequence of inserts commits, in commit order.
pub open spec fn committed_values(m: HistoryModel, ops: Seq<(i32, int)>) -> Seq<i32>
    decreases ops.len(),
{
    if ops.len() == 0 {
        Seq::empty()
    } else {
        let rest = committed_values(m.after_insert(ops[0].0, ops[0].1), ops.drop_first());
        if m.commit_due(ops[0].1) {
            seq![ops[0].0] + rest
        } else {
            rest
        }
    }
}

/// An insert preserves well-formedness, keeps the slot count, always leaves
/// the just-inserted value in the live slot, and a commit never writes slot 0:
/// the only slots a commit can touch lie in 1..N.
pub proof fn lemma_insert_step(m: HistoryModel, val: i32, now_ms: int)
    requires
        m.well_formed(),
    ensures
        m.after_insert(val, now_ms).well_formed(),
        m.after_insert(val, now_ms).samples.len() == m.samples.len(),
        m.after_insert(val, now_ms).samples[0] == val,
        m.commit_due(now_ms) ==> 1 <= m.after_insert(val, now_ms).cursor <= m.samples.len() - 1,
        forall|j: int|
            1 <= j < m.samples.len() && j != m.next_cursor() ==> m.after_insert(
                val,
                now_ms,
            ).samples[j] == m.samples[j],
{
}

/// A snapshot taken after an insert has exactly one entry per slot, and its
/// last entry is the value that insert recorded, whatever the series held
/// before and whether or not the insert committed.
pub proof fn lemma_snapshot_length_and_live(m: HistoryModel, val: i32, now_ms: int)
    requires
        m.well_formed(),
    ensures
        m.after_insert(val, now_ms).snapshot().len() == m.samples.len(),
        m.after_insert(val, now_ms).snapshot().last() == val,
{
    lemma_insert_step(m, val, now_ms);
}

/// Taking a snapshot does not change the series, so two snapshots with no
/// insert in between read the same window.
pub proof fn lemma_snapshot_idempotent(m: HistoryModel, r1: Seq<i32>, r2: Seq<i32>)
    requires
        r1 == m.snapshot(),
        r2 == m.snapshot(),
    ensures
        r1 == r2,
{
}

/// Commits happen at most once per interval: once an insert commits at time
/// `t1`, no insert strictly earlier than `t1` plus the interval commits again.
pub proof fn lemma_commit_at_most_once_per_interval(
    m: HistoryModel,
    val: i32,
    t1: int,
    t2: int,
)
    requires
        m.well_formed(),
        m.commit_due(t1),
        t2 < t1 + m.interval_ms,
    ensures
        !m.after_insert(val, t1).commit_due(t2),
{
}

/// While the series has not yet wrapped, commits fill consecutive slots after
/// the starting cursor, in commit order, and leave every later slot untouched.
pub proof fn lemma_commits_fill_in_order(m: HistoryModel, ops: Seq<(i32, int)>)
    requires
        m.well_formed(),
        m.cursor + committed_values(m, ops).len() <= m.samples.len() - 1,
    ensures
        run_inserts(m, ops).well_formed(),
        run_inserts(m, ops).samples.len() == m.samples.len(),
        run_inserts(m, ops).cursor == m.cursor + committed_values(m, ops).len(),
        forall|i: int|
            0 <= i < committed_values(m, ops).len() ==> run_inserts(m, ops).samples[m.cursor + 1
                + i] == committed_values(m, ops)[i],
        forall|j: int|
            1 <= j <= m.cursor || m.cursor + committed_values(m, ops).len() < j < m.samples.len()
                ==> run_inserts(m, ops).samples[j] == m.samples[j],
    decreases ops.len(),
{
    if ops.len() > 0 {
        let m2 = m.after_insert(ops[0].0, ops[0].1);
        lemma_insert_step(m, ops[0].0, ops[0].1);
        let vals = committed_values(m, ops);
        let rest = committed_values(m2, ops.drop_first());
        if m.commit_due(ops[0].1) {
            assert(vals == seq![ops[0].0] + rest);
            assert(vals.len() == rest.len() + 1);
            assert(m2.cursor == m.cursor + 1);
            assert(m2.samples[m.cursor + 1] == ops[0].0);
            lemma_commits_fill_in_order(m2, ops.drop_first());
            assert forall|i: int| 0 <= i < vals.len() implies run_inserts(m, ops).samples[m.cursor
                + 1 + i] == vals[i] by {
                if i == 0 {
                    assert(vals[0] == ops[0].0);
                } else {
                    assert(vals[i] == rest[i - 1]);
                    assert(run_inserts(m2, ops.drop_first()).samples[m2.cursor + 1 + (i - 1)]
                        == rest[i - 1]);
                }
            };
            assert forall|j: int|
                1 <= j <= m.cursor || m.cursor + vals.len() < j < m.samples.len() implies
                run_inserts(m, ops).samples[j] == m.samples[j] by {
                assert(j != m2.cursor && j != 0);
                assert(m2.samples[j] == m.samples[j]);
                assert(run_inserts(m2, ops.drop_first()).samples[j] == m2.samples[j]);
            };
        } else {
            assert(vals == rest);
            assert(m2.cursor == m.cursor);
            lemma_commits_fill_in_order(m2, ops.drop_first());
            assert forall|j: int|
                1 <= j <= m.cursor || m.cursor + vals.len() < j < m.samples.len() implies
                run_inserts(m, ops).samples[j] == m.samples[j] by {
                assert(m2.samples[j] == m.samples[j]);
                assert(run_inserts(m2, ops.drop_first()).samples[j] == m2.samples[j]);
            };
        }
    }
}

/// After `k` commits into a fresh, zero-filled series with `k < N - 1`,
/// the snapshot shows exactly those `k` committed values, oldest first,
/// directly before the live slot, and every earlier entry still reads zero.
pub proof fn lemma_fresh_run_snapshot(m: HistoryModel, ops: Seq<(i32, int)>)
    requires
        m.well_formed(),
        m.cursor == 0,
        forall|j: int| 1 <= j < m.samples.len() ==> m.samples[j] == 0i32,
        committed_values(m, ops).len() < m.samples.len() - 1,
    ensures
        ({
            let r = run_inserts(m, ops);
            let k = committed_values(m, ops).len() as int;
            let n = m.samples.len() as int;
            &&& r.snapshot().len() == n
            &&& forall|i: int| 0 <= i < n - 1 - k ==> r.snapshot()[i] == 0i32
            &&& forall|i: int|
                0 <= i < k ==> r.snapshot()[n - 1 - k + i] == committed_values(m, ops)[i]
        }),
{
    lemma_commits_fill_in_order(m, ops);
    let r = run_inserts(m, ops);
    let k = committed_values(m, ops).len() as int;
    let n = m.samples.len() as int;
    assert(r.cursor == k);
    if k == 0 {
        assert forall|i: int| 0 <= i < n - 1 implies r.snapshot()[i] == 0i32 by {}
    } else {
        let rest = n - 1 - k;
        assert forall|i: int| 0 <= i < rest implies r.snapshot()[i] == 0i32 by {
            assert(r.snapshot()[i] == r.samples[k + 1 + i]);
            assert(r.samples[k + 1 + i] == m.samples[k + 1 + i]);
        }
        assert forall|i: int| 0 <= i < k implies r.snapshot()[rest + i] == committed_values(
            m,
            ops,
        )[i] by {
            assert(r.snapshot()[rest + i] == r.samples[1 + i]);
            assert(r.samples[m.cursor + 1 + i] == committed_values(m, ops)[i]);
        }
    }
}

/// Once any commit has happened, the cursor walks the cycle 1, 2, ..., N-1,
/// 1, 2, ...: after `k` further commits it stands at the starting position
/// advanced by `k` around that cycle, and in particular never at the live
/// slot 0.
pub proof fn lemma_cursor_cycles(m: HistoryModel, ops: Seq<(i32, int)>)
    requires
        m.well_formed(),
        1 <= m.cursor,
    ensures
        ({
            let r = run_inserts(m, ops);
            let k = committed_values(m, ops).len() as int;
            let cycle = m.samples.len() - 1;
            &&& r.cursor == ((m.cursor - 1 + k) % cycle) + 1
            &&& 1 <= r.cursor <= cycle
        }),
    decreases ops.len(),
{
    let cycle = m.samples.len() - 1;
    if ops.len() == 0 {
        vstd::arithmetic::div_mod::lemma_small_mod((m.cursor - 1) as nat, cycle as nat);
    } else {
        let m2 = m.after_insert(ops[0].0, ops[0].1);
        lemma_insert_step(m, ops[0].0, ops[0].1);
        lemma_cursor_cycles(m2, ops.drop_first());
        let k = committed_values(m, ops).len() as int;
        let k2 = committed_values(m2, ops.drop_first()).len() as int;
        if m.commit_due(ops[0].1) {
            assert(k == k2 + 1);
            assert(m2.cursor - 1 == m.cursor % cycle) by {
                if m.cursor < cycle {
                    vstd::arithmetic::div_mod::lemma_small_mod(m.cursor as nat, cycle as nat);
                } else {
                    assert(m.cursor == cycle);
                    vstd::arithmetic::div_mod::lemma_mod_self_0(cycle);
                }
            };
            assert((m.cursor % cycle + k2) % cycle == (m.cursor + k2) % cycle) by {
                vstd::arithmetic::div_mod::lemma_add_mod_noop(m.cursor, k2, cycle);
                vstd::arithmetic::div_mod::lemma_add_mod_noop(m.cursor % cycle, k2, cycle);
                vstd::arithmetic::div_mod::lemma_mod_twice(m.cursor, cycle);
            };
        } else {
            assert(k == k2);
        }
    }
}

/// From a fresh series, the cursor stays at the live slot 0 until the first
/// commit and then walks the cycle 1, 2, ..., N-1, 1, 2, ...: after `k`
/// commits in total it stands at position ((k - 1) mod (N - 1)) + 1.
pub proof fn lemma_cursor_cycles_from_fresh(m: HistoryModel, ops: Seq<(i32, int)>)
    requires
        m.well_formed(),
        m.cursor == 0,
    ensures
        ({
            let r = run_inserts(m, ops);
            let k = committed_values(m, ops).len() as int;
            let cycle = m.samples.len() - 1;
            r.cursor == if k == 0 {
                0int
            } else {
                ((k - 1) % cycle) + 1
            }
        }),
    decreases ops.len(),
{
    if ops.len() > 0 {
        let m2 = m.after_insert(ops[0].0, ops[0].1);
        lemma_insert_step(m, ops[0].0, ops[0].1);
        if m.commit_due(ops[0].1) {
            assert(m2.cursor == 1);
            lemma_cursor_cycles(m2, ops.drop_first());
        } else {
            lemma_cursor_cycles_from_fresh(m2, ops.drop_first());
        }
    }
}

} // verus!

use vstd::prelude::*;
use crate::classify::Failure;

verus! {

/// Tasks dispatched together unless configured otherwise.
pub const DEFAULT_WINDOW_WIDTH: usize = 4;

/// Pause between two windows, in seconds.
pub const INTER_WINDOW_DELAY_SECS: u64 = 7;

/// Number of distinct protocol-version hints handed out in rotation.
pub const VERSION_HINT_SLOTS: usize = 4;

/// Smallest protocol-version hint.
pub const VERSION_HINT_BASE: u8 = 6;

/// The protocol-version hint that goes with the `n`-th value of the shared
/// counter (the counter is incremented before each task reads it).
pub open spec fn version_hint(n: nat) -> u8 {
    ((n % VERSION_HINT_SLOTS as nat) + VERSION_HINT_BASE) as u8
}

/// Sizes of the consecutive windows that `remaining` tasks fall into.
pub open spec fn window_sizes(remaining: nat, width: nat) -> Seq<nat>
    decreases remaining,
{
    if remaining == 0 || width == 0 {
        Seq::empty()
    } else if remaining <= width {
        seq![remaining]
    } else {
        seq![width] + window_sizes((remaining - width) as nat, width)
    }
}

pub open spec fn seq_sum(s: Seq<nat>) -> nat
    decreases s.len(),
{
    if s.len() == 0 { 0 } else { s[0] + seq_sum(s.drop_first()) }
}

/// The windows cover the remaining tasks exactly once: their sizes add up to
/// `remaining`, every window but the last is full, and the last holds between
/// one and `width` tasks.
pub proof fn lemma_window_partition(remaining: nat, width: nat)
    requires
        width > 0,
    ensures
        seq_sum(window_sizes(remaining, width)) == remaining,
        forall|i: int| 0 <= i < window_sizes(remaining, width).len() - 1
            ==> #[trigger] window_sizes(remaining, width)[i] == width,
        remaining > 0 ==> 1 <= window_sizes(remaining, width).last() <= width,
        remaining == 0 <==> window_sizes(remaining, width).len() == 0,
    decreases remaining,
{
    let s = window_sizes(remaining, width);
    if remaining == 0 {
    } else if remaining <= width {
        assert(s.drop_first() =~= Seq::<nat>::empty());
        assert(seq_sum(s.drop_first()) == 0);
        assert(seq_sum(s) == s[0] + seq_sum(s.drop_first()));
    } else {
        let rest = window_sizes((remaining - width) as nat, width);
        lemma_window_partition((remaining - width) as nat, width);
        assert(s.drop_first() =~= rest);
        assert(seq_sum(s) == s[0] + seq_sum(s.drop_first()));
        assert forall|i: int| 0 <= i < s.len() - 1 implies #[trigger] s[i] == width by {
            if i > 0 {
                assert(s[i] == rest[i - 1]);
            }
        }
        assert(s.last() == rest.last());
    }
}

/// One task handed out for dispatch: its position in the task list and the
/// protocol-version hint it must use.
#[derive(Clone, Copy, Debug, PartialEq, Eq, Structural)]
pub struct Dispatch {
    pub index: usize,
    pub version_hint: u8,
}

/// One unit of upload work: where it goes, which file it sends, and the
/// protocol version it must use. Built once, never changed.
#[derive(Clone, Debug, PartialEq, Eq)]
pub struct TransferTask {
    pub target_resource_id: String,
    pub payload_ref: String,
    pub protocol_version_hint: u8,
}

/// The task that dispatch `d` stands for, over the files `payloads`;
/// `None` when `d` points past them.
pub fn task_for(target: &String, payloads: &Vec<String>, d: Dispatch) -> (r: Option<TransferTask>)
    ensures
        r is Some <==> d.index < payloads@.len(),
        r matches Some(t) ==> {
            &&& t.target_resource_id@ == target@
            &&& t.payload_ref@ == payloads@[d.index as int]@
            &&& t.protocol_version_hint == d.version_hint
        },
{
    if d.index >= payloads.len() {
        return None;
    }
    Some(TransferTask {
        target_resource_id: target.clone(),
        payload_ref: payloads[d.index].clone(),
        protocol_version_hint: d.version_hint,
    })
}

/// What the caller does next.
#[derive(Debug, PartialEq, Eq)]
pub enum WindowStep {
    /// Wait `pause_before_secs`, then run these tasks concurrently, and report
    /// each one's end with [`BatchScheduler::task_done`].
    Dispatch { tasks: Vec<Dispatch>, pause_before_secs: u64 },
    /// Tasks of the current window are still running: nothing may start.
    Busy,
    /// Every task has been dispatched.
    Done,
}

/// Partitions tasks `first..total` into windows of `width`, joined by a barrier.
///
/// `dispatched` is the shared rotating counter: the number of tasks handed out
/// so far. `in_flight` counts the tasks of the current window not yet terminal.
#[derive(Clone, Copy, Debug, PartialEq, Eq, Structural)]
pub struct BatchScheduler {
    pub total: usize,
    pub first: usize,
    pub next_offset: usize,
    pub width: usize,
    pub dispatched: usize,
    pub in_flight: usize,
}

impl BatchScheduler {
    pub open spec fn wf(self) -> bool {
        &&& self.width > 0
        &&& self.first <= self.next_offset <= self.total
        &&& self.dispatched == self.next_offset - self.first
        &&& self.in_flight <= self.dispatched
    }

    pub open spec fn remaining(self) -> nat {
        (self.total - self.next_offset) as nat
    }

    /// A scheduler over `total` tasks that starts at `offset`; `None` when
    /// `width` is zero.
    pub fn new(total: usize, offset: usize, width: usize) -> (r: Option<BatchScheduler>)
        ensures
            r is None <==> width == 0,
            r matches Some(s) ==> {
                &&& s.wf()
                &&& s.total == total
                &&& s.width == width
                &&& s.next_offset == (if offset <= total { offset } else { total })
                &&& s.dispatched == 0
                &&& s.in_flight == 0
            },
    {
        if width == 0 {
            return None;
        }
        let start = if offset <= total { offset } else { total };
        Some(BatchScheduler { total, first: start, next_offset: start, width, dispatched: 0, in_flight: 0 })
    }

    /// Hands out the next window, once every task of the previous one is terminal.
    pub fn next_window(&mut self) -> (r: WindowStep)
        requires
            old(self).wf(),
        ensures
            final(self).wf(),
            final(self).total == old(self).total,
            final(self).width == old(self).width,
            final(self).first == old(self).first,
            old(self).in_flight > 0 ==> r == WindowStep::Busy && *final(self) == *old(self),
            old(self).in_flight == 0 && old(self).remaining() == 0 ==> r == WindowStep::Done
                && *final(self) == *old(self),
            old(self).in_flight == 0 && old(self).remaining() > 0 ==> (r matches WindowStep::Dispatch { tasks, pause_before_secs } && {
                let n = tasks@.len();
                &&& window_sizes(old(self).remaining(), old(self).width as nat)
                    == seq![n] + window_sizes(final(self).remaining(), final(self).width as nat)
                &&& n == (if old(self).remaining() <= old(self).width { old(self).remaining() } else { old(self).width as nat })
                &&& final(self).next_offset == old(self).next_offset + n
                &&& final(self).in_flight == n
                &&& forall|i: int| 0 <= i < n ==> #[trigger] tasks@[i] == (Dispatch {
                    index: (old(self).next_offset + i) as usize,
                    version_hint: version_hint((old(self).dispatched + i + 1) as nat),
                })
                &&& pause_before_secs == (if old(self).dispatched == 0 { 0 } else { INTER_WINDOW_DELAY_SECS })
            }),
    {
        if self.in_flight > 0 {
            return WindowStep::Busy;
        }
        if self.next_offset == self.total {
            return WindowStep::Done;
        }
        let pause_before_secs = if self.dispatched == 0 { 0 } else { INTER_WINDOW_DELAY_SECS };
        let start = self.next_offset;
        let end = if self.total - start <= self.width { self.total } else { start + self.width };
        let ghost before = *self;
        let mut tasks: Vec<Dispatch> = Vec::new();
        let mut i: usize = start;
        while i < end
            invariant
                before.wf(),
                start == before.next_offset,
                start <= i <= end <= before.total,
                self.dispatched == before.dispatched + (i - start),
                self.total == before.total,
                self.first == before.first,
                self.width == before.width,
                self.in_flight == before.in_flight,
                self.next_offset == before.next_offset,
                tasks@.len() == i - start,
                forall|k: int| 0 <= k < tasks@.len() ==> #[trigger] tasks@[k] == (Dispatch {
                    index: (start + k) as usize,
                    version_hint: version_hint((before.dispatched + k + 1) as nat),
                }),
            decreases end - i,
        {
            self.dispatched = self.dispatched + 1;
            let hint = ((self.dispatched % VERSION_HINT_SLOTS) as u8) + VERSION_HINT_BASE;
            tasks.push(Dispatch { index: i, version_hint: hint });
            i = i + 1;
        }
        self.next_offset = end;
        self.in_flight = end - start;
        proof {
            let rem = before.remaining();
            let w = before.width as nat;
            if rem > w {
                assert(window_sizes(rem, w) == seq![w] + window_sizes((rem - w) as nat, w));
            } else {
                assert(window_sizes(0, w) =~= Seq::<nat>::empty());
                assert(seq![rem] + Seq::<nat>::empty() =~= seq![rem]);
            }
        }
        WindowStep::Dispatch { tasks, pause_before_secs }
    }

    /// Records that one task of the current window reached a terminal result;
    /// `false`, with nothing changed, when no task was running.
    pub fn task_done(&mut self) -> (r: bool)
        requires
            old(self).wf(),
        ensures
            final(self).wf(),
            r == (old(self).in_flight > 0),
            r ==> *final(self) == (BatchScheduler { in_flight: (old(self).in_flight - 1) as usize, ..*old(self) }),
            !r ==> *final(self) == *old(self),
    {
        if self.in_flight == 0 {
            return false;
        }
        self.in_flight = self.in_flight - 1;
        true
    }

    /// Whether every task has been dispatched and has ended.
    pub fn is_finished(&self) -> (r: bool)
        ensures
            r == (self.next_offset == self.total && self.in_flight == 0),
    {
        self.next_offset == self.total && self.in_flight == 0
    }
}

/// Terminal results of the tasks of a batch run: successes in the order they
/// were recorded, failures with the index of the task that failed.
#[derive(Debug)]
pub struct BatchReport<T> {
    pub successes: Vec<T>,
    pub failures: Vec<(usize, Failure)>,
}

impl<T> BatchReport<T> {
    pub fn new() -> (r: BatchReport<T>)
        ensures
            r.successes@.len() == 0,
            r.failures@.len() == 0,
    {
        BatchReport { successes: Vec::new(), failures: Vec::new() }
    }

    /// Collects the terminal result of task `index`; a failure never stops the run.
    pub fn record(&mut self, index: usize, result: Result<T, Failure>)
        ensures
            match result {
                Ok(v) => final(self).successes@ == old(self).successes@.push(v)
                    && final(self).failures@ == old(self).failures@,
                Err(f) => final(self).failures@ == old(self).failures@.push((index, f))
                    && final(self).successes@ == old(self).successes@,
            },
    {
        match result {
            Ok(v) => self.successes.push(v),
            Err(f) => self.failures.push((index, f)),
        }
    }
}

} // verus!

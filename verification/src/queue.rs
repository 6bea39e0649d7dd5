//! The dispatch queue: closures waiting to run on the thread that owns the
//! view.
//!
//! Any thread may enqueue, one at a time; only the owning thread drains.
//! The host keeps the queue behind its lock, so what is stated here of a
//! sequence of calls holds of every order in which concurrent calls take
//! that lock.
//!
//! A drain takes what is pending when it starts. A closure enqueued while
//! the drained ones run waits for the next drain, and its enqueue finds the
//! queue empty, so it asks for another wake-up: nothing is lost and nothing
//! is delayed without a wake-up on its way.

use vstd::prelude::*;
use crate::error::{Error, ErrorView};

verus! {

/// The mathematical value of a [`DispatchQueue`].
pub ghost struct QueueView<F> {
    /// The closures waiting, oldest first.
    pub pending: Seq<F>,
    /// Whether the view that drains the queue still exists.
    pub live: bool,
}

impl<F> QueueView<F> {
    /// What an enqueue answers in this state: whether to wake the event
    /// loop, which is needed exactly when the queue was empty, or that the
    /// view is gone.
    pub open spec fn answer(self) -> Result<bool, ErrorView> {
        if self.live {
            Ok(self.pending.len() == 0)
        } else {
            Err(ErrorView::Dispatch)
        }
    }

    /// The state after an enqueue of `task`: a live queue holds it last, a
    /// dead queue is unchanged.
    pub open spec fn enqueue(self, task: F) -> Self {
        if self.live {
            QueueView { pending: self.pending.push(task), live: true }
        } else {
            self
        }
    }

    /// The state after enqueues of `tasks`, in that order and with no drain
    /// between them.
    pub open spec fn enqueue_all(self, tasks: Seq<F>) -> Self
        decreases tasks.len(),
    {
        if tasks.len() == 0 {
            self
        } else {
            self.enqueue_all(tasks.drop_last()).enqueue(tasks.last())
        }
    }

    /// The state after a drain.
    pub open spec fn drained(self) -> Self {
        QueueView { pending: Seq::empty(), live: self.live }
    }

    /// The state after the view is gone.
    pub open spec fn closed(self) -> Self {
        QueueView { pending: Seq::empty(), live: false }
    }
}

/// The value of what an enqueue returned.
pub open spec fn answer_view(answer: Result<bool, Error>) -> Result<bool, ErrorView> {
    match answer {
        Ok(wake) => Ok(wake),
        Err(e) => Err(e@),
    }
}

/// A first-in, first-out queue of closures of type `F`, with a flag that
/// says whether the view that runs them still exists.
pub struct DispatchQueue<F> {
    pending: Vec<F>,
    live: bool,
}

impl<F> View for DispatchQueue<F> {
    type V = QueueView<F>;

    closed spec fn view(&self) -> QueueView<F> {
        QueueView { pending: self.pending@, live: self.live }
    }
}

impl<F> DispatchQueue<F> {
    /// A live queue with nothing pending.
    pub fn new() -> (r: DispatchQueue<F>)
        ensures
            r@.live,
            r@.pending.len() == 0,
    {
        DispatchQueue { pending: Vec::new(), live: true }
    }

    /// Whether the view that drains the queue still exists.
    pub fn is_live(&self) -> (r: bool)
        ensures
            r == self@.live,
    {
        self.live
    }

    /// The number of closures waiting.
    pub fn len(&self) -> (r: usize)
        ensures
            r == self@.pending.len(),
    {
        self.pending.len()
    }

    /// Whether no closure is waiting.
    pub fn is_empty(&self) -> (r: bool)
        ensures
            r == (self@.pending.len() == 0),
    {
        self.pending.len() == 0
    }

    /// Accepts `task` if the view still exists, and fails with
    /// [`Error::Dispatch`] otherwise, leaving the queue as it was. On
    /// success the answer says whether the event loop must be woken: exactly
    /// when the queue was empty, so that each run of enqueues costs one
    /// wake-up.
    pub fn enqueue(&mut self, task: F) -> (r: Result<bool, Error>)
        ensures
            final(self)@ == old(self)@.enqueue(task),
            answer_view(r) == old(self)@.answer(),
    {
        if !self.live {
            return Err(Error::Dispatch);
        }
        let wake = self.pending.len() == 0;
        self.pending.push(task);
        Ok(wake)
    }

    /// Takes every closure that is pending, oldest first, for the owning
    /// thread to run in that order. The queue is empty afterwards and as
    /// live as before.
    pub fn drain(&mut self) -> (r: Vec<F>)
        ensures
            r@ == old(self)@.pending,
            final(self)@ == old(self)@.drained(),
    {
        let mut batch: Vec<F> = Vec::new();
        core::mem::swap(&mut batch, &mut self.pending);
        batch
    }

    /// Marks the view as gone and hands out what was still pending, to be
    /// released without being run. Every later enqueue fails. Closing a
    /// closed queue changes nothing and hands out nothing.
    pub fn close(&mut self) -> (r: Vec<F>)
        ensures
            r@ == old(self)@.pending,
            final(self)@ == old(self)@.closed(),
    {
        let mut released: Vec<F> = Vec::new();
        core::mem::swap(&mut released, &mut self.pending);
        self.live = false;
        released
    }
}

/// What a dispatch through a handle answers. A handle points to the queue
/// of a view without keeping it alive; `reached` is that queue as the
/// handle finds it, or `None` when it is gone with its view.
pub open spec fn handle_answer<F>(reached: Option<QueueView<F>>) -> Result<bool, ErrorView> {
    match reached {
        Some(queue) => queue.answer(),
        None => Err(ErrorView::Dispatch),
    }
}

/// Dispatches `task` through a handle that found `reached`: the queue it
/// points to, locked, or `None` when that queue is gone with its view. The
/// closure is accepted exactly when the queue was reached and is live;
/// otherwise the dispatch fails with [`Error::Dispatch`] and no queue is
/// touched. On success the answer says whether the event loop must be
/// woken.
pub fn dispatch<F>(reached: Option<&mut DispatchQueue<F>>, task: F) -> (r: Result<bool, Error>)
    ensures
        match reached {
            Some(queue) => {
                &&& final(queue)@ == queue@.enqueue(task)
                &&& answer_view(r) == handle_answer(Some(queue@))
            },
            None => answer_view(r) == handle_answer::<F>(None),
        },
{
    match reached {
        Some(queue) => queue.enqueue(task),
        None => Err(Error::Dispatch),
    }
}

/// The tasks among `tasks` that the producer `who` submitted, in the order
/// in which they stand, where `owners[i]` is the producer of `tasks[i]`.
pub open spec fn submitted_by<F>(tasks: Seq<F>, owners: Seq<nat>, who: nat) -> Seq<F>
    decreases tasks.len(),
{
    if tasks.len() == 0 || owners.len() != tasks.len() {
        Seq::empty()
    } else {
        let earlier = submitted_by(tasks.drop_last(), owners.drop_last(), who);
        if owners.last() == who {
            earlier.push(tasks.last())
        } else {
            earlier
        }
    }
}

/// How many of the first `n` calls of `schedule` the producer `who` made,
/// where `schedule[i]` is the producer that made the call `i`.
pub open spec fn calls_before(schedule: Seq<nat>, n: int, who: nat) -> nat
    decreases n,
{
    if n <= 0 {
        0
    } else {
        calls_before(schedule, n - 1, who) + if schedule[n - 1] == who {
            1nat
        } else {
            0nat
        }
    }
}

/// Whether `schedule` is an order in which the producers' calls can reach
/// the queue, where `submissions[p]` holds what the producer `p` submits,
/// in its order: every call is made by one of the producers, and every
/// producer makes one call for each of its closures.
pub open spec fn is_schedule<F>(submissions: Seq<Seq<F>>, schedule: Seq<nat>) -> bool {
    &&& forall|i: int| 0 <= i < schedule.len() ==> #[trigger] schedule[i] < submissions.len()
    &&& forall|p: nat|
        p < submissions.len() ==> #[trigger] calls_before(schedule, schedule.len() as int, p)
            == submissions[p as int].len()
}

/// The closures in the order in which they reach the queue: the call `i`
/// brings the next closure that its producer has not yet submitted.
pub open spec fn arrivals<F>(submissions: Seq<Seq<F>>, schedule: Seq<nat>) -> Seq<F> {
    Seq::new(
        schedule.len(),
        |i: int| submissions[schedule[i] as int][calls_before(schedule, i, schedule[i]) as int],
    )
}

/// A live queue accepts every task of a run of enqueues and holds them
/// behind what was pending, in the order of the calls.
pub proof fn lemma_enqueue_all_appends<F>(queue: QueueView<F>, tasks: Seq<F>)
    requires
        queue.live,
    ensures
        queue.enqueue_all(tasks).live,
        queue.enqueue_all(tasks).pending == queue.pending + tasks,
    decreases tasks.len(),
{
    if tasks.len() == 0 {
        assert(queue.pending + tasks =~= queue.pending);
    } else {
        lemma_enqueue_all_appends(queue, tasks.drop_last());
        assert(queue.pending + tasks =~= (queue.pending + tasks.drop_last()).push(tasks.last()));
    }
}

/// The count of a producer's calls grows with the number of calls looked
/// at.
proof fn lemma_calls_before_grows(schedule: Seq<nat>, n: int, m: int, who: nat)
    requires
        n <= m,
    ensures
        calls_before(schedule, n, who) <= calls_before(schedule, m, who),
    decreases m - n,
{
    if n < m {
        lemma_calls_before_grows(schedule, n, m - 1, who);
    }
}

/// Among the first `n` arrivals, those of the producer `who` are the first
/// closures of its own sequence, as many as it has made calls.
proof fn lemma_arrivals_keep_order<F>(
    submissions: Seq<Seq<F>>,
    schedule: Seq<nat>,
    who: nat,
    n: int,
)
    requires
        is_schedule(submissions, schedule),
        who < submissions.len(),
        0 <= n <= schedule.len(),
    ensures
        calls_before(schedule, n, who) <= submissions[who as int].len(),
        submitted_by(arrivals(submissions, schedule).take(n), schedule.take(n), who)
            == submissions[who as int].take(calls_before(schedule, n, who) as int),
    decreases n,
{
    let own = submissions[who as int];
    let all = arrivals(submissions, schedule);
    lemma_calls_before_grows(schedule, n, schedule.len() as int, who);
    assert(calls_before(schedule, schedule.len() as int, who) == own.len());
    if n == 0 {
        assert(own.take(0) =~= Seq::<F>::empty());
    } else {
        lemma_arrivals_keep_order(submissions, schedule, who, n - 1);
        let count = calls_before(schedule, n - 1, who);
        assert(all.take(n).drop_last() =~= all.take(n - 1));
        assert(schedule.take(n).drop_last() =~= schedule.take(n - 1));
        assert(schedule.take(n).last() == schedule[n - 1]);
        assert(all.take(n).last() == all[n - 1]);
        if schedule[n - 1] == who {
            assert(all[n - 1] == own[count as int]);
            assert(own.take(count as int + 1) =~= own.take(count as int).push(own[count as int]));
        }
    }
}

/// One drain runs everything that was dispatched before it. Let several
/// producers dispatch at once, each its own closures in its own order, and
/// let their calls reach a live, empty queue in any order that the lock
/// allows. The drain that follows hands out one closure for each call, in
/// the order of the calls; among them the closures of each producer are
/// exactly those it submitted, each once and in the order in which it
/// submitted them; and nothing is left behind.
pub proof fn lemma_drain_runs_each_once_in_order<F>(
    queue: QueueView<F>,
    submissions: Seq<Seq<F>>,
    schedule: Seq<nat>,
    who: nat,
)
    requires
        queue.live,
        queue.pending.len() == 0,
        is_schedule(submissions, schedule),
        who < submissions.len(),
    ensures
        ({
            let filled = queue.enqueue_all(arrivals(submissions, schedule));
            let batch = filled.pending;
            &&& batch == arrivals(submissions, schedule)
            &&& batch.len() == schedule.len()
            &&& submitted_by(batch, schedule, who) == submissions[who as int]
            &&& filled.drained().pending.len() == 0
            &&& filled.drained().live
        }),
{
    let all = arrivals(submissions, schedule);
    lemma_enqueue_all_appends(queue, all);
    assert(queue.pending + all =~= all);
    lemma_arrivals_keep_order(submissions, schedule, who, schedule.len() as int);
    assert(all.take(schedule.len() as int) =~= all);
    assert(schedule.take(schedule.len() as int) =~= schedule);
    let own = submissions[who as int];
    assert(own.take(own.len() as int) =~= own);
}

/// In a run of enqueues into a live, empty queue with no drain between
/// them, the first asks for a wake-up and no later one does.
pub proof fn lemma_one_wake_per_run<F>(queue: QueueView<F>, tasks: Seq<F>, i: int)
    requires
        queue.live,
        queue.pending.len() == 0,
        0 <= i < tasks.len(),
    ensures
        queue.enqueue_all(tasks.take(i)).answer() == Ok::<bool, ErrorView>(i == 0),
{
    lemma_enqueue_all_appends(queue, tasks.take(i));
}

/// Nothing is lost to a drain: a closure enqueued while the drained ones
/// run is kept for the next drain, and its enqueue asks for the wake-up
/// that brings that drain about.
pub proof fn lemma_enqueue_during_drain_is_kept<F>(queue: QueueView<F>, task: F)
    requires
        queue.live,
    ensures
        queue.drained().answer() == Ok::<bool, ErrorView>(true),
        queue.drained().enqueue(task).pending == seq![task],
        queue.drained().enqueue(task).live,
{
    assert(Seq::<F>::empty().push(task) =~= seq![task]);
}

/// The queue dies once and stays dead: no operation makes a dead queue
/// live again, and none puts a closure into it.
pub proof fn lemma_dead_stays_dead<F>(queue: QueueView<F>, task: F)
    requires
        !queue.live,
    ensures
        queue.enqueue(task) == queue,
        !queue.drained().live,
        !queue.closed().live,
        queue.drained().pending.len() == 0,
        queue.closed().pending.len() == 0,
{
}

/// Once the view is gone, nothing can be dispatched to it. After a close,
/// every enqueue of every later run fails with a dispatch error and leaves
/// the queue closed and empty, and so does every dispatch through a handle,
/// whether the handle still reaches the queue or not.
pub proof fn lemma_closed_queue_refuses<F>(queue: QueueView<F>, tasks: Seq<F>)
    ensures
        queue.closed().enqueue_all(tasks) == queue.closed(),
        queue.closed().enqueue_all(tasks).answer() == Err::<bool, ErrorView>(ErrorView::Dispatch),
        handle_answer(Some(queue.closed().enqueue_all(tasks))) == Err::<bool, ErrorView>(
            ErrorView::Dispatch,
        ),
        handle_answer::<F>(None) == Err::<bool, ErrorView>(ErrorView::Dispatch),
    decreases tasks.len(),
{
    if tasks.len() > 0 {
        lemma_closed_queue_refuses(queue, tasks.drop_last());
    }
}

} // verus!

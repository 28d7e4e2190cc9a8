//! The job deque as mathematics: a sequence of pending jobs, oldest first,
//! the three operations as functions on it, and what holds of every run of
//! operations.
//!
//! The buffer admits one operation at a time, so whatever its users do at
//! once reaches the deque as some sequence of operations. A law that holds of
//! every sequence therefore holds of every interleaving.

use vstd::prelude::*;
use vstd::multiset::Multiset;
use vstd::seq_lib::{to_multiset_build, to_multiset_contains, to_multiset_len, to_multiset_remove};
use crate::job::Job;

verus! {

/// One operation on a deque.
pub enum Op {
    /// The owner pushes a job.
    Push(Job),
    /// The owner pops.
    Pop,
    /// A thief steals.
    Steal,
}

/// What one operation came to.
pub enum Outcome {
    /// The push stored its job.
    Pushed(Job),
    /// The push met a full deque and handed its job back.
    Rejected(Job),
    /// The pop delivered a job.
    Popped(Job),
    /// The steal delivered a job.
    Stolen(Job),
    /// The pop or steal found nothing.
    Empty,
}

/// The pending jobs after `op` on a deque of `capacity` slots that held
/// `queue`.
pub open spec fn step_queue(queue: Seq<Job>, capacity: nat, op: Op) -> Seq<Job> {
    match op {
        Op::Push(job) => if queue.len() < capacity {
            queue.push(job)
        } else {
            queue
        },
        Op::Pop => if queue.len() > 0 {
            queue.drop_last()
        } else {
            queue
        },
        Op::Steal => if queue.len() > 0 {
            queue.drop_first()
        } else {
            queue
        },
    }
}

/// What `op` comes to on a deque of `capacity` slots that holds `queue`.
pub open spec fn step_outcome(queue: Seq<Job>, capacity: nat, op: Op) -> Outcome {
    match op {
        Op::Push(job) => if queue.len() < capacity {
            Outcome::Pushed(job)
        } else {
            Outcome::Rejected(job)
        },
        Op::Pop => if queue.len() > 0 {
            Outcome::Popped(queue.last())
        } else {
            Outcome::Empty
        },
        Op::Steal => if queue.len() > 0 {
            Outcome::Stolen(queue.first())
        } else {
            Outcome::Empty
        },
    }
}

/// The pending jobs after the operations `ops`, in order, on a deque that
/// held `queue`.
pub open spec fn run_queue(queue: Seq<Job>, capacity: nat, ops: Seq<Op>) -> Seq<Job>
    decreases ops.len(),
{
    if ops.len() == 0 {
        queue
    } else {
        step_queue(run_queue(queue, capacity, ops.drop_last()), capacity, ops.last())
    }
}

/// What each of the operations `ops` came to, in order.
pub open spec fn run_outcomes(queue: Seq<Job>, capacity: nat, ops: Seq<Op>) -> Seq<Outcome>
    decreases ops.len(),
{
    if ops.len() == 0 {
        Seq::empty()
    } else {
        run_outcomes(queue, capacity, ops.drop_last()).push(
            step_outcome(run_queue(queue, capacity, ops.drop_last()), capacity, ops.last()),
        )
    }
}

/// The jobs that pops and steals delivered, each as often as it was
/// delivered.
pub open spec fn delivered(outcomes: Seq<Outcome>) -> Multiset<Job>
    decreases outcomes.len(),
{
    if outcomes.len() == 0 {
        Multiset::empty()
    } else {
        let rest = delivered(outcomes.drop_last());
        match outcomes.last() {
            Outcome::Popped(job) => rest.insert(job),
            Outcome::Stolen(job) => rest.insert(job),
            _ => rest,
        }
    }
}

/// The jobs that pushes stored, each as often as it was stored.
pub open spec fn accepted(outcomes: Seq<Outcome>) -> Multiset<Job>
    decreases outcomes.len(),
{
    if outcomes.len() == 0 {
        Multiset::empty()
    } else {
        let rest = accepted(outcomes.drop_last());
        match outcomes.last() {
            Outcome::Pushed(job) => rest.insert(job),
            _ => rest,
        }
    }
}

/// How many of the outcomes are successful pops.
pub open spec fn pops_served(outcomes: Seq<Outcome>) -> nat
    decreases outcomes.len(),
{
    if outcomes.len() == 0 {
        0
    } else {
        pops_served(outcomes.drop_last()) + if outcomes.last() is Popped {
            1nat
        } else {
            0nat
        }
    }
}

/// How many of the outcomes are successful steals.
pub open spec fn steals_served(outcomes: Seq<Outcome>) -> nat
    decreases outcomes.len(),
{
    if outcomes.len() == 0 {
        0
    } else {
        steals_served(outcomes.drop_last()) + if outcomes.last() is Stolen {
            1nat
        } else {
            0nat
        }
    }
}

/// How many of the outcomes are successful pushes.
pub open spec fn pushes_stored(outcomes: Seq<Outcome>) -> nat
    decreases outcomes.len(),
{
    if outcomes.len() == 0 {
        0
    } else {
        pushes_stored(outcomes.drop_last()) + if outcomes.last() is Pushed {
            1nat
        } else {
            0nat
        }
    }
}

/// How many of the outcomes are pops or steals that found nothing.
pub open spec fn found_empty(outcomes: Seq<Outcome>) -> nat
    decreases outcomes.len(),
{
    if outcomes.len() == 0 {
        0
    } else {
        found_empty(outcomes.drop_last()) + if outcomes.last() is Empty {
            1nat
        } else {
            0nat
        }
    }
}

/// The jobs that pushes stored, in the order of the pushes.
pub open spec fn stored_in_order(outcomes: Seq<Outcome>) -> Seq<Job>
    decreases outcomes.len(),
{
    if outcomes.len() == 0 {
        Seq::empty()
    } else {
        let rest = stored_in_order(outcomes.drop_last());
        match outcomes.last() {
            Outcome::Pushed(job) => rest.push(job),
            _ => rest,
        }
    }
}

/// The jobs that steals delivered, in the order of the steals.
pub open spec fn stolen_in_order(outcomes: Seq<Outcome>) -> Seq<Job>
    decreases outcomes.len(),
{
    if outcomes.len() == 0 {
        Seq::empty()
    } else {
        let rest = stolen_in_order(outcomes.drop_last());
        match outcomes.last() {
            Outcome::Stolen(job) => rest.push(job),
            _ => rest,
        }
    }
}

/// What the owner's pushes and pops leave of `queue`, going by their
/// outcomes alone: every job that was stored goes on top, and every pop that
/// delivered takes the top off.
pub open spec fn owner_stack(queue: Seq<Job>, outcomes: Seq<Outcome>) -> Seq<Job>
    decreases outcomes.len(),
{
    if outcomes.len() == 0 {
        queue
    } else {
        let below = owner_stack(queue, outcomes.drop_last());
        match outcomes.last() {
            Outcome::Pushed(job) => below.push(job),
            Outcome::Popped(_) => below.drop_last(),
            _ => below,
        }
    }
}

/// One push for each of `jobs`, in order.
pub open spec fn pushes(jobs: Seq<Job>) -> Seq<Op> {
    Seq::new(jobs.len(), |i: int| Op::Push(jobs[i]))
}

/// `n` pops.
pub open spec fn pops(n: nat) -> Seq<Op> {
    Seq::new(n, |i: int| Op::Pop)
}

/// `n` steals.
pub open spec fn steals(n: nat) -> Seq<Op> {
    Seq::new(n, |i: int| Op::Steal)
}

/// A run of `first` and then `second` is the run of `second` on what the
/// run of `first` left.
pub proof fn lemma_run_concat(queue: Seq<Job>, capacity: nat, first: Seq<Op>, second: Seq<Op>)
    ensures
        run_queue(queue, capacity, first + second) == run_queue(
            run_queue(queue, capacity, first),
            capacity,
            second,
        ),
        run_outcomes(queue, capacity, first + second) == run_outcomes(queue, capacity, first)
            + run_outcomes(run_queue(queue, capacity, first), capacity, second),
    decreases second.len(),
{
    if second.len() > 0 {
        let shorter = second.drop_last();
        lemma_run_concat(queue, capacity, first, shorter);
        assert((first + second).drop_last() =~= first + shorter);
    }
}

/// Pushes that fit all succeed, and the jobs queue up behind what was there
/// in the order of the pushes.
pub proof fn lemma_run_pushes(queue: Seq<Job>, capacity: nat, jobs: Seq<Job>)
    requires
        queue.len() + jobs.len() <= capacity,
    ensures
        run_queue(queue, capacity, pushes(jobs)) == queue + jobs,
        run_outcomes(queue, capacity, pushes(jobs)) == Seq::new(
            jobs.len(),
            |i: int| Outcome::Pushed(jobs[i]),
        ),
    decreases jobs.len(),
{
    if jobs.len() > 0 {
        let shorter = jobs.drop_last();
        lemma_run_pushes(queue, capacity, shorter);
        assert(pushes(jobs).drop_last() =~= pushes(shorter));
    }
}

/// As many pops as there are jobs or fewer all succeed, and deliver the
/// jobs from the newest backwards.
pub proof fn lemma_run_pops(queue: Seq<Job>, capacity: nat, n: nat)
    requires
        n <= queue.len(),
    ensures
        run_queue(queue, capacity, pops(n)) == queue.take(queue.len() - n),
        run_outcomes(queue, capacity, pops(n)) == Seq::new(
            n,
            |i: int| Outcome::Popped(queue[queue.len() - 1 - i]),
        ),
    decreases n,
{
    if n > 0 {
        let fewer = (n - 1) as nat;
        lemma_run_pops(queue, capacity, fewer);
        assert(pops(n).drop_last() =~= pops(fewer));
    }
}

/// As many steals as there are jobs or fewer all succeed, and deliver the
/// jobs from the oldest onwards.
pub proof fn lemma_run_steals(queue: Seq<Job>, capacity: nat, n: nat)
    requires
        n <= queue.len(),
    ensures
        run_queue(queue, capacity, steals(n)) == queue.skip(n as int),
        run_outcomes(queue, capacity, steals(n)) == Seq::new(n, |i: int| Outcome::Stolen(queue[i])),
    decreases n,
{
    if n > 0 {
        let fewer = (n - 1) as nat;
        lemma_run_steals(queue, capacity, fewer);
        assert(steals(n).drop_last() =~= steals(fewer));
    }
}

/// Filling. On an empty deque of capacity C >= 1, C pushes all succeed and
/// leave the deque full; one more push is rejected, hands back the very job
/// it was given, and leaves the deque as it was.
pub proof fn lemma_fill_then_reject(capacity: nat, jobs: Seq<Job>, extra: Job)
    requires
        capacity >= 1,
        jobs.len() == capacity,
    ensures
        run_queue(Seq::empty(), capacity, pushes(jobs)) == jobs,
        run_outcomes(Seq::empty(), capacity, pushes(jobs)) == Seq::new(
            jobs.len(),
            |i: int| Outcome::Pushed(jobs[i]),
        ),
        step_outcome(jobs, capacity, Op::Push(extra)) == Outcome::Rejected(extra),
        step_queue(jobs, capacity, Op::Push(extra)) == jobs,
{
    lemma_run_pushes(Seq::empty(), capacity, jobs);
}

/// Last in, first out. Where only the owner works on the deque, pushes that
/// fit, followed by as many pops, deliver the pushed jobs in the reverse of
/// the order in which they were pushed, and leave what was queued before.
pub proof fn lemma_pops_reverse_pushes(queue: Seq<Job>, capacity: nat, jobs: Seq<Job>)
    requires
        queue.len() + jobs.len() <= capacity,
    ensures
        run_queue(queue, capacity, pushes(jobs) + pops(jobs.len())) == queue,
        run_outcomes(queue, capacity, pushes(jobs) + pops(jobs.len())) == Seq::new(
            jobs.len(),
            |i: int| Outcome::Pushed(jobs[i]),
        ) + Seq::new(jobs.len(), |i: int| Outcome::Popped(jobs[jobs.len() - 1 - i])),
{
    let n = jobs.len();
    let filled = queue + jobs;
    lemma_run_pushes(queue, capacity, jobs);
    lemma_run_pops(filled, capacity, n);
    lemma_run_concat(queue, capacity, pushes(jobs), pops(n));
}

/// A pop straight after a push that was stored delivers the pushed job and
/// restores the deque.
pub proof fn lemma_pop_undoes_push(queue: Seq<Job>, capacity: nat, job: Job)
    requires
        queue.len() < capacity,
    ensures
        step_outcome(step_queue(queue, capacity, Op::Push(job)), capacity, Op::Pop)
            == Outcome::Popped(job),
        step_queue(step_queue(queue, capacity, Op::Push(job)), capacity, Op::Pop) == queue,
{
}

/// First in, first out. Pushes that fit, followed by steals, deliver first
/// what was queued before and then the pushed jobs, each in the order in
/// which it was pushed.
pub proof fn lemma_steals_follow_pushes(queue: Seq<Job>, capacity: nat, jobs: Seq<Job>, n: nat)
    requires
        queue.len() + jobs.len() <= capacity,
        n <= queue.len() + jobs.len(),
    ensures
        run_queue(queue, capacity, pushes(jobs) + steals(n)) == (queue + jobs).skip(n as int),
        run_outcomes(queue, capacity, pushes(jobs) + steals(n)) == Seq::new(
            jobs.len(),
            |i: int| Outcome::Pushed(jobs[i]),
        ) + Seq::new(n, |i: int| Outcome::Stolen((queue + jobs)[i])),
{
    lemma_run_pushes(queue, capacity, jobs);
    lemma_run_steals(queue + jobs, capacity, n);
    lemma_run_concat(queue, capacity, pushes(jobs), steals(n));
}

/// A steal after a push on a deque that held jobs delivers what it would
/// have delivered before the push: a push never overtakes an older job.
pub proof fn lemma_steal_passes_push(queue: Seq<Job>, capacity: nat, job: Job)
    requires
        0 < queue.len() < capacity,
    ensures
        step_outcome(step_queue(queue, capacity, Op::Push(job)), capacity, Op::Steal)
            == step_outcome(queue, capacity, Op::Steal),
        step_queue(step_queue(queue, capacity, Op::Push(job)), capacity, Op::Steal) == step_queue(
            step_queue(queue, capacity, Op::Steal),
            capacity,
            Op::Push(job),
        ),
{
}

/// The outcomes of the first `n` operations of a run are the outcomes of
/// the run of these operations alone, and the outcome of operation number
/// `n` is what that operation comes to on what they leave.
pub proof fn lemma_run_prefix(queue: Seq<Job>, capacity: nat, ops: Seq<Op>, n: int)
    requires
        0 <= n <= ops.len(),
    ensures
        run_outcomes(queue, capacity, ops).len() == ops.len(),
        run_outcomes(queue, capacity, ops).take(n) == run_outcomes(queue, capacity, ops.take(n)),
        n < ops.len() ==> run_outcomes(queue, capacity, ops)[n] == step_outcome(
            run_queue(queue, capacity, ops.take(n)),
            capacity,
            ops[n],
        ),
    decreases ops.len(),
{
    if ops.len() > 0 {
        let shorter = ops.drop_last();
        let outcomes = run_outcomes(queue, capacity, ops);
        if n == ops.len() {
            lemma_run_prefix(queue, capacity, shorter, n - 1);
            assert(ops.take(n) =~= ops);
            assert(outcomes.take(n) =~= outcomes);
        } else {
            lemma_run_prefix(queue, capacity, shorter, n);
            assert(shorter.take(n) =~= ops.take(n));
            assert(outcomes.take(n) =~= run_outcomes(queue, capacity, shorter).take(n));
            if n == ops.len() - 1 {
                assert(ops.take(n) =~= shorter);
            }
        }
    } else {
        assert(ops.take(n) =~= ops);
    }
}

/// Where no steal runs, the deque holds what the outcomes of the pushes
/// and pops say it holds.
pub proof fn lemma_owner_stack(queue: Seq<Job>, capacity: nat, ops: Seq<Op>)
    requires
        forall|i: int| 0 <= i < ops.len() ==> !(#[trigger] ops[i] is Steal),
    ensures
        run_queue(queue, capacity, ops) == owner_stack(
            queue,
            run_outcomes(queue, capacity, ops),
        ),
    decreases ops.len(),
{
    if ops.len() > 0 {
        let shorter = ops.drop_last();
        lemma_owner_stack(queue, capacity, shorter);
        assert(run_outcomes(queue, capacity, ops).drop_last() =~= run_outcomes(
            queue,
            capacity,
            shorter,
        ));
        assert(!(ops[ops.len() - 1] is Steal));
    }
}

/// Last in, first out, in every run. Where no steal runs, pushes and pops
/// in any mix and order behave as a stack: every pop that delivers, delivers
/// the newest job that was stored or queued before and not delivered since,
/// and a pop finds nothing only when there is no such job.
pub proof fn lemma_pops_take_the_newest(queue: Seq<Job>, capacity: nat, ops: Seq<Op>, n: int)
    requires
        forall|i: int| 0 <= i < ops.len() ==> !(#[trigger] ops[i] is Steal),
        0 <= n < ops.len(),
    ensures
        ({
            let outcomes = run_outcomes(queue, capacity, ops);
            let stack = owner_stack(queue, outcomes.take(n));
            &&& outcomes[n] matches Outcome::Popped(job) ==> stack.len() > 0 && job == stack.last()
            &&& outcomes[n] is Empty ==> stack.len() == 0
        }),
{
    let first = ops.take(n);
    lemma_run_prefix(queue, capacity, ops, n);
    assert forall|i: int| 0 <= i < first.len() implies !(#[trigger] first[i] is Steal) by {
        assert(first[i] == ops[i]);
    }
    lemma_owner_stack(queue, capacity, first);
    assert(!(ops[n] is Steal));
}

/// First in, first out, in every run. Where no pop runs, pushes and steals
/// in any mix and order deliver the jobs in the order in which they were
/// queued: what was stolen so far, followed by what is still queued, is what
/// was queued at the start followed by what the pushes stored.
pub proof fn lemma_steals_keep_order(queue: Seq<Job>, capacity: nat, ops: Seq<Op>)
    requires
        forall|i: int| 0 <= i < ops.len() ==> !(#[trigger] ops[i] is Pop),
    ensures
        stolen_in_order(run_outcomes(queue, capacity, ops)) + run_queue(queue, capacity, ops)
            == queue + stored_in_order(run_outcomes(queue, capacity, ops)),
    decreases ops.len(),
{
    if ops.len() > 0 {
        let outcomes = run_outcomes(queue, capacity, ops);
        let left = run_queue(queue, capacity, ops);
        let shorter = ops.drop_last();
        lemma_steals_keep_order(queue, capacity, shorter);
        let before = run_queue(queue, capacity, shorter);
        let earlier = run_outcomes(queue, capacity, shorter);
        assert(outcomes.drop_last() =~= earlier);
        match outcomes.last() {
            Outcome::Pushed(job) => {
                assert(stolen_in_order(outcomes) + left =~= (stolen_in_order(earlier)
                    + before).push(job));
            },
            Outcome::Stolen(job) => {
                assert(stolen_in_order(outcomes) + left =~= stolen_in_order(earlier) + before);
            },
            _ => {},
        }
    }
}

/// Every run gives one outcome for each operation, and never leaves more
/// jobs than the deque has slots, if it started with no more.
pub proof fn lemma_run_bounded(queue: Seq<Job>, capacity: nat, ops: Seq<Op>)
    requires
        queue.len() <= capacity,
    ensures
        run_outcomes(queue, capacity, ops).len() == ops.len(),
        run_queue(queue, capacity, ops).len() <= capacity,
    decreases ops.len(),
{
    if ops.len() > 0 {
        lemma_run_bounded(queue, capacity, ops.drop_last());
    }
}

/// No job is queued in an empty sequence.
pub proof fn lemma_multiset_empty()
    ensures
        Seq::<Job>::empty().to_multiset() == Multiset::<Job>::empty(),
{
    to_multiset_len(Seq::<Job>::empty());
}

/// The jobs of a sequence are its newest job and those before it.
pub proof fn lemma_multiset_last(queue: Seq<Job>)
    requires
        queue.len() > 0,
    ensures
        queue.to_multiset() == queue.drop_last().to_multiset().insert(queue.last()),
{
    assert(queue.drop_last().push(queue.last()) =~= queue);
    to_multiset_build(queue.drop_last(), queue.last());
}

/// The jobs of a sequence are its oldest job and those after it.
pub proof fn lemma_multiset_first(queue: Seq<Job>)
    requires
        queue.len() > 0,
    ensures
        queue.to_multiset() == queue.drop_first().to_multiset().insert(queue.first()),
{
    assert(queue.remove(0) =~= queue.drop_first());
    to_multiset_remove(queue, 0);
    to_multiset_contains(queue, queue.first());
}

/// Conservation. Whatever operations run in whatever order, the jobs
/// delivered together with the jobs still queued are the jobs queued at the
/// start together with the jobs that pushes stored: none is delivered twice
/// and none is lost. In numbers, successful pops plus successful steals
/// plus what is left equals what was there plus successful pushes.
pub proof fn lemma_jobs_conserved(queue: Seq<Job>, capacity: nat, ops: Seq<Op>)
    ensures
        delivered(run_outcomes(queue, capacity, ops)).add(
            run_queue(queue, capacity, ops).to_multiset(),
        ) == queue.to_multiset().add(accepted(run_outcomes(queue, capacity, ops))),
        pops_served(run_outcomes(queue, capacity, ops)) + steals_served(
            run_outcomes(queue, capacity, ops),
        ) + run_queue(queue, capacity, ops).len() == queue.len() + pushes_stored(
            run_outcomes(queue, capacity, ops),
        ),
    decreases ops.len(),
{
    if ops.len() > 0 {
        let outcomes = run_outcomes(queue, capacity, ops);
        let left = run_queue(queue, capacity, ops);
        let shorter = ops.drop_last();
        lemma_jobs_conserved(queue, capacity, shorter);
        let before = run_queue(queue, capacity, shorter);
        let earlier = run_outcomes(queue, capacity, shorter);
        assert(outcomes.drop_last() =~= earlier);
        let was_delivered = delivered(earlier);
        match step_outcome(before, capacity, ops.last()) {
            Outcome::Pushed(job) => {
                lemma_multiset_last(left);
                assert(left.drop_last() =~= before);
                assert(was_delivered.add(before.to_multiset().insert(job))
                    =~= was_delivered.add(before.to_multiset()).insert(job));
            },
            Outcome::Popped(job) => {
                lemma_multiset_last(before);
                assert(was_delivered.insert(job).add(left.to_multiset()) =~= was_delivered.add(
                    left.to_multiset().insert(job),
                ));
            },
            Outcome::Stolen(job) => {
                lemma_multiset_first(before);
                assert(was_delivered.insert(job).add(left.to_multiset()) =~= was_delivered.add(
                    left.to_multiset().insert(job),
                ));
            },
            _ => {},
        }
    }
}

/// An operation together with the handle that it came through.
pub struct Via {
    /// The number of the handle.
    pub handle: nat,
    /// The operation.
    pub op: Op,
}

/// The operations of `through`, without their handles.
pub open spec fn operations(through: Seq<Via>) -> Seq<Op> {
    Seq::new(through.len(), |i: int| through[i].op)
}

/// Handles are alike. What a run of operations leaves and what each of
/// them comes to depends on the operations and their order alone, not on the
/// handles through which they come: operating through one handle of a deque
/// has the effect of operating through any other.
pub proof fn lemma_handles_alike(
    queue: Seq<Job>,
    capacity: nat,
    through: Seq<Via>,
    others: Seq<Via>,
)
    requires
        through.len() == others.len(),
        forall|i: int| 0 <= i < through.len() ==> (#[trigger] through[i]).op == others[i].op,
    ensures
        run_queue(queue, capacity, operations(through)) == run_queue(
            queue,
            capacity,
            operations(others),
        ),
        run_outcomes(queue, capacity, operations(through)) == run_outcomes(
            queue,
            capacity,
            operations(others),
        ),
{
    assert(operations(through) =~= operations(others));
}

/// A push through the handle `pusher` followed by `take` through the
/// handle `taker`.
pub open spec fn hand_over(job: Job, pusher: nat, take: Op, taker: nat) -> Seq<Op> {
    operations(seq![Via { handle: pusher, op: Op::Push(job) }, Via { handle: taker, op: take }])
}

/// What one handle pushes, another delivers. A job that is stored through
/// one handle is what a pop through any handle delivers next, and, where
/// nothing was queued before it, what a steal through any handle delivers
/// next.
pub proof fn lemma_pushed_by_one_taken_by_other(
    queue: Seq<Job>,
    capacity: nat,
    job: Job,
    pusher: nat,
    taker: nat,
)
    requires
        queue.len() < capacity,
    ensures
        run_outcomes(queue, capacity, hand_over(job, pusher, Op::Pop, taker)) == seq![
            Outcome::Pushed(job),
            Outcome::Popped(job),
        ],
        queue.len() == 0 ==> run_outcomes(
            queue,
            capacity,
            hand_over(job, pusher, Op::Steal, taker),
        ) == seq![Outcome::Pushed(job), Outcome::Stolen(job)],
{
    let pop = hand_over(job, pusher, Op::Pop, taker);
    let steal = hand_over(job, pusher, Op::Steal, taker);
    assert(pop =~= seq![Op::Push(job), Op::Pop]);
    assert(steal =~= seq![Op::Push(job), Op::Steal]);
    assert(pop.drop_last() =~= seq![Op::Push(job)]);
    assert(steal.drop_last() =~= seq![Op::Push(job)]);
    assert(seq![Op::Push(job)].drop_last() =~= Seq::<Op>::empty());
    reveal_with_fuel(run_queue, 3);
    reveal_with_fuel(run_outcomes, 3);
    assert(run_queue(queue, capacity, seq![Op::Push(job)]) =~= queue.push(job));
    assert(run_outcomes(queue, capacity, pop) =~= seq![Outcome::Pushed(job), Outcome::Popped(job)]);
    if queue.len() == 0 {
        assert(run_outcomes(queue, capacity, steal) =~= seq![
            Outcome::Pushed(job),
            Outcome::Stolen(job),
        ]);
    }
}

/// The tie. Where the owner's pop and a thief's steal race for the only
/// job, whichever of the two comes first takes it, and the other finds the
/// deque empty: the job goes to exactly one of them.
pub proof fn lemma_one_winner(capacity: nat, job: Job)
    ensures
        run_outcomes(seq![job], capacity, seq![Op::Pop, Op::Steal]) == seq![
            Outcome::Popped(job),
            Outcome::Empty,
        ],
        run_outcomes(seq![job], capacity, seq![Op::Steal, Op::Pop]) == seq![
            Outcome::Stolen(job),
            Outcome::Empty,
        ],
        run_queue(seq![job], capacity, seq![Op::Pop, Op::Steal]) == Seq::<Job>::empty(),
        run_queue(seq![job], capacity, seq![Op::Steal, Op::Pop]) == Seq::<Job>::empty(),
{
    let only = seq![job];
    let pop_first = seq![Op::Pop, Op::Steal];
    let steal_first = seq![Op::Steal, Op::Pop];
    assert(pop_first.drop_last() =~= seq![Op::Pop]);
    assert(steal_first.drop_last() =~= seq![Op::Steal]);
    assert(seq![Op::Pop].drop_last() =~= Seq::<Op>::empty());
    assert(seq![Op::Steal].drop_last() =~= Seq::<Op>::empty());
    reveal_with_fuel(run_queue, 3);
    reveal_with_fuel(run_outcomes, 3);
    assert(run_queue(only, capacity, seq![Op::Pop]) =~= Seq::<Job>::empty());
    assert(run_queue(only, capacity, seq![Op::Steal]) =~= Seq::<Job>::empty());
    assert(run_outcomes(only, capacity, pop_first) =~= seq![Outcome::Popped(job), Outcome::Empty]);
    assert(run_outcomes(only, capacity, steal_first) =~= seq![
        Outcome::Stolen(job),
        Outcome::Empty,
    ]);
}

/// Draining. Where no push runs, pops and steals in any mix and order
/// against a deque of K jobs succeed K times if there are at least K of
/// them, once for each job and for none twice; all the others find the deque
/// empty, and the deque ends empty.
pub proof fn lemma_drain(queue: Seq<Job>, capacity: nat, ops: Seq<Op>)
    requires
        forall|i: int| 0 <= i < ops.len() ==> !(#[trigger] ops[i] is Push),
        ops.len() >= queue.len(),
    ensures
        pops_served(run_outcomes(queue, capacity, ops)) + steals_served(
            run_outcomes(queue, capacity, ops),
        ) == queue.len(),
        found_empty(run_outcomes(queue, capacity, ops)) == ops.len() - queue.len(),
        delivered(run_outcomes(queue, capacity, ops)) == queue.to_multiset(),
        run_queue(queue, capacity, ops) == Seq::<Job>::empty(),
{
    lemma_takes_only(queue, capacity, ops);
    lemma_jobs_conserved(queue, capacity, ops);
    let outcomes = run_outcomes(queue, capacity, ops);
    let left = run_queue(queue, capacity, ops);
    assert(left =~= Seq::<Job>::empty());
    lemma_multiset_empty();
    assert(delivered(outcomes) =~= delivered(outcomes).add(left.to_multiset()));
}

/// Where no push runs, each pop and steal either delivers a job or finds
/// the deque empty, and it finds it empty only once nothing is left.
pub proof fn lemma_takes_only(queue: Seq<Job>, capacity: nat, ops: Seq<Op>)
    requires
        forall|i: int| 0 <= i < ops.len() ==> !(#[trigger] ops[i] is Push),
    ensures
        accepted(run_outcomes(queue, capacity, ops)) == Multiset::<Job>::empty(),
        pushes_stored(run_outcomes(queue, capacity, ops)) == 0,
        pops_served(run_outcomes(queue, capacity, ops)) + steals_served(
            run_outcomes(queue, capacity, ops),
        ) + found_empty(run_outcomes(queue, capacity, ops)) == ops.len(),
        ops.len() <= queue.len() ==> found_empty(run_outcomes(queue, capacity, ops)) == 0,
        ops.len() >= queue.len() ==> run_queue(queue, capacity, ops).len() == 0,
        ops.len() <= queue.len() ==> run_queue(queue, capacity, ops).len() == queue.len()
            - ops.len(),
    decreases ops.len(),
{
    if ops.len() > 0 {
        let shorter = ops.drop_last();
        lemma_takes_only(queue, capacity, shorter);
        assert(run_outcomes(queue, capacity, ops).drop_last() =~= run_outcomes(
            queue,
            capacity,
            shorter,
        ));
    }
}

} // verus!

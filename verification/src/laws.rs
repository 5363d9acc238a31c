//! Laws of the handle discipline, proved over the runtime model.
//!
//! Each law relates the model transitions that the executable operations are
//! specified against, so it holds of any sequence of calls whose contracts
//! verify.

use vstd::prelude::*;

use crate::platform::RuntimeModel;
use crate::queue::Queue;

verus! {

/// Shared ownership survives the original handle's destruction: cloning a
/// handle and then releasing the original restores the runtime model exactly
/// as it was, so the clone — which carries the same fields — is a valid owner
/// of the same live native queue, and flush, finish and every informational
/// query behave on it as they would have on the original.
pub proof fn lemma_clone_survives_original_release(m: RuntimeModel, q: Queue)
    requires
        m.wf(),
        q.valid(m),
        m.queues[q.queue_id as int].ref_count < u64::MAX,
        m.context_refs[q.context_id as int] < u64::MAX,
    ensures
        q.valid(m.after_retain(q.queue_id as int, q.context_id as int)),
        m.after_retain(q.queue_id as int, q.context_id as int).after_release(
            q.queue_id as int,
            q.context_id as int,
        ) == m,
{
    let m1 = m.after_retain(q.queue_id as int, q.context_id as int);
    let m2 = m1.after_release(q.queue_id as int, q.context_id as int);
    assert(m2.context_refs =~= m.context_refs);
    assert(m2.queues =~= m.queues);
    assert(m2 =~= m);
}

/// While both owners exist, the clone is as functional as the original:
/// retaining a queue changes nothing but the two reference counts, so the
/// success of flush and finish, and the liveness of the queue and its
/// context, are untouched.
pub proof fn lemma_clone_leaves_queue_state(m: RuntimeModel, q: Queue)
    requires
        m.wf(),
        q.valid(m),
        m.queues[q.queue_id as int].ref_count < u64::MAX,
        m.context_refs[q.context_id as int] < u64::MAX,
    ensures
        q.valid(m.after_retain(q.queue_id as int, q.context_id as int)),
        q.flush_succeeds(m.after_retain(q.queue_id as int, q.context_id as int))
            == q.flush_succeeds(m),
        q.finish_succeeds(m.after_retain(q.queue_id as int, q.context_id as int))
            == q.finish_succeeds(m),
{
}

/// Finish after flush, with nothing further enqueued, is a successful no-op
/// synchronization point: the flush dispatches whatever is pending, and —
/// the device being present and no outstanding command being doomed to fail —
/// the finish that follows returns without error. Flushing first makes no
/// difference to the state finish leaves behind, and on a queue with no
/// outstanding work at all the pair leaves the runtime exactly as it was.
pub proof fn lemma_finish_after_flush(m: RuntimeModel, q: Queue)
    requires
        m.wf(),
        q.valid(m),
        !m.device_lost(q.device),
        m.queues[q.queue_id as int].doomed == 0,
    ensures
        q.flush_succeeds(m),
        q.valid(m.after_flush(q.queue_id as int)),
        q.finish_succeeds(m.after_flush(q.queue_id as int)),
        m.after_flush(q.queue_id as int).after_finish(q.queue_id as int) == m.after_finish(
            q.queue_id as int,
        ),
        m.queues[q.queue_id as int].pending == 0 && m.queues[q.queue_id as int].in_flight == 0
            ==> m.after_flush(q.queue_id as int).after_finish(q.queue_id as int) == m,
{
    let qid = q.queue_id as int;
    let mf = m.after_flush(qid);
    assert(mf.after_finish(qid).queues =~= m.after_finish(qid).queues);
    assert(mf.after_finish(qid) =~= m.after_finish(qid));
    if m.queues[qid].pending == 0 && m.queues[qid].in_flight == 0 {
        assert(mf.after_finish(qid).queues =~= m.queues);
        assert(mf.after_finish(qid) =~= m);
    }
}

} // verus!

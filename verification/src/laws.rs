use vstd::prelude::*;
use crate::application::{
    count_creates, creates_fit, lemma_run_snoc, lemma_step_preserves_wf, outcomes_spec, run_spec,
    step_spec, NativeEnv, Outcome,
};
use crate::instruction::Instruction;
use crate::registry::RegistryView;

verus! {

/// Whether one outcome is an answer to one instruction: the kinds line up,
/// and the identifiers and action tags the outcome names are the ones the
/// instruction carried.
pub open spec fn outcome_answers(instruction: Instruction, outcome: Outcome) -> bool {
    match instruction {
        Instruction::CreateWindow { .. } => outcome is Created || outcome is CreationFailed,
        Instruction::DestroyWindow { id } => outcome == (Outcome::Destroyed { id }),
        Instruction::UseWindow { id, action } => outcome == (Outcome::Used { id, action })
            || outcome == (Outcome::Missing { id, action }),
    }
}

/// Law: a drained batch produces exactly one outcome per instruction, in
/// execution order, and the j-th outcome answers the j-th instruction.
/// Together with the queue's FIFO contract — enqueue appends at the tail,
/// the drain takes from the head — this says that instructions enqueued in
/// order A, B, C execute in that order and are answered in that order.
pub proof fn lemma_fifo_order(s: RegistryView, q: Seq<Instruction>, env: NativeEnv)
    ensures
        outcomes_spec(s, q, env).len() == q.len(),
        forall|j: int|
            0 <= j < q.len() ==> outcome_answers(q[j], #[trigger] outcomes_spec(s, q, env)[j]),
    decreases q.len(),
{
    if q.len() > 0 {
        let s1 = step_spec(s, q[0], env).0;
        lemma_fifo_order(s1, q.drop_first(), env);
        assert forall|j: int|
            0 <= j < q.len() implies outcome_answers(
            q[j],
            #[trigger] outcomes_spec(s, q, env)[j],
        ) by {
            if j > 0 {
                assert(outcomes_spec(s, q, env)[j] == outcomes_spec(s1, q.drop_first(), env)[j
                    - 1]);
                assert(q.drop_first()[j - 1] == q[j]);
            }
        }
    }
}

/// The outcome at position `j` of a drained batch is the answer of the
/// `j`-th instruction executed against the registry exactly as the first
/// `j` instructions left it.
pub proof fn lemma_outcome_at(s: RegistryView, q: Seq<Instruction>, env: NativeEnv, j: int)
    requires
        0 <= j < q.len(),
    ensures
        outcomes_spec(s, q, env).len() == q.len(),
        outcomes_spec(s, q, env)[j] == step_spec(run_spec(s, q.take(j), env), q[j], env).1,
    decreases j,
{
    lemma_fifo_order(s, q, env);
    let s1 = step_spec(s, q[0], env).0;
    if j == 0 {
        assert(q.take(0) =~= Seq::<Instruction>::empty());
    } else {
        lemma_outcome_at(s1, q.drop_first(), env, j - 1);
        assert(outcomes_spec(s, q, env)[j] == outcomes_spec(s1, q.drop_first(), env)[j - 1]);
        assert(q.drop_first()[j - 1] == q[j]);
        assert(q.drop_first().take(j - 1) =~= q.take(j).drop_first());
        assert(q.take(j)[0] == q[0]);
        assert(run_spec(s, q.take(j), env) == run_spec(s1, q.take(j).drop_first(), env));
    }
}

/// Along a drain the registry stays well formed and the counter keeps room
/// for the create requests still ahead of it.
pub proof fn lemma_prefix_wf(s: RegistryView, q: Seq<Instruction>, env: NativeEnv, j: int)
    requires
        s.wf(),
        creates_fit(s, q),
        0 <= j <= q.len(),
    ensures
        run_spec(s, q.take(j), env).wf(),
        creates_fit(run_spec(s, q.take(j), env), q.skip(j)),
    decreases j,
{
    if j == 0 {
        assert(q.take(0) =~= Seq::<Instruction>::empty());
        assert(q.skip(0) =~= q);
    } else {
        let s1 = step_spec(s, q[0], env).0;
        lemma_step_preserves_wf(s, q[0], env);
        lemma_prefix_wf(s1, q.drop_first(), env, j - 1);
        assert(q.take(j)[0] == q[0]);
        assert(q.take(j).drop_first() =~= q.drop_first().take(j - 1));
        assert(q.skip(j) =~= q.drop_first().skip(j - 1));
        assert(run_spec(s, q.take(j), env) == run_spec(s1, q.take(j).drop_first(), env));
    }
}

/// The identifier counter never moves backwards between two points of a
/// drain.
pub proof fn lemma_next_id_monotone(s: RegistryView, q: Seq<Instruction>, env: NativeEnv, a: int, b: int)
    requires
        0 <= a <= b <= q.len(),
    ensures
        run_spec(s, q.take(a), env).next_id <= run_spec(s, q.take(b), env).next_id,
    decreases b - a,
{
    if a < b {
        lemma_next_id_monotone(s, q, env, a, b - 1);
        assert(q.take(b) =~= q.take(b - 1).push(q[b - 1]));
        lemma_run_snoc(s, q.take(b - 1), q[b - 1], env);
        assert(step_spec(run_spec(s, q.take(b - 1), env), q[b - 1], env).0.next_id >= run_spec(
            s,
            q.take(b - 1),
            env,
        ).next_id);
    }
}

/// Law: when native creation succeeds, every create request in a drained
/// batch is answered with an identifier that was not live when the request
/// executed, and no two create requests of the batch are ever answered with
/// the same identifier — identifiers are distinct and previously unused.
pub proof fn lemma_created_ids_fresh_and_distinct(
    s: RegistryView,
    q: Seq<Instruction>,
    env: NativeEnv,
    j: int,
    k: int,
)
    requires
        s.wf(),
        creates_fit(s, q),
        env.window_creation_succeeds,
        0 <= j < k < q.len(),
        q[j] is CreateWindow,
        q[k] is CreateWindow,
    ensures
        outcomes_spec(s, q, env)[j] is Created,
        outcomes_spec(s, q, env)[k] is Created,
        !run_spec(s, q.take(j), env).windows.contains_key(outcomes_spec(s, q, env)[j]->Created_id),
        outcomes_spec(s, q, env)[j]->Created_id != outcomes_spec(s, q, env)[k]->Created_id,
{
    lemma_outcome_at(s, q, env, j);
    lemma_outcome_at(s, q, env, k);
    lemma_prefix_wf(s, q, env, j);
    lemma_prefix_wf(s, q, env, k);
    let pj = run_spec(s, q.take(j), env);
    let pk = run_spec(s, q.take(k), env);
    // the request still ahead at each point keeps the counter a faithful i32
    assert(q.skip(j)[0] == q[j]);
    assert(count_creates(q.skip(j)) >= 1);
    assert(q.skip(k)[0] == q[k]);
    assert(count_creates(q.skip(k)) >= 1);
    // after request j the counter has moved past its answer
    assert(q.take(j + 1) =~= q.take(j).push(q[j]));
    lemma_run_snoc(s, q.take(j), q[j], env);
    assert(run_spec(s, q.take(j + 1), env).next_id == pj.next_id + 1);
    lemma_next_id_monotone(s, q, env, j + 1, k);
    assert(pj.next_id < pk.next_id);
}

/// How many destroy requests of a batch name an identifier that is live
/// when the request executes: exactly these shrink the registry.
pub open spec fn effective_destroys(s: RegistryView, q: Seq<Instruction>, env: NativeEnv) -> nat
    decreases q.len(),
{
    if q.len() == 0 {
        0
    } else {
        (match q[0] {
            Instruction::DestroyWindow { id } => if s.windows.contains_key(id) {
                1nat
            } else {
                0nat
            },
            _ => 0nat,
        }) + effective_destroys(step_spec(s, q[0], env).0, q.drop_first(), env)
    }
}

/// Law: when native creation succeeds, after a batch settles the number of
/// live windows has grown by exactly the create requests and shrunk by
/// exactly the destroy requests that named a then-live identifier.
pub proof fn lemma_live_window_count(s: RegistryView, q: Seq<Instruction>, env: NativeEnv)
    requires
        s.wf(),
        creates_fit(s, q),
        env.window_creation_succeeds,
    ensures
        run_spec(s, q, env).windows.len() + effective_destroys(s, q, env) == s.windows.len()
            + count_creates(q),
    decreases q.len(),
{
    if q.len() > 0 {
        let s1 = step_spec(s, q[0], env).0;
        lemma_step_preserves_wf(s, q[0], env);
        lemma_live_window_count(s1, q.drop_first(), env);
        match q[0] {
            Instruction::CreateWindow { .. } => {
                let id = s.next_id as i32;
                assert(!s.windows.contains_key(id));
                assert(s1.windows.dom() =~= s.windows.dom().insert(id));
                vstd::set::axiom_set_insert_len(s.windows.dom(), id);
            },
            Instruction::DestroyWindow { id } => {
                assert(s1.windows.dom() =~= s.windows.dom().remove(id));
                if s.windows.contains_key(id) {
                    vstd::set::axiom_set_remove_len(s.windows.dom(), id);
                } else {
                    assert(s1.windows.dom() =~= s.windows.dom());
                }
            },
            Instruction::UseWindow { .. } => {},
        }
    }
}

/// Law: destroying the same identifier twice has the same effect on the
/// registry as destroying it once, and the second request is answered like
/// the first — as a plain acknowledgement, never an error.
pub proof fn lemma_destroy_idempotent(s: RegistryView, id: i32, env: NativeEnv)
    ensures
        step_spec(step_spec(s, Instruction::DestroyWindow { id }, env).0, Instruction::DestroyWindow { id }, env).0
            == step_spec(s, Instruction::DestroyWindow { id }, env).0,
        step_spec(step_spec(s, Instruction::DestroyWindow { id }, env).0, Instruction::DestroyWindow { id }, env).1
            == (Outcome::Destroyed { id }),
{
    assert(s.windows.remove(id).remove(id) =~= s.windows.remove(id));
}

} // verus!

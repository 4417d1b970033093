//! Engine-wide properties, stated over the abstract model and proved for
//! every state and every sequence of parameter values.

use crate::model::{
    apply_op, lemma_steps_model_push, mix_for_mode, rescale_model, run_model, step_model,
    step_result, steps_model, EngineModel, EngineOp, MixOp, WRAP_LIMIT,
};
use vstd::prelude::*;

verus! {

/// One processed sample keeps the state well formed: both cursors stay
/// inside [0, CAPACITY - 1], whatever the mode value.
pub proof fn lemma_step_preserves_wf<S>(m: EngineModel<S>, gained: S, mode: u64)
    requires
        m.wf(),
    ensures
        step_model(m, gained, mode).wf(),
{
}

/// One poll of the time parameter keeps the state well formed, whatever
/// the time value.
pub proof fn lemma_rescale_preserves_wf<S>(m: EngineModel<S>, time: u64)
    requires
        m.wf(),
    ensures
        rescale_model(m, time).wf(),
{
}

/// Bounds invariant: after any interleaving of time polls and processed
/// samples, under every sequence of parameter values, both cursors remain
/// within [0, 399999] and the history keeps its capacity.
pub proof fn law_cursors_stay_bounded<S>(m: EngineModel<S>, ops: Seq<EngineOp<S>>)
    requires
        m.wf(),
    ensures
        run_model(m, ops).wf(),
    decreases ops.len(),
{
    if ops.len() > 0 {
        match ops[0] {
            EngineOp::SetTime { time } => lemma_rescale_preserves_wf(m, time),
            EngineOp::Sample { gained, mode } => lemma_step_preserves_wf(m, gained, mode),
        }
        law_cursors_stay_bounded(apply_op(m, ops[0]), ops.drop_first());
    }
}

/// Every history slot holds the value `z`.
pub open spec fn hist_all<S>(m: EngineModel<S>, z: S) -> bool {
    forall|i: int| 0 <= i < m.hist.len() ==> m.hist[i] == z
}

/// An operation that can write nothing but `z` into the history: any time
/// poll, or a sample whose gained value is `z`.
pub open spec fn op_writes_only<S>(op: EngineOp<S>, z: S) -> bool {
    match op {
        EngineOp::SetTime { .. } => true,
        EngineOp::Sample { gained, .. } => gained == z,
    }
}

/// Silence is idempotent: when every history slot holds `z` and every
/// processed sample carries the gained value `z` (an all-zero input block
/// under gain one leaves the gained samples zero), the history still holds
/// `z` in every slot after any number of steps and time polls.
pub proof fn law_silence_keeps_silence<S>(m: EngineModel<S>, ops: Seq<EngineOp<S>>, z: S)
    requires
        m.wf(),
        hist_all(m, z),
        forall|i: int| 0 <= i < ops.len() ==> op_writes_only(ops[i], z),
    ensures
        run_model(m, ops).wf(),
        hist_all(run_model(m, ops), z),
    decreases ops.len(),
{
    if ops.len() > 0 {
        let m1 = apply_op(m, ops[0]);
        match ops[0] {
            EngineOp::SetTime { time } => lemma_rescale_preserves_wf(m, time),
            EngineOp::Sample { gained, mode } => lemma_step_preserves_wf(m, gained, mode),
        }
        assert forall|i: int| 0 <= i < m1.hist.len() implies m1.hist[i] == z by {
            assert(op_writes_only(ops[0], z));
        }
        assert forall|i: int|
            0 <= i < ops.drop_first().len() implies op_writes_only(ops.drop_first()[i], z) by {
            assert(ops.drop_first()[i] == ops[i + 1]);
        }
        law_silence_keeps_silence(m1, ops.drop_first(), z);
    }
}

/// Distance from the write cursor to the read cursor along the cursor
/// cycle of `WRAP_LIMIT` positions.
pub open spec fn cursor_gap<S>(m: EngineModel<S>) -> int {
    if m.read_cursor >= m.write_cursor {
        m.read_cursor - m.write_cursor
    } else {
        m.read_cursor - m.write_cursor + WRAP_LIMIT as int
    }
}

/// Modes without cursor perturbation (every mode but 2, 6 and 7) advance
/// both cursors by exactly one position under the same boundary rule, so
/// the separation between them - the length of the delay loop - is
/// preserved by every step.
pub proof fn law_gap_kept_without_perturbation<S>(m: EngineModel<S>, gained: S, mode: u64)
    requires
        m.wf(),
        m.write_cursor < WRAP_LIMIT as int,
        m.read_cursor < WRAP_LIMIT as int,
        mode != 2,
        mode != 6,
        mode != 7,
    ensures
        cursor_gap(step_model(m, gained, mode)) == cursor_gap(m),
        step_model(m, gained, mode).write_cursor < WRAP_LIMIT as int,
        step_model(m, gained, mode).read_cursor < WRAP_LIMIT as int,
{
}

/// Position on the cursor cycle of `WRAP_LIMIT` slots, for a value that
/// lies less than one full cycle past the boundary.
pub open spec fn cycle_pos(c: int) -> int {
    if c >= WRAP_LIMIT as int {
        c - WRAP_LIMIT as int
    } else {
        c
    }
}

/// After `j` steps of a mode without cursor perturbation, both cursors
/// have moved `j` positions along the cycle, and the sample of the first
/// step still sits in the slot it was written to, as long as the write
/// cursor has not come full circle.
pub proof fn lemma_delay_line_state<S>(m: EngineModel<S>, gained: Seq<S>, mode: u64, j: int)
    requires
        m.wf(),
        m.read_cursor < WRAP_LIMIT as int,
        m.write_cursor < WRAP_LIMIT as int,
        mode != 2,
        mode != 6,
        mode != 7,
        0 < j < WRAP_LIMIT as int,
        j <= gained.len(),
    ensures
        steps_model(m, gained.take(j), mode).wf(),
        steps_model(m, gained.take(j), mode).read_cursor == cycle_pos(m.read_cursor + j),
        steps_model(m, gained.take(j), mode).write_cursor == cycle_pos(m.write_cursor + j),
        steps_model(m, gained.take(j), mode).read_cursor < WRAP_LIMIT as int,
        steps_model(m, gained.take(j), mode).write_cursor < WRAP_LIMIT as int,
        steps_model(m, gained.take(j), mode).hist[m.write_cursor] == gained[0],
    decreases j,
{
    if j == 1 {
        assert(gained.take(1)[0] == gained[0]);
        assert(gained.take(1).drop_first() =~= Seq::<S>::empty());
        assert(steps_model(step_model(m, gained[0], mode), Seq::<S>::empty(), mode)
            == step_model(m, gained[0], mode));
        assert(steps_model(m, gained.take(1), mode) == step_model(m, gained[0], mode));
    } else {
        lemma_delay_line_state(m, gained, mode, j - 1);
        let prev = steps_model(m, gained.take(j - 1), mode);
        assert(gained.take(j - 1).push(gained[j - 1]) =~= gained.take(j));
        lemma_steps_model_push(m, gained.take(j - 1), gained[j - 1], mode);
        assert(steps_model(m, gained.take(j), mode) == step_model(prev, gained[j - 1], mode));
        // The write cursor has not returned to its starting slot yet, so
        // this step's write leaves the first sample in place.
        assert(prev.write_cursor != m.write_cursor);
    }
}

/// Round-trip delay length: under a mode without cursor perturbation, the
/// sample stored by the first of `k` steps comes back as the primary tap
/// of the next step, where `k` is the cursors' separation - the unique
/// offset within one cycle that carries the read cursor onto the slot the
/// write cursor occupied. An impulse fed into an otherwise silent engine
/// therefore reappears exactly one cursor separation later.
pub proof fn law_delay_line_echo<S>(
    m: EngineModel<S>,
    gained: Seq<S>,
    mode: u64,
    delay: u64,
    k: int,
)
    requires
        m.wf(),
        m.read_cursor < WRAP_LIMIT as int,
        m.write_cursor < WRAP_LIMIT as int,
        mode != 2,
        mode != 6,
        mode != 7,
        0 < k < WRAP_LIMIT as int,
        k <= gained.len(),
        cycle_pos(m.read_cursor + k) == m.write_cursor,
    ensures
        step_result(steps_model(m, gained.take(k), mode), delay, mode).tap == gained[0],
{
    lemma_delay_line_state(m, gained, mode, k);
}

/// Pass-through dispatch: any mode outside 1..=7 selects the `Pass`
/// mixing operation, under which the output sample is the gained input
/// exactly and no tap is mixed in.
pub proof fn law_undefined_mode_passes_through(mode: u64)
    requires
        !(1 <= mode <= 7),
    ensures
        mix_for_mode(mode) == MixOp::Pass,
{
}

} // verus!

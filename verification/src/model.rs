//! Mathematical model of the delay engine: the cursor boundary rule, the
//! mode-dependent read-cursor perturbations, the mixing operation selected
//! by each mode, and the state transition of a processed sample, a time
//! poll, a frame, and an arbitrary sequence of such operations.

use vstd::prelude::*;

verus! {

/// Number of slots in the circular history buffer.
pub const CAPACITY: usize = 400000;

/// Boundary constant of both cursors: a cursor that reaches this value is
/// reset to 0. The top slot `CAPACITY - 1` therefore acts as a sentinel
/// that can be read but is never written.
pub const WRAP_LIMIT: usize = 399999;

/// Write-cursor threshold above which the boundary perturbation rule of
/// modes 2 and 7 replaces their extra advance.
pub const UPPER_REGION: usize = 199999;

/// Divisor of the integer `delay` and `time` parameters: both scale the
/// read cursor as a fraction of this constant, with truncation.
pub const PARAM_SCALE: u64 = 1000;

/// Mixing operation a mode selects; the caller combines the gained input
/// sample with the historical taps accordingly.
#[derive(Clone, Copy, Debug, PartialEq, Eq, Structural)]
pub enum MixOp {
    /// Output is the gained sample unchanged (any mode outside 1..=7).
    Pass,
    /// Output is the gained sample plus the primary tap (modes 1, 2, 6).
    AddTap,
    /// Output is the primary tap alone, replacing the input (mode 3).
    ReplaceTap,
    /// Output is the gained sample times the primary tap (mode 4).
    MulTap,
    /// Output is the gained sample plus both taps (modes 5, 7).
    AddBothTaps,
}

/// What one processing step hands back: the two historical taps, read
/// before the buffer write of this step, and the mixing operation.
pub struct StepResult<S> {
    /// Sample stored at the read cursor.
    pub tap: S,
    /// Sample stored at the secondary, delay-scaled read offset.
    pub tap2: S,
    /// Mixing operation selected by the mode parameter.
    pub mix: MixOp,
}

/// Abstract state of the engine: the history contents, both cursors, and
/// the last observed value of the time parameter.
#[verifier::ext_equal]
pub ghost struct EngineModel<S> {
    pub hist: Seq<S>,
    pub write_cursor: int,
    pub read_cursor: int,
    pub last_time: int,
}

impl<S> EngineModel<S> {
    /// Well-formedness: full-capacity history and both cursors inside
    /// [0, CAPACITY - 1].
    pub open spec fn wf(self) -> bool {
        &&& self.hist.len() == CAPACITY as int
        &&& 0 <= self.write_cursor < CAPACITY as int
        &&& 0 <= self.read_cursor < CAPACITY as int
    }
}

/// Boundary rule shared by both cursors: a movement that carries a cursor
/// to the boundary constant or beyond, or below zero, resets it to 0.
pub open spec fn wrap_cursor(c: int) -> int {
    if c < 0 || c >= WRAP_LIMIT as int {
        0
    } else {
        c
    }
}

/// Upper-region perturbation of modes 2 and 7: -1 when the write cursor is
/// a multiple of 5, otherwise +2 when a multiple of 7, otherwise none. The
/// multiple-of-5 check wins over the multiple-of-7 check.
pub open spec fn upper_region_extra(w: int) -> int {
    if w % 5 == 0 {
        -1
    } else if w % 7 == 0 {
        2
    } else {
        0
    }
}

/// Boundary perturbation of modes 2 and 7: the upper-region rule once the
/// write cursor has passed `UPPER_REGION`, and an extra +1 on top of the
/// baseline advance below it.
pub open spec fn boundary_extra(w: int) -> int {
    if w > UPPER_REGION as int {
        upper_region_extra(w)
    } else {
        1
    }
}

/// Perturbation of modes 6 and 7: when the write cursor is a multiple of
/// 3, -3 if it is also even, else +3; otherwise none.
pub open spec fn triple_extra(w: int) -> int {
    if w % 3 == 0 {
        if w % 2 == 0 {
            -3
        } else {
            3
        }
    } else {
        0
    }
}

/// Mode-dependent extra read-cursor movement, applied on top of the
/// baseline +1 advance; `w` is the write cursor's value right after its
/// own increment, before its wrap.
pub open spec fn perturbation(mode: u64, w: int) -> int {
    if mode == 2 {
        boundary_extra(w)
    } else if mode == 6 {
        triple_extra(w)
    } else if mode == 7 {
        triple_extra(w) + boundary_extra(w)
    } else {
        0
    }
}

/// Total read-cursor movement of one step: the baseline +1 advance plus
/// the mode's perturbation.
pub open spec fn read_advance(mode: u64, w: int) -> int {
    1 + perturbation(mode, w)
}

/// Mixing operation for each mode; any mode outside 1..=7 passes the
/// gained sample through unchanged.
pub open spec fn mix_for_mode(mode: u64) -> MixOp {
    if mode == 1 || mode == 2 || mode == 6 {
        MixOp::AddTap
    } else if mode == 3 {
        MixOp::ReplaceTap
    } else if mode == 4 {
        MixOp::MulTap
    } else if mode == 5 || mode == 7 {
        MixOp::AddBothTaps
    } else {
        MixOp::Pass
    }
}

/// Index of the secondary tap: the read cursor scaled by
/// `delay / PARAM_SCALE`, truncated.
pub open spec fn tap2_index(read_cursor: int, delay: int) -> int {
    (read_cursor * delay) / (PARAM_SCALE as int)
}

/// Taps and mixing operation produced by one step from state `m`: both
/// taps are read before the step writes into the history.
pub open spec fn step_result<S>(m: EngineModel<S>, delay: u64, mode: u64) -> StepResult<S> {
    StepResult {
        tap: m.hist[m.read_cursor],
        tap2: m.hist[tap2_index(m.read_cursor, delay as int)],
        mix: mix_for_mode(mode),
    }
}

/// State after one processed sample: the gained sample overwrites the
/// write-cursor slot, the write cursor advances by one, the read cursor by
/// the mode-dependent amount, and both wrap under the boundary rule. The
/// delay parameter selects the secondary tap only and never moves state.
pub open spec fn step_model<S>(m: EngineModel<S>, gained: S, mode: u64) -> EngineModel<S> {
    EngineModel {
        hist: m.hist.update(m.write_cursor, gained),
        write_cursor: wrap_cursor(m.write_cursor + 1),
        read_cursor: wrap_cursor(m.read_cursor + read_advance(mode, m.write_cursor + 1)),
        last_time: m.last_time,
    }
}

/// State after a poll of the time parameter: when the value differs from
/// the last observed one, the read cursor is rescaled by
/// `time / PARAM_SCALE` (truncating) and the boundary rule applied.
pub open spec fn rescale_model<S>(m: EngineModel<S>, time: u64) -> EngineModel<S> {
    if m.last_time == time as int {
        m
    } else {
        EngineModel {
            hist: m.hist,
            write_cursor: m.write_cursor,
            read_cursor: wrap_cursor((m.read_cursor * time as int) / (PARAM_SCALE as int)),
            last_time: time as int,
        }
    }
}

/// State after a run of consecutive steps sharing one mode value: the
/// samples of one frame.
pub open spec fn steps_model<S>(m: EngineModel<S>, gained: Seq<S>, mode: u64) -> EngineModel<S>
    decreases gained.len(),
{
    if gained.len() == 0 {
        m
    } else {
        steps_model(step_model(m, gained[0], mode), gained.drop_first(), mode)
    }
}

/// State after one frame: one poll of the time parameter, then one step
/// per channel sample.
pub open spec fn frame_model<S>(
    m: EngineModel<S>,
    gained: Seq<S>,
    time: u64,
    mode: u64,
) -> EngineModel<S> {
    steps_model(rescale_model(m, time), gained, mode)
}

/// One interaction with the engine: a poll of the time parameter, or one
/// processed sample.
pub enum EngineOp<S> {
    SetTime { time: u64 },
    Sample { gained: S, mode: u64 },
}

/// State transition of a single interaction.
pub open spec fn apply_op<S>(m: EngineModel<S>, op: EngineOp<S>) -> EngineModel<S> {
    match op {
        EngineOp::SetTime { time } => rescale_model(m, time),
        EngineOp::Sample { gained, mode } => step_model(m, gained, mode),
    }
}

/// State after an arbitrary interleaving of time polls and processed
/// samples.
pub open spec fn run_model<S>(m: EngineModel<S>, ops: Seq<EngineOp<S>>) -> EngineModel<S>
    decreases ops.len(),
{
    if ops.len() == 0 {
        m
    } else {
        run_model(apply_op(m, ops[0]), ops.drop_first())
    }
}

/// Appending one more sample to a frame steps the state of the shorter
/// frame once more.
pub proof fn lemma_steps_model_push<S>(m: EngineModel<S>, s: Seq<S>, x: S, mode: u64)
    ensures
        steps_model(m, s.push(x), mode) == step_model(steps_model(m, s, mode), x, mode),
    decreases s.len(),
{
    if s.len() == 0 {
        assert(s.push(x)[0] == x);
        assert(s.push(x).drop_first() =~= Seq::<S>::empty());
        assert(steps_model(m, s.push(x), mode) == steps_model(
            step_model(m, x, mode),
            Seq::<S>::empty(),
            mode,
        ));
    } else {
        assert(s.push(x)[0] == s[0]);
        assert(s.push(x).drop_first() =~= s.drop_first().push(x));
        lemma_steps_model_push(step_model(m, s[0], mode), s.drop_first(), x, mode);
        assert(steps_model(m, s.push(x), mode) == steps_model(
            step_model(m, s[0], mode),
            s.drop_first().push(x),
            mode,
        ));
    }
}

} // verus!

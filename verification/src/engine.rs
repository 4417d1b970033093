//! The delay engine: a fixed-capacity circular sample history shared by
//! both stereo channels, a write cursor, a read cursor, and the
//! mode-dependent per-sample processing step.

use crate::model::{
    boundary_extra, frame_model, lemma_steps_model_push, mix_for_mode, perturbation,
    rescale_model, step_model, step_result, steps_model, triple_extra, wrap_cursor, EngineModel,
    MixOp, StepResult, CAPACITY, PARAM_SCALE, UPPER_REGION, WRAP_LIMIT,
};
use vstd::prelude::*;

verus! {

/// Stereo delay engine. Both channels share this one history buffer and
/// this one pair of cursors; the engine owns them exclusively and mutates
/// them only in the per-sample step and the per-frame time poll.
///
/// The sample type `S` is opaque to the engine: no arithmetic is performed
/// on samples, they are only stored and handed back, so the cursor and
/// mode logic is specified and verified independently of the sample
/// representation.
pub struct DelayEngine<S> {
    hist: Vec<S>,
    write_pos: usize,
    read_pos: usize,
    last_time: u64,
}

impl<S: Copy> View for DelayEngine<S> {
    type V = EngineModel<S>;

    closed spec fn view(&self) -> EngineModel<S> {
        EngineModel {
            hist: self.hist@,
            write_cursor: self.write_pos as int,
            read_cursor: self.read_pos as int,
            last_time: self.last_time as int,
        }
    }
}

/// Upper-region rule of modes 2 and 7, on the incremented write cursor.
fn boundary_move(w: i64) -> (d: i64)
    requires
        0 <= w,
    ensures
        d == boundary_extra(w as int),
{
    if w > UPPER_REGION as i64 {
        if w % 5 == 0 {
            -1
        } else if w % 7 == 0 {
            2
        } else {
            0
        }
    } else {
        1
    }
}

/// Multiple-of-3 rule of modes 6 and 7, on the incremented write cursor.
fn triple_move(w: i64) -> (d: i64)
    requires
        0 <= w,
    ensures
        d == triple_extra(w as int),
{
    if w % 3 == 0 {
        if w % 2 == 0 {
            -3
        } else {
            3
        }
    } else {
        0
    }
}

/// Mode-dependent extra read-cursor movement.
fn perturb_move(mode: u64, w: i64) -> (d: i64)
    requires
        0 <= w,
    ensures
        d == perturbation(mode, w as int),
        -4 <= d <= 5,
{
    if mode == 2 {
        boundary_move(w)
    } else if mode == 6 {
        triple_move(w)
    } else if mode == 7 {
        triple_move(w) + boundary_move(w)
    } else {
        0
    }
}

/// Mixing operation selected by the mode parameter.
fn mix_op(mode: u64) -> (op: MixOp)
    ensures
        op == mix_for_mode(mode),
{
    if mode == 1 || mode == 2 || mode == 6 {
        MixOp::AddTap
    } else if mode == 3 {
        MixOp::ReplaceTap
    } else if mode == 4 {
        MixOp::MulTap
    } else if mode == 5 || mode == 7 {
        MixOp::AddBothTaps
    } else {
        MixOp::Pass
    }
}

impl<S: Copy> DelayEngine<S> {
    /// Well-formedness of the engine state, established by `new` and
    /// preserved by every method.
    pub open spec fn wf(self) -> bool {
        self@.wf()
    }

    /// Creates an engine whose history holds `CAPACITY` copies of `zero`,
    /// with the write cursor at 0 and both the read cursor and the last
    /// observed time value at the boundary constant, so that the first
    /// reads occur at the end of the silent history and the first time
    /// poll always registers as a change.
    pub fn new(zero: S) -> (engine: Self)
        ensures
            engine.wf(),
            forall|i: int| 0 <= i < CAPACITY as int ==> engine@.hist[i] == zero,
            engine@.write_cursor == 0,
            engine@.read_cursor == WRAP_LIMIT as int,
            engine@.last_time == WRAP_LIMIT as int,
    {
        let mut hist: Vec<S> = Vec::new();
        while hist.len() < CAPACITY
            invariant
                hist@.len() <= CAPACITY as int,
                forall|i: int| 0 <= i < hist@.len() ==> hist@[i] == zero,
            decreases CAPACITY as int - hist@.len(),
        {
            hist.push(zero);
        }
        DelayEngine { hist, write_pos: 0, read_pos: WRAP_LIMIT, last_time: WRAP_LIMIT as u64 }
    }

    /// Current write-cursor value.
    pub fn write_cursor(&self) -> (w: usize)
        ensures
            w as int == self@.write_cursor,
    {
        self.write_pos
    }

    /// Current read-cursor value.
    pub fn read_cursor(&self) -> (r: usize)
        ensures
            r as int == self@.read_cursor,
    {
        self.read_pos
    }

    /// Returns the stored sample at `index` without mutating anything.
    pub fn read(&self, index: usize) -> (sample: S)
        requires
            self.wf(),
            index < CAPACITY,
        ensures
            sample == self@.hist[index as int],
    {
        self.hist[index]
    }

    /// Stores `sample` at the write cursor and advances the write cursor
    /// by one slot under the boundary rule.
    pub fn write(&mut self, sample: S)
        requires
            old(self).wf(),
        ensures
            final(self).wf(),
            final(self)@.hist == old(self)@.hist.update(old(self)@.write_cursor, sample),
            final(self)@.write_cursor == wrap_cursor(old(self)@.write_cursor + 1),
            final(self)@.read_cursor == old(self)@.read_cursor,
            final(self)@.last_time == old(self)@.last_time,
    {
        self.hist.set(self.write_pos, sample);
        self.write_pos = self.write_pos + 1;
        if self.write_pos >= WRAP_LIMIT {
            self.write_pos = 0;
        }
    }

    /// Adds `delta` (possibly negative) to the read cursor and applies the
    /// boundary rule: a result at or past the boundary constant, or below
    /// zero, resets the cursor to 0, so the cursor can never go negative.
    pub fn advance_read(&mut self, delta: i64)
        requires
            old(self).wf(),
            delta <= i64::MAX - CAPACITY as i64,
        ensures
            final(self).wf(),
            final(self)@.read_cursor == wrap_cursor(old(self)@.read_cursor + delta as int),
            final(self)@.hist == old(self)@.hist,
            final(self)@.write_cursor == old(self)@.write_cursor,
            final(self)@.last_time == old(self)@.last_time,
    {
        let mut moved: i64 = self.read_pos as i64 + delta;
        if moved < 0 || moved >= WRAP_LIMIT as i64 {
            moved = 0;
        }
        self.read_pos = moved as usize;
    }

    /// Polls the time parameter, once per frame. When the value differs
    /// from the last observed one, the read cursor is immediately rescaled
    /// by `time / PARAM_SCALE` (truncating integer multiply) and the
    /// boundary rule applied to the rescaled cursor.
    pub fn observe_time(&mut self, time: u64)
        requires
            old(self).wf(),
            time <= PARAM_SCALE,
        ensures
            final(self).wf(),
            final(self)@ == rescale_model(old(self)@, time),
    {
        if self.last_time != time {
            proof {
                assert(self.read_pos as int * time as int <= 400000int * 1000int)
                    by (nonlinear_arith)
                    requires
                        0 <= self.read_pos as int <= 400000,
                        0 <= time as int <= 1000,
                ;
            }
            let scaled: u64 = self.read_pos as u64 * time / PARAM_SCALE;
            let mut moved: usize = scaled as usize;
            if moved >= WRAP_LIMIT {
                moved = 0;
            }
            self.read_pos = moved;
            self.last_time = time;
        }
    }

    /// Processes one channel sample, in the order of the per-sample
    /// pipeline: read the primary tap at the read cursor and the secondary
    /// tap at the delay-scaled offset, store the gained sample at the
    /// write cursor, advance the write cursor by one and the read cursor
    /// by the baseline plus the mode's perturbation (judged on the
    /// incremented, unwrapped write cursor), and wrap both cursors. The
    /// returned taps and mixing operation determine the output sample.
    pub fn step(&mut self, gained: S, delay: u64, mode: u64) -> (out: StepResult<S>)
        requires
            old(self).wf(),
            delay <= PARAM_SCALE,
        ensures
            final(self).wf(),
            final(self)@ == step_model(old(self)@, gained, mode),
            out == step_result(old(self)@, delay, mode),
    {
        let tap: S = self.read(self.read_pos);
        proof {
            assert(self.read_pos as int * delay as int <= 400000int * 1000int)
                by (nonlinear_arith)
                requires
                    0 <= self.read_pos as int <= 400000,
                    0 <= delay as int <= 1000,
            ;
            assert((self.read_pos as int * delay as int) / (PARAM_SCALE as int)
                <= self.read_pos as int) by (nonlinear_arith)
                requires
                    0 <= self.read_pos as int,
                    0 <= delay as int <= 1000,
                    PARAM_SCALE as int == 1000,
            ;
        }
        let second: usize = (self.read_pos as u64 * delay / PARAM_SCALE) as usize;
        let tap2: S = self.read(second);
        let w_next: i64 = self.write_pos as i64 + 1;
        self.write(gained);
        let delta: i64 = 1 + perturb_move(mode, w_next);
        self.advance_read(delta);
        StepResult { tap, tap2, mix: mix_op(mode) }
    }

    /// Processes one frame: polls the time value once, then runs one step
    /// per entry of `gained` (the frame's channel samples, gain already
    /// applied), all under this frame's delay and mode values. The result
    /// holds, per sample, the taps and mixing operation of its step.
    pub fn process_frame(&mut self, gained: &Vec<S>, time: u64, delay: u64, mode: u64) -> (outs:
        Vec<StepResult<S>>)
        requires
            old(self).wf(),
            time <= PARAM_SCALE,
            delay <= PARAM_SCALE,
        ensures
            final(self).wf(),
            final(self)@ == frame_model(old(self)@, gained@, time, mode),
            outs@.len() == gained@.len(),
            forall|i: int|
                0 <= i < gained@.len() ==> outs@[i] == step_result(
                    steps_model(rescale_model(old(self)@, time), gained@.take(i), mode),
                    delay,
                    mode,
                ),
    {
        self.observe_time(time);
        let ghost start = self@;
        let mut outs: Vec<StepResult<S>> = Vec::new();
        let mut i: usize = 0;
        while i < gained.len()
            invariant
                self.wf(),
                i as int <= gained@.len(),
                delay <= PARAM_SCALE,
                self@ == steps_model(start, gained@.take(i as int), mode),
                outs@.len() == i as int,
                forall|j: int|
                    0 <= j < i as int ==> outs@[j] == step_result(
                        steps_model(start, gained@.take(j), mode),
                        delay,
                        mode,
                    ),
            decreases gained@.len() - i as int,
        {
            let out = self.step(gained[i], delay, mode);
            outs.push(out);
            proof {
                assert(gained@.take(i as int).push(gained@[i as int]) =~= gained@.take(
                    i as int + 1,
                ));
                lemma_steps_model_push(start, gained@.take(i as int), gained@[i as int], mode);
            }
            i = i + 1;
        }
        proof {
            assert(gained@.take(gained@.len() as int) =~= gained@);
        }
        outs
    }
}

} // verus!

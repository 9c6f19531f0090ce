use vstd::prelude::*;
use crate::delta_time::DeltaTime;
use crate::layer::{Layer, LayerCallback};
use crate::layer_stack::{LayerStack, round, rounds};

verus! {

/// The fixed physics step, 1/60 s rounded down to whole nanoseconds.
pub const FIXED_PHYSICS_STEP_NANOS: u64 = 16_666_666;

/// The most physics steps taken by one advance, so that a long stall is not
/// followed by an unbounded catch-up.
pub const MAX_PHYSICS_STEPS: usize = 10;

/// The duration handed to every physics callback.
pub open spec fn physics_delta() -> DeltaTime {
    DeltaTime { nanos: FIXED_PHYSICS_STEP_NANOS as i64 }
}

/// The carried time after adding `duration`, saturating at the largest `u64`.
pub open spec fn carried(accumulated: u64, duration: u64) -> int {
    if accumulated + duration > u64::MAX {
        u64::MAX as int
    } else {
        accumulated + duration
    }
}

/// Steps taken from a carry of `total`: a step is taken while more than one
/// step of time is carried, at most `MAX_PHYSICS_STEPS` times. That is the
/// largest `k` up to the cap with `k` steps worth of time strictly below `total`.
pub open spec fn steps_for(total: int) -> int {
    let h = FIXED_PHYSICS_STEP_NANOS as int;
    let uncapped = if total <= 0 { 0 } else { (total - 1) / h };
    if uncapped < MAX_PHYSICS_STEPS as int { uncapped } else { MAX_PHYSICS_STEPS as int }
}

/// The carry left after those steps.
pub open spec fn remainder_for(total: int) -> int {
    total - steps_for(total) * FIXED_PHYSICS_STEP_NANOS as int
}

proof fn lemma_quotient(total: int, s: int)
    requires
        total >= 1,
        s >= 0,
        s * FIXED_PHYSICS_STEP_NANOS < total,
        total <= (s + 1) * FIXED_PHYSICS_STEP_NANOS,
    ensures
        (total - 1) / FIXED_PHYSICS_STEP_NANOS as int == s,
{
    let h = FIXED_PHYSICS_STEP_NANOS as int;
    assert((total - 1) / h == s) by (nonlinear_arith)
        requires
            h > 0,
            s * h <= total - 1,
            total - 1 < (s + 1) * h,
    ;
}

proof fn lemma_quotient_at_least(total: int, s: int)
    requires
        s >= 0,
        s * FIXED_PHYSICS_STEP_NANOS < total,
    ensures
        (total - 1) / FIXED_PHYSICS_STEP_NANOS as int >= s,
{
    let h = FIXED_PHYSICS_STEP_NANOS as int;
    assert((total - 1) / h >= s) by (nonlinear_arith)
        requires
            h > 0,
            s * h <= total - 1,
    ;
}

/// One advance takes at most `MAX_PHYSICS_STEPS` steps and never carries a
/// negative time. When it stops short of the cap, less than one step stays
/// carried, for every carry that is not an exact positive multiple of a step
/// (such a carry leaves exactly one step, since a step is only taken while
/// strictly more than one is carried). When the cap is hit, a carry of one
/// step or more may remain.
pub proof fn lemma_fixed_step_bounds(accumulated: u64, duration: u64)
    requires
        carried(accumulated, duration) == 0 || carried(accumulated, duration)
            % FIXED_PHYSICS_STEP_NANOS as int != 0,
    ensures
        0 <= steps_for(carried(accumulated, duration)) <= MAX_PHYSICS_STEPS,
        remainder_for(carried(accumulated, duration)) >= 0,
        steps_for(carried(accumulated, duration)) < MAX_PHYSICS_STEPS ==> remainder_for(
            carried(accumulated, duration),
        ) < FIXED_PHYSICS_STEP_NANOS,
{
    let total = carried(accumulated, duration);
    let h = FIXED_PHYSICS_STEP_NANOS as int;
    if total > 0 {
        let q = (total - 1) / h;
        assert(q >= 0 && q * h <= total - 1 && total - 1 < (q + 1) * h) by (nonlinear_arith)
            requires
                h > 0,
                total >= 1,
                q == (total - 1) / h,
        ;
        let s = steps_for(total);
        assert(s <= q);
        assert(s * h <= q * h) by (nonlinear_arith)
            requires
                0 <= s <= q,
                h > 0,
        ;
        if s == q {
            assert(total - q * h != h) by (nonlinear_arith)
                requires
                    total % h != 0,
                    h > 0,
            {
                if total - q * h == h {
                    assert(total == (q + 1) * h);
                    assert(total % h == 0);
                }
            }
        }
    }
}

/// Advances the fixed-step simulation by `duration` nanoseconds of wall time.
///
/// The time is added to the carry in `accumulated`; then, while more than one
/// step is carried and fewer than `MAX_PHYSICS_STEPS` steps were taken, one
/// step is consumed and every layer gets `on_physics_update` with exactly one
/// step as its duration. What is left stays carried for the next call.
pub fn physics_update<L: Layer>(layer_stack: &mut LayerStack<L>, duration: u64, accumulated: &mut u64)
    ensures
        *final(accumulated) as int == remainder_for(carried(*old(accumulated), duration)),
        final(layer_stack).layers().len() == old(layer_stack).layers().len(),
        final(layer_stack).history() == old(layer_stack).history() + rounds(
            steps_for(carried(*old(accumulated), duration)) as nat,
            old(layer_stack).layers().len() as int,
            LayerCallback::PhysicsUpdate(physics_delta()),
        ),
{
    let ghost total = carried(*accumulated, duration);
    let ghost n = layer_stack.layers().len() as int;
    let ghost callback = LayerCallback::PhysicsUpdate(physics_delta());
    if duration <= u64::MAX - *accumulated {
        *accumulated = *accumulated + duration;
    } else {
        *accumulated = u64::MAX;
    }
    let mut step: usize = 0;
    while *accumulated > FIXED_PHYSICS_STEP_NANOS && step < MAX_PHYSICS_STEPS
        invariant
            step <= MAX_PHYSICS_STEPS,
            *accumulated as int == total - step * FIXED_PHYSICS_STEP_NANOS,
            step * FIXED_PHYSICS_STEP_NANOS < total || (step == 0 && total >= 0),
            total == carried(*old(accumulated), duration),
            n == old(layer_stack).layers().len(),
            layer_stack.layers().len() == n,
            callback == LayerCallback::PhysicsUpdate(physics_delta()),
            layer_stack.history() == old(layer_stack).history() + rounds(step as nat, n, callback),
        decreases MAX_PHYSICS_STEPS - step,
    {
        step += 1;
        *accumulated = *accumulated - FIXED_PHYSICS_STEP_NANOS;
        layer_stack.physics_update_all(DeltaTime::new(FIXED_PHYSICS_STEP_NANOS as i64));
        proof {
            assert(rounds(step as nat, n, callback) == rounds((step - 1) as nat, n, callback)
                + round(n, callback));
            assert(old(layer_stack).history() + rounds(step as nat, n, callback) =~= old(
                layer_stack,
            ).history() + rounds((step - 1) as nat, n, callback) + round(n, callback));
        }
    }
    proof {
        let h = FIXED_PHYSICS_STEP_NANOS as int;
        if step == MAX_PHYSICS_STEPS {
            lemma_quotient_at_least(total, step as int);
        } else if total >= 1 {
            lemma_quotient(total, step as int);
        }
        assert(steps_for(total) == step as int);
    }
}

/// Hands the raw elapsed time to every layer's `on_update`, in push order.
pub fn update<L: Layer>(layer_stack: &mut LayerStack<L>, duration: u64)
    requires
        duration <= i64::MAX,
    ensures
        final(layer_stack).layers().len() == old(layer_stack).layers().len(),
        final(layer_stack).history() == old(layer_stack).history() + round(
            old(layer_stack).layers().len() as int,
            LayerCallback::Update(DeltaTime { nanos: duration as i64 }),
        ),
{
    layer_stack.update_all(DeltaTime::new(duration as i64));
}

} // verus!

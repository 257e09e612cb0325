use vstd::prelude::*;

verus! {

/// The step width of a ramp from `from` to `to` in `step` steps.
pub open spec fn lerp_width(from: u16, to: u16, step: u16) -> int {
    if from < to {
        (to - from) / (step as int)
    } else {
        (from - to) / (step as int)
    }
}

/// The duty cycle at place `x` of a ramp from `from` towards `to` in `step`
/// steps: `x` step widths from `from`.
pub open spec fn lerp_duty(from: u16, to: u16, step: u16, x: int) -> int {
    if from < to {
        from + x * lerp_width(from, to, step)
    } else {
        from - x * lerp_width(from, to, step)
    }
}

proof fn lemma_lerp_within(from: u16, to: u16, step: u16, x: int)
    requires
        step > 0,
        0 <= x < step,
    ensures
        0 <= x * lerp_width(from, to, step) <= (if from < to {
            to - from
        } else {
            from - to
        }),
        0 <= lerp_duty(from, to, step, x) <= u16::MAX,
{
    let span: int = if from < to {
        to - from
    } else {
        from - to
    };
    let width = lerp_width(from, to, step);
    assert(width == span / (step as int));
    assert(0 <= width && width * step <= span) by (nonlinear_arith)
        requires
            width == span / (step as int),
            step > 0,
            span >= 0,
    ;
    assert(0 <= x * width && x * width <= width * step) by (nonlinear_arith)
        requires
            0 <= x < step,
            0 <= width,
    ;
}

/// The duty cycles of a ramp from `from` towards `to`, in their order: one
/// for each of `step` steps, the first being `from`.
pub fn lerp(from: u16, to: u16, step: u16) -> (duties: Vec<u16>)
    requires
        step > 0,
    ensures
        duties@.len() == step,
        forall|x: int| 0 <= x < step ==> #[trigger] duties@[x] == lerp_duty(from, to, step, x),
{
    let diff: u16 = if from < to {
        (to - from) / step
    } else {
        (from - to) / step
    };
    let mut duties: Vec<u16> = Vec::new();
    let mut x: u16 = 0;
    while x < step
        invariant
            x <= step,
            step > 0,
            diff == lerp_width(from, to, step),
            duties@.len() == x,
            forall|k: int| 0 <= k < x ==> #[trigger] duties@[k] == lerp_duty(from, to, step, k),
        decreases step - x,
    {
        proof {
            lemma_lerp_within(from, to, step, x as int);
        }
        let offset: u16 = x * diff;
        let duty = if from < to {
            from + offset
        } else {
            from - offset
        };
        duties.push(duty);
        x += 1;
    }
    duties
}

} // verus!

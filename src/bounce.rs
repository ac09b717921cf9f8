use vstd::prelude::*;

verus! {

/// What one trace step reported for a ray.
#[derive(Clone, Copy, Debug, PartialEq, Eq, Structural)]
pub enum TraceOutcome {
    /// The ray hit nothing.
    Miss,
    /// The ray hit a primitive whose point lies in shadow: only the ambient
    /// term is contributed.
    Shadowed,
    /// The ray hit a lit point: the full shaded colour is contributed and the
    /// ray may be reflected.
    Lit,
}

/// The bounce loop of one pixel: at most `depth_max` trace steps, ending
/// early on a miss or on a point in shadow.
#[derive(Clone, Copy, Debug, PartialEq, Eq, Structural)]
pub struct BounceLoop {
    pub depth: u32,
    pub depth_max: u32,
    pub finished: bool,
}

impl BounceLoop {
    pub open spec fn wf(&self) -> bool {
        self.depth <= self.depth_max
    }

    /// Whether another trace step is due.
    pub open spec fn due(&self) -> bool {
        !self.finished && self.depth < self.depth_max
    }

    /// A loop that has traced nothing yet.
    pub fn new(depth_max: u32) -> (r: BounceLoop)
        ensures
            r.wf(),
            r.depth == 0,
            r.depth_max == depth_max,
            !r.finished,
    {
        BounceLoop { depth: 0, depth_max, finished: false }
    }

    /// Whether the caller is to trace the next ray.
    pub fn wants_trace(&self) -> (r: bool)
        ensures
            r == self.due(),
    {
        !self.finished && self.depth < self.depth_max
    }

    /// Records the outcome of a trace step. Returns whether its colour is
    /// added to the pixel; afterwards the loop continues only if the point
    /// was lit, in which case the caller reflects the ray.
    pub fn record(&mut self, outcome: TraceOutcome) -> (accumulate: bool)
        requires
            old(self).wf(),
            old(self).due(),
        ensures
            final(self).wf(),
            accumulate == (outcome != TraceOutcome::Miss),
            final(self).depth == old(self).depth + 1,
            final(self).depth_max == old(self).depth_max,
            final(self).finished == (outcome != TraceOutcome::Lit),
    {
        self.depth = self.depth + 1;
        match outcome {
            TraceOutcome::Miss => {
                self.finished = true;
                false
            },
            TraceOutcome::Shadowed => {
                self.finished = true;
                true
            },
            TraceOutcome::Lit => {
                self.finished = false;
                true
            },
        }
    }
}

} // verus!

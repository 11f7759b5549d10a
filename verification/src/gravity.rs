//! The speed curve: how fast pieces fall at each level. The curve is data
//! that the caller supplies.
use vstd::prelude::*;

verus! {

/// A falling speed: every `frames` ticks the piece drops `rows` rows.
#[derive(Debug, PartialEq, Eq, Clone, Copy, Structural)]
pub struct Speed {
    /// Rows that the piece drops at once.
    pub rows: i32,
    /// Ticks that pass between two drops.
    pub frames: i32,
}

/// One step of a speed curve: from `level` on, pieces fall at `speed`.
#[derive(Debug, PartialEq, Eq, Clone, Copy, Structural)]
pub struct SpeedStep {
    pub level: i32,
    pub speed: Speed,
}

/// A speed curve: the speed below every step, and the steps.
#[derive(Debug)]
pub struct SpeedCurve {
    pub base: Speed,
    pub steps: Vec<SpeedStep>,
}

/// The speed at a level: that of the last listed step whose level is not
/// above it, and the base speed where there is no such step.
pub open spec fn speed_at(base: Speed, steps: Seq<SpeedStep>, level: int) -> Speed
    decreases steps.len(),
{
    if steps.len() == 0 {
        base
    } else if steps.last().level <= level {
        steps.last().speed
    } else {
        speed_at(base, steps.drop_last(), level)
    }
}

impl SpeedCurve {
    /// The speed that this curve gives for a level.
    pub open spec fn at(&self, level: int) -> Speed {
        speed_at(self.base, self.steps@, level)
    }

    /// Looks up the speed for a level.
    pub fn speed(&self, level: i32) -> (s: Speed)
        ensures
            s == self.at(level as int),
    {
        let mut i: usize = self.steps.len();
        assert(self.steps@.subrange(0, i as int) =~= self.steps@);
        while i > 0
            invariant
                i <= self.steps@.len(),
                self.at(level as int) == speed_at(
                    self.base,
                    self.steps@.subrange(0, i as int),
                    level as int,
                ),
            decreases i,
        {
            assert(self.steps@.subrange(0, i as int).drop_last() =~= self.steps@.subrange(
                0,
                i - 1,
            ));
            i -= 1;
            if self.steps[i].level <= level {
                return self.steps[i].speed;
            }
        }
        self.base
    }
}

} // verus!

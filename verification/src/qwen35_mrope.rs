//! Text rotary-position parameters: which axis drives each coordinate pair.

use crate::error::Error;
use vstd::prelude::*;

verus! {

/// Validated text rotary parameters; the base is kept as an `f32` bit pattern.
#[derive(Clone, Copy, Debug)]
pub struct TextMrope {
    pub rotary_width: usize,
    pub rope_base: u32,
    pub sections: [usize; 4],
}

/// One half-split rotary coordinate pair and the axis that drives it.
#[derive(Clone, Copy, Debug, PartialEq, Eq, Structural)]
pub struct RotaryPair {
    pub left: usize,
    pub right: usize,
    pub axis: usize,
}

impl TextMrope {
    /// The number of pairs after which the axes repeat.
    pub open spec fn period(self) -> int {
        self.sections@[0] + self.sections@[1] + self.sections@[2] + self.sections@[3]
    }

    /// The axis of a pair: the first three axes interleave, each until its
    /// section is used up; what is left belongs to the fourth axis.
    pub open spec fn axis_of(self, pair: int) -> int {
        let sector = pair % self.period();
        if sector % 3 == 1 && sector < 3 * self.sections@[1] {
            1
        } else if sector % 3 == 2 && sector < 3 * self.sections@[2] {
            2
        } else if sector % 3 == 0 && sector < 3 * self.sections@[0] {
            0
        } else {
            3
        }
    }

    /// Collect text rotary parameters.
    pub fn new(rotary_width: usize, rope_base: u32, sections: [usize; 4]) -> (mrope: TextMrope)
        ensures
            mrope.rotary_width == rotary_width,
            mrope.rope_base == rope_base,
            mrope.sections@ == sections@,
    {
        TextMrope { rotary_width, rope_base, sections }
    }

    /// Return the rotary width.
    pub fn rotary_width(self) -> (width: usize)
        ensures
            width == self.rotary_width,
    {
        self.rotary_width
    }

    /// Select the axis that drives a coordinate pair.
    pub fn axis(self, pair: usize) -> (axis: Result<usize, Error>)
        requires
            self.period() > 0,
        ensures
            match axis {
                Ok(axis) => axis == self.axis_of(pair as int) && axis <= 3,
                Err(error) => {
                    &&& self.period() > usize::MAX
                    &&& error == (Error::ArithmeticOverflow {
                        context: "text MRoPE section total",
                    })
                },
            },
    {
        let mut total: usize = 0;
        let mut i: usize = 0;
        while i < 4
            invariant
                0 <= i <= 4,
                i == 0 ==> total == 0,
                i == 1 ==> total == self.sections@[0],
                i == 2 ==> total == self.sections@[0] + self.sections@[1],
                i == 3 ==> total == self.sections@[0] + self.sections@[1] + self.sections@[2],
                i == 4 ==> total == self.period(),
            decreases 4 - i,
        {
            total =
            match total.checked_add(self.sections[i]) {
                Some(total) => total,
                None => {
                    return Err(Error::ArithmeticOverflow { context: "text MRoPE section total" });
                },
            };
            i = i + 1;
        }
        let sector: usize = pair % total;
        // A sector lies below three times a section exactly when its third does.
        let third: usize = sector / 3;
        if sector % 3 == 1 && third < self.sections[1] {
            return Ok(1);
        }
        if sector % 3 == 2 && third < self.sections[2] {
            return Ok(2);
        }
        if sector % 3 == 0 && third < self.sections[0] {
            return Ok(0);
        }
        Ok(3)
    }

    /// The pairs of one rotary row: coordinate `pair` rotates with the coordinate
    /// half a rotary width further on.
    pub open spec fn pair_of(self, pair: int) -> RotaryPair {
        RotaryPair {
            left: pair as usize,
            right: (pair + self.rotary_width as int / 2) as usize,
            axis: self.axis_of(pair) as usize,
        }
    }

    /// List the coordinate pairs of one rotary row.
    pub fn pairs(self) -> (pairs: Result<Vec<RotaryPair>, Error>)
        requires
            self.period() > 0,
        ensures
            match pairs {
                Ok(pairs) => {
                    &&& pairs@.len() == self.rotary_width as int / 2
                    &&& forall|i: int|
                        0 <= i < pairs@.len() ==> #[trigger] pairs@[i] == self.pair_of(i)
                },
                Err(error) => {
                    &&& self.period() > usize::MAX
                    &&& error == (Error::ArithmeticOverflow {
                        context: "text MRoPE section total",
                    })
                },
            },
    {
        let half: usize = self.rotary_width / 2;
        let mut pairs: Vec<RotaryPair> = Vec::new();
        let mut pair: usize = 0;
        while pair < half
            invariant
                self.period() > 0,
                half == self.rotary_width as int / 2,
                0 <= pair <= half,
                pairs@.len() == pair,
                forall|i: int| 0 <= i < pairs@.len() ==> #[trigger] pairs@[i] == self.pair_of(i),
            decreases half - pair,
        {
            let axis: usize = self.axis(pair)?;
            pairs.push(RotaryPair { left: pair, right: pair + half, axis });
            pair = pair + 1;
        }
        Ok(pairs)
    }
}

/// The pairs of an even rotary width rotate every coordinate below it exactly once.
pub proof fn lemma_pairs_partition(mrope: TextMrope, coordinate: int)
    requires
        mrope.rotary_width % 2 == 0,
        0 <= coordinate < mrope.rotary_width,
    ensures
        exists|i: int|
            #![trigger mrope.pair_of(i)]
            0 <= i < mrope.rotary_width as int / 2 && (mrope.pair_of(i).left == coordinate
                || mrope.pair_of(i).right == coordinate),
        forall|i: int, j: int|
            #![trigger mrope.pair_of(i), mrope.pair_of(j)]
            0 <= i < mrope.rotary_width as int / 2 && 0 <= j < mrope.rotary_width as int / 2 && (
            mrope.pair_of(i).left == coordinate || mrope.pair_of(i).right == coordinate) && (
            mrope.pair_of(j).left == coordinate || mrope.pair_of(j).right == coordinate) ==> i == j,
{
    let half = mrope.rotary_width as int / 2;
    let i = if coordinate < half {
        coordinate
    } else {
        coordinate - half
    };
    assert(mrope.pair_of(i).left == coordinate || mrope.pair_of(i).right == coordinate);
}

} // verus!

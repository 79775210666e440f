//! The display's scanline state: the current line index LY and the cycle
//! accumulator that carries it forward.  A full scanline lasts 456 cycles and
//! a frame wraps after line 153.

use vstd::prelude::*;

verus! {

use vstd::arithmetic::div_mod::lemma_add_mod_noop;
use vstd::arithmetic::div_mod::lemma_small_mod;
use vstd::arithmetic::div_mod::lemma_fundamental_div_mod_converse_div;
use vstd::arithmetic::div_mod::lemma_fundamental_div_mod_converse_mod;

/// Cycles per scanline.
pub open spec fn line_cycles() -> int {
    456
}

/// Number of scanlines in a frame.
pub open spec fn frame_lines() -> int {
    154
}

/// The scanline index after `cycles` more cycles reach a display whose line
/// counter is `ly` and whose accumulator holds `acc`.
pub open spec fn ly_after(ly: u8, acc: nat, cycles: nat) -> u8 {
    (((ly + (acc + cycles) / 456) % 154) as u8)
}

/// The accumulator after `cycles` more cycles.
pub open spec fn acc_after(acc: nat, cycles: nat) -> u64 {
    (((acc + cycles) % 456) as u64)
}

/// Scanline counter and sub-line cycle accumulator.
pub struct Display {
    pub ly_coord: u8,
    pub steps: u64,
}

impl Display {
    /// LY stays below the frame height and the accumulator below one line's
    /// worth of cycles.
    pub open spec fn wf(&self) -> bool {
        self.ly_coord < 154 && self.steps < 456
    }

    /// A display at the top of the frame.
    pub fn create() -> (r: Display)
        ensures
            r.wf(),
            r.ly_coord == 0,
            r.steps == 0,
    {
        Display { ly_coord: 0, steps: 0 }
    }

    /// Advance the display by `steps` cycles: every full 456 cycles moves LY
    /// down one line, wrapping from line 153 back to 0.
    pub fn update(&mut self, steps: u64)
        requires
            old(self).wf(),
            old(self).steps + steps <= u64::MAX,
        ensures
            final(self).wf(),
            final(self).ly_coord == ly_after(old(self).ly_coord, old(self).steps as nat, steps as nat),
            final(self).steps == acc_after(old(self).steps as nat, steps as nat),
    {
        let ghost total: int = old(self).steps + steps;
        let ghost start_ly: int = old(self).ly_coord as int;
        let ghost mut k: int = 0;
        self.steps = self.steps + steps;
        while self.steps >= 456
            invariant
                self.ly_coord < 154,
                0 <= k,
                self.steps + 456 * k == total,
                self.ly_coord == (start_ly + k) % 154,
                0 <= start_ly < 154,
            decreases self.steps,
        {
            self.steps = self.steps - 456;
            self.ly_coord = self.ly_coord + 1;
            proof {
                let x = start_ly + k;
                lemma_add_mod_noop(x, 1, 154);
                lemma_small_mod(1, 154);
                if self.ly_coord == 154 {
                    assert((x + 1) % 154 == 0) by {
                        assert((x % 154 + 1) % 154 == 0) by {
                            lemma_fundamental_div_mod_converse_mod(154, 154, 1, 0);
                        };
                    };
                } else {
                    lemma_small_mod(self.ly_coord as nat, 154);
                }
                k = k + 1;
            }
            if self.ly_coord == 154 {
                self.ly_coord = 0;
            }
        }
        proof {
            lemma_fundamental_div_mod_converse_div(total, 456, k, self.steps as int);
            lemma_fundamental_div_mod_converse_mod(total, 456, k, self.steps as int);
        }
    }

    /// Read a display register: 0xFF44 exposes LY, every other register in
    /// the display range reads as zero at this level.
    pub fn get_mem(&self, loc: u16) -> (r: u8)
        ensures
            r == (if loc == 0xFF44 {
                self.ly_coord
            } else {
                0
            }),
    {
        if loc == 0xFF44 {
            self.ly_coord
        } else {
            0
        }
    }

    /// Display register writes are accepted and dropped at this level.
    pub fn set_mem(&mut self, _loc: u16, _val: u8)
        ensures
            *final(self) == *old(self),
    {
    }
}

} // verus!

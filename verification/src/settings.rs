//! The rendering parameters that the user changes while the viewer runs: the
//! iteration cap, which follows the zoom, and the colour scale, which walks
//! round a fixed cycle.

use vstd::prelude::*;

verus! {

/// The iteration cap at startup.
pub const START_ITERATIONS: u32 = 255;

/// What one zoom step adds to the iteration cap, or takes from it.
pub const ITERATION_STEP: u32 = 5;

/// The number of colour scales in the cycle.
pub const COLOUR_COUNT: usize = 3;

/// The position in the cycle of the colour scale at startup.
pub const START_COLOUR_POSITION: usize = 2;

/// The colour scale at a position of the cycle: 65536, then 1, then 256.
pub open spec fn cycle_colour(position: int) -> u32 {
    if position == 0 {
        65536
    } else if position == 1 {
        1
    } else {
        256
    }
}

/// The iteration cap after one zoom step: five more when zooming in, five
/// fewer when zooming out, kept between zero and the largest `u32`.
pub open spec fn zoomed_iterations(max_iterations: u32, out: bool) -> u32 {
    if out {
        if max_iterations >= ITERATION_STEP {
            (max_iterations - ITERATION_STEP) as u32
        } else {
            0
        }
    } else {
        if max_iterations + ITERATION_STEP <= u32::MAX {
            (max_iterations + ITERATION_STEP) as u32
        } else {
            u32::MAX
        }
    }
}

/// The colour scale that follows the given one in the cycle: 1 follows 65536,
/// 256 follows 1, and 65536 follows 256.
pub open spec fn colour_after(colour: u32) -> u32 {
    if colour == 65536 {
        1
    } else if colour == 1 {
        256
    } else {
        65536
    }
}

/// The position in the cycle that follows the given one.
pub open spec fn next_position(position: usize) -> usize {
    ((position % COLOUR_COUNT + 1) % (COLOUR_COUNT as int)) as usize
}

/// The iteration cap and the place in the colour cycle.
#[derive(Clone, Copy, Debug)]
pub struct ApplicationSettings {
    /// The escape-time cutoff.
    pub max_iterations: u32,
    /// The place of the current colour scale in the cycle, read modulo the
    /// length of the cycle.
    pub colour_position: usize,
}

impl ApplicationSettings {
    /// The colour scale that pixels are multiplied by.
    pub open spec fn colour_spec(&self) -> u32 {
        cycle_colour((self.colour_position % COLOUR_COUNT) as int)
    }

    /// The settings at startup.
    pub open spec fn new_spec() -> ApplicationSettings {
        ApplicationSettings {
            max_iterations: START_ITERATIONS,
            colour_position: START_COLOUR_POSITION,
        }
    }

    /// The settings at startup: 255 iterations and the colour scale 256.
    pub fn new() -> (settings: ApplicationSettings)
        ensures
            settings == Self::new_spec(),
            settings.max_iterations == 255,
            settings.colour_spec() == 256,
    {
        ApplicationSettings {
            max_iterations: START_ITERATIONS,
            colour_position: START_COLOUR_POSITION,
        }
    }

    /// The colour scale that pixels are multiplied by.
    pub fn colour(&self) -> (colour: u32)
        ensures
            colour == self.colour_spec(),
    {
        let position: usize = self.colour_position % COLOUR_COUNT;
        if position == 0 {
            65536
        } else if position == 1 {
            1
        } else {
            256
        }
    }

    /// Moves to the next colour scale of the cycle, and from the last one
    /// back to the first. The iteration cap stays.
    pub fn toggle_colour(&mut self)
        ensures
            final(self).colour_position == next_position(old(self).colour_position),
            final(self).colour_position < COLOUR_COUNT,
            final(self).colour_spec() == colour_after(old(self).colour_spec()),
            final(self).max_iterations == old(self).max_iterations,
    {
        self.colour_position = (self.colour_position % COLOUR_COUNT + 1) % COLOUR_COUNT;
    }

    /// Follows one zoom step with the iteration cap: five more when zooming
    /// in, five fewer when zooming out, never below zero and never past the
    /// largest `u32`. The colour scale stays.
    pub fn adjust_iterations(&mut self, out: bool)
        ensures
            final(self).max_iterations == zoomed_iterations(old(self).max_iterations, out),
            final(self).colour_position == old(self).colour_position,
    {
        if out {
            self.max_iterations = self.max_iterations.saturating_sub(ITERATION_STEP);
        } else {
            self.max_iterations = self.max_iterations.saturating_add(ITERATION_STEP);
        }
    }
}

/// Three steps round the colour cycle lead back to the colour scale that
/// they started from.
pub proof fn lemma_three_toggles_restore_colour(settings: ApplicationSettings)
    ensures
        ({
            let once = next_position(settings.colour_position);
            let twice = next_position(once);
            let thrice = next_position(twice);
            &&& cycle_colour((thrice % COLOUR_COUNT) as int) == settings.colour_spec()
            &&& thrice == settings.colour_position % COLOUR_COUNT
        }),
{
}

/// A zoom step in followed by a zoom step out leaves the iteration cap as it
/// was, unless the step in ran into the largest `u32`.
pub proof fn lemma_zoom_in_then_out(max_iterations: u32)
    requires
        max_iterations + ITERATION_STEP <= u32::MAX,
    ensures
        zoomed_iterations(zoomed_iterations(max_iterations, false), true) == max_iterations,
{
}

/// A zoom step out followed by a zoom step in leaves the iteration cap as it
/// was, unless the step out ran into zero.
pub proof fn lemma_zoom_out_then_in(max_iterations: u32)
    requires
        max_iterations >= ITERATION_STEP,
    ensures
        zoomed_iterations(zoomed_iterations(max_iterations, true), false) == max_iterations,
{
}

} // verus!

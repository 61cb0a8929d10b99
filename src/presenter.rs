//! The animated indicator of a step in flight.
//!
//! A [`Spinner`] belongs to the background task that animates one row. Each
//! tick it yields the next frame's badge; once stopped it yields nothing, and
//! stopping it wipes the row, so no frame can outlive the stop.

use vstd::prelude::*;
use crate::canvas::{
    Badge, PaintOp, PaintView, badge_plan, clear_row_plan, ops_view, paint_badge, clear_row,
};

verus! {

/// Milliseconds between two frames.
pub const TICK_MILLIS: u64 = 400;

/// The animation state of one row.
#[derive(Clone, Copy, Debug, PartialEq, Eq, Structural)]
pub struct Spinner {
    pub row: u16,
    /// The frame that the next tick draws, in `0..4`.
    pub frame: u8,
    pub active: bool,
}

/// What a tick of `s` draws on a terminal `cols` columns wide.
pub open spec fn tick_plan(s: Spinner, cols: u16) -> Seq<PaintView> {
    if s.active {
        badge_plan(s.row, cols, Badge::Spinner(s.frame))
    } else {
        seq![]
    }
}

/// The state of `s` after one tick.
pub open spec fn after_tick(s: Spinner) -> Spinner {
    if s.active {
        Spinner { frame: ((s.frame + 1) % 4) as u8, ..s }
    } else {
        s
    }
}

/// What `n` consecutive ticks of `s` draw.
pub open spec fn ticks_plan(s: Spinner, cols: u16, n: nat) -> Seq<PaintView>
    decreases n,
{
    if n == 0 {
        seq![]
    } else {
        tick_plan(s, cols) + ticks_plan(after_tick(s), cols, (n - 1) as nat)
    }
}

impl Spinner {
    /// Starts animating `row` from the first frame.
    pub fn start(row: u16) -> (r: Spinner)
        ensures
            r == (Spinner { row, frame: 0, active: true }),
    {
        Spinner { row, frame: 0, active: true }
    }

    /// One tick: the current frame's badge on the row, then on to the next
    /// frame. A stopped spinner draws nothing.
    pub fn tick(&mut self, cols: u16) -> (r: Vec<PaintOp>)
        requires
            old(self).frame < 4,
        ensures
            ops_view(r@) == tick_plan(*old(self), cols),
            *final(self) == after_tick(*old(self)),
            final(self).frame < 4,
    {
        if self.active {
            let ops = paint_badge(self.row, cols, Badge::Spinner(self.frame));
            self.frame = (self.frame + 1) % 4;
            ops
        } else {
            let ops: Vec<PaintOp> = Vec::new();
            assert(ops_view(ops@) =~= seq![]);
            ops
        }
    }

    /// Stops the animation and wipes the row.
    pub fn stop(&mut self) -> (r: Vec<PaintOp>)
        ensures
            ops_view(r@) == clear_row_plan(old(self).row),
            *final(self) == (Spinner { active: false, ..*old(self) }),
    {
        self.active = false;
        clear_row(self.row)
    }
}

/// Once a spinner is stopped, no number of further ticks draws anything on
/// any terminal width, and its stop has left the row wiped: the row shows no
/// frame until something else is painted on it.
pub proof fn lemma_no_frame_after_stop(s: Spinner, cols: u16, n: nat)
    requires
        !s.active,
    ensures
        ticks_plan(s, cols, n) == Seq::<PaintView>::empty(),
        clear_row_plan(s.row).last() == PaintView::ClearLine,
        clear_row_plan(s.row)[0] == PaintView::MoveTo(0, s.row),
    decreases n,
{
    if n > 0 {
        lemma_no_frame_after_stop(after_tick(s), cols, (n - 1) as nat);
        assert(ticks_plan(s, cols, n) =~= Seq::<PaintView>::empty());
    }
}

} // verus!

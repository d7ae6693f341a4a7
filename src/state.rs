//! The whole state of the reminder: the cycle, its overlays, the window drag
//! and whether the control window is shown.
use vstd::prelude::*;
use crate::cycle::{BreakCycle, Mode, TickOutcome, initial_cycle, skip_step, tick_outcome, tick_step};
use crate::drag::DragController;
use crate::overlay::{OverlayInstance, OverlayManager};

verus! {

/// Everything the reminder keeps between events, owned in one place. `H` is
/// the presenter's overlay surface.
pub struct AppState<H> {
    pub cycle: BreakCycle,
    pub overlays: OverlayManager<H>,
    pub drag: DragController,
    pub main_window_visible: bool,
}

impl<H> AppState<H> {
    /// The state at startup, working from the instant `now`, with the
    /// control window shown.
    pub fn new(now: u64) -> (r: AppState<H>)
        ensures
            r.cycle@ == initial_cycle(now as int),
            r.cycle@.wf(),
            r.overlays@.len() == 0,
            r.drag@ is None,
            r.main_window_visible,
    {
        AppState {
            cycle: BreakCycle::new(now),
            overlays: OverlayManager::new(),
            drag: DragController::new(),
            main_window_visible: true,
        }
    }

    /// Advances the cycle to `now`. When a rest ends, every overlay is
    /// discarded and handed back to be hidden, and the control window is
    /// shown again; otherwise the overlays stay as they are.
    pub fn tick(&mut self, now: u64) -> (r: (TickOutcome, Vec<OverlayInstance<H>>))
        requires
            old(self).cycle@.wf(),
            old(self).cycle@.last_tick <= now,
            old(self).cycle@.eye_rest_count < u32::MAX,
        ensures
            final(self).cycle@ == tick_step(old(self).cycle@, now as int),
            final(self).cycle@.wf(),
            r.0 == tick_outcome(old(self).cycle@, now as int),
            final(self).drag@ == old(self).drag@,
            r.0 is WorkBegins ==> {
                &&& final(self).overlays@.len() == 0
                &&& r.1@ == old(self).overlays@
                &&& final(self).main_window_visible
            },
            !(r.0 is WorkBegins) ==> {
                &&& final(self).overlays@ == old(self).overlays@
                &&& r.1@.len() == 0
                &&& final(self).main_window_visible == old(self).main_window_visible
            },
    {
        let outcome = self.cycle.tick(now);
        match outcome {
            TickOutcome::WorkBegins { .. } => {
                let released = self.overlays.hide_rest_overlay();
                self.main_window_visible = true;
                (outcome, released)
            },
            _ => (outcome, Vec::new()),
        }
    }

    /// The secondary (skip/reset) action at `now`. During work the
    /// countdown restarts. During a rest the rest ends at once, whatever
    /// time is left: the cycle is at work, every overlay is discarded and
    /// handed back to be hidden, and the control window is shown again. The
    /// rest counter is left as it is.
    pub fn secondary_action(&mut self, now: u64) -> (released: Vec<OverlayInstance<H>>)
        requires
            old(self).cycle@.wf(),
            old(self).cycle@.last_tick <= now,
        ensures
            final(self).cycle@ == skip_step(old(self).cycle@, now as int),
            final(self).cycle@.wf(),
            final(self).cycle@.mode == Mode::Work,
            final(self).cycle@.eye_rest_count == old(self).cycle@.eye_rest_count,
            final(self).drag@ == old(self).drag@,
            old(self).cycle@.mode == Mode::Rest ==> {
                &&& final(self).overlays@.len() == 0
                &&& released@ == old(self).overlays@
                &&& final(self).main_window_visible
            },
            old(self).cycle@.mode == Mode::Work ==> {
                &&& final(self).overlays@ == old(self).overlays@
                &&& released@.len() == 0
                &&& final(self).main_window_visible == old(self).main_window_visible
            },
    {
        let ended_rest = self.cycle.secondary_action(now);
        if ended_rest {
            let released = self.overlays.hide_rest_overlay();
            self.main_window_visible = true;
            released
        } else {
            Vec::new()
        }
    }

    /// The control window goes to the tray.
    pub fn minimize_to_tray(&mut self)
        ensures
            !final(self).main_window_visible,
            final(self).cycle@ == old(self).cycle@,
            final(self).overlays@ == old(self).overlays@,
            final(self).drag@ == old(self).drag@,
    {
        self.main_window_visible = false;
    }

    /// The control window is brought back from the tray.
    pub fn show_main_window(&mut self)
        ensures
            final(self).main_window_visible,
            final(self).cycle@ == old(self).cycle@,
            final(self).overlays@ == old(self).overlays@,
            final(self).drag@ == old(self).drag@,
    {
        self.main_window_visible = true;
    }
}

} // verus!

//! The overlay lifecycle: one full-screen overlay per display during a rest,
//! rebuilt from scratch on each rest and torn down when work resumes.
use vstd::prelude::*;
use crate::text::{format_duration_mm_ss, mm_ss};

verus! {

/// The scale at which device and logical pixels coincide, in thousandths.
pub const UNIT_SCALE_PERMILLE: u64 = 1000;

/// Dots per inch of a display at unit scale.
pub const BASE_DPI: u64 = 96;

/// Geometry of one display: origin and size in device pixels, and the scale
/// factor (device pixels per logical pixel) in thousandths.
#[derive(Clone, Copy, Debug, PartialEq, Eq, Structural)]
pub struct MonitorDescriptor {
    pub x: i32,
    pub y: i32,
    pub width: u32,
    pub height: u32,
    pub scale_permille: u64,
}

/// Where an overlay goes: its position in device pixels and its size in
/// logical pixels.
#[derive(Clone, Copy, Debug, PartialEq, Eq, Structural)]
pub struct OverlayPlacement {
    pub x: i32,
    pub y: i32,
    pub logical_width: u64,
    pub logical_height: u64,
}

impl MonitorDescriptor {
    /// A display's scale factor is positive.
    pub open spec fn wf(self) -> bool {
        self.scale_permille > 0
    }
}

/// A device length in logical pixels, with one pixel of padding so that no
/// sub-pixel gap is left at the display's edge.
pub open spec fn padded_logical(device: int, scale_permille: int) -> int {
    device * UNIT_SCALE_PERMILLE / scale_permille + 1
}

/// The placement that covers display `m`: at its origin, sized to its area
/// in logical pixels.
pub open spec fn placement_for(m: MonitorDescriptor) -> OverlayPlacement {
    OverlayPlacement {
        x: m.x,
        y: m.y,
        logical_width: padded_logical(m.width as int, m.scale_permille as int) as u64,
        logical_height: padded_logical(m.height as int, m.scale_permille as int) as u64,
    }
}

/// Computes the placement that covers display `m`.
pub fn fit_overlay_to_monitor(m: &MonitorDescriptor) -> (r: OverlayPlacement)
    requires
        m.wf(),
    ensures
        r == placement_for(*m),
        m.width * UNIT_SCALE_PERMILLE < r.logical_width * m.scale_permille <= m.width
            * UNIT_SCALE_PERMILLE + m.scale_permille,
        m.height * UNIT_SCALE_PERMILLE < r.logical_height * m.scale_permille <= m.height
            * UNIT_SCALE_PERMILLE + m.scale_permille,
{
    let scale = m.scale_permille;
    let w = m.width as u64 * UNIT_SCALE_PERMILLE;
    let h = m.height as u64 * UNIT_SCALE_PERMILLE;
    let lw = w / scale + 1;
    let lh = h / scale + 1;
    proof {
        lemma_padded_bounds(w as int, scale as int);
        lemma_padded_bounds(h as int, scale as int);
    }
    OverlayPlacement { x: m.x, y: m.y, logical_width: lw, logical_height: lh }
}

/// The padded quotient lies just above the exact one, by at most one.
proof fn lemma_padded_bounds(n: int, d: int)
    requires
        n >= 0,
        d > 0,
    ensures
        (n / d + 1) * d <= n + d,
        n < (n / d + 1) * d,
{
    assert(n == d * (n / d) + n % d) by (nonlinear_arith)
        requires
            d > 0,
    ;
    assert((n / d + 1) * d == d * (n / d) + d) by (nonlinear_arith);
}

/// A display's bounds as the operating system reports them, in device
/// pixels: left and top edges inclusive, right and bottom exclusive.
#[derive(Clone, Copy, Debug, PartialEq, Eq, Structural)]
pub struct MonitorBounds {
    pub left: i32,
    pub top: i32,
    pub right: i32,
    pub bottom: i32,
}

/// A display's current mode as the operating system reports it: position
/// and size in device pixels.
#[derive(Clone, Copy, Debug, PartialEq, Eq, Structural)]
pub struct DisplayMode {
    pub x: i32,
    pub y: i32,
    pub width: u32,
    pub height: u32,
}

/// The scale of a display of `dpi` dots per inch, in thousandths; unit
/// scale when the density is unknown (zero).
pub open spec fn scale_for_dpi(dpi: int) -> int {
    if dpi > 0 {
        dpi * UNIT_SCALE_PERMILLE / (BASE_DPI as int)
    } else {
        UNIT_SCALE_PERMILLE as int
    }
}

/// The length from `lo` to `hi`, or zero when `hi` is not beyond `lo`.
pub open spec fn extent(lo: int, hi: int) -> int {
    if hi > lo {
        hi - lo
    } else {
        0
    }
}

/// The descriptor of a display: its current mode when known, else its
/// bounds; none when the result has no area.
pub open spec fn monitor_for(bounds: MonitorBounds, mode: Option<DisplayMode>, dpi: int) -> Option<
    MonitorDescriptor,
> {
    let m = match mode {
        Some(d) => MonitorDescriptor {
            x: d.x,
            y: d.y,
            width: d.width,
            height: d.height,
            scale_permille: scale_for_dpi(dpi) as u64,
        },
        None => MonitorDescriptor {
            x: bounds.left,
            y: bounds.top,
            width: extent(bounds.left as int, bounds.right as int) as u32,
            height: extent(bounds.top as int, bounds.bottom as int) as u32,
            scale_permille: scale_for_dpi(dpi) as u64,
        },
    };
    if m.width > 0 && m.height > 0 {
        Some(m)
    } else {
        None
    }
}

/// Builds the descriptor of one display from what the operating system
/// reports of it: its bounds, its current mode if that could be read, and
/// its density in dots per inch (zero when unknown). A display without area
/// is left out.
pub fn monitor_from_raw(bounds: MonitorBounds, mode: Option<DisplayMode>, dpi: u32) -> (r: Option<
    MonitorDescriptor,
>)
    ensures
        r == monitor_for(bounds, mode, dpi as int),
        r matches Some(m) ==> m.wf(),
{
    let scale_permille: u64 = if dpi > 0 {
        dpi as u64 * UNIT_SCALE_PERMILLE / BASE_DPI
    } else {
        UNIT_SCALE_PERMILLE
    };
    let m = match mode {
        Some(d) => MonitorDescriptor { x: d.x, y: d.y, width: d.width, height: d.height, scale_permille },
        None => {
            let width: i64 = bounds.right as i64 - bounds.left as i64;
            let height: i64 = bounds.bottom as i64 - bounds.top as i64;
            MonitorDescriptor {
                x: bounds.left,
                y: bounds.top,
                width: if width > 0 { width as u32 } else { 0 },
                height: if height > 0 { height as u32 } else { 0 },
                scale_permille,
            }
        },
    };
    if m.width > 0 && m.height > 0 {
        Some(m)
    } else {
        None
    }
}

/// The descriptor of the whole virtual desktop, at unit scale, from its
/// origin and size; a size below one pixel counts as one.
pub fn virtual_screen_monitor(x: i32, y: i32, width: i32, height: i32) -> (r: MonitorDescriptor)
    ensures
        r == (MonitorDescriptor {
            x,
            y,
            width: if width < 1 { 1 } else { width as u32 },
            height: if height < 1 { 1 } else { height as u32 },
            scale_permille: UNIT_SCALE_PERMILLE,
        }),
{
    MonitorDescriptor {
        x,
        y,
        width: if width < 1 { 1 } else { width as u32 },
        height: if height < 1 { 1 } else { height as u32 },
        scale_permille: UNIT_SCALE_PERMILLE,
    }
}

/// One live overlay: the presenter's surface and the display it covers.
pub struct OverlayInstance<H> {
    pub surface: H,
    pub monitor: MonitorDescriptor,
}

/// The overlays built from one attempt per display, in order: a display
/// whose surface could not be created is skipped.
pub open spec fn built_overlays<H>(attempts: Seq<(MonitorDescriptor, Option<H>)>) -> Seq<
    OverlayInstance<H>,
>
    decreases attempts.len(),
{
    if attempts.len() == 0 {
        Seq::empty()
    } else {
        let rest = built_overlays(attempts.drop_first());
        match attempts[0].1 {
            Some(surface) => seq![OverlayInstance { surface, monitor: attempts[0].0 }] + rest,
            None => rest,
        }
    }
}

/// The display the fallback overlay covers: the first one listed, or the
/// whole virtual desktop when none is.
pub open spec fn fallback_monitor_for(
    monitors: Seq<MonitorDescriptor>,
    virtual_screen: MonitorDescriptor,
) -> MonitorDescriptor {
    if monitors.len() > 0 {
        monitors[0]
    } else {
        virtual_screen
    }
}

/// Picks the display that the fallback overlay covers.
pub fn fallback_monitor(monitors: &Vec<MonitorDescriptor>, virtual_screen: MonitorDescriptor) -> (r:
    MonitorDescriptor)
    ensures
        r == fallback_monitor_for(monitors@, virtual_screen),
{
    if monitors.len() > 0 {
        monitors[0]
    } else {
        virtual_screen
    }
}

/// A hide: no overlay stays live (first), and every live one is handed
/// back to be hidden (second).
pub open spec fn hide_step<H>(live: Seq<OverlayInstance<H>>) -> (Seq<OverlayInstance<H>>, Seq<
    OverlayInstance<H>,
>) {
    (Seq::empty(), live)
}

/// The exclusive owner of the live overlays.
pub struct OverlayManager<H> {
    overlays: Vec<OverlayInstance<H>>,
}

impl<H> View for OverlayManager<H> {
    type V = Seq<OverlayInstance<H>>;

    closed spec fn view(&self) -> Seq<OverlayInstance<H>> {
        self.overlays@
    }
}

impl<H> OverlayManager<H> {
    /// A manager with no live overlay.
    pub fn new() -> (r: OverlayManager<H>)
        ensures
            r@.len() == 0,
    {
        OverlayManager { overlays: Vec::new() }
    }

    /// The number of live overlays.
    pub fn len(&self) -> (r: usize)
        ensures
            r == self@.len(),
    {
        self.overlays.len()
    }

    /// Whether no overlay is live.
    pub fn is_empty(&self) -> (r: bool)
        ensures
            r == (self@.len() == 0),
    {
        self.overlays.len() == 0
    }

    /// Discards every live overlay and hands them back to be hidden. Safe
    /// to call when none is live.
    pub fn hide_rest_overlay(&mut self) -> (released: Vec<OverlayInstance<H>>)
        ensures
            (final(self)@, released@) == hide_step(old(self)@),
    {
        let mut released = Vec::new();
        std::mem::swap(&mut released, &mut self.overlays);
        released
    }

    /// Rebuilds the overlay set from one attempt per display, as the
    /// monitor source listed them: each display whose surface was created
    /// gets one overlay, the others are skipped. The previous overlays are
    /// discarded whole and handed back to be hidden.
    pub fn show_rest_overlay(&mut self, attempts: Vec<(MonitorDescriptor, Option<H>)>) -> (released:
        Vec<OverlayInstance<H>>)
        ensures
            final(self)@ == built_overlays(attempts@),
            released@ == old(self)@,
    {
        let released = self.hide_rest_overlay();
        assert(self.overlays@ =~= Seq::empty());
        let ghost all = attempts@;
        let mut pending = attempts;
        while pending.len() > 0
            invariant
                self.overlays@ + built_overlays(pending@) == built_overlays(all),
            decreases pending.len(),
        {
            let ghost before = pending@;
            let (monitor, attempt) = pending.remove(0);
            assert(pending@ =~= before.drop_first());
            match attempt {
                Some(surface) => {
                    self.overlays.push(OverlayInstance { surface, monitor });
                    assert(self.overlays@ + built_overlays(pending@) =~= built_overlays(all));
                },
                None => {},
            }
        }
        assert(self.overlays@ =~= built_overlays(all));
        released
    }

    /// When every attempt of a rebuild failed, places the single fallback
    /// overlay `surface` on the first display of a fresh listing, or on the
    /// whole virtual desktop. Otherwise the surface is not needed and is
    /// handed back.
    pub fn show_fallback_overlay(
        &mut self,
        surface: H,
        monitors: &Vec<MonitorDescriptor>,
        virtual_screen: MonitorDescriptor,
    ) -> (unused: Option<H>)
        ensures
            old(self)@.len() == 0 ==> final(self)@ == seq![
                OverlayInstance { surface, monitor: fallback_monitor_for(monitors@, virtual_screen) },
            ] && unused is None,
            old(self)@.len() > 0 ==> final(self)@ == old(self)@ && unused == Some(surface),
    {
        if self.overlays.len() == 0 {
            let monitor = fallback_monitor(monitors, virtual_screen);
            self.overlays.push(OverlayInstance { surface, monitor });
            assert(self.overlays@ =~= seq![OverlayInstance { surface, monitor }]);
            None
        } else {
            Some(surface)
        }
    }

    /// The countdown to push to the live overlays, `remaining_ms` as
    /// `MM:SS`; none when no overlay is live.
    pub fn update_rest_overlay(&self, remaining_ms: u64) -> (r: Option<String>)
        ensures
            self@.len() == 0 ==> r is None,
            self@.len() > 0 ==> (r matches Some(text) && text@ == mm_ss((remaining_ms / 1000) as nat)),
    {
        if self.overlays.len() == 0 {
            None
        } else {
            Some(format_duration_mm_ss(remaining_ms))
        }
    }

    /// The surface of the overlay at `index`.
    pub fn surface(&self, index: usize) -> (r: &H)
        requires
            index < self@.len(),
        ensures
            *r == self@[index as int].surface,
    {
        &self.overlays[index].surface
    }

    /// The display the overlay at `index` covers.
    pub fn monitor(&self, index: usize) -> (r: MonitorDescriptor)
        requires
            index < self@.len(),
        ensures
            r == self@[index as int].monitor,
    {
        self.overlays[index].monitor
    }

    /// The placement of the overlay at `index`, re-fitted to its display.
    pub fn placement(&self, index: usize) -> (r: OverlayPlacement)
        requires
            index < self@.len(),
            self@[index as int].monitor.wf(),
        ensures
            r == placement_for(self@[index as int].monitor),
    {
        fit_overlay_to_monitor(&self.overlays[index].monitor)
    }
}

/// When every display's surface was created, a rebuild yields exactly one
/// overlay per display, in the listed order, each placed on its display.
pub proof fn lemma_one_overlay_per_display<H>(attempts: Seq<(MonitorDescriptor, Option<H>)>)
    requires
        forall|i: int| 0 <= i < attempts.len() ==> (#[trigger] attempts[i]).1 is Some,
    ensures
        built_overlays(attempts).len() == attempts.len(),
        forall|i: int|
            0 <= i < attempts.len() ==> (#[trigger] built_overlays(attempts)[i]).monitor
                == attempts[i].0 && Some(built_overlays(attempts)[i].surface) == attempts[i].1,
    decreases attempts.len(),
{
    if attempts.len() > 0 {
        let rest = attempts.drop_first();
        assert forall|i: int| 0 <= i < rest.len() implies (#[trigger] rest[i]).1 is Some by {
            assert(rest[i] == attempts[i + 1]);
        }
        lemma_one_overlay_per_display(rest);
        assert forall|i: int| 0 <= i < attempts.len() implies (#[trigger] built_overlays(
            attempts,
        )[i]).monitor == attempts[i].0 && Some(built_overlays(attempts)[i].surface)
            == attempts[i].1 by {
            if i > 0 {
                assert(attempts[i] == rest[i - 1]);
            }
        }
    }
}

/// Hiding the overlays twice in a row is harmless: the second hide finds
/// none live, hands none back, and leaves none live, as the first does.
pub proof fn lemma_hide_idempotent<H>(live: Seq<OverlayInstance<H>>)
    ensures
        hide_step(live).0.len() == 0,
        hide_step(hide_step(live).0).0.len() == 0,
        hide_step(hide_step(live).0).1.len() == 0,
{
}

} // verus!

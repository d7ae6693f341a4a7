//! Moving a window by pointer drag, from an anchor captured when the drag
//! starts.
use vstd::prelude::*;

verus! {

/// A point in logical pixels, as the toolkit reports it.
#[derive(Clone, Copy, Debug, PartialEq, Eq, Structural)]
pub struct Point {
    pub x: i32,
    pub y: i32,
}

/// A point in logical pixels on the whole screen, where sums of window
/// positions and pointer offsets land.
#[derive(Clone, Copy, Debug, PartialEq, Eq, Structural)]
pub struct ScreenPoint {
    pub x: i64,
    pub y: i64,
}

/// The pointer's position on the screen: the window's position plus the
/// pointer's offset inside the window.
pub open spec fn pointer_on_screen(window: Point, local: Point) -> ScreenPoint {
    ScreenPoint { x: (window.x + local.x) as i64, y: (window.y + local.y) as i64 }
}

/// What a drag holds from its start: the window's position and the
/// pointer's position on the screen, always together.
#[derive(Clone, Copy, Debug, PartialEq, Eq, Structural)]
pub struct DragAnchor {
    pub window: Point,
    pub pointer: ScreenPoint,
}

/// Where the window goes when the pointer, at offset `local` in the window
/// now at `window`, has moved from the anchor's pointer position: the
/// anchor's window position moved by the same amount.
pub open spec fn dragged_position(anchor: DragAnchor, window: Point, local: Point) -> ScreenPoint {
    ScreenPoint {
        x: (anchor.window.x + (pointer_on_screen(window, local).x - anchor.pointer.x)) as i64,
        y: (anchor.window.y + (pointer_on_screen(window, local).y - anchor.pointer.y)) as i64,
    }
}

/// Tracks one drag at a time.
pub struct DragController {
    anchor: Option<DragAnchor>,
}

impl View for DragController {
    type V = Option<DragAnchor>;

    closed spec fn view(&self) -> Option<DragAnchor> {
        self.anchor
    }
}

impl DragController {
    /// A drag's pointer position is a window position plus an offset
    /// inside the window, so each coordinate lies within twice the range of
    /// a logical coordinate.
    #[verifier::type_invariant]
    spec fn inv(self) -> bool {
        self.anchor matches Some(a) ==> {
            &&& 2 * i32::MIN <= a.pointer.x <= 2 * i32::MAX
            &&& 2 * i32::MIN <= a.pointer.y <= 2 * i32::MAX
        }
    }

    /// A controller with no drag in progress.
    pub fn new() -> (r: DragController)
        ensures
            r@ is None,
    {
        DragController { anchor: None }
    }

    /// Whether a drag is in progress.
    pub fn is_dragging(&self) -> (r: bool)
        ensures
            r == self@ is Some,
    {
        self.anchor.is_some()
    }

    /// Starts a drag of the window at `window`, with the pointer at offset
    /// `local` inside it.
    pub fn start_window_drag(&mut self, window: Point, local: Point)
        ensures
            final(self)@ == Some(DragAnchor { window, pointer: pointer_on_screen(window, local) }),
    {
        let pointer = ScreenPoint {
            x: window.x as i64 + local.x as i64,
            y: window.y as i64 + local.y as i64,
        };
        self.anchor = Some(DragAnchor { window, pointer });
    }

    /// The position the window moves to now that it is at `window` with the
    /// pointer at offset `local` inside it; none when no drag is in
    /// progress.
    pub fn update_window_drag(&self, window: Point, local: Point) -> (r: Option<ScreenPoint>)
        ensures
            match self@ {
                Some(anchor) => r == Some(dragged_position(anchor, window, local)),
                None => r is None,
            },
    {
        proof {
            use_type_invariant(self);
        }
        match self.anchor {
            Some(anchor) => {
                let px = window.x as i64 + local.x as i64;
                let py = window.y as i64 + local.y as i64;
                Some(
                    ScreenPoint {
                        x: anchor.window.x as i64 + (px - anchor.pointer.x),
                        y: anchor.window.y as i64 + (py - anchor.pointer.y),
                    },
                )
            },
            None => None,
        }
    }

    /// Ends the drag in progress, if any.
    pub fn end_window_drag(&mut self)
        ensures
            final(self)@ is None,
    {
        self.anchor = None;
    }
}

} // verus!

//! Drag tracking of the orbit camera: which cursor moves turn into a
//! rotation delta. The camera's angles themselves are floating point and
//! are updated by the caller from the pairs handed out here.
use vstd::prelude::*;

verus! {

/// Button and cursor state of a drag. `P` is the cursor position type; it
/// is only stored and handed back, never inspected.
pub struct DragTracker<P> {
    pressed: bool,
    last: Option<P>,
}

impl<P: Copy> DragTracker<P> {
    pub closed spec fn is_pressed(&self) -> bool {
        self.pressed
    }

    /// The baseline of the next delta, if one was recorded in this drag.
    pub closed spec fn baseline(&self) -> Option<P> {
        self.last
    }

    /// State after a button event.
    pub closed spec fn on_button(self, primary: bool, pressed: bool) -> Self {
        if !primary {
            self
        } else if pressed {
            DragTracker { pressed: true, last: self.last }
        } else {
            DragTracker { pressed: false, last: None }
        }
    }

    /// State after the cursor moved to `position`.
    pub closed spec fn on_move(self, position: P) -> Self {
        if self.pressed {
            DragTracker { pressed: true, last: Some(position) }
        } else {
            self
        }
    }

    /// The `(from, to)` pair that a move to `position` hands out.
    pub closed spec fn move_delta(self, position: P) -> Option<(P, P)> {
        if self.pressed {
            match self.last {
                Some(b) => Some((b, position)),
                None => None,
            }
        } else {
            None
        }
    }

    /// A tracker with the button up and no baseline.
    pub fn new() -> (r: Self)
        ensures
            !r.is_pressed(),
            r.baseline() is None,
    {
        DragTracker { pressed: false, last: None }
    }

    /// Whether the primary button is held.
    pub fn dragging(&self) -> (r: bool)
        ensures
            r == self.is_pressed(),
    {
        self.pressed
    }

    /// A button changed state. Only the primary button counts: pressing it
    /// starts a drag; releasing it ends the drag and forgets the baseline,
    /// so that the next drag does not jump from where this one ended.
    pub fn process_button(&mut self, primary: bool, pressed: bool)
        ensures
            *final(self) == old(self).on_button(primary, pressed),
            primary ==> final(self).is_pressed() == pressed,
            primary && !pressed ==> final(self).baseline() is None,
            primary && pressed ==> final(self).baseline() == old(self).baseline(),
            !primary ==> *final(self) == *old(self),
    {
        if primary {
            self.pressed = pressed;
            if !pressed {
                self.last = None;
            }
        }
    }

    /// The cursor moved to `position`. While the button is held this
    /// records `position` as the new baseline and, when a baseline already
    /// existed, returns `(baseline, position)`: the caller rotates by their
    /// difference. The first move of a drag only sets the baseline. With the
    /// button up nothing changes.
    pub fn process_move(&mut self, position: P) -> (r: Option<(P, P)>)
        ensures
            *final(self) == old(self).on_move(position),
            r == old(self).move_delta(position),
            old(self).is_pressed() ==> final(self).baseline() == Some(position),
            !old(self).is_pressed() ==> *final(self) == *old(self),
            final(self).is_pressed() == old(self).is_pressed(),
    {
        if self.pressed {
            let r = match self.last {
                Some(b) => Some((b, position)),
                None => None,
            };
            self.last = Some(position);
            r
        } else {
            None
        }
    }
}

/// Releasing and pressing the primary button again never carries a
/// baseline over: whatever the state before, the first move of the new drag
/// hands out nothing, and the second hands out exactly the step from the
/// first position to the second.
pub proof fn lemma_new_drag_starts_without_jump<P: Copy>(t: DragTracker<P>, p1: P, p2: P)
    ensures
        ({
            let t1 = t.on_button(true, false).on_button(true, true);
            &&& t1.move_delta(p1) is None
            &&& t1.on_move(p1).move_delta(p2) == Some((p1, p2))
        }),
{
}

} // verus!

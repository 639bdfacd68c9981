//! Per-pointer-button drag tracking.
//!
//! A drag is activated with a button (and possibly a starting position),
//! fed pointer positions while it lasts, and deactivated when the button
//! is released. The first position fed after an activation without a
//! starting position records itself and reports a zero delta, so a drag
//! never opens with a spurious jump.

use vstd::prelude::*;
use crate::geom::Vec2;
use crate::coord::COORD_LIMIT;

verus! {

/// Tracks one continuous pointer-button-held interaction.
#[derive(Clone, Debug)]
pub struct DragState<T> {
    pub state: Option<T>,
    pub prev_pos: Option<Vec2>,
}

impl<T> DragState<T> {
    /// Positions this tracker remembers stay inside the coordinate
    /// domain, so position differences never overflow.
    pub open spec fn wf(self) -> bool {
        self.prev_pos matches Some(p) ==> p.within_spec(COORD_LIMIT as int)
    }

    /// The button bound while the drag is active.
    pub open spec fn state_spec(self) -> Option<T> {
        self.state
    }

    /// The last pointer position fed while the drag has been active.
    pub open spec fn prev_pos_spec(self) -> Option<Vec2> {
        self.prev_pos
    }

    /// The tracker after an activation.
    pub open spec fn activate_next(self, new_state: T, starting_pos: Option<Vec2>) -> DragState<
        T,
    > {
        DragState { state: Some(new_state), prev_pos: starting_pos }
    }

    /// The tracker after a position update: an active drag remembers the
    /// new position, an inactive one is untouched.
    pub open spec fn update_next(self, new_pos: Vec2) -> DragState<T> {
        if self.state is Some {
            DragState { state: self.state, prev_pos: Some(new_pos) }
        } else {
            self
        }
    }

    /// The horizontal delta an active update reports: zero on the first
    /// sample, else the distance from the remembered position.
    pub open spec fn update_delta_x(self, new_pos: Vec2) -> int {
        match self.prev_pos {
            Some(prev) => new_pos.x - prev.x,
            None => 0,
        }
    }

    /// The vertical delta an active update reports.
    pub open spec fn update_delta_y(self, new_pos: Vec2) -> int {
        match self.prev_pos {
            Some(prev) => new_pos.y - prev.y,
            None => 0,
        }
    }

    /// A fresh, inactive tracker.
    pub fn new() -> (r: DragState<T>)
        ensures
            r.state_spec() is None,
            r.prev_pos_spec() is None,
            r.wf(),
    {
        DragState { state: None, prev_pos: None }
    }

    /// Whether a drag is in progress.
    pub fn active(&self) -> (r: bool)
        ensures
            r == (self.state_spec() is Some),
    {
        self.state.is_some()
    }

    /// The bound button, if any.
    pub fn state(&self) -> (r: &Option<T>)
        ensures
            *r == self.state_spec(),
    {
        &self.state
    }

    /// Begins a drag, overwriting any binding already present; the
    /// previous binding comes back so the caller can clean it up.
    pub fn activate(&mut self, new_state: T, starting_pos: Option<Vec2>) -> (prev: Option<T>)
        requires
            starting_pos matches Some(p) ==> p.within_spec(COORD_LIMIT as int),
        ensures
            *final(self) == old(self).activate_next(new_state, starting_pos),
            prev == old(self).state_spec(),
            final(self).wf(),
    {
        self.prev_pos = starting_pos;
        let prev = self.state.take();
        self.state = Some(new_state);
        prev
    }

    /// Ends any drag, clearing both fields; the previous binding comes
    /// back, or nothing if the drag was already inactive.
    pub fn deactivate(&mut self) -> (prev: Option<T>)
        ensures
            final(self).state_spec() is None,
            final(self).prev_pos_spec() is None,
            prev == old(self).state_spec(),
            final(self).wf(),
    {
        self.prev_pos = None;
        self.state.take()
    }

    /// Feeds a pointer position to an active drag and reports the delta
    /// since the last one; on an inactive drag nothing changes and the
    /// update is refused.
    pub fn update(&mut self, new_pos: Vec2) -> (r: Result<Vec2, ()>)
        requires
            old(self).wf(),
            new_pos.within_spec(COORD_LIMIT as int),
        ensures
            *final(self) == old(self).update_next(new_pos),
            final(self).wf(),
            r is Ok <==> old(self).state_spec() is Some,
            r matches Ok(d) ==> d.x == old(self).update_delta_x(new_pos) && d.y == old(
                self,
            ).update_delta_y(new_pos),
    {
        if self.state.is_some() {
            match self.prev_pos {
                Some(prev) => {
                    let delta = Vec2 { x: new_pos.x - prev.x, y: new_pos.y - prev.y };
                    self.prev_pos = Some(new_pos);
                    Ok(delta)
                },
                None => {
                    self.prev_pos = Some(new_pos);
                    Ok(Vec2 { x: 0, y: 0 })
                },
            }
        } else {
            Err(())
        }
    }
}

impl<T> Default for DragState<T> {
    /// A fresh, inactive tracker.
    fn default() -> (r: DragState<T>)
        ensures
            r.state_spec() is None,
            r.prev_pos_spec() is None,
            r.wf(),
    {
        DragState { state: None, prev_pos: None }
    }
}

/// First-sample law: after an activation that carries no starting
/// position, the first update reports the zero delta and records its
/// position, and the update after that reports exactly the difference of
/// the two positions.
pub proof fn lemma_drag_first_sample<T>(s: DragState<T>, button: T, p1: Vec2, p2: Vec2)
    ensures
        s.activate_next(button, None).update_delta_x(p1) == 0,
        s.activate_next(button, None).update_delta_y(p1) == 0,
        s.activate_next(button, None).update_next(p1).update_delta_x(p2) == p2.x - p1.x,
        s.activate_next(button, None).update_next(p1).update_delta_y(p2) == p2.y - p1.y,
{
}

} // verus!

//! Folding the window system's events into the per-poll input record, and
//! carrying the resulting local state across frames.
//!
//! The windowing collaborator polls and delivers events; they arrive here as
//! plain values, sizes and positions in physical pixels.

use vstd::prelude::*;

verus! {

/// One window event, reduced to what the render loop reads.
#[derive(Clone, Copy, Debug, PartialEq, Eq, Structural)]
pub enum WindowEventKind {
    CloseRequested,
    Resized(u32, u32),
    CursorMoved(u32, u32),
    Other,
}

/// What one polling step produced: whether the user asked to close, and the
/// latest resize and pointer position, if any arrived.
#[derive(Clone, Copy, Debug, PartialEq)]
pub struct UserInput {
    pub end_requested: bool,
    pub new_frame_size: Option<(u32, u32)>,
    pub new_mouse_position: Option<(u32, u32)>,
}

/// `s` after absorbing one event: a close request latches, and the latest
/// resize or pointer position wins.
pub open spec fn spec_apply_event(s: UserInput, e: WindowEventKind) -> UserInput {
    match e {
        WindowEventKind::CloseRequested => UserInput { end_requested: true, ..s },
        WindowEventKind::Resized(w, h) => UserInput { new_frame_size: Some((w, h)), ..s },
        WindowEventKind::CursorMoved(x, y) => UserInput {
            new_mouse_position: Some((x, y)),
            ..s
        },
        WindowEventKind::Other => s,
    }
}

/// `s` after absorbing `events` in order.
pub open spec fn spec_folded(s: UserInput, events: Seq<WindowEventKind>) -> UserInput
    decreases events.len(),
{
    if events.len() == 0 {
        s
    } else {
        spec_folded(spec_apply_event(s, events[0]), events.drop_first())
    }
}

/// Absorbing a trailing event commutes with folding the prefix.
proof fn lemma_folded_push(s: UserInput, events: Seq<WindowEventKind>, e: WindowEventKind)
    ensures
        spec_folded(s, events.push(e)) == spec_apply_event(spec_folded(s, events), e),
    decreases events.len(),
{
    reveal_with_fuel(spec_folded, 3);
    if events.len() == 0 {
        assert(events.push(e)[0] == e);
        assert(events.push(e).drop_first() =~= Seq::<WindowEventKind>::empty());
    } else {
        assert(events.push(e)[0] == events[0]);
        assert(events.push(e).drop_first() =~= events.drop_first().push(e));
        lemma_folded_push(spec_apply_event(s, events[0]), events.drop_first(), e);
    }
}

impl UserInput {
    /// The record before any event: nothing requested, nothing new.
    pub open spec fn spec_empty() -> UserInput {
        UserInput { end_requested: false, new_frame_size: None, new_mouse_position: None }
    }

    /// Absorb one event.
    pub fn apply_event(&mut self, e: &WindowEventKind)
        ensures
            *final(self) == spec_apply_event(*old(self), *e),
    {
        match e {
            WindowEventKind::CloseRequested => {
                self.end_requested = true;
            },
            WindowEventKind::Resized(w, h) => {
                self.new_frame_size = Some((*w, *h));
            },
            WindowEventKind::CursorMoved(x, y) => {
                self.new_mouse_position = Some((*x, *y));
            },
            WindowEventKind::Other => {},
        }
    }

    /// Fold one polling step's events, oldest first, into a fresh record.
    pub fn poll_events_loop(events: &Vec<WindowEventKind>) -> (r: UserInput)
        ensures
            r == spec_folded(UserInput::spec_empty(), events@),
    {
        let mut out = UserInput {
            end_requested: false,
            new_frame_size: None,
            new_mouse_position: None,
        };
        let mut i: usize = 0;
        while i < events.len()
            invariant
                0 <= i <= events@.len(),
                out == spec_folded(UserInput::spec_empty(), events@.take(i as int)),
            decreases events@.len() - i,
        {
            out.apply_event(&events[i]);
            proof {
                assert(events@.take(i + 1 as int) =~= events@.take(i as int).push(
                    events@[i as int],
                ));
                lemma_folded_push(UserInput::spec_empty(), events@.take(i as int), events@[i as int]);
            }
            i = i + 1;
        }
        proof {
            assert(events@.take(events@.len() as int) =~= events@);
        }
        out
    }
}

impl Default for UserInput {
    /// The record before any event.
    fn default() -> (r: UserInput)
        ensures
            r == UserInput::spec_empty(),
    {
        UserInput { end_requested: false, new_frame_size: None, new_mouse_position: None }
    }
}

/// The state the render loop carries across frames: the frame size and the
/// latest pointer position, in physical pixels.
#[derive(Clone, Copy, Debug, PartialEq, Eq, Structural)]
pub struct LocalState {
    pub frame_width: u32,
    pub frame_height: u32,
    pub mouse_x: u32,
    pub mouse_y: u32,
}

impl LocalState {
    /// Take over whatever the latest polling step reported; fields with no
    /// news keep their values.
    pub fn update_from_input(&mut self, input: &UserInput)
        ensures
            final(self).frame_width == match input.new_frame_size {
                Some(size) => size.0,
                None => old(self).frame_width,
            },
            final(self).frame_height == match input.new_frame_size {
                Some(size) => size.1,
                None => old(self).frame_height,
            },
            final(self).mouse_x == match input.new_mouse_position {
                Some(pos) => pos.0,
                None => old(self).mouse_x,
            },
            final(self).mouse_y == match input.new_mouse_position {
                Some(pos) => pos.1,
                None => old(self).mouse_y,
            },
    {
        if let Some(frame_size) = input.new_frame_size {
            self.frame_width = frame_size.0;
            self.frame_height = frame_size.1;
        }
        if let Some(position) = input.new_mouse_position {
            self.mouse_x = position.0;
            self.mouse_y = position.1;
        }
    }
}

} // verus!

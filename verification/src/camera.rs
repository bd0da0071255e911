//! The keyboard state of the camera controller.
//!
//! The controller remembers which of the four movement inputs are held. From
//! that it decides, once per frame, how the camera's eye moves along its line
//! of sight. The vector arithmetic that carries the move out belongs to the
//! viewer; the decision is made here.

use vstd::prelude::*;
use crate::input::{Direction, ElementState, KeyEvent, PhysicalKey, WindowEvent};
use crate::input::{direction_of, key_change};

verus! {

/// Which movement inputs are held: the controller's abstract state.
pub struct Held {
    pub up: bool,
    pub down: bool,
    pub left: bool,
    pub right: bool,
}

/// What a frame does to the camera's eye.
#[derive(Clone, Copy, Debug, PartialEq, Eq, Structural)]
pub enum Motion {
    /// Nothing is held: the camera is not touched.
    Idle,
    /// The eye moves one step towards the target.
    Advance,
    /// The eye moves one step away from the target.
    Retreat,
    /// Only sideways inputs are held: the eye is displaced by a step of zero
    /// length along the line of sight.
    Hold,
}

impl Held {
    /// The state in which nothing is held.
    pub open spec fn released() -> Held {
        Held { up: false, down: false, left: false, right: false }
    }

    /// Whether nothing is held.
    pub open spec fn is_unset(self) -> bool {
        !self.up && !self.down && !self.left && !self.right
    }

    /// Whether the given input is held.
    pub open spec fn get(self, d: Direction) -> bool {
        match d {
            Direction::Up => self.up,
            Direction::Down => self.down,
            Direction::Left => self.left,
            Direction::Right => self.right,
        }
    }

    /// The state with one input set and the others kept.
    pub open spec fn set(self, d: Direction, held: bool) -> Held {
        match d {
            Direction::Up => Held { up: held, ..self },
            Direction::Down => Held { down: held, ..self },
            Direction::Left => Held { left: held, ..self },
            Direction::Right => Held { right: held, ..self },
        }
    }

    /// The state after a window event: a keyboard event on a bound key sets
    /// that key's input, every other event changes nothing.
    pub open spec fn after(self, event: WindowEvent) -> Held {
        match key_change(event) {
            Some((d, held)) => self.set(d, held),
            None => self,
        }
    }

    /// The state after a run of window events, taken in one after the other.
    pub open spec fn after_all(self, events: Seq<WindowEvent>) -> Held
        decreases events.len(),
    {
        if events.len() == 0 {
            self
        } else {
            self.after_all(events.drop_last()).after(events.last())
        }
    }

    /// The motion that the held inputs ask for. Down wins over up; left and
    /// right alone displace by nothing.
    pub open spec fn motion(self) -> Motion {
        if self.is_unset() {
            Motion::Idle
        } else if self.down {
            Motion::Retreat
        } else if self.up {
            Motion::Advance
        } else {
            Motion::Hold
        }
    }
}

/// Tracks the movement keys between frames.
#[derive(Clone, Copy, Debug)]
pub struct CameraController {
    is_up: bool,
    is_down: bool,
    is_left: bool,
    is_right: bool,
}

impl View for CameraController {
    type V = Held;

    closed spec fn view(&self) -> Held {
        Held { up: self.is_up, down: self.is_down, left: self.is_left, right: self.is_right }
    }
}

impl CameraController {
    /// A controller with nothing held.
    pub fn new() -> (ctrl: Self)
        ensures
            ctrl@ == Held::released(),
    {
        CameraController { is_up: false, is_down: false, is_left: false, is_right: false }
    }

    /// Whether the given input is held.
    pub fn is_held(&self, d: Direction) -> (held: bool)
        ensures
            held == self@.get(d),
    {
        match d {
            Direction::Up => self.is_up,
            Direction::Down => self.is_down,
            Direction::Left => self.is_left,
            Direction::Right => self.is_right,
        }
    }

    /// Whether nothing is held.
    pub fn is_unset(&self) -> (unset: bool)
        ensures
            unset == self@.is_unset(),
    {
        !(self.is_up || self.is_down || self.is_left || self.is_right)
    }

    /// Decides how this frame moves the camera's eye. The caller scales the
    /// unit line of sight by its step and applies the result.
    pub fn update_camera(&self) -> (motion: Motion)
        ensures
            motion == self@.motion(),
    {
        if self.is_unset() {
            return Motion::Idle;
        }
        match (self.is_up, self.is_down) {
            (true, false) => Motion::Advance,
            (_, true) => Motion::Retreat,
            _ => Motion::Hold,
        }
    }

    /// Takes a window event in. Returns whether the event was a keyboard event
    /// on a bound key; such an event sets that key's input to whether the key
    /// is down, and no other event changes anything.
    pub fn process_events(&mut self, event: &WindowEvent) -> (consumed: bool)
        ensures
            consumed == (key_change(*event) is Some),
            final(self)@ == old(self)@.after(*event),
    {
        let (key, state) = match event {
            WindowEvent::KeyboardInput(
                KeyEvent { physical_key: PhysicalKey::Code(key), state, .. },
            ) => (*key, *state),
            _ => {
                return false;
            },
        };
        let pressed = match state {
            ElementState::Pressed => true,
            ElementState::Released => false,
        };
        match key.direction() {
            Some(Direction::Up) => {
                self.is_up = pressed;
                true
            },
            Some(Direction::Left) => {
                self.is_left = pressed;
                true
            },
            Some(Direction::Right) => {
                self.is_right = pressed;
                true
            },
            Some(Direction::Down) => {
                self.is_down = pressed;
                true
            },
            None => false,
        }
    }
}

/// Nothing held is the one state in which the camera is left alone.
pub proof fn lemma_idle_iff_unset(held: Held)
    ensures
        held.motion() is Idle <==> held.is_unset(),
        Held::released().motion() is Idle,
{
}

/// The backward input wins: while it is held the eye retreats, whatever else
/// is held; the eye advances only while the forward input is held without it.
pub proof fn lemma_down_wins(held: Held)
    ensures
        held.motion() is Retreat <==> held.down,
        held.motion() is Advance <==> held.up && !held.down,
        held.motion() is Hold <==> !held.up && !held.down && (held.left || held.right),
{
}

/// An event seen twice leaves the inputs as it left them when seen once.
pub proof fn lemma_event_idempotent(held: Held, event: WindowEvent)
    ensures
        held.after(event).after(event) == held.after(event),
{
}

/// An event changes no input but the one its key is bound to.
pub proof fn lemma_other_inputs_kept(held: Held, event: WindowEvent, d: Direction)
    requires
        key_change(event) matches Some((bound, _)) ==> bound != d,
    ensures
        held.after(event).get(d) == held.get(d),
{
}

/// After a bound key went down and came up again its input is released, and
/// the inputs are as if only the release had been seen.
pub proof fn lemma_release_undoes_press(held: Held, press: WindowEvent, release: WindowEvent)
    requires
        key_change(press) matches Some((d, _)) && key_change(release) == Some((d, false)),
    ensures
        held.after(press).after(release) == held.after(release),
        key_change(release) matches Some((d, _)) && !held.after(press).after(release).get(d),
{
}

/// Two keys bound to the same input stand in for each other: events that
/// differ in nothing but such keys have the same effect.
pub proof fn lemma_bound_keys_alike(held: Held, a: KeyEvent, b: KeyEvent)
    requires
        a.physical_key matches PhysicalKey::Code(ka) && b.physical_key matches PhysicalKey::Code(kb)
            && direction_of(ka) == direction_of(kb),
        a.state == b.state,
    ensures
        held.after(WindowEvent::KeyboardInput(a)) == held.after(WindowEvent::KeyboardInput(b)),
{
}

/// Whether an event sets the given input, to whatever value.
pub open spec fn touches(event: WindowEvent, d: Direction) -> bool {
    key_change(event) matches Some((bound, _)) && bound == d
}

/// An input that no event of a run is bound to comes out of the run as it
/// went in.
pub proof fn lemma_untouched_input_kept(held: Held, events: Seq<WindowEvent>, d: Direction)
    requires
        forall|j: int| 0 <= j < events.len() ==> !touches(#[trigger] events[j], d),
    ensures
        held.after_all(events).get(d) == held.get(d),
    decreases events.len(),
{
    if events.len() > 0 {
        let front = events.drop_last();
        assert forall|j: int| 0 <= j < front.len() implies !touches(#[trigger] front[j], d) by {
            assert(front[j] == events[j]);
        }
        lemma_untouched_input_kept(held, front, d);
        assert(!touches(events[events.len() - 1], d));
    }
}

/// The controller follows the keyboard: after a run of events an input is
/// held exactly if the last event bound to it was its key going down,
/// whatever was held before and whatever else the run contains.
pub proof fn lemma_last_event_decides(
    held: Held,
    events: Seq<WindowEvent>,
    d: Direction,
    last: int,
)
    requires
        0 <= last < events.len(),
        touches(events[last], d),
        forall|j: int| last < j < events.len() ==> !touches(#[trigger] events[j], d),
    ensures
        held.after_all(events).get(d) == (key_change(events[last]) matches Some((_, pressed))
            && pressed),
    decreases events.len(),
{
    let front = events.drop_last();
    if last == events.len() - 1 {
        assert(events.last() == events[last]);
    } else {
        assert(front[last] == events[last]);
        assert forall|j: int| last < j < front.len() implies !touches(#[trigger] front[j], d) by {
            assert(front[j] == events[j]);
        }
        lemma_last_event_decides(held, front, d, last);
        assert(!touches(events[events.len() - 1], d));
    }
}

} // verus!

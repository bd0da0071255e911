//! The decisions of the viewer's event loop.
//!
//! The loop itself waits for events, draws and talks to the GPU. Between
//! those steps it asks this module what to do: which command an event stands
//! for, whether a frame is drawn at all, and what follows a frame that the
//! surface refused.

use vstd::prelude::*;
use crate::camera::{CameraController, Held, Motion};
use crate::input::{ElementState, Event, Key, KeyEvent, WindowEvent};
use crate::input::{asks_exit, key_change};

verus! {

/// The time between two frames, in milliseconds.
pub const FRAME_MILLIS: u64 = 10;

/// What the event loop does in answer to one event.
#[derive(Clone, Copy, Debug, PartialEq, Eq, Structural)]
pub enum Command {
    /// Nothing.
    Ignore,
    /// Arm the loop's timer to wake it after this many milliseconds, then
    /// draw a frame.
    Tick { wait_millis: u64 },
    /// Fit the surface to the window's new size.
    Resize { width: u32, height: u32 },
    /// Draw a frame.
    Redraw,
    /// Leave the loop.
    Exit,
    /// The movement inputs took the event in: ask the window for a redraw.
    RequestRedraw,
}

/// How presenting a frame ended.
#[derive(Clone, Copy, Debug, PartialEq, Eq, Structural)]
pub enum RenderOutcome {
    Presented,
    /// No frame was handed out in time.
    Timeout,
    /// The surface no longer matches the window.
    Outdated,
    /// The surface was lost.
    Lost,
    /// The device has no memory left.
    OutOfMemory,
    /// Any other failure to hand out a frame.
    Other,
}

/// What the loop does after a frame.
#[derive(Clone, Copy, Debug, PartialEq, Eq, Structural)]
pub enum Followup {
    /// Go on with the next event.
    Proceed,
    /// Configure the surface again at its present size.
    ResetSize,
    /// Leave the loop.
    Exit,
    /// Print the failure and go on: the next frame is expected to succeed.
    Report,
}

/// The command an event stands for. Resizing and redrawing are told apart
/// first, then a request to quit; what is left goes to the movement inputs,
/// and asks for a redraw where they take it in.
pub open spec fn command_of(event: Event) -> Command {
    match event {
        Event::AboutToWait => Command::Tick { wait_millis: FRAME_MILLIS },
        Event::WindowEvent(WindowEvent::Resized { width, height }) => Command::Resize {
            width,
            height,
        },
        Event::WindowEvent(WindowEvent::RedrawRequested) => Command::Redraw,
        Event::WindowEvent(w) => if asks_exit(w) {
            Command::Exit
        } else if key_change(w) is Some {
            Command::RequestRedraw
        } else {
            Command::Ignore
        },
        Event::Other => Command::Ignore,
    }
}

/// The movement inputs after an event. A window event that does not ask to
/// quit is shown to them; nothing else is.
pub open spec fn held_after(held: Held, event: Event) -> Held {
    match event {
        Event::WindowEvent(w) => if asks_exit(w) {
            held
        } else {
            held.after(w)
        },
        _ => held,
    }
}

/// What the loop does after a frame that ended in `outcome`.
pub open spec fn followup_of(outcome: RenderOutcome) -> Followup {
    match outcome {
        RenderOutcome::Presented => Followup::Proceed,
        RenderOutcome::Lost => Followup::ResetSize,
        RenderOutcome::OutOfMemory => Followup::Exit,
        RenderOutcome::Timeout | RenderOutcome::Outdated | RenderOutcome::Other => Followup::Report,
    }
}

/// Whether a surface of this size can be drawn to: neither side is zero.
pub open spec fn has_area(width: u32, height: u32) -> bool {
    width != 0 && height != 0
}

/// What a redraw does at a surface of the given size: `None` while the
/// surface has no area, and the camera's motion for this frame otherwise.
pub open spec fn redraw_plan(held: Held, width: u32, height: u32) -> Option<Motion> {
    if has_area(width, height) {
        Some(held.motion())
    } else {
        None
    }
}

/// Shows a window event to the movement inputs. Returns whether they took it
/// in.
pub fn input(ctrl: &mut CameraController, event: &WindowEvent) -> (consumed: bool)
    ensures
        consumed == (key_change(*event) is Some),
        final(ctrl)@ == old(ctrl)@.after(*event),
{
    ctrl.process_events(event)
}

/// Decides what the loop does with one event, and lets the movement inputs
/// see the event where it is theirs to see.
pub fn on_event(ctrl: &mut CameraController, event: &Event) -> (command: Command)
    ensures
        command == command_of(*event),
        final(ctrl)@ == held_after(old(ctrl)@, *event),
{
    let event = match event {
        Event::WindowEvent(event) => event,
        Event::AboutToWait => {
            return Command::Tick { wait_millis: FRAME_MILLIS };
        },
        _ => {
            return Command::Ignore;
        },
    };
    match event {
        WindowEvent::Resized { width, height } => Command::Resize {
            width: *width,
            height: *height,
        },
        WindowEvent::RedrawRequested => Command::Redraw,
        WindowEvent::CloseRequested | WindowEvent::KeyboardInput(
            KeyEvent { logical_key: Key::Escape, state: ElementState::Pressed, .. },
        ) => Command::Exit,
        event => if input(ctrl, event) {
            Command::RequestRedraw
        } else {
            Command::Ignore
        },
    }
}

/// Decides whether a surface may take the given size: a window shrunk to
/// nothing keeps the size the surface had.
pub fn accepts_size(width: u32, height: u32) -> (accepted: bool)
    ensures
        accepted == has_area(width, height),
{
    width > 0 && height > 0
}

/// Decides whether a frame is drawn, and how the camera moves before it is.
/// No frame is drawn until the surface has a size.
pub fn redraw(ctrl: &CameraController, width: u32, height: u32) -> (plan: Option<Motion>)
    ensures
        plan == redraw_plan(ctrl@, width, height),
{
    if width == 0 || height == 0 {
        return None;
    }
    Some(ctrl.update_camera())
}

/// Decides what follows a frame: a lost surface is configured again, a
/// device out of memory ends the loop, any other failure is reported.
pub fn after_render(outcome: RenderOutcome) -> (followup: Followup)
    ensures
        followup == followup_of(outcome),
{
    match outcome {
        RenderOutcome::Presented => Followup::Proceed,
        RenderOutcome::Lost => Followup::ResetSize,
        RenderOutcome::OutOfMemory => Followup::Exit,
        _ => Followup::Report,
    }
}

/// The movement inputs change on no event but one that asks for a redraw on
/// their account, and on such an event they change as the event says.
pub proof fn lemma_inputs_follow_command(held: Held, event: Event)
    ensures
        !(command_of(event) is RequestRedraw) ==> held_after(held, event) == held,
        command_of(event) is RequestRedraw ==> event is WindowEvent && held_after(held, event)
            == held.after(event->WindowEvent_0),
{
}

/// A request to quit is obeyed before the movement inputs see it: closing the
/// window, and Escape going down on whatever physical key, end the loop and
/// leave the inputs as they were.
pub proof fn lemma_exit_first(held: Held, event: WindowEvent)
    requires
        asks_exit(event),
    ensures
        command_of(Event::WindowEvent(event)) is Exit,
        held_after(held, Event::WindowEvent(event)) == held,
{
}

/// A frame is drawn exactly when the surface has a size, and the loop ends
/// after a frame only when the device ran out of memory.
pub proof fn lemma_frame_rules(held: Held, width: u32, height: u32, outcome: RenderOutcome)
    ensures
        redraw_plan(held, width, height) is Some <==> width > 0 && height > 0,
        followup_of(outcome) is Exit <==> outcome is OutOfMemory,
        followup_of(outcome) is Proceed <==> outcome is Presented,
{
}

} // verus!

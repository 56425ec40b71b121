use vstd::prelude::*;

use crate::input::KeyCommand;

verus! {

/// A mouse button, as far as the viewer tells them apart.
#[derive(Clone, Copy, Debug, PartialEq, Eq, Structural)]
pub enum MouseButton {
    Left,
    Right,
    Other,
}

/// An input event, reduced to what the viewer's decisions depend on.
#[derive(Clone, Copy, Debug, PartialEq, Eq, Structural)]
pub enum InputEvent {
    /// The window has been connected to the windowing system.
    WindowConnected,
    /// The animation timer fired.
    Timer,
    /// A character key bound to a command was pressed.
    Key(KeyCommand),
    /// A mouse button went down; `inside_model` tells whether the click
    /// landed on the drawn model.
    MouseDown { button: MouseButton, inside_model: bool },
    /// The mouse moved.
    MouseMove,
    /// A mouse button went up.
    MouseUp(MouseButton),
    /// The mouse wheel turned.
    Wheel,
    /// Any other event, including keys bound to no command.
    Other,
}

/// The discrete modes of the viewer: the overlay and pause switches, the
/// drawing mode, and whether a mouse drag rotates or moves the model.
#[derive(Clone, Copy, Debug, PartialEq, Eq, Structural)]
pub struct ControlState {
    pub debug: bool,
    pub paused: bool,
    pub wireframe: bool,
    pub rotating: bool,
    pub translating: bool,
}

/// What an event asks of the GUI and of the continuous view parameters
/// (angles, translation, zoom, last mouse position), which the caller holds.
#[derive(Clone, Copy, Debug, PartialEq, Eq, Structural)]
pub struct Response {
    /// Re-arm the animation timer.
    pub request_timer: bool,
    /// Ask for keyboard focus.
    pub request_focus: bool,
    /// Ask for a repaint.
    pub request_paint: bool,
    /// Quit the application.
    pub quit: bool,
    /// Open the help window.
    pub show_help: bool,
    /// Advance the automatic rotation by one tick.
    pub spin: bool,
    /// Put angles, translation and zoom back to their defaults.
    pub reset_view: bool,
    /// Forget the last mouse position.
    pub forget_mouse: bool,
    /// Remember the event's mouse position.
    pub record_mouse: bool,
    /// Rotate the model by the mouse movement.
    pub drag_rotate: bool,
    /// Move the model by the mouse movement.
    pub drag_translate: bool,
    /// Zoom by the wheel movement.
    pub zoom: bool,
    /// Capture (`Some(true)`) or release (`Some(false)`) the mouse.
    pub capture: Option<bool>,
}

impl ControlState {
    /// No drag is under way while the viewer is paused.
    pub open spec fn well_formed(self) -> bool {
        self.paused ==> !self.rotating && !self.translating
    }

    /// The modes at start-up: everything off.
    pub fn new() -> (s: ControlState)
        ensures
            s == (ControlState {
                debug: false,
                paused: false,
                wireframe: false,
                rotating: false,
                translating: false,
            }),
            s.well_formed(),
    {
        ControlState { debug: false, paused: false, wireframe: false, rotating: false, translating: false }
    }
}

/// The modes after event `e` in modes `s`.
pub open spec fn next_state(s: ControlState, e: InputEvent) -> ControlState {
    let pause_key = e == InputEvent::Key(KeyCommand::TogglePause);
    ControlState {
        debug: s.debug != (e == InputEvent::Key(KeyCommand::ToggleDebug)),
        paused: s.paused != pause_key,
        wireframe: if s.paused {
            s.wireframe
        } else if e == InputEvent::Key(KeyCommand::ToggleWireframe) {
            !s.wireframe
        } else if e == InputEvent::Key(KeyCommand::Reset) {
            false
        } else {
            s.wireframe
        },
        rotating: if pause_key {
            false
        } else if s.paused {
            s.rotating
        } else if e == (InputEvent::MouseDown { button: MouseButton::Left, inside_model: true }) {
            true
        } else if e == InputEvent::MouseUp(MouseButton::Left) {
            false
        } else {
            s.rotating
        },
        translating: if pause_key {
            false
        } else if s.paused {
            s.translating
        } else if e == (InputEvent::MouseDown { button: MouseButton::Right, inside_model: true }) {
            true
        } else if e == InputEvent::MouseUp(MouseButton::Right) {
            false
        } else {
            s.translating
        },
    }
}

/// Whether the automatic rotation advances on a timer tick.
pub open spec fn spins(s: ControlState) -> bool {
    !s.paused && !s.rotating && !s.translating
}

/// What event `e` in modes `s` asks for.
pub open spec fn response_to(s: ControlState, e: InputEvent) -> Response {
    let live = !s.paused;
    let dragging = s.rotating || s.translating;
    Response {
        request_timer: e == InputEvent::WindowConnected || e == InputEvent::Timer,
        request_focus: e == InputEvent::WindowConnected,
        request_paint: (e == InputEvent::Timer && spins(s)) || e == InputEvent::Key(
            KeyCommand::ToggleDebug,
        ) || e == InputEvent::Key(KeyCommand::TogglePause) || (live && (e == InputEvent::Key(
            KeyCommand::ToggleWireframe,
        ) || e == InputEvent::Key(KeyCommand::Reset) || e == InputEvent::Wheel || (e
            == InputEvent::MouseMove && dragging))),
        quit: e == InputEvent::Key(KeyCommand::Quit),
        show_help: e == InputEvent::Key(KeyCommand::Help),
        spin: e == InputEvent::Timer && spins(s),
        reset_view: live && e == InputEvent::Key(KeyCommand::Reset),
        forget_mouse: e == InputEvent::Key(KeyCommand::TogglePause),
        record_mouse: live && (e is MouseDown || (e == InputEvent::MouseMove && dragging)),
        drag_rotate: live && e == InputEvent::MouseMove && s.rotating,
        drag_translate: live && e == InputEvent::MouseMove && !s.rotating && s.translating,
        zoom: live && e == InputEvent::Wheel,
        capture: if !live {
            None
        } else if e matches InputEvent::MouseDown { inside_model: true, .. } {
            Some(true)
        } else if e is MouseUp {
            Some(false)
        } else {
            None
        },
    }
}

/// A response that asks for nothing.
fn quiet() -> (r: Response)
    ensures
        !r.request_timer && !r.request_focus && !r.request_paint && !r.quit && !r.show_help,
        !r.spin && !r.reset_view && !r.forget_mouse && !r.record_mouse,
        !r.drag_rotate && !r.drag_translate && !r.zoom && r.capture is None,
{
    Response {
        request_timer: false,
        request_focus: false,
        request_paint: false,
        quit: false,
        show_help: false,
        spin: false,
        reset_view: false,
        forget_mouse: false,
        record_mouse: false,
        drag_rotate: false,
        drag_translate: false,
        zoom: false,
        capture: None,
    }
}

/// Handles one input event: the viewer's new modes, and what the GUI and
/// the caller's view parameters are to do.
pub fn handle_event(s: ControlState, e: InputEvent) -> (out: (ControlState, Response))
    ensures
        out.0 == next_state(s, e),
        out.1 == response_to(s, e),
        out.1.quit == (e == InputEvent::Key(KeyCommand::Quit)),
        out.1.show_help == (e == InputEvent::Key(KeyCommand::Help)),
        e == InputEvent::Key(KeyCommand::ToggleDebug) ==> out.0.debug == !s.debug
            && out.1.request_paint,
        e == InputEvent::MouseMove && !s.paused && (s.rotating || s.translating)
            ==> out.1.request_paint && out.1.record_mouse,
{
    let mut next = s;
    let mut r = quiet();
    match e {
        InputEvent::WindowConnected => {
            r.request_timer = true;
            r.request_focus = true;
        },
        InputEvent::Timer => {
            if !s.paused && !s.rotating && !s.translating {
                r.spin = true;
                r.request_paint = true;
            }
            r.request_timer = true;
        },
        InputEvent::Key(cmd) => match cmd {
            KeyCommand::ToggleDebug => {
                next.debug = !s.debug;
                r.request_paint = true;
            },
            KeyCommand::TogglePause => {
                next.paused = !s.paused;
                r.forget_mouse = true;
                next.rotating = false;
                next.translating = false;
                r.request_paint = true;
            },
            KeyCommand::Quit => {
                r.quit = true;
            },
            KeyCommand::ToggleWireframe => {
                if !s.paused {
                    next.wireframe = !s.wireframe;
                    r.request_paint = true;
                }
            },
            KeyCommand::Reset => {
                if !s.paused {
                    r.reset_view = true;
                    next.wireframe = false;
                    r.request_paint = true;
                }
            },
            KeyCommand::Help => {
                r.show_help = true;
            },
        },
        InputEvent::MouseDown { button, inside_model } => {
            if !s.paused {
                r.record_mouse = true;
                if inside_model {
                    match button {
                        MouseButton::Left => {
                            next.rotating = true;
                        },
                        MouseButton::Right => {
                            next.translating = true;
                        },
                        MouseButton::Other => {},
                    }
                    r.capture = Some(true);
                }
            }
        },
        InputEvent::MouseMove => {
            if !s.paused {
                if s.rotating {
                    r.drag_rotate = true;
                    r.record_mouse = true;
                    r.request_paint = true;
                } else if s.translating {
                    r.drag_translate = true;
                    r.record_mouse = true;
                    r.request_paint = true;
                }
            }
        },
        InputEvent::MouseUp(button) => {
            if !s.paused {
                match button {
                    MouseButton::Left => {
                        next.rotating = false;
                    },
                    MouseButton::Right => {
                        next.translating = false;
                    },
                    MouseButton::Other => {},
                }
                r.capture = Some(false);
            }
        },
        InputEvent::Wheel => {
            if !s.paused {
                r.zoom = true;
                r.request_paint = true;
            }
        },
        InputEvent::Other => {},
    }
    (next, r)
}

/// Every event keeps the modes well formed: no drag is under way while
/// the viewer is paused.
pub proof fn lemma_well_formed_preserved(s: ControlState, e: InputEvent)
    requires
        s.well_formed(),
    ensures
        next_state(s, e).well_formed(),
{
}

/// While paused, no event moves the view: no automatic rotation, no drag,
/// no zoom, no reset, no mouse capture, and the drawing mode stays.
pub proof fn lemma_paused_view_frozen(s: ControlState, e: InputEvent)
    requires
        s.paused,
    ensures
        !response_to(s, e).spin,
        !response_to(s, e).drag_rotate,
        !response_to(s, e).drag_translate,
        !response_to(s, e).zoom,
        !response_to(s, e).reset_view,
        !response_to(s, e).record_mouse,
        response_to(s, e).capture is None,
        next_state(s, e).wireframe == s.wireframe,
{
}

/// Pressing the debug key twice gives back the modes one started from.
pub proof fn lemma_debug_toggle_twice(s: ControlState)
    ensures
        next_state(
            next_state(s, InputEvent::Key(KeyCommand::ToggleDebug)),
            InputEvent::Key(KeyCommand::ToggleDebug),
        ) == s,
{
}

/// Outside a pause, pressing the wireframe key twice gives back the modes
/// one started from.
pub proof fn lemma_wireframe_toggle_twice(s: ControlState)
    requires
        !s.paused,
    ensures
        next_state(
            next_state(s, InputEvent::Key(KeyCommand::ToggleWireframe)),
            InputEvent::Key(KeyCommand::ToggleWireframe),
        ) == s,
{
}

/// Pausing and resuming gives back the pause switch, the overlay and the
/// drawing mode, and ends any drag.
pub proof fn lemma_pause_toggle_twice(s: ControlState)
    ensures
        ({
            let p = InputEvent::Key(KeyCommand::TogglePause);
            let t = next_state(next_state(s, p), p);
            &&& t.paused == s.paused
            &&& t.debug == s.debug
            &&& t.wireframe == s.wireframe
            &&& !t.rotating
            &&& !t.translating
        }),
{
}

/// The events that only ask the GUI for work (window connection, timer
/// ticks, mouse movement, the wheel, help, quit, unbound input) leave the
/// modes unchanged.
pub proof fn lemma_passive_events_keep_modes(s: ControlState, e: InputEvent)
    requires
        e == InputEvent::WindowConnected || e == InputEvent::Timer || e == InputEvent::MouseMove
            || e == InputEvent::Wheel || e == InputEvent::Key(KeyCommand::Help) || e
            == InputEvent::Key(KeyCommand::Quit) || e == InputEvent::Other,
    ensures
        next_state(s, e) == s,
{
}

/// Outside a pause, pressing a button on the model and releasing it ends
/// with that drag over and every other mode as before.
pub proof fn lemma_press_release(s: ControlState, b: MouseButton)
    requires
        !s.paused,
    ensures
        ({
            let t = next_state(
                next_state(s, InputEvent::MouseDown { button: b, inside_model: true }),
                InputEvent::MouseUp(b),
            );
            &&& t.debug == s.debug
            &&& t.paused == s.paused
            &&& t.wireframe == s.wireframe
            &&& t.rotating == (s.rotating && b != MouseButton::Left)
            &&& t.translating == (s.translating && b != MouseButton::Right)
        }),
{
}

/// Outside a pause, a click that misses the model starts no drag.
pub proof fn lemma_click_outside_starts_no_drag(s: ControlState, b: MouseButton)
    requires
        !s.paused,
    ensures
        next_state(s, InputEvent::MouseDown { button: b, inside_model: false }) == s,
        response_to(s, InputEvent::MouseDown { button: b, inside_model: false }).capture is None,
{
}

/// The timer always re-arms itself, and advances the rotation exactly when
/// the viewer is neither paused nor dragged.
pub proof fn lemma_timer(s: ControlState)
    ensures
        response_to(s, InputEvent::Timer).request_timer,
        response_to(s, InputEvent::Timer).spin == (!s.paused && !s.rotating && !s.translating),
{
}

/// Only the quit key asks to quit, and only the help key opens the help
/// window; the help key changes no mode and quits nothing.
pub proof fn lemma_quit_and_help_keys(s: ControlState, e: InputEvent)
    ensures
        response_to(s, e).quit <==> e == InputEvent::Key(KeyCommand::Quit),
        response_to(s, e).show_help <==> e == InputEvent::Key(KeyCommand::Help),
        !response_to(s, InputEvent::Key(KeyCommand::Help)).quit,
        next_state(s, InputEvent::Key(KeyCommand::Help)) == s,
{
}

/// The debug key switches the overlay and asks for a repaint in every
/// state, paused or not, and touches no other mode.
pub proof fn lemma_debug_key_always_toggles(s: ControlState)
    ensures
        ({
            let d = InputEvent::Key(KeyCommand::ToggleDebug);
            let t = next_state(s, d);
            &&& t.debug == !s.debug
            &&& t.paused == s.paused
            &&& t.wireframe == s.wireframe
            &&& t.rotating == s.rotating
            &&& t.translating == s.translating
            &&& response_to(s, d).request_paint
        }),
{
}

/// Outside a pause, every mouse move during a drag moves the model, records
/// the mouse position and asks for a repaint; a left drag rotates, a right
/// drag alone translates.
pub proof fn lemma_drag_move_repaints(s: ControlState)
    requires
        !s.paused,
        s.rotating || s.translating,
    ensures
        response_to(s, InputEvent::MouseMove).request_paint,
        response_to(s, InputEvent::MouseMove).record_mouse,
        response_to(s, InputEvent::MouseMove).drag_rotate == s.rotating,
        response_to(s, InputEvent::MouseMove).drag_translate == !s.rotating,
        next_state(s, InputEvent::MouseMove) == s,
{
}

} // verus!

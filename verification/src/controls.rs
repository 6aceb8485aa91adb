//! The 3D viewer's interactive controls: what each window event does to the
//! control state (held movement keys, debug mode, ray-march step count) and
//! which action the event loop has to carry out.

use vstd::prelude::*;

verus! {

/// The keys the viewer recognises, by the character they produce.
#[derive(Clone, Copy, Debug, PartialEq, Eq, Structural)]
pub enum KeyName {
    W,
    A,
    S,
    D,
    Q,
    E,
    R,
    P,
    Digit(u32),
    Plus,
    Minus,
    LeftBracket,
    RightBracket,
    Unrecognized,
}

/// The key a single character stands for; letters in either case.
pub open spec fn key_of_char(c: char) -> KeyName {
    match c {
        'w' | 'W' => KeyName::W,
        'a' | 'A' => KeyName::A,
        's' | 'S' => KeyName::S,
        'd' | 'D' => KeyName::D,
        'q' | 'Q' => KeyName::Q,
        'e' | 'E' => KeyName::E,
        'r' | 'R' => KeyName::R,
        'p' | 'P' => KeyName::P,
        '0' => KeyName::Digit(0),
        '1' => KeyName::Digit(1),
        '2' => KeyName::Digit(2),
        '3' => KeyName::Digit(3),
        '4' => KeyName::Digit(4),
        '5' => KeyName::Digit(5),
        '6' => KeyName::Digit(6),
        '7' => KeyName::Digit(7),
        '8' => KeyName::Digit(8),
        '9' => KeyName::Digit(9),
        '=' | '+' => KeyName::Plus,
        '-' | '_' => KeyName::Minus,
        '[' => KeyName::LeftBracket,
        ']' => KeyName::RightBracket,
        _ => KeyName::Unrecognized,
    }
}

/// The key named by the text a key press produced: only a text of exactly one
/// character names a key.
pub open spec fn key_of_text(text: Seq<char>) -> KeyName {
    if text.len() == 1 {
        key_of_char(text[0])
    } else {
        KeyName::Unrecognized
    }
}

fn key_of_char_exec(c: char) -> (k: KeyName)
    ensures
        k == key_of_char(c),
{
    match c {
        'w' | 'W' => KeyName::W,
        'a' | 'A' => KeyName::A,
        's' | 'S' => KeyName::S,
        'd' | 'D' => KeyName::D,
        'q' | 'Q' => KeyName::Q,
        'e' | 'E' => KeyName::E,
        'r' | 'R' => KeyName::R,
        'p' | 'P' => KeyName::P,
        '0' => KeyName::Digit(0),
        '1' => KeyName::Digit(1),
        '2' => KeyName::Digit(2),
        '3' => KeyName::Digit(3),
        '4' => KeyName::Digit(4),
        '5' => KeyName::Digit(5),
        '6' => KeyName::Digit(6),
        '7' => KeyName::Digit(7),
        '8' => KeyName::Digit(8),
        '9' => KeyName::Digit(9),
        '=' | '+' => KeyName::Plus,
        '-' | '_' => KeyName::Minus,
        '[' => KeyName::LeftBracket,
        ']' => KeyName::RightBracket,
        _ => KeyName::Unrecognized,
    }
}

/// The key named by `text` (see `key_of_text`).
pub fn key_name(text: &str) -> (k: KeyName)
    ensures
        k == key_of_text(text@),
{
    if text.unicode_len() == 1 {
        key_of_char_exec(text.get_char(0))
    } else {
        KeyName::Unrecognized
    }
}

/// A key as the window reports it.
#[derive(Debug)]
pub enum KeyInput {
    /// A key that produces text.
    Text(String),
    ArrowUp,
    ArrowDown,
    ArrowLeft,
    ArrowRight,
    Escape,
    /// Any other named key.
    OtherNamed,
}

/// The window and device events the viewer reacts to.
#[derive(Debug)]
pub enum ViewerEvent {
    CloseRequested,
    Resized(u32, u32),
    ScaleFactorChanged,
    KeyPressed(KeyInput),
    KeyReleased(KeyInput),
    LeftMousePressed,
    RedrawRequested,
    MouseMotion,
    AboutToWait,
    Other,
}

/// What the event loop does in answer to an event.
#[derive(Clone, Copy, Debug, PartialEq, Eq, Structural)]
pub enum ViewerAction {
    Nothing,
    Exit,
    /// Resize the surface to the given size.
    Resize(u32, u32),
    /// Resize the surface to the window's current inner size.
    ResizeToWindow,
    /// Reconfigure the surface at the size it already has.
    ResizeToCurrent,
    ResetCamera,
    PrintStatus,
    /// The debug mode became the given one; report it.
    ShowDebugMode(u32),
    ExposureUp,
    ExposureDown,
    /// The ray-march step count became the given one; report it.
    ShowMarchSteps(u32),
    SunElevationUp,
    SunElevationDown,
    SunAzimuthLeft,
    SunAzimuthRight,
    GrabCursor,
    ReleaseCursor,
    /// Update the scene and render a frame.
    Redraw,
    /// Turn the camera by the mouse movement.
    RotateCamera,
    RequestRedraw,
    /// Report a failed frame.
    ReportRenderError,
}

/// How presenting a frame went.
#[derive(Clone, Copy, Debug, PartialEq, Eq, Structural)]
pub enum RenderOutcome {
    Presented,
    SurfaceLost,
    OutOfMemory,
    OtherError,
}

/// The movement keys that are held down.
#[derive(Clone, Copy, Debug, PartialEq, Eq, Structural)]
pub struct HeldKeys {
    pub w: bool,
    pub a: bool,
    pub s: bool,
    pub d: bool,
    pub q: bool,
    pub e: bool,
}

/// `held` with the movement key `k` set to `down`; other keys leave it unchanged.
pub open spec fn set_held(held: HeldKeys, k: KeyName, down: bool) -> HeldKeys {
    match k {
        KeyName::W => HeldKeys { w: down, ..held },
        KeyName::A => HeldKeys { a: down, ..held },
        KeyName::S => HeldKeys { s: down, ..held },
        KeyName::D => HeldKeys { d: down, ..held },
        KeyName::Q => HeldKeys { q: down, ..held },
        KeyName::E => HeldKeys { e: down, ..held },
        _ => held,
    }
}

/// Whether `k` is one of the six movement keys.
pub open spec fn is_movement_key(k: KeyName) -> bool {
    k is W || k is A || k is S || k is D || k is Q || k is E
}

/// Whether the movement key `k` is held in `held`.
pub open spec fn is_held(held: HeldKeys, k: KeyName) -> bool {
    match k {
        KeyName::W => held.w,
        KeyName::A => held.a,
        KeyName::S => held.s,
        KeyName::D => held.d,
        KeyName::Q => held.q,
        KeyName::E => held.e,
        _ => false,
    }
}

/// The step count after halving: half of it, but at least 8.
pub open spec fn halved_steps(m: u32) -> u32 {
    if m / 2 < 8 { 8 } else { m / 2 }
}

/// The step count after doubling: twice it, but at most 512.
pub open spec fn doubled_steps(m: u32) -> u32 {
    if m * 2 > 512 { 512 } else { (m * 2) as u32 }
}

/// The step counts the viewer can be in: the powers of two from 8 to 512.
pub open spec fn valid_march_steps(m: u32) -> bool {
    m == 8 || m == 16 || m == 32 || m == 64 || m == 128 || m == 256 || m == 512
}

/// The viewer's discrete control state.
pub struct ViewerControls {
    debug_mode: u32,
    march_steps: u32,
    held: HeldKeys,
}

/// The control state after a key press.
pub open spec fn pressed(debug_mode: u32, march_steps: u32, held: HeldKeys, key: KeyInput) -> (
    u32,
    u32,
    HeldKeys,
    ViewerAction,
) {
    match key {
        KeyInput::Text(t) => {
            let k = key_of_text(t@);
            match k {
                KeyName::W | KeyName::A | KeyName::S | KeyName::D | KeyName::Q | KeyName::E => (
                    debug_mode,
                    march_steps,
                    set_held(held, k, true),
                    ViewerAction::Nothing,
                ),
                KeyName::R => (debug_mode, march_steps, held, ViewerAction::ResetCamera),
                KeyName::P => (debug_mode, march_steps, held, ViewerAction::PrintStatus),
                KeyName::Digit(n) => (n, march_steps, held, ViewerAction::ShowDebugMode(n)),
                KeyName::Plus => (debug_mode, march_steps, held, ViewerAction::ExposureUp),
                KeyName::Minus => (debug_mode, march_steps, held, ViewerAction::ExposureDown),
                KeyName::LeftBracket => (
                    debug_mode,
                    halved_steps(march_steps),
                    held,
                    ViewerAction::ShowMarchSteps(halved_steps(march_steps)),
                ),
                KeyName::RightBracket => (
                    debug_mode,
                    doubled_steps(march_steps),
                    held,
                    ViewerAction::ShowMarchSteps(doubled_steps(march_steps)),
                ),
                KeyName::Unrecognized => (debug_mode, march_steps, held, ViewerAction::Nothing),
            }
        },
        KeyInput::ArrowUp => (debug_mode, march_steps, held, ViewerAction::SunElevationUp),
        KeyInput::ArrowDown => (debug_mode, march_steps, held, ViewerAction::SunElevationDown),
        KeyInput::ArrowLeft => (debug_mode, march_steps, held, ViewerAction::SunAzimuthLeft),
        KeyInput::ArrowRight => (debug_mode, march_steps, held, ViewerAction::SunAzimuthRight),
        KeyInput::Escape => (debug_mode, march_steps, held, ViewerAction::ReleaseCursor),
        KeyInput::OtherNamed => (debug_mode, march_steps, held, ViewerAction::Nothing),
    }
}

/// The control state after `event`, and the action it calls for.
pub open spec fn controls_after(debug_mode: u32, march_steps: u32, held: HeldKeys, event: ViewerEvent) -> (
    u32,
    u32,
    HeldKeys,
    ViewerAction,
) {
    match event {
        ViewerEvent::CloseRequested => (debug_mode, march_steps, held, ViewerAction::Exit),
        ViewerEvent::Resized(w, h) => (debug_mode, march_steps, held, ViewerAction::Resize(w, h)),
        ViewerEvent::ScaleFactorChanged => (
            debug_mode,
            march_steps,
            held,
            ViewerAction::ResizeToWindow,
        ),
        ViewerEvent::KeyPressed(key) => pressed(debug_mode, march_steps, held, key),
        ViewerEvent::KeyReleased(key) => match key {
            KeyInput::Text(t) => (
                debug_mode,
                march_steps,
                set_held(held, key_of_text(t@), false),
                ViewerAction::Nothing,
            ),
            _ => (debug_mode, march_steps, held, ViewerAction::Nothing),
        },
        ViewerEvent::LeftMousePressed => (debug_mode, march_steps, held, ViewerAction::GrabCursor),
        ViewerEvent::RedrawRequested => (debug_mode, march_steps, held, ViewerAction::Redraw),
        ViewerEvent::MouseMotion => (debug_mode, march_steps, held, ViewerAction::RotateCamera),
        ViewerEvent::AboutToWait => (debug_mode, march_steps, held, ViewerAction::RequestRedraw),
        ViewerEvent::Other => (debug_mode, march_steps, held, ViewerAction::Nothing),
    }
}

impl ViewerControls {
    #[verifier::type_invariant]
    spec fn well_formed(self) -> bool {
        valid_march_steps(self.march_steps) && self.debug_mode <= 9
    }

    /// The current debug mode.
    pub closed spec fn debug_mode_spec(&self) -> u32 {
        self.debug_mode
    }

    /// The current ray-march step count.
    pub closed spec fn march_steps_spec(&self) -> u32 {
        self.march_steps
    }

    /// The movement keys currently held.
    pub closed spec fn held_spec(&self) -> HeldKeys {
        self.held
    }

    /// The controls when the viewer starts: normal rendering, 64 march steps,
    /// no key held.
    pub fn new() -> (c: Self)
        ensures
            c.debug_mode_spec() == 0,
            c.march_steps_spec() == 64,
            c.held_spec() == (HeldKeys { w: false, a: false, s: false, d: false, q: false, e: false }),
    {
        ViewerControls {
            debug_mode: 0,
            march_steps: 64,
            held: HeldKeys { w: false, a: false, s: false, d: false, q: false, e: false },
        }
    }

    /// The current debug mode: at most 9.
    pub fn debug_mode(&self) -> (m: u32)
        ensures
            m == self.debug_mode_spec(),
            m <= 9,
    {
        proof {
            use_type_invariant(self);
        }
        self.debug_mode
    }

    /// The current ray-march step count: a power of two from 8 to 512.
    pub fn march_steps(&self) -> (m: u32)
        ensures
            m == self.march_steps_spec(),
            valid_march_steps(m),
    {
        proof {
            use_type_invariant(self);
        }
        self.march_steps
    }

    /// The movement keys currently held.
    pub fn held(&self) -> (h: HeldKeys)
        ensures
            h == self.held_spec(),
    {
        self.held
    }

    /// The direction the held keys move the camera in, per axis: forward
    /// (W minus S), right (D minus A) and up (E minus Q), each -1, 0 or 1.
    pub fn movement_axes(&self) -> (axes: (i8, i8, i8))
        ensures
            axes.0 == (if self.held_spec().w { 1int } else { 0 }) - (if self.held_spec().s {
                1int
            } else {
                0
            }),
            axes.1 == (if self.held_spec().d { 1int } else { 0 }) - (if self.held_spec().a {
                1int
            } else {
                0
            }),
            axes.2 == (if self.held_spec().e { 1int } else { 0 }) - (if self.held_spec().q {
                1int
            } else {
                0
            }),
    {
        let h = self.held;
        let mut forward: i8 = 0;
        let mut right: i8 = 0;
        let mut up: i8 = 0;
        if h.w {
            forward = forward + 1;
        }
        if h.s {
            forward = forward - 1;
        }
        if h.a {
            right = right - 1;
        }
        if h.d {
            right = right + 1;
        }
        if h.q {
            up = up - 1;
        }
        if h.e {
            up = up + 1;
        }
        (forward, right, up)
    }

    /// Applies `event` to the controls and returns the action the event loop
    /// has to carry out (see `controls_after`).
    pub fn on_event(&mut self, event: ViewerEvent) -> (action: ViewerAction)
        ensures
            ({
                let next = controls_after(
                    old(self).debug_mode_spec(),
                    old(self).march_steps_spec(),
                    old(self).held_spec(),
                    event,
                );
                &&& final(self).debug_mode_spec() == next.0
                &&& final(self).march_steps_spec() == next.1
                &&& final(self).held_spec() == next.2
                &&& action == next.3
            }),
    {
        proof {
            use_type_invariant(&*self);
        }
        match event {
            ViewerEvent::CloseRequested => ViewerAction::Exit,
            ViewerEvent::Resized(w, h) => ViewerAction::Resize(w, h),
            ViewerEvent::ScaleFactorChanged => ViewerAction::ResizeToWindow,
            ViewerEvent::KeyPressed(key) => self.on_key_pressed(key),
            ViewerEvent::KeyReleased(key) => {
                if let KeyInput::Text(t) = key {
                    let k = key_name(t.as_str());
                    self.set_key(k, false);
                }
                ViewerAction::Nothing
            },
            ViewerEvent::LeftMousePressed => ViewerAction::GrabCursor,
            ViewerEvent::RedrawRequested => ViewerAction::Redraw,
            ViewerEvent::MouseMotion => ViewerAction::RotateCamera,
            ViewerEvent::AboutToWait => ViewerAction::RequestRedraw,
            ViewerEvent::Other => ViewerAction::Nothing,
        }
    }

    fn set_key(&mut self, k: KeyName, down: bool)
        ensures
            final(self).debug_mode_spec() == old(self).debug_mode_spec(),
            final(self).march_steps_spec() == old(self).march_steps_spec(),
            final(self).held_spec() == set_held(old(self).held_spec(), k, down),
    {
        proof {
            use_type_invariant(&*self);
        }
        match k {
            KeyName::W => self.held.w = down,
            KeyName::A => self.held.a = down,
            KeyName::S => self.held.s = down,
            KeyName::D => self.held.d = down,
            KeyName::Q => self.held.q = down,
            KeyName::E => self.held.e = down,
            _ => {},
        }
    }

    fn on_key_pressed(&mut self, key: KeyInput) -> (action: ViewerAction)
        ensures
            ({
                let next = pressed(
                    old(self).debug_mode_spec(),
                    old(self).march_steps_spec(),
                    old(self).held_spec(),
                    key,
                );
                &&& final(self).debug_mode_spec() == next.0
                &&& final(self).march_steps_spec() == next.1
                &&& final(self).held_spec() == next.2
                &&& action == next.3
            }),
    {
        proof {
            use_type_invariant(&*self);
        }
        match key {
            KeyInput::Text(t) => {
                let k = key_name(t.as_str());
                match k {
                    KeyName::W | KeyName::A | KeyName::S | KeyName::D | KeyName::Q | KeyName::E => {
                        self.set_key(k, true);
                        ViewerAction::Nothing
                    },
                    KeyName::R => ViewerAction::ResetCamera,
                    KeyName::P => ViewerAction::PrintStatus,
                    KeyName::Digit(n) => {
                        self.debug_mode = n;
                        ViewerAction::ShowDebugMode(n)
                    },
                    KeyName::Plus => ViewerAction::ExposureUp,
                    KeyName::Minus => ViewerAction::ExposureDown,
                    KeyName::LeftBracket => {
                        let half = self.march_steps / 2;
                        self.march_steps = if half < 8 { 8 } else { half };
                        ViewerAction::ShowMarchSteps(self.march_steps)
                    },
                    KeyName::RightBracket => {
                        let twice = self.march_steps * 2;
                        self.march_steps = if twice > 512 { 512 } else { twice };
                        ViewerAction::ShowMarchSteps(self.march_steps)
                    },
                    KeyName::Unrecognized => ViewerAction::Nothing,
                }
            },
            KeyInput::ArrowUp => ViewerAction::SunElevationUp,
            KeyInput::ArrowDown => ViewerAction::SunElevationDown,
            KeyInput::ArrowLeft => ViewerAction::SunAzimuthLeft,
            KeyInput::ArrowRight => ViewerAction::SunAzimuthRight,
            KeyInput::Escape => ViewerAction::ReleaseCursor,
            KeyInput::OtherNamed => ViewerAction::Nothing,
        }
    }
}

/// The action for a presented or failed frame: a lost surface is reconfigured
/// at its current size, running out of memory ends the viewer, any other
/// failure is reported, and a presented frame needs nothing.
pub fn render_outcome_action(outcome: RenderOutcome) -> (action: ViewerAction)
    ensures
        action == (match outcome {
            RenderOutcome::Presented => ViewerAction::Nothing,
            RenderOutcome::SurfaceLost => ViewerAction::ResizeToCurrent,
            RenderOutcome::OutOfMemory => ViewerAction::Exit,
            RenderOutcome::OtherError => ViewerAction::ReportRenderError,
        }),
{
    match outcome {
        RenderOutcome::Presented => ViewerAction::Nothing,
        RenderOutcome::SurfaceLost => ViewerAction::ResizeToCurrent,
        RenderOutcome::OutOfMemory => ViewerAction::Exit,
        RenderOutcome::OtherError => ViewerAction::ReportRenderError,
    }
}

/// Whether the surface may take a new size: both sides must be positive.
pub fn accepts_size(width: u32, height: u32) -> (ok: bool)
    ensures
        ok == (width > 0 && height > 0),
{
    width > 0 && height > 0
}

/// What each named key and window event does, for every control state:
/// the arrows move the sun (up/down in elevation, left/right in azimuth),
/// Escape releases the cursor, and the window events call for their actions;
/// none of them changes the controls.
pub proof fn lemma_event_actions(debug_mode: u32, march_steps: u32, held: HeldKeys)
    ensures
        controls_after(debug_mode, march_steps, held, ViewerEvent::KeyPressed(KeyInput::ArrowUp))
            == (debug_mode, march_steps, held, ViewerAction::SunElevationUp),
        controls_after(debug_mode, march_steps, held, ViewerEvent::KeyPressed(KeyInput::ArrowDown))
            == (debug_mode, march_steps, held, ViewerAction::SunElevationDown),
        controls_after(debug_mode, march_steps, held, ViewerEvent::KeyPressed(KeyInput::ArrowLeft))
            == (debug_mode, march_steps, held, ViewerAction::SunAzimuthLeft),
        controls_after(
            debug_mode,
            march_steps,
            held,
            ViewerEvent::KeyPressed(KeyInput::ArrowRight),
        ) == (debug_mode, march_steps, held, ViewerAction::SunAzimuthRight),
        controls_after(debug_mode, march_steps, held, ViewerEvent::KeyPressed(KeyInput::Escape))
            == (debug_mode, march_steps, held, ViewerAction::ReleaseCursor),
        controls_after(
            debug_mode,
            march_steps,
            held,
            ViewerEvent::KeyPressed(KeyInput::OtherNamed),
        ) == (debug_mode, march_steps, held, ViewerAction::Nothing),
        controls_after(debug_mode, march_steps, held, ViewerEvent::CloseRequested) == (
            debug_mode,
            march_steps,
            held,
            ViewerAction::Exit,
        ),
        forall|w: u32, h: u32|
            #[trigger] controls_after(debug_mode, march_steps, held, ViewerEvent::Resized(w, h))
                == (debug_mode, march_steps, held, ViewerAction::Resize(w, h)),
        controls_after(debug_mode, march_steps, held, ViewerEvent::ScaleFactorChanged) == (
            debug_mode,
            march_steps,
            held,
            ViewerAction::ResizeToWindow,
        ),
        controls_after(debug_mode, march_steps, held, ViewerEvent::LeftMousePressed) == (
            debug_mode,
            march_steps,
            held,
            ViewerAction::GrabCursor,
        ),
        controls_after(debug_mode, march_steps, held, ViewerEvent::RedrawRequested) == (
            debug_mode,
            march_steps,
            held,
            ViewerAction::Redraw,
        ),
        controls_after(debug_mode, march_steps, held, ViewerEvent::MouseMotion) == (
            debug_mode,
            march_steps,
            held,
            ViewerAction::RotateCamera,
        ),
        controls_after(debug_mode, march_steps, held, ViewerEvent::AboutToWait) == (
            debug_mode,
            march_steps,
            held,
            ViewerAction::RequestRedraw,
        ),
        controls_after(debug_mode, march_steps, held, ViewerEvent::Other) == (
            debug_mode,
            march_steps,
            held,
            ViewerAction::Nothing,
        ),
{
}

/// What pressing a key that types `text` does, for every control state:
/// W/S, A/D and Q/E (either case) become held; R resets the camera; P prints
/// the status; a digit selects that debug mode; `=`/`+` and `-`/`_` raise and
/// lower the exposure; `[` halves the march steps (not below 8) and `]`
/// doubles them (not above 512); any other text, or more or less than one
/// character, does nothing.
pub proof fn lemma_key_press_table(debug_mode: u32, march_steps: u32, held: HeldKeys, text: String)
    ensures
        ({
            let r = controls_after(
                debug_mode,
                march_steps,
                held,
                ViewerEvent::KeyPressed(KeyInput::Text(text)),
            );
            let c = text@[0];
            let one = text@.len() == 1;
            &&& one && (c == 'w' || c == 'W') ==> r == (
                debug_mode,
                march_steps,
                HeldKeys { w: true, ..held },
                ViewerAction::Nothing,
            )
            &&& one && (c == 'a' || c == 'A') ==> r == (
                debug_mode,
                march_steps,
                HeldKeys { a: true, ..held },
                ViewerAction::Nothing,
            )
            &&& one && (c == 's' || c == 'S') ==> r == (
                debug_mode,
                march_steps,
                HeldKeys { s: true, ..held },
                ViewerAction::Nothing,
            )
            &&& one && (c == 'd' || c == 'D') ==> r == (
                debug_mode,
                march_steps,
                HeldKeys { d: true, ..held },
                ViewerAction::Nothing,
            )
            &&& one && (c == 'q' || c == 'Q') ==> r == (
                debug_mode,
                march_steps,
                HeldKeys { q: true, ..held },
                ViewerAction::Nothing,
            )
            &&& one && (c == 'e' || c == 'E') ==> r == (
                debug_mode,
                march_steps,
                HeldKeys { e: true, ..held },
                ViewerAction::Nothing,
            )
            &&& one && (c == 'r' || c == 'R') ==> r == (
                debug_mode,
                march_steps,
                held,
                ViewerAction::ResetCamera,
            )
            &&& one && (c == 'p' || c == 'P') ==> r == (
                debug_mode,
                march_steps,
                held,
                ViewerAction::PrintStatus,
            )
            &&& one && ('0' <= c <= '9') ==> r == (
                (c as u32 - 48) as u32,
                march_steps,
                held,
                ViewerAction::ShowDebugMode((c as u32 - 48) as u32),
            )
            &&& one && (c == '=' || c == '+') ==> r == (
                debug_mode,
                march_steps,
                held,
                ViewerAction::ExposureUp,
            )
            &&& one && (c == '-' || c == '_') ==> r == (
                debug_mode,
                march_steps,
                held,
                ViewerAction::ExposureDown,
            )
            &&& one && c == '[' ==> {
                let m: u32 = if march_steps < 16 { 8 } else { march_steps / 2 };
                r == (debug_mode, m, held, ViewerAction::ShowMarchSteps(m))
            }
            &&& one && c == ']' ==> {
                let m: u32 = if march_steps > 256 { 512 } else { (2 * march_steps) as u32 };
                r == (debug_mode, m, held, ViewerAction::ShowMarchSteps(m))
            }
            &&& !one || !(c == 'w' || c == 'W' || c == 'a' || c == 'A' || c == 's' || c == 'S' || c
                == 'd' || c == 'D' || c == 'q' || c == 'Q' || c == 'e' || c == 'E' || c == 'r' || c
                == 'R' || c == 'p' || c == 'P' || ('0' <= c <= '9') || c == '=' || c == '+' || c
                == '-' || c == '_' || c == '[' || c == ']') ==> r == (
                debug_mode,
                march_steps,
                held,
                ViewerAction::Nothing,
            )
        }),
{
}

/// Releasing a key that types `text` lets go of that movement key (either
/// case) and changes nothing else; releasing a named key changes nothing.
pub proof fn lemma_key_release_table(
    debug_mode: u32,
    march_steps: u32,
    held: HeldKeys,
    text: String,
)
    ensures
        ({
            let r = controls_after(
                debug_mode,
                march_steps,
                held,
                ViewerEvent::KeyReleased(KeyInput::Text(text)),
            );
            let c = text@[0];
            let one = text@.len() == 1;
            &&& r.0 == debug_mode && r.1 == march_steps && r.3 == ViewerAction::Nothing
            &&& one && (c == 'w' || c == 'W') ==> r.2 == HeldKeys { w: false, ..held }
            &&& one && (c == 'a' || c == 'A') ==> r.2 == HeldKeys { a: false, ..held }
            &&& one && (c == 's' || c == 'S') ==> r.2 == HeldKeys { s: false, ..held }
            &&& one && (c == 'd' || c == 'D') ==> r.2 == HeldKeys { d: false, ..held }
            &&& one && (c == 'q' || c == 'Q') ==> r.2 == HeldKeys { q: false, ..held }
            &&& one && (c == 'e' || c == 'E') ==> r.2 == HeldKeys { e: false, ..held }
            &&& !one || !(c == 'w' || c == 'W' || c == 'a' || c == 'A' || c == 's' || c == 'S' || c
                == 'd' || c == 'D' || c == 'q' || c == 'Q' || c == 'e' || c == 'E') ==> r.2 == held
        }),
        controls_after(debug_mode, march_steps, held, ViewerEvent::KeyReleased(KeyInput::ArrowUp))
            == (debug_mode, march_steps, held, ViewerAction::Nothing),
        controls_after(debug_mode, march_steps, held, ViewerEvent::KeyReleased(KeyInput::Escape))
            == (debug_mode, march_steps, held, ViewerAction::Nothing),
{
}

/// Every event keeps the controls in range: the debug mode at most 9 and the
/// ray-march step count a power of two from 8 to 512.
pub proof fn lemma_controls_stay_in_range(
    debug_mode: u32,
    march_steps: u32,
    held: HeldKeys,
    event: ViewerEvent,
)
    requires
        debug_mode <= 9,
        valid_march_steps(march_steps),
    ensures
        controls_after(debug_mode, march_steps, held, event).0 <= 9,
        valid_march_steps(controls_after(debug_mode, march_steps, held, event).1),
{
}

/// Halving the step count and then doubling it gives it back when it is at
/// least 16; doubling and then halving gives it back when it is at most 256.
pub proof fn lemma_march_steps_round_trip(march_steps: u32)
    requires
        valid_march_steps(march_steps),
    ensures
        march_steps >= 16 ==> doubled_steps(halved_steps(march_steps)) == march_steps,
        march_steps <= 256 ==> halved_steps(doubled_steps(march_steps)) == march_steps,
{
}

/// Pressing a movement key that is not held and releasing it again leaves the
/// held keys as they were; while it is pressed, it is held.
pub proof fn lemma_press_release(
    debug_mode: u32,
    march_steps: u32,
    held: HeldKeys,
    down_text: String,
    up_text: String,
)
    requires
        is_movement_key(key_of_text(down_text@)),
        key_of_text(up_text@) == key_of_text(down_text@),
        !is_held(held, key_of_text(down_text@)),
    ensures
        ({
            let mid = controls_after(
                debug_mode,
                march_steps,
                held,
                ViewerEvent::KeyPressed(KeyInput::Text(down_text)),
            );
            let end = controls_after(
                mid.0,
                mid.1,
                mid.2,
                ViewerEvent::KeyReleased(KeyInput::Text(up_text)),
            );
            &&& is_held(mid.2, key_of_text(down_text@))
            &&& end.0 == debug_mode
            &&& end.1 == march_steps
            &&& end.2 == held
        }),
{
}

} // verus!

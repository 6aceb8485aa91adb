use iron_rainbow::controls::{
    accepts_size, key_name, render_outcome_action, KeyInput, KeyName, RenderOutcome,
    ViewerAction, ViewerControls, ViewerEvent,
};

fn press(c: &mut ViewerControls, text: &str) -> ViewerAction {
    c.on_event(ViewerEvent::KeyPressed(KeyInput::Text(text.to_string())))
}

fn release(c: &mut ViewerControls, text: &str) -> ViewerAction {
    c.on_event(ViewerEvent::KeyReleased(KeyInput::Text(text.to_string())))
}

#[test]
fn initial_controls() {
    let c = ViewerControls::new();
    assert_eq!(c.debug_mode(), 0);
    assert_eq!(c.march_steps(), 64);
    assert_eq!(c.movement_axes(), (0, 0, 0));
}

#[test]
fn key_names() {
    assert_eq!(key_name("w"), KeyName::W);
    assert_eq!(key_name("W"), KeyName::W);
    assert_eq!(key_name("7"), KeyName::Digit(7));
    assert_eq!(key_name("="), KeyName::Plus);
    assert_eq!(key_name("+"), KeyName::Plus);
    assert_eq!(key_name("_"), KeyName::Minus);
    assert_eq!(key_name("["), KeyName::LeftBracket);
    assert_eq!(key_name("ww"), KeyName::Unrecognized);
    assert_eq!(key_name(""), KeyName::Unrecognized);
    assert_eq!(key_name("z"), KeyName::Unrecognized);
}

#[test]
fn movement_keys_are_held_until_released() {
    let mut c = ViewerControls::new();
    assert_eq!(press(&mut c, "w"), ViewerAction::Nothing);
    assert_eq!(c.movement_axes(), (1, 0, 0));
    press(&mut c, "A");
    press(&mut c, "e");
    assert_eq!(c.movement_axes(), (1, -1, 1));
    press(&mut c, "s");
    assert_eq!(c.movement_axes(), (0, -1, 1));
    release(&mut c, "W");
    release(&mut c, "s");
    release(&mut c, "a");
    release(&mut c, "e");
    assert_eq!(c.movement_axes(), (0, 0, 0));
    let h = c.held();
    assert!(!h.w && !h.a && !h.s && !h.d && !h.q && !h.e);
}

#[test]
fn press_release_restores_held_keys() {
    let mut c = ViewerControls::new();
    press(&mut c, "d");
    let before = c.held();
    press(&mut c, "q");
    assert_eq!(c.movement_axes(), (0, 1, -1));
    release(&mut c, "q");
    assert_eq!(c.held(), before);
}

#[test]
fn digits_set_debug_mode() {
    let mut c = ViewerControls::new();
    assert_eq!(press(&mut c, "5"), ViewerAction::ShowDebugMode(5));
    assert_eq!(c.debug_mode(), 5);
    assert_eq!(press(&mut c, "0"), ViewerAction::ShowDebugMode(0));
    assert_eq!(c.debug_mode(), 0);
    assert_eq!(press(&mut c, "9"), ViewerAction::ShowDebugMode(9));
    assert_eq!(c.debug_mode(), 9);
}

#[test]
fn march_steps_halve_and_double_within_range() {
    let mut c = ViewerControls::new();
    assert_eq!(press(&mut c, "]"), ViewerAction::ShowMarchSteps(128));
    press(&mut c, "]");
    press(&mut c, "]");
    assert_eq!(c.march_steps(), 512);
    assert_eq!(press(&mut c, "]"), ViewerAction::ShowMarchSteps(512));
    for _ in 0..10 {
        press(&mut c, "[");
    }
    assert_eq!(c.march_steps(), 8);
    press(&mut c, "]");
    assert_eq!(c.march_steps(), 16);
    press(&mut c, "[");
    assert_eq!(c.march_steps(), 8);
}

#[test]
fn other_keys_and_events() {
    let mut c = ViewerControls::new();
    assert_eq!(press(&mut c, "r"), ViewerAction::ResetCamera);
    assert_eq!(press(&mut c, "P"), ViewerAction::PrintStatus);
    assert_eq!(press(&mut c, "+"), ViewerAction::ExposureUp);
    assert_eq!(press(&mut c, "-"), ViewerAction::ExposureDown);
    assert_eq!(press(&mut c, "x"), ViewerAction::Nothing);
    assert_eq!(
        c.on_event(ViewerEvent::KeyPressed(KeyInput::ArrowUp)),
        ViewerAction::SunElevationUp
    );
    assert_eq!(
        c.on_event(ViewerEvent::KeyPressed(KeyInput::ArrowLeft)),
        ViewerAction::SunAzimuthLeft
    );
    assert_eq!(
        c.on_event(ViewerEvent::KeyPressed(KeyInput::OtherNamed)),
        ViewerAction::Nothing
    );
    assert_eq!(c.on_event(ViewerEvent::CloseRequested), ViewerAction::Exit);
    assert_eq!(
        c.on_event(ViewerEvent::Resized(800, 600)),
        ViewerAction::Resize(800, 600)
    );
    assert_eq!(c.on_event(ViewerEvent::RedrawRequested), ViewerAction::Redraw);
    assert_eq!(c.on_event(ViewerEvent::LeftMousePressed), ViewerAction::GrabCursor);
    assert_eq!(c.on_event(ViewerEvent::AboutToWait), ViewerAction::RequestRedraw);
    assert_eq!(c.debug_mode(), 0);
    assert_eq!(c.march_steps(), 64);
}

#[test]
fn render_outcomes() {
    assert_eq!(render_outcome_action(RenderOutcome::Presented), ViewerAction::Nothing);
    assert_eq!(
        render_outcome_action(RenderOutcome::SurfaceLost),
        ViewerAction::ResizeToCurrent
    );
    assert_eq!(render_outcome_action(RenderOutcome::OutOfMemory), ViewerAction::Exit);
    assert_eq!(
        render_outcome_action(RenderOutcome::OtherError),
        ViewerAction::ReportRenderError
    );
}

#[test]
fn resize_needs_positive_size() {
    assert!(accepts_size(1, 1));
    assert!(!accepts_size(0, 600));
    assert!(!accepts_size(800, 0));
}

#[test]
fn escape_releases_cursor() {
    let mut c = ViewerControls::new();
    assert_eq!(
        c.on_event(ViewerEvent::KeyPressed(KeyInput::Escape)),
        ViewerAction::ReleaseCursor
    );
    assert_eq!(
        c.on_event(ViewerEvent::KeyReleased(KeyInput::Escape)),
        ViewerAction::Nothing
    );
}

use rlogout::dispatch::{keybind_matches, Effect, InputEvent, Phase, SessionController};
use rlogout::layout::parse_layout;

fn session(pointer: bool) -> SessionController {
    let b = parse_layout(
        r#"[
        {"label":"lock","action":"lock","text":"Lock","keybind":"l"},
        {"label":"reboot","action":"reboot","text":"Reboot","keybind":"Return"},
        {"label":"shutdown","action":"poweroff","text":"Shutdown","keybind":"Return"},
        {"label":"inert","action":"","text":"Nothing"}
    ]"#,
    )
    .unwrap();
    SessionController::new(&b, pointer)
}

fn key(name: &str) -> InputEvent {
    InputEvent::KeyReleased(Some(String::from(name)))
}

#[test]
fn two_triggers_run_one_command() {
    let mut s = session(true);
    assert!(!s.has_fired());
    let runs: Vec<Effect> = vec![
        s.handle(&InputEvent::ButtonClicked(0)),
        s.handle(&key("Return")),
        s.handle(&InputEvent::ButtonActivated(2)),
    ];
    assert_eq!(runs, vec![Effect::RunCommand(0), Effect::Nothing, Effect::Nothing]);
    assert!(s.has_fired());
    assert_eq!(s.phase(), Phase::Firing);
    assert_eq!(s.handle(&InputEvent::CommandFinished), Effect::CloseAllAndQuit);
    assert_eq!(s.phase(), Phase::Terminated);
    assert_eq!(s.handle(&InputEvent::ButtonClicked(1)), Effect::Nothing);
    assert_eq!(s.handle(&InputEvent::CommandFinished), Effect::Nothing);
}

#[test]
fn escape_cancels_without_running() {
    let mut s = session(true);
    assert_eq!(s.handle(&key("Escape")), Effect::CloseAllAndQuit);
    assert_eq!(s.phase(), Phase::Terminated);
    assert!(!s.has_fired());
    assert_eq!(s.handle(&key("l")), Effect::Nothing);
    assert_eq!(s.handle(&InputEvent::ButtonActivated(0)), Effect::Nothing);
    assert!(!s.has_fired());
}

#[test]
fn background_click_cancels_when_pointer_enabled() {
    let mut s = session(true);
    assert_eq!(s.handle(&InputEvent::BackgroundClicked), Effect::CloseAllAndQuit);
    assert_eq!(s.phase(), Phase::Terminated);
    assert!(!s.has_fired());
}

#[test]
fn pointer_disabled_ignores_clicks() {
    let mut s = session(false);
    assert_eq!(s.handle(&InputEvent::BackgroundClicked), Effect::Nothing);
    assert_eq!(s.handle(&InputEvent::ButtonClicked(0)), Effect::Nothing);
    assert_eq!(s.phase(), Phase::Idle);
    assert_eq!(s.handle(&InputEvent::ButtonActivated(3)), Effect::RunCommand(3));
}

#[test]
fn shared_keybind_fires_first_registered() {
    let mut s = session(true);
    assert_eq!(s.handle(&key("Return")), Effect::RunCommand(1));
    assert_eq!(s.handle(&key("Return")), Effect::Nothing);
}

#[test]
fn keybind_match_is_exact() {
    let mut s = session(true);
    assert_eq!(s.handle(&key("L")), Effect::Nothing);
    assert_eq!(s.handle(&key("return")), Effect::Nothing);
    assert_eq!(s.handle(&key("ll")), Effect::Nothing);
    assert_eq!(s.handle(&InputEvent::KeyReleased(None)), Effect::Nothing);
    assert_eq!(s.phase(), Phase::Idle);
    assert_eq!(s.handle(&key("l")), Effect::RunCommand(0));
    let k = |x: &str| Some(String::from(x));
    assert!(keybind_matches(&k("Return"), &k("Return")));
    assert!(!keybind_matches(&k("return"), &k("Return")));
    assert!(!keybind_matches(&k("Returns"), &k("Return")));
    assert!(!keybind_matches(&k("Return"), &None));
    assert!(!keybind_matches(&None, &None));
}

#[test]
fn out_of_range_button_is_ignored() {
    let mut s = session(true);
    assert_eq!(s.handle(&InputEvent::ButtonClicked(4)), Effect::Nothing);
    assert_eq!(s.handle(&InputEvent::ButtonActivated(9)), Effect::Nothing);
    assert_eq!(s.handle(&InputEvent::CommandFinished), Effect::Nothing);
    assert_eq!(s.phase(), Phase::Idle);
}

#[test]
fn backdrop_keys_only_cancel() {
    let mut s = session(true);
    let backdrop = |k: &str| InputEvent::BackdropKeyReleased(Some(String::from(k)));
    assert_eq!(s.handle(&backdrop("l")), Effect::Nothing);
    assert_eq!(s.handle(&backdrop("Return")), Effect::Nothing);
    assert_eq!(s.handle(&InputEvent::BackdropKeyReleased(None)), Effect::Nothing);
    assert_eq!(s.phase(), Phase::Idle);
    assert_eq!(s.handle(&backdrop("Escape")), Effect::CloseAllAndQuit);
    assert_eq!(s.phase(), Phase::Terminated);
    assert!(!s.has_fired());
}

use clatune::app::{App, ConnectOutcome, Effect, Key, KeyPress, BLINK_PERIOD_NANOS};
use clatune::devices::ClatuneDevice;

fn press(code: Key) -> KeyPress {
    KeyPress { code, ctrl: false }
}

fn ch(c: char) -> KeyPress {
    press(Key::Char(c))
}

fn device(id: &str, name: &str) -> ClatuneDevice {
    ClatuneDevice { id: id.to_string(), name: name.to_string() }
}

fn with_devices(n: usize) -> App {
    let mut app = App::new(0);
    app.devices = (0..n).map(|i| device(&format!("a:{i}"), &format!("Device {i}"))).collect();
    app
}

fn modes_exclusive(app: &App) -> bool {
    !(app.is_popup_open && app.is_reference_pitch_edit_on)
}

#[test]
fn new_app_starts_idle_at_440() {
    let app = App::new(42);
    assert!(!app.exit);
    assert!(!app.audio_connected);
    assert_eq!(app.last_tick, 42);
    assert!(!app.is_reference_pitch_edit_on);
    assert_eq!(app.reference_pitch, 440);
    assert!(!app.reference_pitch_blink_state);
    assert_eq!(app.tuner_data.cent, 0);
    assert_eq!(app.error_msg, "");
    assert!(!app.is_popup_open);
    assert!(app.devices.is_empty());
    assert_eq!(app.selected_device.id, "");
    assert_eq!(app.list_selected_index, 0);
}

#[test]
fn q_and_control_c_quit() {
    let mut app = App::new(0);
    assert_eq!(app.handle_key_event(ch('q'), 1), Effect::Nothing);
    assert!(app.exit);
    let mut app = App::new(0);
    app.is_popup_open = true;
    assert_eq!(app.handle_key_event(KeyPress { code: Key::Char('c'), ctrl: true }, 1), Effect::Nothing);
    assert!(app.exit);
}

#[test]
fn plain_c_does_not_quit() {
    let mut app = App::new(0);
    app.is_reference_pitch_edit_on = true;
    assert_eq!(app.handle_key_event(ch('c'), 1), Effect::Nothing);
    assert!(!app.exit);
    assert_eq!(app.reference_pitch, 440);
}

#[test]
fn quitting_is_final() {
    let mut app = with_devices(2);
    app.handle_key_event(ch('q'), 1);
    for key in [ch('i'), press(Key::Down), press(Key::Enter), ch('a'), press(Key::Esc), press(Key::Up)] {
        if app.accepts(key) {
            app.handle_key_event(key, 2);
        }
        assert!(app.exit);
    }
}

#[test]
fn i_toggles_the_device_list_and_asks_for_devices() {
    let mut app = with_devices(3);
    app.list_selected_index = 2;
    assert_eq!(app.handle_key_event(ch('i'), 1), Effect::RefreshDevices);
    assert!(app.is_popup_open);
    assert_eq!(app.list_selected_index, 0);
    assert_eq!(app.handle_key_event(ch('i'), 2), Effect::RefreshDevices);
    assert!(!app.is_popup_open);
}

#[test]
fn i_closes_the_pitch_editor_and_restarts_blinking() {
    let mut app = App::new(0);
    app.is_reference_pitch_edit_on = true;
    app.reference_pitch_blink_state = true;
    assert_eq!(app.handle_key_event(ch('i'), 77), Effect::RefreshDevices);
    assert!(!app.is_reference_pitch_edit_on);
    assert!(!app.reference_pitch_blink_state);
    assert_eq!(app.last_tick, 77);
    assert!(app.is_popup_open);
}

#[test]
fn a_toggles_the_pitch_editor_and_closes_the_list() {
    let mut app = with_devices(2);
    app.is_popup_open = true;
    app.list_selected_index = 1;
    app.reference_pitch_blink_state = true;
    assert_eq!(app.handle_key_event(ch('a'), 5), Effect::Nothing);
    assert!(app.is_reference_pitch_edit_on);
    assert!(!app.is_popup_open);
    assert_eq!(app.list_selected_index, 0);
    assert!(!app.reference_pitch_blink_state);
    assert_eq!(app.last_tick, 0);
    app.handle_key_event(ch('a'), 6);
    assert!(!app.is_reference_pitch_edit_on);
}

#[test]
fn list_and_editor_are_never_open_together() {
    let mut app = with_devices(2);
    let keys = [ch('i'), ch('a'), ch('a'), ch('i'), ch('i'), press(Key::Esc), ch('a'), press(Key::Enter), ch('i'), press(Key::Enter)];
    for (t, key) in keys.into_iter().enumerate() {
        if app.accepts(key) {
            app.handle_key_event(key, t as u64);
        }
        assert!(modes_exclusive(&app));
    }
}

#[test]
fn list_navigation_stops_at_both_ends() {
    let mut app = with_devices(3);
    app.is_popup_open = true;
    app.handle_key_event(press(Key::Up), 1);
    assert_eq!(app.list_selected_index, 0);
    app.handle_key_event(press(Key::Down), 1);
    app.handle_key_event(ch('j'), 1);
    assert_eq!(app.list_selected_index, 2);
    app.handle_key_event(press(Key::Down), 1);
    assert_eq!(app.list_selected_index, 2);
    app.handle_key_event(ch('k'), 1);
    assert_eq!(app.list_selected_index, 1);
}

#[test]
fn r_in_the_list_asks_for_devices() {
    let mut app = with_devices(1);
    app.is_popup_open = true;
    assert_eq!(app.handle_key_event(ch('r'), 1), Effect::RefreshDevices);
    assert!(app.is_popup_open);
}

#[test]
fn esc_closes_the_list() {
    let mut app = with_devices(1);
    app.is_popup_open = true;
    assert_eq!(app.handle_key_event(press(Key::Esc), 1), Effect::Nothing);
    assert!(!app.is_popup_open);
}

#[test]
fn enter_selects_the_device_and_reconnects() {
    let mut app = with_devices(3);
    app.audio_connected = true;
    app.is_popup_open = true;
    app.list_selected_index = 1;
    assert_eq!(app.handle_key_event(press(Key::Enter), 1), Effect::ReconnectAudio);
    assert_eq!(app.selected_device.id, "a:1");
    assert_eq!(app.selected_device.name, "Device 1");
    assert!(!app.audio_connected);
    assert!(!app.is_popup_open);
}

#[test]
fn keys_that_would_fail_are_refused() {
    let mut app = with_devices(0);
    app.is_popup_open = true;
    assert!(!app.accepts(press(Key::Down)));
    assert!(!app.accepts(ch('j')));
    assert!(!app.accepts(press(Key::Enter)));
    assert!(app.accepts(press(Key::Up)));
    assert!(app.accepts(ch('q')));
    let mut app = with_devices(2);
    app.is_popup_open = true;
    app.list_selected_index = 5;
    assert!(!app.accepts(press(Key::Enter)));
    assert!(app.accepts(press(Key::Down)));
    let mut app = App::new(0);
    app.is_reference_pitch_edit_on = true;
    app.reference_pitch = u16::MAX;
    assert!(!app.accepts(press(Key::Up)));
    assert!(!app.accepts(ch('l')));
    assert!(app.accepts(press(Key::Down)));
    app.is_reference_pitch_edit_on = false;
    assert!(app.accepts(press(Key::Up)));
}

#[test]
fn editor_raises_and_lowers_the_reference_pitch() {
    let mut app = App::new(0);
    app.handle_key_event(ch('a'), 1);
    app.reference_pitch_blink_state = true;
    for key in [press(Key::Up), ch('k'), press(Key::Right), ch('l')] {
        app.handle_key_event(key, 10);
    }
    assert_eq!(app.reference_pitch, 444);
    assert!(!app.reference_pitch_blink_state);
    assert_eq!(app.last_tick, 10);
    for key in [press(Key::Down), ch('j'), press(Key::Left), ch('h'), press(Key::Down)] {
        app.handle_key_event(key, 20);
    }
    assert_eq!(app.reference_pitch, 439);
    assert_eq!(app.last_tick, 20);
}

#[test]
fn raising_then_lowering_restores_the_pitch() {
    let mut app = App::new(0);
    app.is_reference_pitch_edit_on = true;
    app.reference_pitch = 432;
    app.handle_key_event(press(Key::Up), 1);
    assert_eq!(app.reference_pitch, 433);
    app.handle_key_event(press(Key::Down), 2);
    assert_eq!(app.reference_pitch, 432);
}

#[test]
fn pitch_does_not_go_below_zero() {
    let mut app = App::new(0);
    app.is_reference_pitch_edit_on = true;
    app.reference_pitch = 0;
    app.handle_key_event(press(Key::Down), 1);
    assert_eq!(app.reference_pitch, 0);
}

#[test]
fn pitch_keys_do_nothing_outside_the_editor() {
    let mut app = App::new(0);
    for key in [press(Key::Up), press(Key::Down), ch('k'), press(Key::Enter), press(Key::Esc), press(Key::Other)] {
        assert_eq!(app.handle_key_event(key, 1), Effect::Nothing);
    }
    assert_eq!(app.reference_pitch, 440);
    let mut app = with_devices(2);
    app.is_popup_open = true;
    app.handle_key_event(press(Key::Right), 1);
    assert_eq!(app.reference_pitch, 440);
}

#[test]
fn closing_the_editor_reconnects_with_the_new_pitch() {
    for key in [press(Key::Esc), press(Key::Enter)] {
        let mut app = App::new(0);
        app.audio_connected = true;
        app.handle_key_event(ch('a'), 1);
        app.handle_key_event(press(Key::Up), 2);
        assert_eq!(app.handle_key_event(key, 3), Effect::ReconnectAudio);
        assert!(!app.is_reference_pitch_edit_on);
        assert!(!app.audio_connected);
        assert_eq!(app.reference_pitch, 441);
        assert_eq!(app.last_tick, 3);
    }
}

#[test]
fn blinking_flips_after_half_a_second() {
    let mut app = App::new(1000);
    app.blink_on_tick(1000 + BLINK_PERIOD_NANOS);
    assert!(!app.reference_pitch_blink_state);
    app.blink_on_tick(1001 + BLINK_PERIOD_NANOS);
    assert!(app.reference_pitch_blink_state);
    assert_eq!(app.last_tick, 1001 + BLINK_PERIOD_NANOS);
    app.blink_on_tick(1001 + 2 * BLINK_PERIOD_NANOS);
    assert!(app.reference_pitch_blink_state);
    app.blink_on_tick(1002 + 2 * BLINK_PERIOD_NANOS);
    assert!(!app.reference_pitch_blink_state);
}

#[test]
fn blinking_ignores_a_clock_that_went_back() {
    let mut app = App::new(5_000_000_000);
    app.blink_on_tick(0);
    assert!(!app.reference_pitch_blink_state);
    assert_eq!(app.last_tick, 5_000_000_000);
}

#[test]
fn ticks_blink_only_while_editing() {
    let mut app = App::new(0);
    app.tick(BLINK_PERIOD_NANOS * 3);
    assert!(!app.reference_pitch_blink_state);
    app.handle_key_event(ch('a'), 1);
    app.tick(BLINK_PERIOD_NANOS * 3);
    assert!(app.reference_pitch_blink_state);
}

#[test]
fn device_answer_fills_the_list_and_the_selection() {
    let mut app = App::new(0);
    app.handle_devices(Ok((vec![device("a:1", "Mic"), device("a:2", "Line")], device("a:2", "Line"))));
    assert_eq!(app.devices.len(), 2);
    assert_eq!(app.selected_device.id, "a:2");
    app.handle_devices(Ok((vec![device("a:3", "Other")], device("a:3", "Other"))));
    assert_eq!(app.devices.len(), 1);
    assert_eq!(app.selected_device.id, "a:2");
}

#[test]
fn device_error_is_shown() {
    let mut app = with_devices(2);
    app.handle_devices(Err("No input devices found".to_string()));
    assert_eq!(app.error_msg, "No input devices found");
    assert_eq!(app.devices.len(), 2);
}

#[test]
fn connection_outcomes() {
    let mut app = App::new(0);
    app.connect_audio(ConnectOutcome::InvalidDeviceId("expected host:device_id".to_string()));
    assert_eq!(app.error_msg, "Invalid device ID: expected host:device_id");
    assert!(!app.audio_connected);
    app.connect_audio(ConnectOutcome::Connected);
    assert_eq!(app.error_msg, "");
    assert!(app.audio_connected);
    app.connect_audio(ConnectOutcome::Failed("Failed to build input stream: busy".to_string()));
    assert_eq!(app.error_msg, "Failed to build input stream: busy");
    assert!(app.audio_connected);
    app.disconnect_audio();
    assert!(!app.audio_connected);
}

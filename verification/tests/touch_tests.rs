use dcpowerunit::touch::Key;
use dcpowerunit::touch::KeyActivation;
use dcpowerunit::touch::KeyEvent;
use dcpowerunit::touch::TouchPad;

fn none_active() -> KeyActivation {
    KeyActivation { up: false, down: false, left: false, right: false, center: false }
}

fn up_active() -> KeyActivation {
    KeyActivation { up: true, down: false, left: false, right: false, center: false }
}

fn center_active() -> KeyActivation {
    KeyActivation { up: false, down: false, left: false, right: false, center: true }
}

#[test]
fn press_release_emits_one_down_one_up() {
    // active -> inactive -> active with a positive gap: exactly one
    // KeyDown, then one KeyUp, then one KeyDown again.
    let mut pad = TouchPad::new(0);
    pad.poll_active(up_active(), 100);
    pad.poll_active(up_active(), 200); // still held: no new event
    pad.poll_active(none_active(), 300);
    pad.poll_active(none_active(), 400); // still released: no new event
    pad.poll_active(up_active(), 500);
    let events = pad.get_key_event_and_clear();
    assert_eq!(
        events,
        vec![KeyEvent::UpKeyDown, KeyEvent::UpKeyUp, KeyEvent::UpKeyDown]
    );
}

#[test]
fn no_long_press_before_threshold() {
    let mut pad = TouchPad::new(0);
    pad.set_press_threshold(Key::Up, 300, true);
    pad.poll_active(up_active(), 100);
    // Exactly at the threshold (300 ms elapsed at t=400): not yet.
    pad.poll_long_press(200);
    pad.poll_long_press(400);
    let events = pad.get_key_event_and_clear();
    assert_eq!(events, vec![KeyEvent::UpKeyDown]);
}

#[test]
fn long_press_fires_past_threshold() {
    let mut pad = TouchPad::new(0);
    pad.set_press_threshold(Key::Up, 300, true);
    pad.poll_active(up_active(), 100);
    pad.poll_long_press(401);
    let events = pad.get_key_event_and_clear();
    assert_eq!(events, vec![KeyEvent::UpKeyDown, KeyEvent::UpKeyDownLong]);
}

#[test]
fn long_press_without_repeat_fires_exactly_once() {
    // allow_repeat = false: one DownLong however long the press
    // persists beyond the threshold.
    let mut pad = TouchPad::new(0);
    pad.set_press_threshold(Key::Center, 1000, false);
    pad.poll_active(center_active(), 0);
    pad.poll_long_press(1500);
    pad.poll_long_press(5000);
    pad.poll_long_press(100_000);
    let events = pad.get_key_event_and_clear();
    assert_eq!(events, vec![KeyEvent::CenterKeyDown, KeyEvent::CenterKeyDownLong]);
}

#[test]
fn long_press_with_repeat_refires() {
    let mut pad = TouchPad::new(0);
    pad.set_press_threshold(Key::Up, 300, true);
    pad.poll_active(up_active(), 0);
    pad.poll_long_press(400); // fires, re-arms at 400
    pad.poll_long_press(600); // 200 ms since re-arm: silent
    pad.poll_long_press(800); // 400 ms since re-arm: fires again
    let events = pad.get_key_event_and_clear();
    assert_eq!(
        events,
        vec![KeyEvent::UpKeyDown, KeyEvent::UpKeyDownLong, KeyEvent::UpKeyDownLong]
    );
}

#[test]
fn release_rearms_single_fire_long_press() {
    let mut pad = TouchPad::new(0);
    pad.set_press_threshold(Key::Center, 1000, false);
    pad.poll_active(center_active(), 0);
    pad.poll_long_press(1500);
    pad.poll_active(none_active(), 2000);
    pad.poll_active(center_active(), 3000);
    pad.poll_long_press(4500);
    let events = pad.get_key_event_and_clear();
    assert_eq!(
        events,
        vec![
            KeyEvent::CenterKeyDown,
            KeyEvent::CenterKeyDownLong,
            KeyEvent::CenterKeyUp,
            KeyEvent::CenterKeyDown,
            KeyEvent::CenterKeyDownLong,
        ]
    );
}

#[test]
fn combination_suppresses_individual_transitions() {
    let mut pad = TouchPad::new(0);
    let both = KeyActivation { up: true, down: true, left: false, right: false, center: false };
    pad.poll_active(both, 100);
    let events = pad.get_key_event_and_clear();
    assert_eq!(events, vec![KeyEvent::UpDownKeyCombinationDown]);
    // The keys never entered the pressed state during the combination.
    assert!(!pad.get_touchpad_status(Key::Up));
    assert!(!pad.get_touchpad_status(Key::Down));
}

#[test]
fn pressed_state_tracks_polls() {
    let mut pad = TouchPad::new(0);
    assert!(!pad.get_touchpad_status(Key::Up));
    pad.poll_active(up_active(), 100);
    assert!(pad.get_touchpad_status(Key::Up));
    assert!(!pad.get_touchpad_status(Key::Down));
    pad.poll_active(none_active(), 250);
    assert!(!pad.get_touchpad_status(Key::Up));
}

#[test]
fn press_duration_recorded_on_release() {
    let mut pad = TouchPad::new(0);
    pad.poll_active(up_active(), 100);
    assert_eq!(pad.get_button_press_time(Key::Up), 0);
    pad.poll_active(none_active(), 350);
    assert_eq!(pad.get_button_press_time(Key::Up), 250);
}

#[test]
fn queue_drains_atomically_in_fifo_order() {
    let mut pad = TouchPad::new(0);
    pad.poll_active(up_active(), 100);
    pad.poll_active(none_active(), 200);
    pad.poll_active(center_active(), 300);
    let events = pad.get_key_event_and_clear();
    assert_eq!(
        events,
        vec![KeyEvent::UpKeyDown, KeyEvent::UpKeyUp, KeyEvent::CenterKeyDown]
    );
    // Fully drained: a second read sees nothing.
    assert!(pad.get_key_event_and_clear().is_empty());
}

#[test]
fn clear_discards_pending_events() {
    let mut pad = TouchPad::new(0);
    pad.poll_active(up_active(), 100);
    pad.clear_all_button_event();
    assert!(pad.get_key_event_and_clear().is_empty());
    // The key state survives the clear.
    assert!(pad.get_touchpad_status(Key::Up));
}

#[test]
fn simultaneous_distinct_keys_queue_in_key_order() {
    let mut pad = TouchPad::new(0);
    let up_and_center =
        KeyActivation { up: true, down: false, left: false, right: false, center: true };
    pad.poll_active(up_and_center, 100);
    let events = pad.get_key_event_and_clear();
    assert_eq!(events, vec![KeyEvent::UpKeyDown, KeyEvent::CenterKeyDown]);
}

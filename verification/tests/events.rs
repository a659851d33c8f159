use arcaders::phi::events::{Events, Key, RawEvent};

#[test]
fn press_then_release_in_one_batch_wins_as_released() {
    let mut e = Events::new();
    e.pump(&vec![RawEvent::KeyDown(Key::Space), RawEvent::KeyUp(Key::Space)]);
    assert_eq!(e.now.key_space, Some(false));
    assert!(!e.key_space);
}

#[test]
fn held_key_reports_just_pressed_only_once() {
    let mut e = Events::new();
    e.pump(&vec![RawEvent::KeyDown(Key::Up)]);
    assert_eq!(e.now.key_up, Some(true));
    assert!(e.key_up);
    e.pump(&vec![]);
    assert_eq!(e.now.key_up, None);
    assert!(e.key_up);
}

#[test]
fn key_down_while_held_does_not_record_a_transition() {
    let mut e = Events::new();
    e.pump(&vec![RawEvent::KeyDown(Key::Left)]);
    e.pump(&vec![RawEvent::KeyDown(Key::Left)]);
    assert_eq!(e.now.key_left, None);
    assert!(e.key_left);
}

#[test]
fn release_then_press_in_one_batch_wins_as_pressed() {
    let mut e = Events::new();
    e.pump(&vec![RawEvent::KeyDown(Key::Right)]);
    e.pump(&vec![RawEvent::KeyUp(Key::Right), RawEvent::KeyDown(Key::Right)]);
    assert_eq!(e.now.key_right, Some(true));
    assert!(e.key_right);
}

#[test]
fn key_up_of_unheld_key_still_records_release() {
    let mut e = Events::new();
    e.pump(&vec![RawEvent::KeyUp(Key::Escape)]);
    assert_eq!(e.now.key_escape, Some(false));
    assert!(!e.key_escape);
}

#[test]
fn quit_is_sticky_for_the_frame() {
    let mut e = Events::new();
    e.pump(&vec![
        RawEvent::Quit,
        RawEvent::KeyDown(Key::Down),
        RawEvent::Resized(640, 480),
    ]);
    assert!(e.now.quit);
    // ... and gone once the next frame's batch replaces the snapshot.
    e.pump(&vec![]);
    assert!(!e.now.quit);
}

#[test]
fn last_resize_of_the_frame_wins() {
    let mut e = Events::new();
    e.pump(&vec![RawEvent::Resized(100, 200), RawEvent::Resized(300, 400)]);
    assert_eq!(e.now.resize, Some((300, 400)));
}

#[test]
fn untracked_events_are_ignored() {
    let mut e = Events::new();
    e.pump(&vec![RawEvent::Other, RawEvent::Other]);
    assert_eq!(e, Events::new());
}

#[test]
fn snapshot_is_replaced_wholesale_each_pump() {
    let mut e = Events::new();
    e.pump(&vec![RawEvent::KeyDown(Key::Space), RawEvent::Resized(1, 2)]);
    assert_eq!(e.now.key_space, Some(true));
    assert_eq!(e.now.resize, Some((1, 2)));
    e.pump(&vec![RawEvent::Quit]);
    assert_eq!(e.now.key_space, None);
    assert_eq!(e.now.resize, None);
    assert!(e.now.quit);
    assert!(e.key_space);
}

#[test]
fn keys_aggregate_independently() {
    let mut e = Events::new();
    e.pump(&vec![
        RawEvent::KeyDown(Key::Up),
        RawEvent::KeyDown(Key::Left),
        RawEvent::KeyUp(Key::Up),
    ]);
    assert_eq!(e.now.key_up, Some(false));
    assert_eq!(e.now.key_left, Some(true));
    assert!(!e.key_up);
    assert!(e.key_left);
    assert_eq!(e.now.key_down, None);
}

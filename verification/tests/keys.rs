use mandelbrot::keys::{
    active_key_order, is_key_down, key_press, shift_step, Key, ACTIVE_KEY_COUNT,
};

#[test]
fn no_key_held_presses_nothing() {
    assert_eq!(key_press(&Vec::new()), None);
}

#[test]
fn single_key_held_is_pressed() {
    for key in active_key_order() {
        assert_eq!(key_press(&vec![key]), Some(key));
    }
}

#[test]
fn active_keys_come_in_priority_order() {
    assert_eq!(
        active_key_order(),
        [
            Key::Left,
            Key::Right,
            Key::Up,
            Key::Down,
            Key::NumPadPlus,
            Key::Minus,
            Key::NumPadMinus,
            Key::Q,
            Key::Escape,
            Key::C,
        ]
    );
    assert_eq!(ACTIVE_KEY_COUNT, 10);
}

#[test]
fn first_key_in_priority_order_wins() {
    assert_eq!(key_press(&vec![Key::C, Key::Left]), Some(Key::Left));
    assert_eq!(key_press(&vec![Key::Down, Key::Up, Key::Right]), Some(Key::Right));
    assert_eq!(key_press(&vec![Key::Q, Key::NumPadPlus]), Some(Key::NumPadPlus));
    assert_eq!(key_press(&vec![Key::NumPadMinus, Key::Minus]), Some(Key::Minus));
    assert_eq!(key_press(&vec![Key::Escape, Key::Q]), Some(Key::Q));
    assert_eq!(key_press(&vec![Key::C, Key::Escape]), Some(Key::Escape));
    assert_eq!(key_press(&vec![Key::C, Key::C]), Some(Key::C));
}

#[test]
fn every_earlier_key_beats_every_later_key() {
    let order = active_key_order();
    for first in 0..order.len() {
        for second in first..order.len() {
            assert_eq!(key_press(&vec![order[second], order[first]]), Some(order[first]));
            assert_eq!(key_press(&vec![order[first], order[second]]), Some(order[first]));
        }
    }
}

#[test]
fn is_key_down_finds_held_keys_only() {
    let held = vec![Key::Up, Key::C];
    assert!(is_key_down(&held, Key::Up));
    assert!(is_key_down(&held, Key::C));
    assert!(!is_key_down(&held, Key::Down));
    assert!(!is_key_down(&Vec::new(), Key::Up));
}

#[test]
fn direction_keys_step_along_their_axis() {
    assert_eq!(shift_step(Key::Left), (-1, 0));
    assert_eq!(shift_step(Key::Right), (1, 0));
    assert_eq!(shift_step(Key::Up), (0, 1));
    assert_eq!(shift_step(Key::Down), (0, -1));
}

#[test]
fn other_keys_do_not_step() {
    for key in [Key::NumPadPlus, Key::Minus, Key::NumPadMinus, Key::Q, Key::Escape, Key::C] {
        assert_eq!(shift_step(key), (0, 0));
    }
}

#[test]
fn opposite_steps_cancel() {
    let (left, right) = (shift_step(Key::Left), shift_step(Key::Right));
    assert_eq!((left.0 + right.0, left.1 + right.1), (0, 0));
    let (up, down) = (shift_step(Key::Up), shift_step(Key::Down));
    assert_eq!((up.0 + down.0, up.1 + down.1), (0, 0));
}

#[test]
fn some_key_is_pressed_whenever_one_is_held() {
    let order = active_key_order();
    for first in order {
        for second in order {
            assert!(key_press(&vec![first, second]).is_some());
        }
    }
}

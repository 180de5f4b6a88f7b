use magic_remap::device::{contains_str, is_key_event, is_keyboard_name, virtual_key_codes};
use magic_remap::engine::{lookup, process, Action, KeyEvent, ModifierState, RemapEngine};
use magic_remap::keys::{
    EV_KEY, KEY_102ND, KEY_A, KEY_B, KEY_CAPSLOCK, KEY_DOWN, KEY_ESC, KEY_FN, KEY_GRAVE, KEY_H,
    KEY_J, KEY_K, KEY_L, KEY_LEFT, KEY_LEFTCTRL, KEY_LEFTMETA, KEY_RIGHT, KEY_UP,
};

fn ev(code: u16, value: i32) -> KeyEvent {
    KeyEvent { event_class: EV_KEY, key_code: code, value }
}

const HELD: ModifierState = ModifierState { function_held: true };
const FREE: ModifierState = ModifierState { function_held: false };

#[test]
fn unmapped_key_passes_through_in_any_state() {
    for state in [HELD, FREE] {
        for value in [0, 1, 2] {
            let e = ev(KEY_A, value);
            let (out, next) = process(e, state);
            assert_eq!(out, vec![e]);
            assert_eq!(next, state);
        }
    }
    let odd = KeyEvent { event_class: EV_KEY, key_code: 600, value: 1 };
    assert_eq!(process(odd, HELD), (vec![odd], HELD));
}

#[test]
fn swap_pairs_invert() {
    for (a, b) in [(KEY_CAPSLOCK, KEY_ESC), (KEY_102ND, KEY_GRAVE)] {
        for value in [0, 1, 2] {
            for (s1, s2) in [(HELD, FREE), (FREE, HELD), (HELD, HELD), (FREE, FREE)] {
                let (out, _) = process(ev(a, value), s1);
                assert_eq!(out, vec![ev(b, value)]);
                let (back, _) = process(out[0], s2);
                assert_eq!(back, vec![ev(a, value)]);
            }
        }
    }
}

#[test]
fn capslock_becomes_escape() {
    assert_eq!(process(ev(KEY_CAPSLOCK, 1), FREE), (vec![ev(KEY_ESC, 1)], FREE));
    assert_eq!(process(ev(KEY_ESC, 0), HELD), (vec![ev(KEY_CAPSLOCK, 0)], HELD));
    assert_eq!(process(ev(KEY_GRAVE, 2), FREE), (vec![ev(KEY_102ND, 2)], FREE));
}

#[test]
fn function_modifier_is_swallowed() {
    for state in [HELD, FREE] {
        let (out, next) = process(ev(KEY_FN, 1), state);
        assert!(out.is_empty());
        assert_eq!(next, HELD);
        let (out, next) = process(ev(KEY_FN, 0), state);
        assert!(out.is_empty());
        assert_eq!(next, FREE);
    }
    let (out, next) = process(ev(KEY_FN, 2), FREE);
    assert!(out.is_empty());
    assert_eq!(next, HELD);
}

#[test]
fn direction_cluster_depends_on_modifier() {
    assert_eq!(process(ev(KEY_H, 1), HELD), (vec![ev(KEY_LEFT, 1)], HELD));
    assert_eq!(process(ev(KEY_H, 1), FREE), (vec![ev(KEY_H, 1)], FREE));
    assert_eq!(process(ev(KEY_J, 1), HELD).0, vec![ev(KEY_DOWN, 1)]);
    assert_eq!(process(ev(KEY_K, 0), HELD).0, vec![ev(KEY_UP, 0)]);
    assert_eq!(process(ev(KEY_L, 2), HELD).0, vec![ev(KEY_RIGHT, 2)]);
    assert_eq!(process(ev(KEY_L, 2), FREE).0, vec![ev(KEY_L, 2)]);
}

#[test]
fn leftmeta_becomes_leftctrl_always() {
    for state in [HELD, FREE] {
        assert_eq!(process(ev(KEY_LEFTMETA, 1), state), (vec![ev(KEY_LEFTCTRL, 1)], state));
    }
}

#[test]
fn event_class_is_carried_through() {
    let e = KeyEvent { event_class: 7, key_code: KEY_CAPSLOCK, value: 1 };
    let (out, _) = process(e, FREE);
    assert_eq!(out, vec![KeyEvent { event_class: 7, key_code: KEY_ESC, value: 1 }]);
}

#[test]
fn lookup_table() {
    assert_eq!(lookup(KEY_FN, false), Action::Swallow);
    assert_eq!(lookup(KEY_CAPSLOCK, false), Action::Remap(KEY_ESC));
    assert_eq!(lookup(KEY_H, true), Action::Remap(KEY_LEFT));
    assert_eq!(lookup(KEY_H, false), Action::PassThrough);
    assert_eq!(lookup(KEY_A, true), Action::PassThrough);
}

#[test]
fn batch_keeps_order() {
    let input = vec![ev(KEY_A, 1), ev(KEY_B, 1), ev(KEY_A, 0)];
    let mut engine = RemapEngine::new();
    let groups = engine.handle_batch(&input);
    let flat: Vec<KeyEvent> = groups.into_iter().flatten().collect();
    assert_eq!(flat, input);
    assert_eq!(engine.state(), FREE);
}

#[test]
fn batch_state_follows_last_modifier() {
    let mut engine = RemapEngine::new();
    let input = vec![
        ev(KEY_A, 1),
        ev(KEY_FN, 1),
        ev(KEY_H, 1),
        ev(KEY_B, 1),
        ev(KEY_FN, 0),
        ev(KEY_A, 0),
        ev(KEY_FN, 1),
        ev(KEY_J, 1),
        ev(KEY_B, 0),
    ];
    let groups = engine.handle_batch(&input);
    assert_eq!(engine.state(), HELD);
    assert_eq!(groups.len(), input.len());
    assert_eq!(groups[1], vec![]);
    assert_eq!(groups[2], vec![ev(KEY_LEFT, 1)]);
    assert_eq!(groups[7], vec![ev(KEY_DOWN, 1)]);

    let mut other = RemapEngine::new();
    other.handle_batch(&vec![ev(KEY_FN, 1), ev(KEY_A, 1), ev(KEY_FN, 0), ev(KEY_H, 1)]);
    assert_eq!(other.state(), FREE);
    other.handle_batch(&vec![ev(KEY_A, 1), ev(KEY_B, 1)]);
    assert_eq!(other.state(), FREE);
}

#[test]
fn handle_updates_state() {
    let mut engine = RemapEngine::new();
    assert_eq!(engine.state(), FREE);
    assert!(engine.handle(ev(KEY_FN, 1)).is_empty());
    assert_eq!(engine.handle(ev(KEY_K, 1)), vec![ev(KEY_UP, 1)]);
    assert!(engine.handle(ev(KEY_FN, 0)).is_empty());
    assert_eq!(engine.handle(ev(KEY_K, 0)), vec![ev(KEY_K, 0)]);
}

#[test]
fn empty_batch() {
    let mut engine = RemapEngine::new();
    assert!(engine.handle_batch(&vec![]).is_empty());
    assert_eq!(engine.state(), FREE);
}

#[test]
fn keyboard_names() {
    assert!(is_keyboard_name("usb-Apple_Inc._Magic_Keyboard_with_Numeric_Keypad-if01-event-kbd"));
    assert!(!is_keyboard_name("usb-Apple_Inc._Magic_Trackpad-event-mouse"));
    assert!(!is_keyboard_name("usb-Logitech-event-kbd"));
    assert!(!is_keyboard_name(""));
    assert!(contains_str("abc", ""));
    assert!(contains_str("abc", "abc"));
    assert!(contains_str("abcabd", "abd"));
    assert!(!contains_str("ab", "abc"));
}

#[test]
fn key_class_filter() {
    assert!(is_key_event(&ev(KEY_A, 1)));
    assert!(!is_key_event(&KeyEvent { event_class: 0, key_code: 0, value: 0 }));
}

#[test]
fn virtual_keys_span_one_to_247() {
    let codes = virtual_key_codes();
    assert_eq!(codes.len(), 247);
    assert_eq!(codes[0], 1);
    assert_eq!(codes[246], 247);
}

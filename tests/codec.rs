use fn_shortcut::codec::{
    build_accelerator_string, flag_set, keycode_to_string, FLAG_COMMAND, FLAG_CONTROL, FLAG_FN,
    FLAG_OPTION, FLAG_SHIFT,
};

#[test]
fn keycode_letters_and_digits() {
    assert_eq!(keycode_to_string(0), "A");
    assert_eq!(keycode_to_string(5), "G");
    assert_eq!(keycode_to_string(18), "1");
    assert_eq!(keycode_to_string(29), "0");
    assert_eq!(keycode_to_string(42), "\\");
}

#[test]
fn keycode_named_keys() {
    assert_eq!(keycode_to_string(36), "Return");
    assert_eq!(keycode_to_string(48), "Tab");
    assert_eq!(keycode_to_string(49), "Space");
    assert_eq!(keycode_to_string(51), "Delete");
    assert_eq!(keycode_to_string(53), "Escape");
    assert_eq!(keycode_to_string(122), "F1");
    assert_eq!(keycode_to_string(111), "F12");
}

#[test]
fn keycode_unknown() {
    assert_eq!(keycode_to_string(10), "Unknown");
    assert_eq!(keycode_to_string(52), "Unknown");
    assert_eq!(keycode_to_string(-1), "Unknown");
    assert_eq!(keycode_to_string(i64::MAX), "Unknown");
}

#[test]
fn accelerator_fn_control_a() {
    assert_eq!(build_accelerator_string(FLAG_FN | FLAG_CONTROL, 0), "Fn+Control+A");
}

#[test]
fn accelerator_all_modifiers_in_canonical_order() {
    let flags = FLAG_FN | FLAG_COMMAND | FLAG_SHIFT | FLAG_OPTION | FLAG_CONTROL;
    assert_eq!(build_accelerator_string(flags, 49), "Fn+Control+Option+Shift+Command+Space");
}

#[test]
fn accelerator_always_starts_with_fn() {
    assert_eq!(build_accelerator_string(0, 5), "Fn+G");
    assert_eq!(build_accelerator_string(FLAG_SHIFT, 200), "Fn+Shift+Unknown");
}

#[test]
fn flag_set_tests_bits() {
    assert!(flag_set(FLAG_FN | FLAG_SHIFT, FLAG_FN));
    assert!(flag_set(FLAG_FN | FLAG_SHIFT, FLAG_SHIFT));
    assert!(!flag_set(FLAG_FN, FLAG_COMMAND));
    assert!(!flag_set(0, FLAG_FN));
}

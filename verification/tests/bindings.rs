use yasc_core::environment::key_bindings::{
    binding_for, BindRoles, ComposedKeystroke, GeneralizedKeystroke, InputButton, KEY_D,
    KEY_ESCAPE, KEY_RETURN,
};

#[test]
fn default_keyboard_binding_maps_roles() {
    let map = BindRoles::default_keyboard_binding();
    let start = binding_for(&map, &BindRoles::START).unwrap();
    assert!(start.contains(GeneralizedKeystroke::Keyboard(KEY_RETURN)));
    assert!(!start.contains(GeneralizedKeystroke::Keyboard(KEY_D)));
    let back = binding_for(&map, &BindRoles::BACK).unwrap();
    assert!(back.contains(GeneralizedKeystroke::Keyboard(KEY_ESCAPE)));
    let bt_a = binding_for(&map, &BindRoles::BT_A).unwrap();
    assert_eq!(bt_a.0, vec![GeneralizedKeystroke::Keyboard(KEY_D)]);
}

#[test]
fn composed_keystroke_sorts_and_dedupes() {
    let mut ck = ComposedKeystroke::new(GeneralizedKeystroke::Keyboard(50));
    ck.add(GeneralizedKeystroke::Keyboard(10));
    ck.add(GeneralizedKeystroke::Controller(3));
    ck.add(GeneralizedKeystroke::Keyboard(50));
    assert_eq!(
        ck.0,
        vec![
            GeneralizedKeystroke::Keyboard(10),
            GeneralizedKeystroke::Keyboard(50),
            GeneralizedKeystroke::Controller(3),
        ]
    );
    assert!(ck.contains(GeneralizedKeystroke::Keyboard(10)));
    assert!(ck.contains(GeneralizedKeystroke::Keyboard(50)));
    assert!(ck.contains(GeneralizedKeystroke::Controller(3)));
    assert!(!ck.contains(GeneralizedKeystroke::Keyboard(11)));
    assert!(!ck.contains(GeneralizedKeystroke::Controller(10)));
}

#[test]
fn keystroke_matches_buttons() {
    let kb = GeneralizedKeystroke::Keyboard(KEY_D);
    assert!(kb.is(&InputButton::Keyboard(KEY_D)));
    assert!(!kb.is(&InputButton::Keyboard(KEY_RETURN)));
    assert!(!kb.is(&InputButton::Controller(3)));
    let pad = GeneralizedKeystroke::Controller(3);
    assert!(pad.is(&InputButton::Controller(3)));
    assert!(!pad.is(&InputButton::Keyboard(KEY_D)));
}

#[test]
fn from_button_ignores_mouse() {
    assert_eq!(
        GeneralizedKeystroke::from_button(&InputButton::Keyboard(KEY_D)),
        Some(GeneralizedKeystroke::Keyboard(KEY_D))
    );
    assert_eq!(
        GeneralizedKeystroke::from_button(&InputButton::Controller(5)),
        Some(GeneralizedKeystroke::Controller(5))
    );
    assert_eq!(GeneralizedKeystroke::from_button(&InputButton::Mouse(0)), None);
}

use kb::key::{
    Action, Control, Edge, Key, ModifiedKey, Modifier, KEY_COUNT,
};
use kb::keyboard::kb_dev::layout::Layer;
use usbd_human_interface_device::page::Keyboard;

#[test]
fn edge_from_transitions() {
    assert_eq!(Edge::from((false, true)), Edge::Rising);
    assert_eq!(Edge::from((true, false)), Edge::Falling);
    assert_eq!(Edge::from((false, false)), Edge::NoEdge);
    assert_eq!(Edge::from((true, true)), Edge::NoEdge);
    assert_eq!(Edge::default(), Edge::NoEdge);
}

#[test]
fn every_key_converts_to_its_hid_usage() {
    let expected = [
        (Key::Escape, Keyboard::Escape),
        (Key::F1, Keyboard::F1),
        (Key::F2, Keyboard::F2),
        (Key::F3, Keyboard::F3),
        (Key::F4, Keyboard::F4),
        (Key::F5, Keyboard::F5),
        (Key::F6, Keyboard::F6),
        (Key::F7, Keyboard::F7),
        (Key::F8, Keyboard::F8),
        (Key::F9, Keyboard::F9),
        (Key::F10, Keyboard::F10),
        (Key::F11, Keyboard::F11),
        (Key::F12, Keyboard::F12),
        (Key::Insert, Keyboard::Insert),
        (Key::DeleteForward, Keyboard::DeleteForward),
        (Key::Grave, Keyboard::Grave),
        (Key::Keyboard1, Keyboard::Keyboard1),
        (Key::Keyboard2, Keyboard::Keyboard2),
        (Key::Keyboard3, Keyboard::Keyboard3),
        (Key::Keyboard4, Keyboard::Keyboard4),
        (Key::Keyboard5, Keyboard::Keyboard5),
        (Key::Keyboard6, Keyboard::Keyboard6),
        (Key::Keyboard7, Keyboard::Keyboard7),
        (Key::Keyboard8, Keyboard::Keyboard8),
        (Key::Keyboard9, Keyboard::Keyboard9),
        (Key::Keyboard0, Keyboard::Keyboard0),
        (Key::Minus, Keyboard::Minus),
        (Key::Equal, Keyboard::Equal),
        (Key::DeleteBackspace, Keyboard::DeleteBackspace),
        (Key::PageUp, Keyboard::PageUp),
        (Key::Tab, Keyboard::Tab),
        (Key::Q, Keyboard::Q),
        (Key::W, Keyboard::W),
        (Key::E, Keyboard::E),
        (Key::R, Keyboard::R),
        (Key::T, Keyboard::T),
        (Key::Y, Keyboard::Y),
        (Key::U, Keyboard::U),
        (Key::I, Keyboard::I),
        (Key::O, Keyboard::O),
        (Key::P, Keyboard::P),
        (Key::LeftBrace, Keyboard::LeftBrace),
        (Key::RightBrace, Keyboard::RightBrace),
        (Key::Backslash, Keyboard::Backslash),
        (Key::PageDown, Keyboard::PageDown),
        (Key::CapsLock, Keyboard::CapsLock),
        (Key::A, Keyboard::A),
        (Key::S, Keyboard::S),
        (Key::D, Keyboard::D),
        (Key::F, Keyboard::F),
        (Key::G, Keyboard::G),
        (Key::H, Keyboard::H),
        (Key::J, Keyboard::J),
        (Key::K, Keyboard::K),
        (Key::L, Keyboard::L),
        (Key::Semicolon, Keyboard::Semicolon),
        (Key::Apostrophe, Keyboard::Apostrophe),
        (Key::ReturnEnter, Keyboard::ReturnEnter),
        (Key::Home, Keyboard::Home),
        (Key::LeftShift, Keyboard::LeftShift),
        (Key::Z, Keyboard::Z),
        (Key::X, Keyboard::X),
        (Key::C, Keyboard::C),
        (Key::V, Keyboard::V),
        (Key::B, Keyboard::B),
        (Key::N, Keyboard::N),
        (Key::M, Keyboard::M),
        (Key::Comma, Keyboard::Comma),
        (Key::Dot, Keyboard::Dot),
        (Key::ForwardSlash, Keyboard::ForwardSlash),
        (Key::RightShift, Keyboard::RightShift),
        (Key::UpArrow, Keyboard::UpArrow),
        (Key::End, Keyboard::End),
        (Key::LeftControl, Keyboard::LeftControl),
        (Key::LeftAlt, Keyboard::LeftAlt),
        (Key::LeftGUI, Keyboard::LeftGUI),
        (Key::Space, Keyboard::Space),
        (Key::RightGUI, Keyboard::RightGUI),
        (Key::RightAlt, Keyboard::RightAlt),
        (Key::RightControl, Keyboard::RightControl),
        (Key::LeftArrow, Keyboard::LeftArrow),
        (Key::DownArrow, Keyboard::DownArrow),
        (Key::RightArrow, Keyboard::RightArrow),
        (Key::VolumeUp, Keyboard::VolumeUp),
        (Key::VolumeDown, Keyboard::VolumeDown),
    ];
    assert_eq!(expected.len(), KEY_COUNT as usize);
    for (key, usage) in expected {
        assert_eq!(key.to_keyboard(), usage);
        assert_eq!(Keyboard::from(key), usage);
        assert_eq!(key.usage_id(), u8::from(usage));
    }
}

#[test]
fn usage_ids_are_those_of_the_hid_tables() {
    assert_eq!(Key::A.usage_id(), 0x04);
    assert_eq!(Key::Z.usage_id(), 0x1D);
    assert_eq!(Key::Keyboard1.usage_id(), 0x1E);
    assert_eq!(Key::Keyboard0.usage_id(), 0x27);
    assert_eq!(Key::ReturnEnter.usage_id(), 0x28);
    assert_eq!(Key::Escape.usage_id(), 0x29);
    assert_eq!(Key::F12.usage_id(), 0x45);
    assert_eq!(Key::VolumeUp.usage_id(), 0x80);
    assert_eq!(Key::LeftControl.usage_id(), 0xE0);
    assert_eq!(Key::RightGUI.usage_id(), 0xE7);
}

#[test]
fn ordinals_follow_the_declaration() {
    assert_eq!(Key::Escape.ordinal(), 0);
    assert_eq!(Key::F1.ordinal(), 1);
    assert_eq!(Key::A.ordinal(), 46);
    assert_eq!(Key::VolumeDown.ordinal(), 84);
    assert_eq!(KEY_COUNT, 85);
    for ordinal in 0..KEY_COUNT {
        let key = Key::from_ordinal(ordinal).unwrap();
        assert_eq!(key.ordinal(), ordinal);
    }
    assert_eq!(Key::from_ordinal(85), None);
    assert_eq!(Key::from_ordinal(255), None);
}

#[test]
fn modifier_masks_are_single_bits() {
    let modifiers = [
        Modifier::LeftShift,
        Modifier::LeftControl,
        Modifier::LeftAlt,
        Modifier::LeftGUI,
        Modifier::RightShift,
        Modifier::RightControl,
        Modifier::RightAlt,
        Modifier::RightGUI,
    ];
    for (bit, modifier) in modifiers.iter().enumerate() {
        assert_eq!(modifier.mask(), 1u8 << bit);
        assert_eq!(Modifier::of_bit(bit), *modifier);
    }
    assert_eq!(Modifier::NoModifier.mask(), 0);
    assert_eq!(Modifier::of_bit(8), Modifier::NoModifier);
    assert_eq!(Modifier::default(), Modifier::NoModifier);
}

#[test]
fn modifiers_convert_to_their_keys() {
    assert_eq!(Modifier::LeftShift.key(), Some(Key::LeftShift));
    assert_eq!(Modifier::RightGUI.key(), Some(Key::RightGUI));
    assert_eq!(Modifier::NoModifier.key(), None);
    assert_eq!(
        Action::<Layer>::from(Modifier::LeftControl),
        Action::Key(Key::LeftControl)
    );
    assert_eq!(Action::<Layer>::from(Modifier::NoModifier), Action::NoAction);
    assert_eq!(Action::<Layer>::from(Key::Q), Action::Key(Key::Q));
    assert_eq!(Action::<Layer>::default(), Action::Pass);
}

#[test]
fn modified_key_parts() {
    let composite = ModifiedKey::with_modifier(Modifier::LeftShift, Key::Equal);
    assert_eq!(composite.get_key(), Key::Equal);
    let modifiers = composite.get_modifiers();
    assert_eq!(modifiers[0], Modifier::LeftShift);
    for bit in 1..8 {
        assert_eq!(modifiers[bit], Modifier::NoModifier);
    }
    assert_eq!(composite.bits(), 0x0100 | Key::Equal.ordinal() as u16);
    assert_eq!(composite, ModifiedKey::new(1, Key::Equal));
}

#[test]
fn modified_key_with_several_modifiers() {
    let mask = Modifier::LeftControl.mask() | Modifier::RightAlt.mask();
    let composite = ModifiedKey::new(mask, Key::DeleteForward);
    assert_eq!(composite.bits(), 0x4200 | Key::DeleteForward.ordinal() as u16);
    let modifiers = composite.get_modifiers();
    assert_eq!(
        modifiers,
        [
            Modifier::NoModifier,
            Modifier::LeftControl,
            Modifier::NoModifier,
            Modifier::NoModifier,
            Modifier::NoModifier,
            Modifier::NoModifier,
            Modifier::RightAlt,
            Modifier::NoModifier,
        ]
    );
    assert_eq!(composite.get_key(), Key::DeleteForward);
}

#[test]
fn modified_key_from_bits() {
    let composite = ModifiedKey::from_bits(0xFF00).unwrap();
    assert_eq!(composite.get_key(), Key::Escape);
    assert_eq!(composite.get_modifiers()[7], Modifier::RightGUI);
    assert_eq!(composite.bits(), 0xFF00);
    assert_eq!(ModifiedKey::from_bits(0x0154).unwrap().get_key(), Key::VolumeDown);
    assert_eq!(ModifiedKey::from_bits(0x0155), None);
    assert_eq!(ModifiedKey::from_bits(0x00FF), None);
}

#[test]
fn controls_are_distinct() {
    assert_ne!(Control::RGBAnimationNext, Control::RGBAnimationPrevious);
    assert_ne!(Control::RGBSpeedUp, Control::U2FBootloaderJump);
}

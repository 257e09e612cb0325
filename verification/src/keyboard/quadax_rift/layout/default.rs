use vstd::prelude::*;

use crate::key::{Action, Control, Key, LayerIndex, ModifiedKey, Modifier};
use crate::processor::mapper::{InputMap, RotaryMap};

verus! {

/// The layers of the key map, the base layer first.
#[derive(Clone, Copy, Debug, PartialEq, Eq, PartialOrd, Ord, Structural)]
pub enum Layer {
    Base,
    Symbol,
    Number,
    Navigation,
    System,
}

impl Default for Layer {
    fn default() -> (layer: Layer)
        ensures
            layer == Layer::Base,
    {
        Layer::Base
    }
}

impl LayerIndex for Layer {
    open spec fn index_spec(self) -> nat {
        match self {
            Layer::Base => 0,
            Layer::Symbol => 1,
            Layer::Number => 2,
            Layer::Navigation => 3,
            Layer::System => 4,
        }
    }

    fn index(self) -> (r: usize) {
        match self {
            Layer::Base => 0,
            Layer::Symbol => 1,
            Layer::Number => 2,
            Layer::Navigation => 3,
            Layer::System => 4,
        }
    }
}

/// The actions of the cells, layer by layer.
pub open spec fn key_matrix() -> [[[Action<Layer>; 14]; 5]; 5] {
    [
        [
            [
                Action::Key(Key::Escape),
                Action::Key(Key::Keyboard1),
                Action::Key(Key::Keyboard2),
                Action::Key(Key::Keyboard3),
                Action::Key(Key::Keyboard4),
                Action::Key(Key::Keyboard5),
                Action::Pass,
                Action::Pass,
                Action::Key(Key::Keyboard6),
                Action::Key(Key::Keyboard7),
                Action::Key(Key::Keyboard8),
                Action::Key(Key::Keyboard9),
                Action::Key(Key::Keyboard0),
                Action::Key(Key::DeleteBackspace),
            ],
            [
                Action::Key(Key::Tab),
                Action::Key(Key::Q),
                Action::Key(Key::W),
                Action::Key(Key::E),
                Action::Key(Key::R),
                Action::Key(Key::T),
                Action::Pass,
                Action::Pass,
                Action::Key(Key::Y),
                Action::Key(Key::U),
                Action::Key(Key::I),
                Action::Key(Key::O),
                Action::Key(Key::P),
                Action::Key(Key::DeleteForward),
            ],
            [
                Action::Key(Key::LeftControl),
                Action::Key(Key::A),
                Action::Key(Key::S),
                Action::Key(Key::D),
                Action::Key(Key::F),
                Action::Key(Key::G),
                Action::Pass,
                Action::Pass,
                Action::Key(Key::H),
                Action::Key(Key::J),
                Action::Key(Key::K),
                Action::Key(Key::L),
                Action::Key(Key::Semicolon),
                Action::Key(Key::ReturnEnter),
            ],
            [
                Action::Key(Key::LeftShift),
                Action::Key(Key::Z),
                Action::Key(Key::X),
                Action::Key(Key::C),
                Action::Key(Key::V),
                Action::Key(Key::B),
                Action::LayerModifier(Layer::Number),
                Action::Pass,
                Action::Key(Key::N),
                Action::Key(Key::M),
                Action::Key(Key::Comma),
                Action::Key(Key::Dot),
                Action::ModifiedKey(
                    ModifiedKey::of(Modifier::LeftShift.mask_spec(), Key::ForwardSlash),
                ),
                Action::Key(Key::RightShift),
            ],
            [
                Action::LayerModifier(Layer::System),
                Action::Key(Key::LeftControl),
                Action::Key(Key::LeftAlt),
                Action::Key(Key::LeftGUI),
                Action::LayerModifier(Layer::Symbol),
                Action::Key(Key::Space),
                Action::Pass,
                Action::Pass,
                Action::Key(Key::Space),
                Action::LayerModifier(Layer::Navigation),
                Action::Key(Key::RightGUI),
                Action::Key(Key::RightAlt),
                Action::Key(Key::RightControl),
                Action::Pass,
            ],
        ],
        [
            [
                Action::Key(Key::Escape),
                Action::ModifiedKey(
                    ModifiedKey::of(Modifier::LeftShift.mask_spec(), Key::Keyboard1),
                ),
                Action::ModifiedKey(
                    ModifiedKey::of(Modifier::LeftShift.mask_spec(), Key::Keyboard2),
                ),
                Action::ModifiedKey(
                    ModifiedKey::of(Modifier::LeftShift.mask_spec(), Key::Keyboard3),
                ),
                Action::ModifiedKey(
                    ModifiedKey::of(Modifier::LeftShift.mask_spec(), Key::Keyboard4),
                ),
                Action::Pass,
                Action::Pass,
                Action::Pass,
                Action::Pass,
                Action::Pass,
                Action::Pass,
                Action::Pass,
                Action::Pass,
                Action::Key(Key::DeleteBackspace),
            ],
            [
                Action::Pass,
                Action::ModifiedKey(
                    ModifiedKey::of(Modifier::LeftShift.mask_spec(), Key::LeftBrace),
                ),
                Action::Key(Key::LeftBrace),
                Action::Key(Key::Apostrophe),
                Action::Key(Key::RightBrace),
                Action::ModifiedKey(
                    ModifiedKey::of(Modifier::LeftShift.mask_spec(), Key::RightBrace),
                ),
                Action::Pass,
                Action::Pass,
                Action::ModifiedKey(ModifiedKey::of(Modifier::LeftShift.mask_spec(), Key::Comma)),
                Action::ModifiedKey(ModifiedKey::of(Modifier::LeftShift.mask_spec(), Key::Dot)),
                Action::Pass,
                Action::Pass,
                Action::Pass,
                Action::Pass,
            ],
            [
                Action::Key(Key::LeftControl),
                Action::Key(Key::Backslash),
                Action::ModifiedKey(
                    ModifiedKey::of(Modifier::LeftShift.mask_spec(), Key::Keyboard9),
                ),
                Action::ModifiedKey(
                    ModifiedKey::of(Modifier::LeftShift.mask_spec(), Key::Apostrophe),
                ),
                Action::ModifiedKey(
                    ModifiedKey::of(Modifier::LeftShift.mask_spec(), Key::Keyboard0),
                ),
                Action::Key(Key::ForwardSlash),
                Action::Pass,
                Action::Pass,
                Action::ModifiedKey(ModifiedKey::of(Modifier::LeftShift.mask_spec(), Key::Minus)),
                Action::ModifiedKey(
                    ModifiedKey::of(Modifier::LeftShift.mask_spec(), Key::Backslash),
                ),
                Action::ModifiedKey(
                    ModifiedKey::of(Modifier::LeftShift.mask_spec(), Key::Keyboard7),
                ),
                Action::ModifiedKey(
                    ModifiedKey::of(Modifier::LeftShift.mask_spec(), Key::Keyboard6),
                ),
                Action::Key(Key::Equal),
                Action::Pass,
            ],
            [
                Action::Key(Key::LeftShift),
                Action::Pass,
                Action::ModifiedKey(ModifiedKey::of(Modifier::LeftShift.mask_spec(), Key::Comma)),
                Action::Key(Key::Grave),
                Action::ModifiedKey(ModifiedKey::of(Modifier::LeftShift.mask_spec(), Key::Dot)),
                Action::Pass,
                Action::LayerModifier(Layer::Number),
                Action::Pass,
                Action::ModifiedKey(ModifiedKey::of(Modifier::LeftShift.mask_spec(), Key::Equal)),
                Action::Key(Key::Minus),
                Action::ModifiedKey(
                    ModifiedKey::of(Modifier::LeftShift.mask_spec(), Key::Keyboard8),
                ),
                Action::ModifiedKey(ModifiedKey::of(Modifier::LeftShift.mask_spec(), Key::Grave)),
                Action::ModifiedKey(
                    ModifiedKey::of(Modifier::LeftShift.mask_spec(), Key::Keyboard5),
                ),
                Action::Key(Key::RightShift),
            ],
            [
                Action::Pass,
                Action::Key(Key::LeftControl),
                Action::Key(Key::LeftAlt),
                Action::Key(Key::LeftGUI),
                Action::Pass,
                Action::Key(Key::Space),
                Action::Pass,
                Action::Pass,
                Action::Key(Key::Space),
                Action::Pass,
                Action::Key(Key::RightGUI),
                Action::Key(Key::RightAlt),
                Action::Key(Key::RightControl),
                Action::Pass,
            ],
        ],
        [
            [
                Action::Key(Key::Escape),
                Action::Pass,
                Action::Pass,
                Action::Pass,
                Action::Pass,
                Action::Pass,
                Action::Pass,
                Action::Pass,
                Action::Pass,
                Action::Pass,
                Action::Pass,
                Action::Pass,
                Action::Pass,
                Action::Key(Key::DeleteBackspace),
            ],
            [
                Action::Pass,
                Action::Pass,
                Action::Pass,
                Action::Pass,
                Action::Pass,
                Action::Pass,
                Action::Pass,
                Action::Pass,
                Action::Key(Key::Keyboard0),
                Action::Key(Key::Keyboard1),
                Action::Key(Key::Keyboard2),
                Action::Key(Key::Keyboard3),
                Action::Pass,
                Action::Pass,
            ],
            [
                Action::Key(Key::LeftControl),
                Action::Pass,
                Action::Pass,
                Action::Pass,
                Action::Pass,
                Action::Pass,
                Action::Pass,
                Action::Pass,
                Action::Pass,
                Action::Key(Key::Keyboard4),
                Action::Key(Key::Keyboard5),
                Action::Key(Key::Keyboard6),
                Action::Pass,
                Action::Pass,
            ],
            [
                Action::Key(Key::LeftShift),
                Action::Pass,
                Action::Pass,
                Action::Pass,
                Action::Pass,
                Action::Pass,
                Action::Pass,
                Action::Pass,
                Action::Pass,
                Action::Key(Key::Keyboard7),
                Action::Key(Key::Keyboard8),
                Action::Key(Key::Keyboard9),
                Action::Pass,
                Action::Key(Key::RightShift),
            ],
            [
                Action::Pass,
                Action::Key(Key::LeftControl),
                Action::Key(Key::LeftAlt),
                Action::Key(Key::LeftGUI),
                Action::Pass,
                Action::Key(Key::Space),
                Action::Pass,
                Action::Pass,
                Action::Key(Key::Space),
                Action::Pass,
                Action::Key(Key::RightGUI),
                Action::Key(Key::RightAlt),
                Action::Key(Key::RightControl),
                Action::Pass,
            ],
        ],
        [
            [
                Action::Key(Key::Escape),
                Action::Pass,
                Action::Pass,
                Action::Pass,
                Action::Pass,
                Action::Pass,
                Action::Pass,
                Action::Pass,
                Action::Pass,
                Action::Pass,
                Action::Pass,
                Action::Pass,
                Action::Pass,
                Action::Key(Key::DeleteBackspace),
            ],
            [
                Action::Pass,
                Action::Pass,
                Action::Pass,
                Action::Pass,
                Action::Pass,
                Action::Pass,
                Action::Pass,
                Action::Pass,
                Action::Key(Key::Home),
                Action::Key(Key::PageDown),
                Action::Key(Key::PageUp),
                Action::Key(Key::End),
                Action::Pass,
                Action::Pass,
            ],
            [
                Action::Key(Key::LeftControl),
                Action::Pass,
                Action::Pass,
                Action::Pass,
                Action::Pass,
                Action::Pass,
                Action::Pass,
                Action::Pass,
                Action::Key(Key::LeftArrow),
                Action::Key(Key::DownArrow),
                Action::Key(Key::UpArrow),
                Action::Key(Key::RightArrow),
                Action::Pass,
                Action::Pass,
            ],
            [
                Action::Key(Key::LeftShift),
                Action::Pass,
                Action::Pass,
                Action::Pass,
                Action::Pass,
                Action::Pass,
                Action::Pass,
                Action::Pass,
                Action::Pass,
                Action::Pass,
                Action::Pass,
                Action::Pass,
                Action::Pass,
                Action::Key(Key::RightShift),
            ],
            [
                Action::Pass,
                Action::Key(Key::LeftControl),
                Action::Key(Key::LeftAlt),
                Action::Key(Key::LeftGUI),
                Action::Pass,
                Action::Key(Key::Space),
                Action::Pass,
                Action::Pass,
                Action::Key(Key::Space),
                Action::Pass,
                Action::Key(Key::RightGUI),
                Action::Key(Key::RightAlt),
                Action::Key(Key::RightControl),
                Action::Pass,
            ],
        ],
        [
            [
                Action::Key(Key::Escape),
                Action::Pass,
                Action::Pass,
                Action::Pass,
                Action::Pass,
                Action::Pass,
                Action::Pass,
                Action::Pass,
                Action::Pass,
                Action::Pass,
                Action::Pass,
                Action::Pass,
                Action::Pass,
                Action::Key(Key::DeleteBackspace),
            ],
            [
                Action::Pass,
                Action::Control(Control::RGBAnimationNext),
                Action::Control(Control::RGBSpeedUp),
                Action::Control(Control::RGBBrightnessUp),
                Action::Pass,
                Action::Pass,
                Action::Pass,
                Action::Pass,
                Action::Key(Key::F10),
                Action::Key(Key::F1),
                Action::Key(Key::F2),
                Action::Key(Key::F3),
                Action::Pass,
                Action::Pass,
            ],
            [
                Action::Key(Key::LeftControl),
                Action::Control(Control::RGBAnimationPrevious),
                Action::Control(Control::RGBSpeedDown),
                Action::Control(Control::RGBBrightnessDown),
                Action::Pass,
                Action::Pass,
                Action::Pass,
                Action::Pass,
                Action::Key(Key::F11),
                Action::Key(Key::F4),
                Action::Key(Key::F5),
                Action::Key(Key::F6),
                Action::Pass,
                Action::Pass,
            ],
            [
                Action::Key(Key::LeftShift),
                Action::Control(Control::U2FBootloaderJump),
                Action::Pass,
                Action::Pass,
                Action::Pass,
                Action::Pass,
                Action::Pass,
                Action::Pass,
                Action::Key(Key::F12),
                Action::Key(Key::F7),
                Action::Key(Key::F8),
                Action::Key(Key::F9),
                Action::Pass,
                Action::Key(Key::RightShift),
            ],
            [
                Action::Pass,
                Action::Key(Key::LeftControl),
                Action::Key(Key::LeftAlt),
                Action::Key(Key::LeftGUI),
                Action::Pass,
                Action::Key(Key::Space),
                Action::Pass,
                Action::Pass,
                Action::Key(Key::Space),
                Action::Pass,
                Action::Key(Key::RightGUI),
                Action::Key(Key::RightAlt),
                Action::Key(Key::RightControl),
                Action::Pass,
            ],
        ],
    ]
}

/// The actions of the encoder, layer by layer.
pub open spec fn rotary_encoder() -> [RotaryMap<Layer>; 5] {
    [
        RotaryMap {
            clockwise: Action::Key(Key::VolumeUp),
            counter_clockwise: Action::Key(Key::VolumeDown),
            no_direction: Action::Pass,
        },
        RotaryMap {
            clockwise: Action::Control(Control::RGBBrightnessUp),
            counter_clockwise: Action::Control(Control::RGBBrightnessDown),
            no_direction: Action::Pass,
        },
        RotaryMap {
            clockwise: Action::Control(Control::RGBBrightnessUp),
            counter_clockwise: Action::Control(Control::RGBBrightnessDown),
            no_direction: Action::Pass,
        },
        RotaryMap {
            clockwise: Action::Control(Control::RGBSpeedUp),
            counter_clockwise: Action::Control(Control::RGBSpeedDown),
            no_direction: Action::Pass,
        },
        RotaryMap {
            clockwise: Action::Pass,
            counter_clockwise: Action::Pass,
            no_direction: Action::Pass,
        },
    ]
}

/// The map of this keyboard.
pub fn get_input_map() -> (map: InputMap<5, 5, 14, Layer>)
    ensures
        map.key_matrix == key_matrix(),
        map.rotary_encoder == rotary_encoder(),
{
    InputMap::new(
        [
            [
                [
                    Action::Key(Key::Escape),
                    Action::Key(Key::Keyboard1),
                    Action::Key(Key::Keyboard2),
                    Action::Key(Key::Keyboard3),
                    Action::Key(Key::Keyboard4),
                    Action::Key(Key::Keyboard5),
                    Action::Pass,
                    Action::Pass,
                    Action::Key(Key::Keyboard6),
                    Action::Key(Key::Keyboard7),
                    Action::Key(Key::Keyboard8),
                    Action::Key(Key::Keyboard9),
                    Action::Key(Key::Keyboard0),
                    Action::Key(Key::DeleteBackspace),
                ],
                [
                    Action::Key(Key::Tab),
                    Action::Key(Key::Q),
                    Action::Key(Key::W),
                    Action::Key(Key::E),
                    Action::Key(Key::R),
                    Action::Key(Key::T),
                    Action::Pass,
                    Action::Pass,
                    Action::Key(Key::Y),
                    Action::Key(Key::U),
                    Action::Key(Key::I),
                    Action::Key(Key::O),
                    Action::Key(Key::P),
                    Action::Key(Key::DeleteForward),
                ],
                [
                    Action::Key(Key::LeftControl),
                    Action::Key(Key::A),
                    Action::Key(Key::S),
                    Action::Key(Key::D),
                    Action::Key(Key::F),
                    Action::Key(Key::G),
                    Action::Pass,
                    Action::Pass,
                    Action::Key(Key::H),
                    Action::Key(Key::J),
                    Action::Key(Key::K),
                    Action::Key(Key::L),
                    Action::Key(Key::Semicolon),
                    Action::Key(Key::ReturnEnter),
                ],
                [
                    Action::Key(Key::LeftShift),
                    Action::Key(Key::Z),
                    Action::Key(Key::X),
                    Action::Key(Key::C),
                    Action::Key(Key::V),
                    Action::Key(Key::B),
                    Action::LayerModifier(Layer::Number),
                    Action::Pass,
                    Action::Key(Key::N),
                    Action::Key(Key::M),
                    Action::Key(Key::Comma),
                    Action::Key(Key::Dot),
                    Action::ModifiedKey(
                        ModifiedKey::with_modifier(Modifier::LeftShift, Key::ForwardSlash),
                    ),
                    Action::Key(Key::RightShift),
                ],
                [
                    Action::LayerModifier(Layer::System),
                    Action::Key(Key::LeftControl),
                    Action::Key(Key::LeftAlt),
                    Action::Key(Key::LeftGUI),
                    Action::LayerModifier(Layer::Symbol),
                    Action::Key(Key::Space),
                    Action::Pass,
                    Action::Pass,
                    Action::Key(Key::Space),
                    Action::LayerModifier(Layer::Navigation),
                    Action::Key(Key::RightGUI),
                    Action::Key(Key::RightAlt),
                    Action::Key(Key::RightControl),
                    Action::Pass,
                ],
            ],
            [
                [
                    Action::Key(Key::Escape),
                    Action::ModifiedKey(
                        ModifiedKey::with_modifier(Modifier::LeftShift, Key::Keyboard1),
                    ),
                    Action::ModifiedKey(
                        ModifiedKey::with_modifier(Modifier::LeftShift, Key::Keyboard2),
                    ),
                    Action::ModifiedKey(
                        ModifiedKey::with_modifier(Modifier::LeftShift, Key::Keyboard3),
                    ),
                    Action::ModifiedKey(
                        ModifiedKey::with_modifier(Modifier::LeftShift, Key::Keyboard4),
                    ),
                    Action::Pass,
                    Action::Pass,
                    Action::Pass,
                    Action::Pass,
                    Action::Pass,
                    Action::Pass,
                    Action::Pass,
                    Action::Pass,
                    Action::Key(Key::DeleteBackspace),
                ],
                [
                    Action::Pass,
                    Action::ModifiedKey(
                        ModifiedKey::with_modifier(Modifier::LeftShift, Key::LeftBrace),
                    ),
                    Action::Key(Key::LeftBrace),
                    Action::Key(Key::Apostrophe),
                    Action::Key(Key::RightBrace),
                    Action::ModifiedKey(
                        ModifiedKey::with_modifier(Modifier::LeftShift, Key::RightBrace),
                    ),
                    Action::Pass,
                    Action::Pass,
                    Action::ModifiedKey(
                        ModifiedKey::with_modifier(Modifier::LeftShift, Key::Comma),
                    ),
                    Action::ModifiedKey(ModifiedKey::with_modifier(Modifier::LeftShift, Key::Dot)),
                    Action::Pass,
                    Action::Pass,
                    Action::Pass,
                    Action::Pass,
                ],
                [
                    Action::Key(Key::LeftControl),
                    Action::Key(Key::Backslash),
                    Action::ModifiedKey(
                        ModifiedKey::with_modifier(Modifier::LeftShift, Key::Keyboard9),
                    ),
                    Action::ModifiedKey(
                        ModifiedKey::with_modifier(Modifier::LeftShift, Key::Apostrophe),
                    ),
                    Action::ModifiedKey(
                        ModifiedKey::with_modifier(Modifier::LeftShift, Key::Keyboard0),
                    ),
                    Action::Key(Key::ForwardSlash),
                    Action::Pass,
                    Action::Pass,
                    Action::ModifiedKey(
                        ModifiedKey::with_modifier(Modifier::LeftShift, Key::Minus),
                    ),
                    Action::ModifiedKey(
                        ModifiedKey::with_modifier(Modifier::LeftShift, Key::Backslash),
                    ),
                    Action::ModifiedKey(
                        ModifiedKey::with_modifier(Modifier::LeftShift, Key::Keyboard7),
                    ),
                    Action::ModifiedKey(
                        ModifiedKey::with_modifier(Modifier::LeftShift, Key::Keyboard6),
                    ),
                    Action::Key(Key::Equal),
                    Action::Pass,
                ],
                [
                    Action::Key(Key::LeftShift),
                    Action::Pass,
                    Action::ModifiedKey(
                        ModifiedKey::with_modifier(Modifier::LeftShift, Key::Comma),
                    ),
                    Action::Key(Key::Grave),
                    Action::ModifiedKey(ModifiedKey::with_modifier(Modifier::LeftShift, Key::Dot)),
                    Action::Pass,
                    Action::LayerModifier(Layer::Number),
                    Action::Pass,
                    Action::ModifiedKey(
                        ModifiedKey::with_modifier(Modifier::LeftShift, Key::Equal),
                    ),
                    Action::Key(Key::Minus),
                    Action::ModifiedKey(
                        ModifiedKey::with_modifier(Modifier::LeftShift, Key::Keyboard8),
                    ),
                    Action::ModifiedKey(
                        ModifiedKey::with_modifier(Modifier::LeftShift, Key::Grave),
                    ),
                    Action::ModifiedKey(
                        ModifiedKey::with_modifier(Modifier::LeftShift, Key::Keyboard5),
                    ),
                    Action::Key(Key::RightShift),
                ],
                [
                    Action::Pass,
                    Action::Key(Key::LeftControl),
                    Action::Key(Key::LeftAlt),
                    Action::Key(Key::LeftGUI),
                    Action::Pass,
                    Action::Key(Key::Space),
                    Action::Pass,
                    Action::Pass,
                    Action::Key(Key::Space),
                    Action::Pass,
                    Action::Key(Key::RightGUI),
                    Action::Key(Key::RightAlt),
                    Action::Key(Key::RightControl),
                    Action::Pass,
                ],
            ],
            [
                [
                    Action::Key(Key::Escape),
                    Action::Pass,
                    Action::Pass,
                    Action::Pass,
                    Action::Pass,
                    Action::Pass,
                    Action::Pass,
                    Action::Pass,
                    Action::Pass,
                    Action::Pass,
                    Action::Pass,
                    Action::Pass,
                    Action::Pass,
                    Action::Key(Key::DeleteBackspace),
                ],
                [
                    Action::Pass,
                    Action::Pass,
                    Action::Pass,
                    Action::Pass,
                    Action::Pass,
                    Action::Pass,
                    Action::Pass,
                    Action::Pass,
                    Action::Key(Key::Keyboard0),
                    Action::Key(Key::Keyboard1),
                    Action::Key(Key::Keyboard2),
                    Action::Key(Key::Keyboard3),
                    Action::Pass,
                    Action::Pass,
                ],
                [
                    Action::Key(Key::LeftControl),
                    Action::Pass,
                    Action::Pass,
                    Action::Pass,
                    Action::Pass,
                    Action::Pass,
                    Action::Pass,
                    Action::Pass,
                    Action::Pass,
                    Action::Key(Key::Keyboard4),
                    Action::Key(Key::Keyboard5),
                    Action::Key(Key::Keyboard6),
                    Action::Pass,
                    Action::Pass,
                ],
                [
                    Action::Key(Key::LeftShift),
                    Action::Pass,
                    Action::Pass,
                    Action::Pass,
                    Action::Pass,
                    Action::Pass,
                    Action::Pass,
                    Action::Pass,
                    Action::Pass,
                    Action::Key(Key::Keyboard7),
                    Action::Key(Key::Keyboard8),
                    Action::Key(Key::Keyboard9),
                    Action::Pass,
                    Action::Key(Key::RightShift),
                ],
                [
                    Action::Pass,
                    Action::Key(Key::LeftControl),
                    Action::Key(Key::LeftAlt),
                    Action::Key(Key::LeftGUI),
                    Action::Pass,
                    Action::Key(Key::Space),
                    Action::Pass,
                    Action::Pass,
                    Action::Key(Key::Space),
                    Action::Pass,
                    Action::Key(Key::RightGUI),
                    Action::Key(Key::RightAlt),
                    Action::Key(Key::RightControl),
                    Action::Pass,
                ],
            ],
            [
                [
                    Action::Key(Key::Escape),
                    Action::Pass,
                    Action::Pass,
                    Action::Pass,
                    Action::Pass,
                    Action::Pass,
                    Action::Pass,
                    Action::Pass,
                    Action::Pass,
                    Action::Pass,
                    Action::Pass,
                    Action::Pass,
                    Action::Pass,
                    Action::Key(Key::DeleteBackspace),
                ],
                [
                    Action::Pass,
                    Action::Pass,
                    Action::Pass,
                    Action::Pass,
                    Action::Pass,
                    Action::Pass,
                    Action::Pass,
                    Action::Pass,
                    Action::Key(Key::Home),
                    Action::Key(Key::PageDown),
                    Action::Key(Key::PageUp),
                    Action::Key(Key::End),
                    Action::Pass,
                    Action::Pass,
                ],
                [
                    Action::Key(Key::LeftControl),
                    Action::Pass,
                    Action::Pass,
                    Action::Pass,
                    Action::Pass,
                    Action::Pass,
                    Action::Pass,
                    Action::Pass,
                    Action::Key(Key::LeftArrow),
                    Action::Key(Key::DownArrow),
                    Action::Key(Key::UpArrow),
                    Action::Key(Key::RightArrow),
                    Action::Pass,
                    Action::Pass,
                ],
                [
                    Action::Key(Key::LeftShift),
                    Action::Pass,
                    Action::Pass,
                    Action::Pass,
                    Action::Pass,
                    Action::Pass,
                    Action::Pass,
                    Action::Pass,
                    Action::Pass,
                    Action::Pass,
                    Action::Pass,
                    Action::Pass,
                    Action::Pass,
                    Action::Key(Key::RightShift),
                ],
                [
                    Action::Pass,
                    Action::Key(Key::LeftControl),
                    Action::Key(Key::LeftAlt),
                    Action::Key(Key::LeftGUI),
                    Action::Pass,
                    Action::Key(Key::Space),
                    Action::Pass,
                    Action::Pass,
                    Action::Key(Key::Space),
                    Action::Pass,
                    Action::Key(Key::RightGUI),
                    Action::Key(Key::RightAlt),
                    Action::Key(Key::RightControl),
                    Action::Pass,
                ],
            ],
            [
                [
                    Action::Key(Key::Escape),
                    Action::Pass,
                    Action::Pass,
                    Action::Pass,
                    Action::Pass,
                    Action::Pass,
                    Action::Pass,
                    Action::Pass,
                    Action::Pass,
                    Action::Pass,
                    Action::Pass,
                    Action::Pass,
                    Action::Pass,
                    Action::Key(Key::DeleteBackspace),
                ],
                [
                    Action::Pass,
                    Action::Control(Control::RGBAnimationNext),
                    Action::Control(Control::RGBSpeedUp),
                    Action::Control(Control::RGBBrightnessUp),
                    Action::Pass,
                    Action::Pass,
                    Action::Pass,
                    Action::Pass,
                    Action::Key(Key::F10),
                    Action::Key(Key::F1),
                    Action::Key(Key::F2),
                    Action::Key(Key::F3),
                    Action::Pass,
                    Action::Pass,
                ],
                [
                    Action::Key(Key::LeftControl),
                    Action::Control(Control::RGBAnimationPrevious),
                    Action::Control(Control::RGBSpeedDown),
                    Action::Control(Control::RGBBrightnessDown),
                    Action::Pass,
                    Action::Pass,
                    Action::Pass,
                    Action::Pass,
                    Action::Key(Key::F11),
                    Action::Key(Key::F4),
                    Action::Key(Key::F5),
                    Action::Key(Key::F6),
                    Action::Pass,
                    Action::Pass,
                ],
                [
                    Action::Key(Key::LeftShift),
                    Action::Control(Control::U2FBootloaderJump),
                    Action::Pass,
                    Action::Pass,
                    Action::Pass,
                    Action::Pass,
                    Action::Pass,
                    Action::Pass,
                    Action::Key(Key::F12),
                    Action::Key(Key::F7),
                    Action::Key(Key::F8),
                    Action::Key(Key::F9),
                    Action::Pass,
                    Action::Key(Key::RightShift),
                ],
                [
                    Action::Pass,
                    Action::Key(Key::LeftControl),
                    Action::Key(Key::LeftAlt),
                    Action::Key(Key::LeftGUI),
                    Action::Pass,
                    Action::Key(Key::Space),
                    Action::Pass,
                    Action::Pass,
                    Action::Key(Key::Space),
                    Action::Pass,
                    Action::Key(Key::RightGUI),
                    Action::Key(Key::RightAlt),
                    Action::Key(Key::RightControl),
                    Action::Pass,
                ],
            ],
        ],
        [
            RotaryMap {
                clockwise: Action::Key(Key::VolumeUp),
                counter_clockwise: Action::Key(Key::VolumeDown),
                no_direction: Action::Pass,
            },
            RotaryMap {
                clockwise: Action::Control(Control::RGBBrightnessUp),
                counter_clockwise: Action::Control(Control::RGBBrightnessDown),
                no_direction: Action::Pass,
            },
            RotaryMap {
                clockwise: Action::Control(Control::RGBBrightnessUp),
                counter_clockwise: Action::Control(Control::RGBBrightnessDown),
                no_direction: Action::Pass,
            },
            RotaryMap {
                clockwise: Action::Control(Control::RGBSpeedUp),
                counter_clockwise: Action::Control(Control::RGBSpeedDown),
                no_direction: Action::Pass,
            },
            RotaryMap {
                clockwise: Action::Pass,
                counter_clockwise: Action::Pass,
                no_direction: Action::Pass,
            },
        ],
    )
}

} // verus!

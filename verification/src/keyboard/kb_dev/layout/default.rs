use vstd::prelude::*;

use crate::key::{Action, Control, Key, LayerIndex};
use crate::processor::mapper::{InputMap, RotaryMap};

verus! {

/// The layers of the key map, the base layer first.
#[derive(Clone, Copy, Debug, PartialEq, Eq, PartialOrd, Ord, Structural)]
pub enum Layer {
    Base,
    Function1,
    Function2,
}

impl Default for Layer {
    fn default() -> (layer: Layer)
        ensures
            layer == Layer::Base,
    {
        Layer::Base
    }
}

impl LayerIndex for Layer {
    open spec fn index_spec(self) -> nat {
        match self {
            Layer::Base => 0,
            Layer::Function1 => 1,
            Layer::Function2 => 2,
        }
    }

    fn index(self) -> (r: usize) {
        match self {
            Layer::Base => 0,
            Layer::Function1 => 1,
            Layer::Function2 => 2,
        }
    }
}

/// The actions of the cells, layer by layer.
pub open spec fn key_matrix() -> [[[Action<Layer>; 15]; 5]; 3] {
    [
        [
            [
                Action::Key(Key::Escape),
                Action::Key(Key::Keyboard1),
                Action::Key(Key::Keyboard2),
                Action::Key(Key::Keyboard3),
                Action::Key(Key::Keyboard4),
                Action::Key(Key::Keyboard5),
                Action::Key(Key::Keyboard6),
                Action::Key(Key::Keyboard7),
                Action::Key(Key::Keyboard8),
                Action::Key(Key::Keyboard9),
                Action::Key(Key::Keyboard0),
                Action::Key(Key::Minus),
                Action::Key(Key::Equal),
                Action::Key(Key::DeleteBackspace),
                Action::Key(Key::DeleteForward),
            ],
            [
                Action::Key(Key::Tab),
                Action::Key(Key::Q),
                Action::Key(Key::W),
                Action::Key(Key::E),
                Action::Key(Key::R),
                Action::Key(Key::T),
                Action::Key(Key::Y),
                Action::Key(Key::U),
                Action::Key(Key::I),
                Action::Key(Key::O),
                Action::Key(Key::P),
                Action::Key(Key::LeftBrace),
                Action::Key(Key::RightBrace),
                Action::Key(Key::Backslash),
                Action::Key(Key::Home),
            ],
            [
                Action::Key(Key::CapsLock),
                Action::Key(Key::A),
                Action::Key(Key::S),
                Action::Key(Key::D),
                Action::Key(Key::F),
                Action::Key(Key::G),
                Action::Key(Key::H),
                Action::Key(Key::J),
                Action::Key(Key::K),
                Action::Key(Key::L),
                Action::Key(Key::Semicolon),
                Action::Key(Key::Apostrophe),
                Action::Pass,
                Action::Key(Key::ReturnEnter),
                Action::Key(Key::PageUp),
            ],
            [
                Action::Key(Key::LeftShift),
                Action::Key(Key::Z),
                Action::Key(Key::X),
                Action::Key(Key::C),
                Action::Key(Key::V),
                Action::Key(Key::B),
                Action::Key(Key::N),
                Action::Key(Key::M),
                Action::Key(Key::Comma),
                Action::Key(Key::Dot),
                Action::Key(Key::ForwardSlash),
                Action::Pass,
                Action::Key(Key::RightShift),
                Action::Key(Key::UpArrow),
                Action::Key(Key::PageDown),
            ],
            [
                Action::Key(Key::LeftControl),
                Action::Key(Key::LeftAlt),
                Action::Key(Key::LeftGUI),
                Action::Pass,
                Action::Pass,
                Action::Pass,
                Action::Key(Key::Space),
                Action::Pass,
                Action::Pass,
                Action::Pass,
                Action::LayerModifier(Layer::Function1),
                Action::Key(Key::RightAlt),
                Action::Key(Key::LeftArrow),
                Action::Key(Key::DownArrow),
                Action::Key(Key::RightArrow),
            ],
        ],
        [
            [
                Action::Key(Key::Grave),
                Action::Key(Key::F1),
                Action::Key(Key::F2),
                Action::Key(Key::F3),
                Action::Key(Key::F4),
                Action::Key(Key::F5),
                Action::Key(Key::F6),
                Action::Key(Key::F7),
                Action::Key(Key::F8),
                Action::Key(Key::F9),
                Action::Key(Key::F10),
                Action::Key(Key::F11),
                Action::Key(Key::F12),
                Action::Pass,
                Action::Pass,
            ],
            [
                Action::Pass,
                Action::Control(Control::RGBAnimationNext),
                Action::Control(Control::RGBSpeedUp),
                Action::Control(Control::RGBBrightnessUp),
                Action::Pass,
                Action::Pass,
                Action::Pass,
                Action::Pass,
                Action::Pass,
                Action::Pass,
                Action::Pass,
                Action::Pass,
                Action::Pass,
                Action::Pass,
                Action::Pass,
            ],
            [
                Action::Pass,
                Action::Control(Control::RGBAnimationPrevious),
                Action::Control(Control::RGBSpeedDown),
                Action::Control(Control::RGBBrightnessDown),
                Action::Pass,
                Action::Pass,
                Action::Pass,
                Action::Pass,
                Action::Pass,
                Action::Pass,
                Action::Pass,
                Action::Pass,
                Action::Pass,
                Action::Pass,
                Action::Pass,
            ],
            [
                Action::Key(Key::LeftShift),
                Action::Pass,
                Action::Pass,
                Action::Pass,
                Action::Pass,
                Action::Pass,
                Action::Pass,
                Action::Pass,
                Action::Pass,
                Action::Pass,
                Action::Pass,
                Action::Pass,
                Action::Key(Key::RightShift),
                Action::Pass,
                Action::Pass,
            ],
            [
                Action::Key(Key::LeftControl),
                Action::Key(Key::LeftAlt),
                Action::Key(Key::LeftGUI),
                Action::Pass,
                Action::Pass,
                Action::Pass,
                Action::Pass,
                Action::Pass,
                Action::Pass,
                Action::Pass,
                Action::Pass,
                Action::LayerModifier(Layer::Function2),
                Action::Pass,
                Action::Pass,
                Action::Pass,
            ],
        ],
        [
            [
                Action::Pass,
                Action::Pass,
                Action::Pass,
                Action::Pass,
                Action::Pass,
                Action::Pass,
                Action::Pass,
                Action::Pass,
                Action::Pass,
                Action::Pass,
                Action::Pass,
                Action::Pass,
                Action::Pass,
                Action::Pass,
                Action::Pass,
            ],
            [
                Action::Pass,
                Action::Pass,
                Action::Pass,
                Action::Pass,
                Action::Pass,
                Action::Pass,
                Action::Pass,
                Action::Pass,
                Action::Pass,
                Action::Pass,
                Action::Pass,
                Action::Pass,
                Action::Pass,
                Action::Pass,
                Action::Pass,
            ],
            [
                Action::Pass,
                Action::Pass,
                Action::Pass,
                Action::Pass,
                Action::Pass,
                Action::Pass,
                Action::Pass,
                Action::Pass,
                Action::Pass,
                Action::Pass,
                Action::Pass,
                Action::Pass,
                Action::Pass,
                Action::Pass,
                Action::Pass,
            ],
            [
                Action::Pass,
                Action::Pass,
                Action::Pass,
                Action::Pass,
                Action::Pass,
                Action::Pass,
                Action::Pass,
                Action::Pass,
                Action::Pass,
                Action::Pass,
                Action::Pass,
                Action::Pass,
                Action::Pass,
                Action::Pass,
                Action::Pass,
            ],
            [
                Action::Pass,
                Action::Pass,
                Action::Pass,
                Action::Pass,
                Action::Pass,
                Action::Pass,
                Action::Pass,
                Action::Pass,
                Action::Pass,
                Action::Pass,
                Action::Pass,
                Action::Pass,
                Action::Pass,
                Action::Pass,
                Action::Pass,
            ],
        ],
    ]
}

/// The actions of the encoder, layer by layer.
pub open spec fn rotary_encoder() -> [RotaryMap<Layer>; 3] {
    [
        RotaryMap {
            clockwise: Action::Key(Key::VolumeUp),
            counter_clockwise: Action::Key(Key::VolumeDown),
            no_direction: Action::Pass,
        },
        RotaryMap {
            clockwise: Action::Control(Control::RGBBrightnessUp),
            counter_clockwise: Action::Control(Control::RGBBrightnessDown),
            no_direction: Action::Pass,
        },
        RotaryMap {
            clockwise: Action::Control(Control::RGBSpeedUp),
            counter_clockwise: Action::Control(Control::RGBSpeedDown),
            no_direction: Action::Pass,
        },
    ]
}

/// The map of this keyboard.
pub fn get_input_map() -> (map: InputMap<3, 5, 15, Layer>)
    ensures
        map.key_matrix == key_matrix(),
        map.rotary_encoder == rotary_encoder(),
{
    InputMap::new(
        [
            [
                [
                    Action::Key(Key::Escape),
                    Action::Key(Key::Keyboard1),
                    Action::Key(Key::Keyboard2),
                    Action::Key(Key::Keyboard3),
                    Action::Key(Key::Keyboard4),
                    Action::Key(Key::Keyboard5),
                    Action::Key(Key::Keyboard6),
                    Action::Key(Key::Keyboard7),
                    Action::Key(Key::Keyboard8),
                    Action::Key(Key::Keyboard9),
                    Action::Key(Key::Keyboard0),
                    Action::Key(Key::Minus),
                    Action::Key(Key::Equal),
                    Action::Key(Key::DeleteBackspace),
                    Action::Key(Key::DeleteForward),
                ],
                [
                    Action::Key(Key::Tab),
                    Action::Key(Key::Q),
                    Action::Key(Key::W),
                    Action::Key(Key::E),
                    Action::Key(Key::R),
                    Action::Key(Key::T),
                    Action::Key(Key::Y),
                    Action::Key(Key::U),
                    Action::Key(Key::I),
                    Action::Key(Key::O),
                    Action::Key(Key::P),
                    Action::Key(Key::LeftBrace),
                    Action::Key(Key::RightBrace),
                    Action::Key(Key::Backslash),
                    Action::Key(Key::Home),
                ],
                [
                    Action::Key(Key::CapsLock),
                    Action::Key(Key::A),
                    Action::Key(Key::S),
                    Action::Key(Key::D),
                    Action::Key(Key::F),
                    Action::Key(Key::G),
                    Action::Key(Key::H),
                    Action::Key(Key::J),
                    Action::Key(Key::K),
                    Action::Key(Key::L),
                    Action::Key(Key::Semicolon),
                    Action::Key(Key::Apostrophe),
                    Action::Pass,
                    Action::Key(Key::ReturnEnter),
                    Action::Key(Key::PageUp),
                ],
                [
                    Action::Key(Key::LeftShift),
                    Action::Key(Key::Z),
                    Action::Key(Key::X),
                    Action::Key(Key::C),
                    Action::Key(Key::V),
                    Action::Key(Key::B),
                    Action::Key(Key::N),
                    Action::Key(Key::M),
                    Action::Key(Key::Comma),
                    Action::Key(Key::Dot),
                    Action::Key(Key::ForwardSlash),
                    Action::Pass,
                    Action::Key(Key::RightShift),
                    Action::Key(Key::UpArrow),
                    Action::Key(Key::PageDown),
                ],
                [
                    Action::Key(Key::LeftControl),
                    Action::Key(Key::LeftAlt),
                    Action::Key(Key::LeftGUI),
                    Action::Pass,
                    Action::Pass,
                    Action::Pass,
                    Action::Key(Key::Space),
                    Action::Pass,
                    Action::Pass,
                    Action::Pass,
                    Action::LayerModifier(Layer::Function1),
                    Action::Key(Key::RightAlt),
                    Action::Key(Key::LeftArrow),
                    Action::Key(Key::DownArrow),
                    Action::Key(Key::RightArrow),
                ],
            ],
            [
                [
                    Action::Key(Key::Grave),
                    Action::Key(Key::F1),
                    Action::Key(Key::F2),
                    Action::Key(Key::F3),
                    Action::Key(Key::F4),
                    Action::Key(Key::F5),
                    Action::Key(Key::F6),
                    Action::Key(Key::F7),
                    Action::Key(Key::F8),
                    Action::Key(Key::F9),
                    Action::Key(Key::F10),
                    Action::Key(Key::F11),
                    Action::Key(Key::F12),
                    Action::Pass,
                    Action::Pass,
                ],
                [
                    Action::Pass,
                    Action::Control(Control::RGBAnimationNext),
                    Action::Control(Control::RGBSpeedUp),
                    Action::Control(Control::RGBBrightnessUp),
                    Action::Pass,
                    Action::Pass,
                    Action::Pass,
                    Action::Pass,
                    Action::Pass,
                    Action::Pass,
                    Action::Pass,
                    Action::Pass,
                    Action::Pass,
                    Action::Pass,
                    Action::Pass,
                ],
                [
                    Action::Pass,
                    Action::Control(Control::RGBAnimationPrevious),
                    Action::Control(Control::RGBSpeedDown),
                    Action::Control(Control::RGBBrightnessDown),
                    Action::Pass,
                    Action::Pass,
                    Action::Pass,
                    Action::Pass,
                    Action::Pass,
                    Action::Pass,
                    Action::Pass,
                    Action::Pass,
                    Action::Pass,
                    Action::Pass,
                    Action::Pass,
                ],
                [
                    Action::Key(Key::LeftShift),
                    Action::Pass,
                    Action::Pass,
                    Action::Pass,
                    Action::Pass,
                    Action::Pass,
                    Action::Pass,
                    Action::Pass,
                    Action::Pass,
                    Action::Pass,
                    Action::Pass,
                    Action::Pass,
                    Action::Key(Key::RightShift),
                    Action::Pass,
                    Action::Pass,
                ],
                [
                    Action::Key(Key::LeftControl),
                    Action::Key(Key::LeftAlt),
                    Action::Key(Key::LeftGUI),
                    Action::Pass,
                    Action::Pass,
                    Action::Pass,
                    Action::Pass,
                    Action::Pass,
                    Action::Pass,
                    Action::Pass,
                    Action::Pass,
                    Action::LayerModifier(Layer::Function2),
                    Action::Pass,
                    Action::Pass,
                    Action::Pass,
                ],
            ],
            [
                [
                    Action::Pass,
                    Action::Pass,
                    Action::Pass,
                    Action::Pass,
                    Action::Pass,
                    Action::Pass,
                    Action::Pass,
                    Action::Pass,
                    Action::Pass,
                    Action::Pass,
                    Action::Pass,
                    Action::Pass,
                    Action::Pass,
                    Action::Pass,
                    Action::Pass,
                ],
                [
                    Action::Pass,
                    Action::Pass,
                    Action::Pass,
                    Action::Pass,
                    Action::Pass,
                    Action::Pass,
                    Action::Pass,
                    Action::Pass,
                    Action::Pass,
                    Action::Pass,
                    Action::Pass,
                    Action::Pass,
                    Action::Pass,
                    Action::Pass,
                    Action::Pass,
                ],
                [
                    Action::Pass,
                    Action::Pass,
                    Action::Pass,
                    Action::Pass,
                    Action::Pass,
                    Action::Pass,
                    Action::Pass,
                    Action::Pass,
                    Action::Pass,
                    Action::Pass,
                    Action::Pass,
                    Action::Pass,
                    Action::Pass,
                    Action::Pass,
                    Action::Pass,
                ],
                [
                    Action::Pass,
                    Action::Pass,
                    Action::Pass,
                    Action::Pass,
                    Action::Pass,
                    Action::Pass,
                    Action::Pass,
                    Action::Pass,
                    Action::Pass,
                    Action::Pass,
                    Action::Pass,
                    Action::Pass,
                    Action::Pass,
                    Action::Pass,
                    Action::Pass,
                ],
                [
                    Action::Pass,
                    Action::Pass,
                    Action::Pass,
                    Action::Pass,
                    Action::Pass,
                    Action::Pass,
                    Action::Pass,
                    Action::Pass,
                    Action::Pass,
                    Action::Pass,
                    Action::Pass,
                    Action::Pass,
                    Action::Pass,
                    Action::Pass,
                    Action::Pass,
                ],
            ],
        ],
        [
            RotaryMap {
                clockwise: Action::Key(Key::VolumeUp),
                counter_clockwise: Action::Key(Key::VolumeDown),
                no_direction: Action::Pass,
            },
            RotaryMap {
                clockwise: Action::Control(Control::RGBBrightnessUp),
                counter_clockwise: Action::Control(Control::RGBBrightnessDown),
                no_direction: Action::Pass,
            },
            RotaryMap {
                clockwise: Action::Control(Control::RGBSpeedUp),
                counter_clockwise: Action::Control(Control::RGBSpeedDown),
                no_direction: Action::Pass,
            },
        ],
    )
}

} // verus!

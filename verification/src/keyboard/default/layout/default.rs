use vstd::prelude::*;

use crate::key::{Action, Control, Key, LayerIndex};
use crate::processor::mapper::{InputMap, RotaryMap};

verus! {

/// The layers of the key map, the base layer first.
#[derive(Clone, Copy, Debug, PartialEq, Eq, PartialOrd, Ord, Structural)]
pub enum Layer {
    Base,
    Function1,
}

impl Default for Layer {
    fn default() -> (layer: Layer)
        ensures
            layer == Layer::Base,
    {
        Layer::Base
    }
}

impl LayerIndex for Layer {
    open spec fn index_spec(self) -> nat {
        match self {
            Layer::Base => 0,
            Layer::Function1 => 1,
        }
    }

    fn index(self) -> (r: usize) {
        match self {
            Layer::Base => 0,
            Layer::Function1 => 1,
        }
    }
}

/// The actions of the cells, layer by layer.
pub open spec fn key_matrix() -> [[[Action<Layer>; 2]; 2]; 2] {
    [
        [
            [
                Action::Key(Key::A),
                Action::Key(Key::B),
            ],
            [
                Action::Pass,
                Action::LayerModifier(Layer::Function1),
            ],
        ],
        [
            [
                Action::Key(Key::C),
                Action::Key(Key::D),
            ],
            [
                Action::Control(Control::RGBAnimationNext),
                Action::Pass,
            ],
        ],
    ]
}

/// The actions of the encoder, layer by layer.
pub open spec fn rotary_encoder() -> [RotaryMap<Layer>; 2] {
    [
        RotaryMap {
            clockwise: Action::Control(Control::RGBBrightnessUp),
            counter_clockwise: Action::Control(Control::RGBBrightnessDown),
            no_direction: Action::Pass,
        },
        RotaryMap {
            clockwise: Action::Control(Control::RGBSpeedUp),
            counter_clockwise: Action::Control(Control::RGBSpeedDown),
            no_direction: Action::Pass,
        },
    ]
}

/// The map of this keyboard.
pub fn get_input_map() -> (map: InputMap<2, 2, 2, Layer>)
    ensures
        map.key_matrix == key_matrix(),
        map.rotary_encoder == rotary_encoder(),
{
    InputMap::new(
        [
            [
                [
                    Action::Key(Key::A),
                    Action::Key(Key::B),
                ],
                [
                    Action::Pass,
                    Action::LayerModifier(Layer::Function1),
                ],
            ],
            [
                [
                    Action::Key(Key::C),
                    Action::Key(Key::D),
                ],
                [
                    Action::Control(Control::RGBAnimationNext),
                    Action::Pass,
                ],
            ],
        ],
        [
            RotaryMap {
                clockwise: Action::Control(Control::RGBBrightnessUp),
                counter_clockwise: Action::Control(Control::RGBBrightnessDown),
                no_direction: Action::Pass,
            },
            RotaryMap {
                clockwise: Action::Control(Control::RGBSpeedUp),
                counter_clockwise: Action::Control(Control::RGBSpeedDown),
                no_direction: Action::Pass,
            },
        ],
    )
}

} // verus!

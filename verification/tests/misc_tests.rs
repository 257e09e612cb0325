use kb::heartbeat::{cycle, MAX_PWM_POWER, STEP};
use kb::key::{Action, Control, Edge, Key, LayerIndex, ModifiedKey, Modifier};
use kb::keyboard::kb_dev;
use kb::keyboard::quadax_rift;
use kb::rotary::{Direction, Mode, Result as RotaryResult, RotaryEncoder};
use kb::status::StatusLED;
use kb::util::lerp;

fn turn(encoder: &mut RotaryEncoder, levels: &[(bool, bool)]) -> Vec<(Direction, Edge)> {
    levels
        .iter()
        .enumerate()
        .map(|(n, (a, b))| {
            let result = encoder.scan(*a, *b, n as u64);
            assert_eq!(result.scan_time_ticks, n as u64);
            (result.direction, result.edge)
        })
        .collect()
}

const CW: Direction = Direction::Clockwise;
const CCW: Direction = Direction::CounterClockwise;
const STILL: Direction = Direction::NoDirection;

#[test]
fn rotary_high_precision_counts_every_step() {
    let mut encoder = RotaryEncoder::new(Mode::DentHighPrecision);
    let results = turn(
        &mut encoder,
        &[
            (false, false),
            (true, false),
            (true, true),
            (true, true),
            (false, true),
            (false, false),
        ],
    );
    assert_eq!(
        results,
        vec![
            (STILL, Edge::NoEdge),
            (CW, Edge::Rising),
            (CW, Edge::NoEdge),
            (STILL, Edge::Falling),
            (CW, Edge::Rising),
            (CW, Edge::NoEdge),
        ]
    );
}

#[test]
fn rotary_counter_clockwise_and_invalid_steps() {
    let mut encoder = RotaryEncoder::new(Mode::DentHighPrecision);
    let results = turn(
        &mut encoder,
        &[
            (false, true),
            (true, true),
            (true, false),
            (false, true),
            (false, false),
            (true, true),
        ],
    );
    assert_eq!(
        results,
        vec![
            (CCW, Edge::Rising),
            (CCW, Edge::NoEdge),
            (CCW, Edge::NoEdge),
            // both lines changed at once
            (STILL, Edge::Falling),
            // from B high to both low the cycle goes on, clockwise
            (CW, Edge::Rising),
            (STILL, Edge::Falling),
        ]
    );
}

#[test]
fn rotary_low_precision_counts_full_dents() {
    let mut encoder = RotaryEncoder::new(Mode::DentLowPrecision);
    let clockwise = [(true, false), (true, true), (false, true), (false, false)];
    let results = turn(&mut encoder, &clockwise);
    assert_eq!(
        results,
        vec![
            (STILL, Edge::NoEdge),
            (STILL, Edge::NoEdge),
            (STILL, Edge::NoEdge),
            (CW, Edge::Rising),
        ]
    );
    let results = turn(&mut encoder, &clockwise);
    assert_eq!(
        results,
        vec![
            (STILL, Edge::Falling),
            (STILL, Edge::NoEdge),
            (STILL, Edge::NoEdge),
            (CW, Edge::Rising),
        ]
    );
    // two steps back and two forth come to nothing
    let results = turn(
        &mut encoder,
        &[(false, true), (true, true), (false, true), (false, false)],
    );
    assert!(results.iter().all(|(direction, _)| *direction == STILL));
    let counter = [(false, true), (true, true), (true, false), (false, false)];
    let results = turn(&mut encoder, &counter);
    assert_eq!(results[3], (CCW, Edge::Rising));
    assert_eq!(results[0..3], [(STILL, Edge::NoEdge); 3]);
}

#[test]
fn rotary_default_result_is_idle() {
    assert_eq!(
        RotaryResult::default(),
        RotaryResult {
            scan_time_ticks: 0,
            direction: STILL,
            edge: Edge::NoEdge
        }
    );
}

#[test]
fn status_led_blinks_while_active() {
    let mut led = StatusLED::new(25);
    assert_eq!(led.get_u2f_activity_led_pin(), 25);
    assert!(led.set_remote_link(true));
    assert!(!led.set_remote_link(false));
    // too soon after tick 0
    assert_eq!(led.update_remote_activity(true, 4_999), None);
    let mut levels = Vec::new();
    for n in 1..=13u64 {
        levels.push(led.update_remote_activity(true, n * 5_000).unwrap());
    }
    // the counter runs 1..=13: lit (low) while it is below six in twelve
    assert_eq!(
        levels,
        vec![
            false, false, false, false, false, true, true, true, true, true, true, false, false
        ]
    );
    assert_eq!(led.update_remote_activity(true, 13 * 5_000 + 1), None);
}

#[test]
fn status_led_goes_dark_after_the_delay() {
    let mut led = StatusLED::new(0);
    assert_eq!(led.update_remote_activity(true, 10_000), Some(false));
    // no activity, but recent: the blinking goes on
    assert_eq!(led.update_remote_activity(false, 20_000), Some(false));
    assert_eq!(led.update_remote_activity(false, 309_999), Some(false));
    // the delay is over
    assert_eq!(led.update_remote_activity(false, 320_000), Some(true));
    assert_eq!(led.update_remote_activity(false, 400_000), Some(true));
    // a clock that went back is too soon
    assert_eq!(led.update_remote_activity(true, 1), None);
}

#[test]
fn lerp_ramps() {
    assert_eq!(lerp(0, 100, 4), vec![0, 25, 50, 75]);
    assert_eq!(lerp(100, 0, 4), vec![100, 75, 50, 25]);
    assert_eq!(lerp(10, 17, 3), vec![10, 12, 14]);
    assert_eq!(lerp(5, 5, 3), vec![5, 5, 5]);
    assert_eq!(lerp(0, 65_535, 1), vec![0]);
    assert_eq!(lerp(65_535, 0, 2), vec![65_535, 32_768]);
    assert_eq!(lerp(0, 3, 10), vec![0; 10]);
}

#[test]
fn heartbeat_swells_up_and_down() {
    assert_eq!(MAX_PWM_POWER, 0x6000);
    assert_eq!(STEP, 64);
    let duties = cycle();
    assert_eq!(duties.len(), 128);
    assert_eq!(duties[0], 0);
    assert_eq!(duties[1], 384);
    assert_eq!(duties[63], 63 * 384);
    assert_eq!(duties[64], 0x6000);
    assert_eq!(duties[65], 0x6000 - 384);
    assert_eq!(duties[127], 384);
}

#[test]
fn default_keyboard_layout() {
    assert_eq!(kb::keyboard::default::LAYER_COUNT, 2);
    assert_eq!(kb::keyboard::default::KEY_MATRIX_ROW_COUNT, 2);
    assert_eq!(kb::keyboard::default::KEY_MATRIX_COL_COUNT, 2);
    assert_eq!(kb::keyboard::default::RGB_MATRIX_LED_COUNT, 4);
    let map = kb::keyboard::default::layout::get_input_map();
    assert_eq!(
        map.key_matrix,
        [
            [
                [Action::Key(Key::A), Action::Key(Key::B)],
                [Action::Pass, Action::LayerModifier(kb::keyboard::default::layout::Layer::Function1)],
            ],
            [
                [Action::Key(Key::C), Action::Key(Key::D)],
                [Action::Control(Control::RGBAnimationNext), Action::Pass],
            ],
        ]
    );
    assert_eq!(map.rotary_encoder[0].clockwise, Action::Control(Control::RGBBrightnessUp));
    assert_eq!(
        map.rotary_encoder[0].counter_clockwise,
        Action::Control(Control::RGBBrightnessDown)
    );
    assert_eq!(map.rotary_encoder[0].no_direction, Action::Pass);
    assert_eq!(map.rotary_encoder[1].clockwise, Action::Control(Control::RGBSpeedUp));
    assert_eq!(kb::keyboard::default::layout::Layer::Base.index(), 0);
    assert_eq!(kb::keyboard::default::layout::Layer::Function1.index(), 1);
    assert_eq!(kb::keyboard::default::layout::Layer::default(), kb::keyboard::default::layout::Layer::Base);
    assert!(kb::keyboard::default::layout::Layer::Base < kb::keyboard::default::layout::Layer::Function1);
}

#[test]
fn kb_dev_keyboard_layout() {
    assert_eq!(kb_dev::LAYER_COUNT, 3);
    assert_eq!(kb_dev::KEY_MATRIX_ROW_COUNT, 5);
    assert_eq!(kb_dev::KEY_MATRIX_COL_COUNT, 15);
    assert_eq!(kb_dev::RGB_MATRIX_LED_COUNT, 67);
    let map = kb_dev::layout::get_input_map();
    assert_eq!(map.key_matrix[0][0][0], Action::Key(Key::Escape));
    assert_eq!(map.key_matrix[0][0][14], Action::Key(Key::DeleteForward));
    assert_eq!(map.key_matrix[0][2][12], Action::Pass);
    assert_eq!(map.key_matrix[0][4][10], Action::LayerModifier(kb_dev::layout::Layer::Function1));
    assert_eq!(map.key_matrix[0][4][14], Action::Key(Key::RightArrow));
    assert_eq!(map.key_matrix[1][0][0], Action::Key(Key::Grave));
    assert_eq!(map.key_matrix[1][0][12], Action::Key(Key::F12));
    assert_eq!(map.key_matrix[1][1][1], Action::Control(Control::RGBAnimationNext));
    assert_eq!(map.key_matrix[1][2][3], Action::Control(Control::RGBBrightnessDown));
    assert_eq!(map.key_matrix[1][4][11], Action::LayerModifier(kb_dev::layout::Layer::Function2));
    assert_eq!(map.key_matrix[2], [[Action::Pass; 15]; 5]);
    assert_eq!(map.rotary_encoder[0].clockwise, Action::Key(Key::VolumeUp));
    assert_eq!(map.rotary_encoder[0].counter_clockwise, Action::Key(Key::VolumeDown));
    assert_eq!(map.rotary_encoder[2].clockwise, Action::Control(Control::RGBSpeedUp));
    assert_eq!(kb_dev::layout::Layer::Function2.index(), 2);
    assert_eq!(kb_dev::layout::Layer::default(), kb_dev::layout::Layer::Base);
}

#[test]
fn quadax_rift_keyboard_layout() {
    assert_eq!(quadax_rift::NAME, "quadax-rift");
    assert_eq!(quadax_rift::LAYER_COUNT, 5);
    assert_eq!(quadax_rift::KEY_MATRIX_ROW_COUNT, 5);
    assert_eq!(quadax_rift::KEY_MATRIX_COL_COUNT, 14);
    let map = quadax_rift::layout::get_input_map();
    assert_eq!(map.key_matrix[0][0][0], Action::Key(Key::Escape));
    assert_eq!(map.key_matrix[0][3][6], Action::LayerModifier(quadax_rift::layout::Layer::Number));
    assert_eq!(
        map.key_matrix[0][3][12],
        Action::ModifiedKey(ModifiedKey::with_modifier(Modifier::LeftShift, Key::ForwardSlash))
    );
    assert_eq!(map.key_matrix[0][4][0], Action::LayerModifier(quadax_rift::layout::Layer::System));
    assert_eq!(map.key_matrix[0][4][4], Action::LayerModifier(quadax_rift::layout::Layer::Symbol));
    assert_eq!(map.key_matrix[0][4][9], Action::LayerModifier(quadax_rift::layout::Layer::Navigation));
    assert_eq!(
        map.key_matrix[1][0][1],
        Action::ModifiedKey(ModifiedKey::with_modifier(Modifier::LeftShift, Key::Keyboard1))
    );
    assert_eq!(map.key_matrix[1][2][12], Action::Key(Key::Equal));
    assert_eq!(map.key_matrix[2][1][8], Action::Key(Key::Keyboard0));
    assert_eq!(map.key_matrix[3][2][8], Action::Key(Key::LeftArrow));
    assert_eq!(map.key_matrix[4][3][1], Action::Control(Control::U2FBootloaderJump));
    assert_eq!(map.key_matrix[4][1][8], Action::Key(Key::F10));
    assert_eq!(map.rotary_encoder[0].clockwise, Action::Key(Key::VolumeUp));
    assert_eq!(map.rotary_encoder[3].counter_clockwise, Action::Control(Control::RGBSpeedDown));
    assert_eq!(map.rotary_encoder[4].clockwise, Action::Pass);
    let layers = [
        quadax_rift::layout::Layer::Base,
        quadax_rift::layout::Layer::Symbol,
        quadax_rift::layout::Layer::Number,
        quadax_rift::layout::Layer::Navigation,
        quadax_rift::layout::Layer::System,
    ];
    for (index, layer) in layers.iter().enumerate() {
        assert_eq!(layer.index(), index);
    }
}

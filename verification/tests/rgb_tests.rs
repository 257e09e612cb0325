use kb::key::{Action, Control, Edge, Key};
use kb::keyboard::kb_dev::layout::Layer;
use kb::processor::Event;
use kb::rgb::{
    breathe, wheel, Animation, AnimationState, Color, RGBMatrix, RGBProcessor, ANIMATION_COUNT,
    BRIGHTNESS_DEFAULT, FRAME_TIME_DEFAULT_MICROS, FRAME_TIME_MAX_MICROS, FRAME_TIME_MIN_MICROS,
    LED_MAX_BRIGHTNESS,
};

fn rgb(r: u8, g: u8, b: u8) -> Color {
    Color { r, g, b }
}

fn control(edge: Edge, control: Control) -> Event<Layer> {
    Event {
        time_ticks: 0,
        i: 0,
        j: 0,
        edge,
        action: Action::Control(control),
    }
}

fn press(c: Control) -> Vec<Event<Layer>> {
    vec![control(Edge::Rising, c)]
}

#[test]
fn wheel_colors() {
    assert_eq!(wheel(0), rgb(0, 255, 0));
    assert_eq!(wheel(1), rgb(0, 252, 3));
    assert_eq!(wheel(84), rgb(0, 3, 252));
    assert_eq!(wheel(85), rgb(0, 0, 255));
    assert_eq!(wheel(86), rgb(3, 0, 252));
    assert_eq!(wheel(169), rgb(252, 0, 3));
    assert_eq!(wheel(170), rgb(255, 0, 0));
    assert_eq!(wheel(171), rgb(252, 3, 0));
    assert_eq!(wheel(255), rgb(0, 255, 0));
}

#[test]
fn breathe_colors() {
    assert_eq!(breathe(0), rgb(0, 0, 0));
    assert_eq!(breathe(1), rgb(2, 2, 2));
    assert_eq!(breathe(127), rgb(254, 254, 254));
    assert_eq!(breathe(128), rgb(254, 254, 254));
    assert_eq!(breathe(200), rgb(110, 110, 110));
    assert_eq!(breathe(255), rgb(0, 0, 0));
}

#[test]
fn animation_clock_wraps() {
    let mut state = AnimationState { t: u64::MAX, n: 255 };
    state.step();
    assert_eq!(state, AnimationState { t: 0, n: 0 });
    state.step();
    assert_eq!(state, AnimationState { t: 1, n: 1 });
    assert_eq!(AnimationState::default(), AnimationState { t: 0, n: 0 });
}

#[test]
fn wheel_frame_spreads_the_wheel_over_the_strip() {
    let mut animation = Animation::Wheel(AnimationState { t: 0, n: 0 });
    let frame = animation.next::<4>();
    assert_eq!(animation, Animation::Wheel(AnimationState { t: 1, n: 1 }));
    assert_eq!(frame, vec![wheel(1), wheel(64), wheel(128), wheel(192)]);
    let mut animation = Animation::Wheel(AnimationState { t: 9, n: 250 });
    let frame = animation.next::<3>();
    assert_eq!(frame, vec![wheel(251), wheel(80), wheel(165)]);
}

#[test]
fn breathe_frame_spreads_half_a_breath_over_the_strip() {
    let mut animation = Animation::Breathe(AnimationState { t: 0, n: 9 });
    let frame = animation.next::<4>();
    assert_eq!(frame, vec![breathe(10), breathe(42), breathe(74), breathe(106)]);
}

#[test]
fn scan_frame_lights_one_led() {
    let mut animation = Animation::Scan(AnimationState { t: 0, n: 0 });
    let white = rgb(255, 255, 255);
    let black = rgb(0, 0, 0);
    assert_eq!(animation.next::<3>(), vec![black, white, black]);
    assert_eq!(animation.next::<3>(), vec![black, black, white]);
    assert_eq!(animation.next::<3>(), vec![white, black, black]);
    let mut wrapping = Animation::Scan(AnimationState { t: u64::MAX, n: 0 });
    assert_eq!(wrapping.next::<3>(), vec![white, black, black]);
}

#[test]
fn no_animation_is_dark_and_empty_strips_have_empty_frames() {
    let mut animation = Animation::NoAnimation;
    assert_eq!(animation.next::<2>(), vec![rgb(0, 0, 0); 2]);
    assert_eq!(animation, Animation::NoAnimation);
    let mut scan = Animation::Scan(AnimationState { t: 0, n: 0 });
    assert_eq!(scan.next::<0>(), vec![]);
    let mut wheel = Animation::Wheel(AnimationState { t: 0, n: 0 });
    assert_eq!(wheel.next::<0>(), vec![]);
}

#[test]
fn renderer_holds_the_brightness_down() {
    assert_eq!(LED_MAX_BRIGHTNESS, 28);
    let matrix = RGBMatrix::<3>::new();
    let frame = vec![rgb(255, 128, 0), rgb(1, 8, 9), rgb(100, 200, 250)];
    // every channel times 29, in 256ths
    assert_eq!(
        matrix.render(&frame),
        vec![rgb(28, 14, 0), rgb(0, 0, 1), rgb(11, 22, 28)]
    );
}

#[test]
fn new_processor_has_the_defaults() {
    let processor = RGBProcessor::<4>::new();
    assert_eq!(processor.animation_index(), 0);
    assert_eq!(processor.frame_time_micros(), 20_000);
    assert_eq!(processor.frame_time_micros(), FRAME_TIME_DEFAULT_MICROS);
    assert_eq!(processor.brightness(), 255);
    assert_eq!(BRIGHTNESS_DEFAULT, 255);
    assert_eq!(ANIMATION_COUNT, 4);
}

#[test]
fn animation_next_cycles_through_four_animations() {
    let mut processor = RGBProcessor::<4>::new();
    let mut indices = vec![processor.animation_index()];
    for _ in 0..4 {
        processor.process(&press(Control::RGBAnimationNext), 0);
        indices.push(processor.animation_index());
    }
    assert_eq!(indices, vec![0, 1, 2, 3, 0]);
    for _ in 0..4 {
        processor.process(&press(Control::RGBAnimationPrevious), 0);
        indices.push(processor.animation_index());
    }
    assert_eq!(indices, vec![0, 1, 2, 3, 0, 3, 2, 1, 0]);
}

#[test]
fn three_next_events_in_one_poll() {
    let mut processor = RGBProcessor::<4>::new();
    let events = vec![
        control(Edge::Rising, Control::RGBAnimationNext),
        control(Edge::Rising, Control::RGBAnimationNext),
        control(Edge::Rising, Control::RGBAnimationNext),
    ];
    let frame = processor.process(&events, 20_000);
    assert_eq!(processor.animation_index(), 3);
    // the fourth animation is dark
    assert_eq!(frame, Some(vec![rgb(0, 0, 0); 4]));
}

#[test]
fn only_rising_commands_count() {
    let mut processor = RGBProcessor::<4>::new();
    let events = vec![
        control(Edge::NoEdge, Control::RGBAnimationNext),
        control(Edge::Falling, Control::RGBAnimationNext),
        control(Edge::Rising, Control::RGBDirectionToggle),
        control(Edge::Rising, Control::U2FBootloaderJump),
        Event {
            time_ticks: 0,
            i: 0,
            j: 0,
            edge: Edge::Rising,
            action: Action::Key(Key::A),
        },
    ];
    let before = events.clone();
    processor.process(&events, 0);
    assert_eq!(processor.animation_index(), 0);
    assert_eq!(processor.frame_time_micros(), 20_000);
    assert_eq!(processor.brightness(), 255);
    assert_eq!(events, before);
}

#[test]
fn speed_stays_within_its_bounds() {
    let mut processor = RGBProcessor::<1>::new();
    let mut times = Vec::new();
    for _ in 0..6 {
        processor.process(&press(Control::RGBSpeedUp), 0);
        times.push(processor.frame_time_micros());
    }
    assert_eq!(times, vec![10_000, 5_000, 2_500, 1_250, 1_000, 1_000]);
    assert_eq!(FRAME_TIME_MIN_MICROS, 1_000);
    let mut times = Vec::new();
    for _ in 0..11 {
        processor.process(&press(Control::RGBSpeedDown), 0);
        times.push(processor.frame_time_micros());
    }
    assert_eq!(
        times,
        vec![
            2_000, 4_000, 8_000, 16_000, 32_000, 64_000, 128_000, 256_000, 512_000, 1_000_000,
            1_000_000
        ]
    );
    assert_eq!(FRAME_TIME_MAX_MICROS, 1_000_000);
}

#[test]
fn brightness_saturates() {
    let mut processor = RGBProcessor::<1>::new();
    processor.process(&press(Control::RGBBrightnessUp), 0);
    assert_eq!(processor.brightness(), 255);
    processor.process(&press(Control::RGBBrightnessDown), 0);
    assert_eq!(processor.brightness(), 239);
    for _ in 0..14 {
        processor.process(&press(Control::RGBBrightnessDown), 0);
    }
    assert_eq!(processor.brightness(), 15);
    processor.process(&press(Control::RGBBrightnessDown), 0);
    assert_eq!(processor.brightness(), 0);
    processor.process(&press(Control::RGBBrightnessDown), 0);
    assert_eq!(processor.brightness(), 0);
    processor.process(&press(Control::RGBBrightnessUp), 0);
    assert_eq!(processor.brightness(), 16);
}

#[test]
fn frames_come_at_the_frame_time() {
    let mut processor = RGBProcessor::<4>::new();
    let none: Vec<Event<Layer>> = vec![];
    assert_eq!(processor.process(&none, 0), None);
    assert_eq!(processor.process(&none, 19_999), None);
    let first = processor.process(&none, 20_000);
    assert_eq!(first, Some(vec![wheel(1), wheel(64), wheel(128), wheel(192)]));
    assert_eq!(processor.process(&none, 20_001), None);
    assert_eq!(processor.process(&none, 39_999), None);
    // a clock that went back renders nothing
    assert_eq!(processor.process(&none, 5), None);
    let second = processor.process(&none, 45_000);
    assert_eq!(second, Some(vec![wheel(2), wheel(65), wheel(129), wheel(193)]));
    assert_eq!(processor.process(&none, 64_999), None);
    assert!(processor.process(&none, 65_000).is_some());
}

#[test]
fn frames_are_scaled_by_the_brightness() {
    let mut processor = RGBProcessor::<2>::new();
    let events = vec![
        control(Edge::Rising, Control::RGBAnimationNext),
        control(Edge::Rising, Control::RGBAnimationNext),
        control(Edge::Rising, Control::RGBBrightnessDown),
    ];
    let frame = processor.process(&events, 20_000).unwrap();
    assert_eq!(processor.brightness(), 239);
    // scan: the second LED is white, times 240 in 256ths
    assert_eq!(frame, vec![rgb(0, 0, 0), rgb(239, 239, 239)]);
}

#[test]
fn each_animation_keeps_its_own_clock() {
    let mut processor = RGBProcessor::<3>::new();
    let none: Vec<Event<Layer>> = vec![];
    let white = rgb(255, 255, 255);
    let black = rgb(0, 0, 0);
    assert!(processor.process(&none, 20_000).is_some());
    let to_scan = vec![
        control(Edge::Rising, Control::RGBAnimationNext),
        control(Edge::Rising, Control::RGBAnimationNext),
    ];
    assert_eq!(
        processor.process(&to_scan, 40_000),
        Some(vec![black, white, black])
    );
    assert_eq!(
        processor.process(&none, 60_000),
        Some(vec![black, black, white])
    );
    let to_wheel = vec![
        control(Edge::Rising, Control::RGBAnimationPrevious),
        control(Edge::Rising, Control::RGBAnimationPrevious),
    ];
    assert_eq!(
        processor.process(&to_wheel, 80_000),
        Some(vec![wheel(2), wheel(87), wheel(172)])
    );
}

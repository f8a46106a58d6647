use gifstream::channel::{Channel, SlotValue};
use gifstream::frame::FrameResult;
use gifstream::producer::{frame_delay_units, target_period_ms, tick_sleep_ms, ProducerState, FPS};
use gifstream::render::{Pattern, Renderer, TimeDisplay};

#[test]
fn solid_pattern_paints_every_pixel() {
    let r = Renderer::new(
        2,
        2,
        Pattern::Solid {
            red: 1,
            green: 2,
            blue: 3,
        },
    )
    .unwrap();
    let f = r.render(17, 4);
    assert_eq!(f.width, 2);
    assert_eq!(f.height, 2);
    assert_eq!(f.delay, 4);
    assert_eq!(
        f.rgba,
        vec![1, 2, 3, 255, 1, 2, 3, 255, 1, 2, 3, 255, 1, 2, 3, 255]
    );
}

#[test]
fn pulse_pattern_cycles_with_the_frame_index() {
    let r = Renderer::new(1, 1, Pattern::Pulse).unwrap();
    assert_eq!(r.render(0, 4).rgba, vec![0, 0, 0, 255]);
    assert_eq!(r.render(1, 4).rgba, vec![2, 2, 2, 255]);
    assert_eq!(r.render(127, 4).rgba, vec![254, 254, 254, 255]);
    // the gray level wraps every 128 frames
    assert_eq!(r.render(128, 4).rgba, vec![0, 0, 0, 255]);
}

#[test]
fn renderer_is_deterministic_in_the_frame_index() {
    let r = Renderer::new(3, 2, Pattern::Pulse).unwrap();
    assert_eq!(r.render(42, 4).rgba, r.render(42, 4).rgba);
}

#[test]
fn time_display_has_fixed_dimensions() {
    assert_eq!(TimeDisplay::WIDTH, 300);
    assert_eq!(TimeDisplay::HEIGHT, 100);
}

#[test]
fn target_period_comes_from_the_frame_rate() {
    assert_eq!(FPS, 25);
    assert_eq!(target_period_ms(25), 40);
    assert_eq!(target_period_ms(30), 33);
    assert_eq!(target_period_ms(1), 1000);
}

#[test]
fn frame_delay_is_in_ten_millisecond_units() {
    assert_eq!(frame_delay_units(25), 4);
    assert_eq!(frame_delay_units(50), 2);
    assert_eq!(frame_delay_units(1), 100);
}

#[test]
fn overrunning_ticks_sleep_zero_and_never_burst() {
    assert_eq!(tick_sleep_ms(40, 10), 30);
    assert_eq!(tick_sleep_ms(40, 40), 0);
    assert_eq!(tick_sleep_ms(40, 1000), 0);
    assert_eq!(tick_sleep_ms(40, 0), 40);
}

#[test]
fn producer_index_wraps_instead_of_halting() {
    let mut st = ProducerState {
        next_index: u64::MAX,
    };
    st.advance();
    assert_eq!(st.next_index, 0);
    st.advance();
    assert_eq!(st.next_index, 1);
}

#[test]
fn produce_tick_publishes_the_rendered_frame() {
    let mut ch = Channel::new();
    let mut st = ProducerState::new();
    let r = Renderer::new(
        2,
        1,
        Pattern::Solid {
            red: 9,
            green: 8,
            blue: 7,
        },
    )
    .unwrap();
    gifstream::producer::produce_tick(&mut ch, &mut st, &r, 4);
    assert_eq!(ch.generation(), 1);
    assert_eq!(st.next_index, 1);
    match &ch.slot {
        SlotValue::Published(FrameResult::Frame(f)) => {
            assert_eq!(f.rgba, vec![9, 8, 7, 255, 9, 8, 7, 255]);
        }
        _ => panic!("the tick should publish a frame"),
    }
}

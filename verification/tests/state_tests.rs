use std::collections::VecDeque;
use govee_ctl::fn_queue::{call_all, enqueue, run_callback, Callback};
use govee_ctl::govee::SetState;
use govee_ctl::state::{daylamp, nightlamp, reminder, sunrise};

#[test]
fn nightlamp_states() {
    let mut queue: VecDeque<SetState> = VecDeque::new();
    nightlamp(&mut queue);
    assert_eq!(queue.len(), 2);
    assert_eq!(queue[0], SetState::Brightness(1));
    assert_eq!(queue[1], SetState::Color(255, 181, 128));
}

#[test]
fn daylamp_states() {
    let mut queue: VecDeque<SetState> = VecDeque::new();
    daylamp(&mut queue);
    assert_eq!(queue.len(), 2);
    assert_eq!(queue[0], SetState::Brightness(15));
    assert_eq!(queue[1], SetState::Color(255, 160, 70));
}

#[test]
fn reminder_states() {
    let mut queue: VecDeque<SetState> = VecDeque::new();
    reminder(&mut queue);
    assert_eq!(queue.len(), 4);
    assert_eq!(queue[0], SetState::Color(255, 100, 0));
    assert_eq!(queue[1], SetState::Brightness(100));
    assert_eq!(queue[2], SetState::Power(true));
    assert_eq!(queue[3], SetState::Power(false));
}

#[test]
fn sunrise_produces_pairs_with_exact_endpoints() {
    let mut queue: VecDeque<SetState> = VecDeque::new();
    sunrise(&mut queue, 20);
    // 20 min = 1200000 ms; 1200000 / 6500 / 2 = 92 steps, two states each
    assert_eq!(queue.len(), 184);
    assert_eq!(queue[0], SetState::Brightness(1));
    assert_eq!(queue[1], SetState::Color(255, 136, 51));
    assert_eq!(queue[182], SetState::Brightness(100));
    assert_eq!(queue[183], SetState::Color(255, 173, 114));
}

#[test]
fn sunrise_brightness_rises_saturation_falls() {
    let mut queue: VecDeque<SetState> = VecDeque::new();
    sunrise(&mut queue, 45);
    assert!(queue.len() >= 4);
    let mut previous_brightness: u8 = 0;
    let mut previous_green: u8 = 0;
    let mut previous_blue: u8 = 0;
    let mut i: usize = 0;
    while i + 1 < queue.len() {
        match (queue[i], queue[i + 1]) {
            (SetState::Brightness(b), SetState::Color(r, g, bl)) => {
                assert_eq!(r, 255);
                assert!(b >= previous_brightness);
                // at this hue, falling saturation raises green and blue
                assert!(g >= previous_green);
                assert!(bl >= previous_blue);
                previous_brightness = b;
                previous_green = g;
                previous_blue = bl;
            }
            _ => panic!("sunrise states must come as brightness/color pairs"),
        }
        i += 2;
    }
}

#[test]
fn sunrise_too_short_for_a_ramp_produces_nothing() {
    let mut queue: VecDeque<SetState> = VecDeque::new();
    sunrise(&mut queue, 0);
    assert_eq!(queue.len(), 0);
}

#[test]
fn run_callback_append_pushes_one_state() {
    let mut queue: VecDeque<SetState> = VecDeque::new();
    queue.push_back(SetState::Power(true));
    run_callback(&Callback::Append { state: SetState::Brightness(42) }, &mut queue);
    assert_eq!(queue.len(), 2);
    assert_eq!(queue[1], SetState::Brightness(42));
}

#[test]
fn run_callback_clear_then_off_replaces_queue() {
    let mut queue: VecDeque<SetState> = VecDeque::new();
    queue.push_back(SetState::Power(true));
    queue.push_back(SetState::Brightness(3));
    run_callback(&Callback::ClearThenOff, &mut queue);
    assert_eq!(queue.len(), 2);
    assert_eq!(queue[0], SetState::Brightness(15));
    assert_eq!(queue[1], SetState::Power(false));
}

#[test]
fn call_all_drains_in_order() {
    let mut function_queue: VecDeque<Callback> = VecDeque::new();
    let mut queue: VecDeque<SetState> = VecDeque::new();
    enqueue(&mut function_queue, Callback::Append { state: SetState::Power(true) });
    enqueue(&mut function_queue, Callback::Nightlamp);
    enqueue(&mut function_queue, Callback::TurnOff);
    call_all(&mut function_queue, &mut queue);
    assert_eq!(function_queue.len(), 0);
    assert_eq!(queue.len(), 5);
    assert_eq!(queue[0], SetState::Power(true));
    assert_eq!(queue[1], SetState::Brightness(1));
    assert_eq!(queue[2], SetState::Color(255, 181, 128));
    assert_eq!(queue[3], SetState::Brightness(15));
    assert_eq!(queue[4], SetState::Power(false));
}

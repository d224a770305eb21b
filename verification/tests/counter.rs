use click_counter::channel::Channel;
use click_counter::channel::ChannelFull;
use click_counter::msg::Msg;
use click_counter::reducer::on_click;
use click_counter::reducer::State;
use click_counter::render::decimal_string;
use click_counter::render::render_count;

#[test]
fn totals_for_mixed_sequence() {
    let mut ch = Channel::new(4);
    assert!(on_click(&mut ch, Msg::Increment));
    assert!(on_click(&mut ch, Msg::Increment));
    assert!(on_click(&mut ch, Msg::Decrement));
    assert!(on_click(&mut ch, Msg::Increment));
    let mut state = State::new();
    let renders = state.drain(&mut ch);
    assert_eq!(state.count, 2);
    assert_eq!(renders.len(), 4);
    assert_eq!(ch.len(), 0);
}

#[test]
fn no_messages_no_renders() {
    let mut ch = Channel::new(4);
    let mut state = State::new();
    let renders = state.drain(&mut ch);
    assert_eq!(state.count, 0);
    assert!(renders.is_empty());
}

#[test]
fn increment_then_decrement_round_trip() {
    let mut state = State::new();
    for _ in 0..5 {
        state.update(Msg::Increment);
    }
    assert_eq!(state.count, 5);
    state.update(Msg::Increment);
    state.update(Msg::Decrement);
    assert_eq!(state.count, 5);
}

#[test]
fn five_sends_overflow_capacity_four() {
    let mut ch = Channel::new(4);
    let mut failures: u32 = 0;
    for _ in 0..5 {
        if ch.try_send(Msg::Increment).is_err() {
            failures += 1;
        }
    }
    assert!(failures >= 1);
    assert_eq!(failures, 1);
    assert_eq!(ch.len(), 4);
}

#[test]
fn fifth_send_reports_channel_full() {
    let mut ch = Channel::new(4);
    for _ in 0..4 {
        assert_eq!(ch.try_send(Msg::Increment), Ok(()));
    }
    assert_eq!(ch.try_send(Msg::Decrement), Err(ChannelFull));
    assert_eq!(ch.len(), 4);
}

#[test]
fn drop_on_full_keeps_queue_unchanged() {
    let mut ch = Channel::new(2);
    assert!(on_click(&mut ch, Msg::Increment));
    assert!(on_click(&mut ch, Msg::Increment));
    assert!(!on_click(&mut ch, Msg::Decrement));
    let mut state = State::new();
    let renders = state.drain(&mut ch);
    assert_eq!(state.count, 2);
    assert_eq!(renders.len(), 2);
}

#[test]
fn messages_come_out_in_fifo_order() {
    let mut ch = Channel::new(4);
    ch.try_send(Msg::Increment).unwrap();
    ch.try_send(Msg::Decrement).unwrap();
    assert_eq!(ch.try_recv(), Some(Msg::Increment));
    assert_eq!(ch.try_recv(), Some(Msg::Decrement));
    assert_eq!(ch.try_recv(), None);
}

#[test]
fn three_increments_display() {
    let mut ch = Channel::new(4);
    on_click(&mut ch, Msg::Increment);
    on_click(&mut ch, Msg::Increment);
    on_click(&mut ch, Msg::Increment);
    let mut state = State::new();
    let renders = state.drain(&mut ch);
    assert_eq!(renders.last().unwrap(), "count is 3");
}

#[test]
fn one_decrement_display() {
    let mut ch = Channel::new(4);
    on_click(&mut ch, Msg::Decrement);
    let mut state = State::new();
    let renders = state.drain(&mut ch);
    assert_eq!(renders, vec!["count is -1".to_string()]);
}

#[test]
fn interleaved_display_sequence() {
    let mut ch = Channel::new(4);
    on_click(&mut ch, Msg::Increment);
    on_click(&mut ch, Msg::Decrement);
    on_click(&mut ch, Msg::Increment);
    let mut state = State::new();
    let renders = state.drain(&mut ch);
    let expected = vec![
        "count is 1".to_string(),
        "count is 0".to_string(),
        "count is 1".to_string(),
    ];
    assert_eq!(renders, expected);
    assert_eq!(state.count, 1);
}

#[test]
fn step_renders_the_new_value() {
    let mut state = State::new();
    let text = state.step(Msg::Increment);
    assert_eq!(text, "count is 1");
    let text = state.step(Msg::Decrement);
    assert_eq!(text, "count is 0");
}

#[test]
fn render_shows_current_count() {
    let state = State::new();
    assert_eq!(state.render(), "count is 0");
    assert_eq!(render_count(42), "count is 42");
    assert_eq!(render_count(-27), "count is -27");
}

#[test]
fn decimal_rendering_exact_values() {
    assert_eq!(decimal_string(0), "0");
    assert_eq!(decimal_string(7), "7");
    assert_eq!(decimal_string(10), "10");
    assert_eq!(decimal_string(1234), "1234");
    assert_eq!(decimal_string(-1), "-1");
    assert_eq!(decimal_string(-908), "-908");
    assert_eq!(decimal_string(i32::MAX), "2147483647");
    assert_eq!(decimal_string(i32::MIN), "-2147483648");
}

#[test]
fn counter_saturates_only_at_machine_bounds() {
    let mut state = State::new();
    state.count = i32::MAX - 1;
    state.update(Msg::Increment);
    assert_eq!(state.count, i32::MAX);
    state.update(Msg::Decrement);
    assert_eq!(state.count, i32::MAX - 1);
}

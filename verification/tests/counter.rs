use label_state::counter::{Click, Window};
use label_state::decimal::i32_to_decimal;

#[test]
fn new_counter_reads_zero() {
    let window = Window::new();
    assert_eq!(window.counter(), 0);
    assert_eq!(window.label_counter(), "0");
}

#[test]
fn three_up_then_one_down() {
    let mut window = Window::new();
    window.on_increase();
    window.on_increase();
    window.on_increase();
    assert_eq!(window.label_counter(), "3");
    window.on_decrease();
    assert_eq!(window.label_counter(), "2");
    assert_eq!(window.counter(), 2);
}

#[test]
fn decrease_below_zero_shows_minus() {
    let mut window = Window::new();
    window.on_decrease();
    assert_eq!(window.counter(), -1);
    assert_eq!(window.label_counter(), "-1");
    window.on_decrease();
    assert_eq!(window.label_counter(), "-2");
}

#[test]
fn increase_then_decrease_restores_label() {
    let mut window = Window::new();
    window.on_clicks(&[Click::Increase; 41]);
    let before = window.label_counter().to_string();
    window.on_increase();
    assert_ne!(window.label_counter(), before);
    window.on_decrease();
    assert_eq!(window.label_counter(), before);
    window.on_decrease();
    window.on_increase();
    assert_eq!(window.label_counter(), before);
    assert_eq!(before, "41");
}

#[test]
fn on_click_dispatches_by_button() {
    let mut window = Window::new();
    window.on_click(Click::Increase);
    assert_eq!(window.counter(), 1);
    window.on_click(Click::Decrease);
    window.on_click(Click::Decrease);
    assert_eq!(window.counter(), -1);
    assert_eq!(window.label_counter(), "-1");
}

#[test]
fn label_reads_net_clicks() {
    let mut clicks: Vec<Click> = Vec::new();
    let mut net: i32 = 0;
    let mut seed: u32 = 12345;
    for _ in 0..1000 {
        seed = seed.wrapping_mul(1103515245).wrapping_add(12345);
        if (seed >> 16) % 3 == 0 {
            clicks.push(Click::Decrease);
            net -= 1;
        } else {
            clicks.push(Click::Increase);
            net += 1;
        }
    }
    let mut window = Window::new();
    window.on_clicks(&clicks);
    assert_eq!(window.counter(), net);
    assert_eq!(window.label_counter(), net.to_string());
}

#[test]
fn no_clicks_change_nothing() {
    let mut window = Window::new();
    window.on_increase();
    window.on_clicks(&[]);
    assert_eq!(window.counter(), 1);
    assert_eq!(window.label_counter(), "1");
}

#[test]
fn clicks_apply_in_order_one_by_one() {
    let clicks = [Click::Increase, Click::Increase, Click::Decrease, Click::Increase];
    let mut all_at_once = Window::new();
    all_at_once.on_clicks(&clicks);
    let mut one_by_one = Window::new();
    for click in clicks {
        one_by_one.on_click(click);
    }
    assert_eq!(all_at_once.counter(), 2);
    assert_eq!(one_by_one.counter(), 2);
    assert_eq!(all_at_once.label_counter(), one_by_one.label_counter());
}

#[test]
fn click_values_compare() {
    assert_eq!(Click::Increase, Click::Increase);
    assert_ne!(Click::Increase, Click::Decrease);
}

#[test]
fn decimal_of_small_values() {
    assert_eq!(i32_to_decimal(0), "0");
    assert_eq!(i32_to_decimal(7), "7");
    assert_eq!(i32_to_decimal(10), "10");
    assert_eq!(i32_to_decimal(-10), "-10");
    assert_eq!(i32_to_decimal(1005), "1005");
    assert_eq!(i32_to_decimal(-907), "-907");
}

#[test]
fn decimal_of_the_ends_of_i32() {
    assert_eq!(i32_to_decimal(i32::MAX), "2147483647");
    assert_eq!(i32_to_decimal(i32::MIN), "-2147483648");
    assert_eq!(i32_to_decimal(i32::MIN + 1), "-2147483647");
}

#[test]
fn decimal_agrees_with_std_formatting() {
    let mut v: i32 = 1;
    for _ in 0..4000 {
        assert_eq!(i32_to_decimal(v), v.to_string());
        assert_eq!(i32_to_decimal(v.wrapping_neg()), v.wrapping_neg().to_string());
        v = v.wrapping_mul(48271).wrapping_add(11);
    }
    let mut p: i32 = 1;
    for _ in 0..10 {
        assert_eq!(i32_to_decimal(p), p.to_string());
        assert_eq!(i32_to_decimal(p - 1), (p - 1).to_string());
        assert_eq!(i32_to_decimal(-p), (-p).to_string());
        p = p.saturating_mul(10);
    }
}

#[test]
fn default_window_reads_zero() {
    let window = Window::default();
    assert_eq!(window.counter(), 0);
    assert_eq!(window.label_counter(), "0");
}

#[test]
fn window_with_counter_shows_it() {
    let window = Window::with_counter(-350);
    assert_eq!(window.counter(), -350);
    assert_eq!(window.label_counter(), "-350");
}

#[test]
fn counter_wraps_at_the_ends_of_i32() {
    let mut window = Window::with_counter(i32::MAX);
    window.on_increase();
    assert_eq!(window.counter(), i32::MIN);
    assert_eq!(window.label_counter(), "-2147483648");
    window.on_decrease();
    assert_eq!(window.counter(), i32::MAX);
    assert_eq!(window.label_counter(), "2147483647");
}
